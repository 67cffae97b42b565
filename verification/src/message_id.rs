//! Ids of the messages that are made here.
use vstd::prelude::*;

use crate::text::{join, lemma_same_tail};

verus! {

/// A lower-case hexadecimal digit.
pub open spec fn is_hex_digit(digit: char) -> bool {
    '0' <= digit <= '9' || 'a' <= digit <= 'f'
}

/// The digits of a random UUID without hyphens: thirty-two lower-case hexadecimal digits, with
/// the version and the variant at their places.
pub open spec fn is_random_uuid(digits: Seq<char>) -> bool {
    &&& digits.len() == 32
    &&& forall|i: int| 0 <= i < digits.len() ==> is_hex_digit(#[trigger] digits[i])
    &&& digits[12] == '4'
    &&& (digits[16] == '8' || digits[16] == '9' || digits[16] == 'a' || digits[16] == 'b')
}

/// The message id with the given digits.
pub open spec fn message_id_of(digits: Seq<char>) -> Seq<char> {
    "msg_"@ + digits
}

/// An id as messages get it: `msg_` and the digits of a random UUID.
pub open spec fn is_message_id(id: Seq<char>) -> bool {
    exists|digits: Seq<char>| is_random_uuid(digits) && id == #[trigger] message_id_of(digits)
}

/// Calls `uuid::Uuid::new_v4` and writes the UUID without hyphens. Which UUID comes is left to
/// chance; it is of version 4, so the digits at two places are bound. It panics only where the
/// system has no random numbers to give.
#[verifier::external_body]
fn random_digits() -> (digits: String)
    ensures
        is_random_uuid(digits@),
{
    uuid::Uuid::new_v4().simple().to_string()
}

/// The message id with the given digits.
pub fn message_id_from(digits: &str) -> (id: String)
    ensures
        id@ == message_id_of(digits@),
        id@ == "msg_"@ + digits@,
{
    join("msg_", digits)
}

/// A new message id.
pub fn new_message_id() -> (id: String)
    ensures
        is_message_id(id@),
        id@.len() == 36,
        id@.take(4) == "msg_"@,
        forall|i: int|
            4 <= i < 36 ==> '0' <= #[trigger] id@[i] <= '9' || 'a' <= id@[i] <= 'f',
        id@[16] == '4',
        id@[20] == '8' || id@[20] == '9' || id@[20] == 'a' || id@[20] == 'b',
{
    let digits = random_digits();
    let id = message_id_from(digits.as_str());
    proof {
        law_message_ids_have_one_shape(id@);
    }
    id
}

/// There are message ids.
pub(crate) proof fn lemma_some_message_id() -> (id: Seq<char>)
    ensures
        is_message_id(id),
{
    let digits = Seq::new(
        32,
        |i: int|
            if i == 12 {
                '4'
            } else {
                '8'
            },
    );
    assert(is_random_uuid(digits));
    message_id_of(digits)
}

/// Message ids have one shape: `msg_`, then thirty-two lower-case hexadecimal digits, of which
/// the thirteenth is the version and the seventeenth shows the variant of the UUID.
pub proof fn law_message_ids_have_one_shape(id: Seq<char>)
    requires
        is_message_id(id),
    ensures
        id.len() == 36,
        id.take(4) == "msg_"@,
        forall|i: int| 4 <= i < 36 ==> '0' <= #[trigger] id[i] <= '9' || 'a' <= id[i] <= 'f',
        id[16] == '4',
        id[20] == '8' || id[20] == '9' || id[20] == 'a' || id[20] == 'b',
{
    reveal_strlit("msg_");
    let digits = choose|digits: Seq<char>|
        is_random_uuid(digits) && id == #[trigger] message_id_of(digits);
    assert(id.take(4) =~= "msg_"@);
    assert forall|i: int| 4 <= i < 36 implies '0' <= #[trigger] id[i] <= '9' || 'a' <= id[i]
        <= 'f' by {
        assert(is_hex_digit(digits[i - 4]));
    }
}

/// Different digits make different ids.
pub proof fn law_message_ids_tell_digits_apart(a: Seq<char>, b: Seq<char>)
    ensures
        message_id_of(a) == message_id_of(b) <==> a == b,
{
    lemma_same_tail("msg_"@, a, b);
}

} // verus!

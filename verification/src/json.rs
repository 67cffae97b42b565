//! JSON values: the calls into `serde_json` and what they are known to do.
use vstd::prelude::*;

verus! {

/// A JSON value of `serde_json`.
#[verifier::external_type_specification]
#[verifier::external_body]
pub struct ExValue(serde_json::Value);

/// Why `serde_json` could not read a text.
#[verifier::external_type_specification]
#[verifier::external_body]
pub struct ExError(serde_json::Error);

/// The members of a JSON object, by key.
#[verifier::external_type_specification]
#[verifier::external_body]
#[verifier::reject_recursive_types(K)]
#[verifier::reject_recursive_types(V)]
pub struct ExMembers<K, V>(serde_json::Map<K, V>);

/// One member of a JSON object: a string by its characters, any other value by its compact JSON
/// text.
pub enum Member {
    Text(Seq<char>),
    Other(Seq<u8>),
}

/// The value that `serde_json::from_slice` reads from a text, or `None` where the text is not one
/// JSON value that it accepts.
pub uninterp spec fn parsed_json(text: Seq<u8>) -> Option<serde_json::Value>;

/// The unsigned integers that a JSON value holds, each under the JSON pointer that leads to it.
pub uninterp spec fn json_integers(value: serde_json::Value) -> Map<Seq<char>, u64>;

/// The members that a JSON object holds.
pub uninterp spec fn json_members(
    members: serde_json::Map<String, serde_json::Value>,
) -> Map<Seq<char>, Member>;

/// The unsigned integer at a JSON pointer of a value.
pub open spec fn integer_at(value: serde_json::Value, pointer: Seq<char>) -> Option<u64> {
    if json_integers(value).contains_key(pointer) {
        Some(json_integers(value)[pointer])
    } else {
        None
    }
}

/// Calls `serde_json::from_slice`. It reads the whole text as one JSON value, or reports an
/// error; which of the two, and the value, depend on the text alone.
#[verifier::external_body]
fn parse_json(text: &[u8]) -> (parsed: Result<serde_json::Value, serde_json::Error>)
    ensures
        match parsed {
            Ok(value) => parsed_json(text@) == Some(value),
            Err(_) => parsed_json(text@) is None,
        },
{
    serde_json::from_slice(text)
}

/// Calls `serde_json::Value::pointer` and takes what it finds as a `u64`. The result is the
/// unsigned integer that the pointer leads to, or `None` where it leads to nothing or to
/// something else.
#[verifier::external_body]
fn pointed_integer(value: &serde_json::Value, pointer: &str) -> (found: Option<u64>)
    ensures
        found == (if json_integers(*value).contains_key(pointer@) {
            Some(json_integers(*value)[pointer@])
        } else {
            None
        }),
{
    value.pointer(pointer).and_then(serde_json::Value::as_u64)
}

/// Calls `serde_json::Map::insert` with a string value. Afterwards the object holds that string
/// under the key, in place of what the key had, and every other member as before.
#[verifier::external_body]
pub(crate) fn set_text(
    members: &mut serde_json::Map<String, serde_json::Value>,
    key: &str,
    text: &str,
)
    ensures
        json_members(*final(members)) == json_members(*old(members)).insert(
            key@,
            Member::Text(text@),
        ),
{
    members.insert(key.to_string(), serde_json::Value::String(text.to_string()));
}

/// A message with the token counts that it gives.
#[derive(Debug)]
pub struct Message {
    pub value: serde_json::Value,
    pub input_tokens: Option<u64>,
    pub output_tokens: Option<u64>,
}

/// A JSON value as a message: its token counts are `usage.input_tokens` and
/// `usage.output_tokens`, each where it is an unsigned integer.
pub open spec fn message_of(value: serde_json::Value) -> Message {
    Message {
        value,
        input_tokens: integer_at(value, "/usage/input_tokens"@),
        output_tokens: integer_at(value, "/usage/output_tokens"@),
    }
}

/// The message that a text gives, or `None` where the text is not JSON.
pub open spec fn parsed_message(text: Seq<u8>) -> Option<Message> {
    match parsed_json(text) {
        Some(value) => Some(message_of(value)),
        None => None,
    }
}

/// A JSON value as a message.
pub fn read_message(value: serde_json::Value) -> (message: Message)
    ensures
        message == message_of(value),
        message.value == value,
        message.input_tokens is Some <==> json_integers(value).contains_key("/usage/input_tokens"@),
        message.input_tokens matches Some(tokens) ==> tokens
            == json_integers(value)["/usage/input_tokens"@],
        message.output_tokens is Some <==> json_integers(value).contains_key(
            "/usage/output_tokens"@,
        ),
        message.output_tokens matches Some(tokens) ==> tokens
            == json_integers(value)["/usage/output_tokens"@],
{
    let input_tokens = pointed_integer(&value, "/usage/input_tokens");
    let output_tokens = pointed_integer(&value, "/usage/output_tokens");
    Message { value, input_tokens, output_tokens }
}

/// The message that a text gives, or `None` where the text is not JSON.
pub fn parse_message(text: &[u8]) -> (message: Option<Message>)
    ensures
        message == parsed_message(text@),
        message is Some <==> parsed_json(text@) is Some,
        message matches Some(message) ==> parsed_json(text@) == Some(message.value),
{
    match parse_json(text) {
        Ok(value) => Some(read_message(value)),
        Err(_) => None,
    }
}

/// A message keeps its value, and its token counts are the unsigned integers that the value holds
/// as `usage.input_tokens` and `usage.output_tokens`: each is there exactly where the value has
/// it, and is what the value has.
pub proof fn law_message_counts_are_those_of_the_value(value: serde_json::Value, tokens: u64)
    ensures
        message_of(value).value == value,
        message_of(value).input_tokens == Some(tokens) <==> json_integers(value).contains_pair(
            "/usage/input_tokens"@,
            tokens,
        ),
        message_of(value).output_tokens == Some(tokens) <==> json_integers(value).contains_pair(
            "/usage/output_tokens"@,
            tokens,
        ),
{
}

/// A text gives a message exactly where it is JSON, and the message is that of its JSON value.
pub proof fn law_json_and_only_json_gives_a_message(text: Seq<u8>, value: serde_json::Value)
    ensures
        parsed_message(text) is Some <==> parsed_json(text) is Some,
        parsed_json(text) == Some(value) ==> parsed_message(text) == Some(message_of(value)),
        parsed_message(text) matches Some(message) ==> parsed_json(text) == Some(message.value),
{
}

} // verus!

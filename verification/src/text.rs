//! Text helpers: equality, joining, prefix stripping and the byte order of names.
use vstd::prelude::*;
use vstd::string::*;
use vstd::utf8::*;

verus! {

/// The texts that a sequence of strings holds.
pub open spec fn texts(names: Seq<String>) -> Seq<Seq<char>> {
    names.map_values(|name: String| name@)
}

/// Dictionary order on byte strings: a shorter string stands before every longer one that it
/// begins.
pub open spec fn bytes_le(a: Seq<u8>, b: Seq<u8>) -> bool
    decreases a.len(),
{
    if a.len() == 0 {
        true
    } else if b.len() == 0 {
        false
    } else {
        a[0] < b[0] || (a[0] == b[0] && bytes_le(a.drop_first(), b.drop_first()))
    }
}

/// The order of texts: dictionary order of their UTF-8 bytes.
pub open spec fn text_le(a: Seq<char>, b: Seq<char>) -> bool {
    bytes_le(encode_utf8(a), encode_utf8(b))
}

/// No text stands before a smaller one.
pub open spec fn texts_sorted(names: Seq<Seq<char>>) -> bool {
    forall|i: int, j: int| 0 <= i <= j < names.len() ==> text_le(names[i], names[j])
}

proof fn lemma_bytes_le_reflexive(a: Seq<u8>)
    ensures
        bytes_le(a, a),
    decreases a.len(),
{
    if a.len() > 0 {
        lemma_bytes_le_reflexive(a.drop_first());
    }
}

proof fn lemma_bytes_le_total(a: Seq<u8>, b: Seq<u8>)
    ensures
        bytes_le(a, b) || bytes_le(b, a),
    decreases a.len(),
{
    if a.len() > 0 && b.len() > 0 {
        lemma_bytes_le_total(a.drop_first(), b.drop_first());
    }
}

proof fn lemma_bytes_le_antisymmetric(a: Seq<u8>, b: Seq<u8>)
    requires
        bytes_le(a, b),
        bytes_le(b, a),
    ensures
        a == b,
    decreases a.len(),
{
    if a.len() > 0 {
        lemma_bytes_le_antisymmetric(a.drop_first(), b.drop_first());
        assert(a =~= seq![a[0]] + a.drop_first());
        assert(b =~= seq![b[0]] + b.drop_first());
    } else {
        assert(a =~= b);
    }
}

proof fn lemma_bytes_le_transitive(a: Seq<u8>, b: Seq<u8>, c: Seq<u8>)
    requires
        bytes_le(a, b),
        bytes_le(b, c),
    ensures
        bytes_le(a, c),
    decreases a.len(),
{
    if a.len() > 0 && a[0] == b[0] && b[0] == c[0] {
        lemma_bytes_le_transitive(a.drop_first(), b.drop_first(), c.drop_first());
    }
}

/// Texts with the same UTF-8 bytes are the same text.
proof fn lemma_same_bytes_same_text(a: Seq<char>, b: Seq<char>)
    requires
        encode_utf8(a) == encode_utf8(b),
    ensures
        a == b,
{
    encode_utf8_decode_utf8(a);
    encode_utf8_decode_utf8(b);
}

/// The order of texts is a total order: reflexive, antisymmetric, transitive, and any two texts
/// are comparable.
pub proof fn law_text_order_is_total(a: Seq<char>, b: Seq<char>, c: Seq<char>)
    ensures
        text_le(a, a),
        text_le(a, b) || text_le(b, a),
        text_le(a, b) && text_le(b, a) ==> a == b,
        text_le(a, b) && text_le(b, c) ==> text_le(a, c),
{
    lemma_bytes_le_reflexive(encode_utf8(a));
    lemma_bytes_le_total(encode_utf8(a), encode_utf8(b));
    if text_le(a, b) && text_le(b, a) {
        lemma_bytes_le_antisymmetric(encode_utf8(a), encode_utf8(b));
        lemma_same_bytes_same_text(a, b);
    }
    if text_le(a, b) && text_le(b, c) {
        lemma_bytes_le_transitive(encode_utf8(a), encode_utf8(b), encode_utf8(c));
    }
}

proof fn lemma_bytes_le_at(a: Seq<u8>, b: Seq<u8>, k: int)
    requires
        0 <= k <= a.len(),
        k <= b.len(),
        forall|j: int| 0 <= j < k ==> a[j] == b[j],
    ensures
        k == a.len() ==> bytes_le(a, b),
        k == b.len() && k < a.len() ==> !bytes_le(a, b),
        k < a.len() && k < b.len() && a[k] != b[k] ==> (bytes_le(a, b) <==> a[k] < b[k]),
    decreases k,
{
    if k > 0 {
        let more_a = a.drop_first();
        let more_b = b.drop_first();
        assert forall|j: int| 0 <= j < k - 1 implies more_a[j] == more_b[j] by {
            assert(a[j + 1] == b[j + 1]);
        }
        lemma_bytes_le_at(more_a, more_b, k - 1);
    }
}

/// The order of texts is that of a dictionary of their UTF-8 bytes: where two texts part, the one
/// with the smaller byte stands first, and a text stands before each longer one that it begins.
pub proof fn law_text_order_is_that_of_a_dictionary(a: Seq<char>, b: Seq<char>, k: int)
    requires
        0 <= k <= encode_utf8(a).len(),
        k <= encode_utf8(b).len(),
        forall|j: int| 0 <= j < k ==> encode_utf8(a)[j] == encode_utf8(b)[j],
    ensures
        k == encode_utf8(a).len() ==> text_le(a, b),
        k == encode_utf8(b).len() && k < encode_utf8(a).len() ==> !text_le(a, b),
        k < encode_utf8(a).len() && k < encode_utf8(b).len() && encode_utf8(a)[k] != encode_utf8(
            b,
        )[k] ==> (text_le(a, b) <==> encode_utf8(a)[k] < encode_utf8(b)[k]),
{
    lemma_bytes_le_at(encode_utf8(a), encode_utf8(b), k);
}

/// A list is sorted exactly where each text stands no later than the next one in the order.
pub proof fn law_sorted_lists_are_in_order_throughout(names: Seq<Seq<char>>)
    ensures
        texts_sorted(names) <==> forall|i: int|
            0 <= i < names.len() - 1 ==> text_le(#[trigger] names[i], names[i + 1]),
{
    if forall|i: int| 0 <= i < names.len() - 1 ==> text_le(#[trigger] names[i], names[i + 1]) {
        assert forall|i: int, j: int| 0 <= i <= j < names.len() implies text_le(names[i], names[j]) by {
            lemma_in_order_throughout(names, i, j);
        }
    }
}

proof fn lemma_in_order_throughout(names: Seq<Seq<char>>, i: int, j: int)
    requires
        forall|i: int| 0 <= i < names.len() - 1 ==> text_le(#[trigger] names[i], names[i + 1]),
        0 <= i <= j < names.len(),
    ensures
        text_le(names[i], names[j]),
    decreases j - i,
{
    if i < j {
        lemma_in_order_throughout(names, i, j - 1);
        assert(text_le(names[j - 1], names[j - 1 + 1]));
        law_text_order_is_total(names[i], names[j - 1], names[j]);
    } else {
        law_text_order_is_total(names[i], names[i], names[i]);
    }
}

/// A list of strings shows the text of each in turn.
pub proof fn law_texts_are_those_of_the_strings(names: Seq<String>)
    ensures
        texts(names).len() == names.len(),
        forall|i: int| 0 <= i < names.len() ==> (#[trigger] texts(names)[i]) == names[i]@,
{
}

/// A sorted list of texts is fixed by which texts it holds and how often.
pub proof fn law_sorted_list_is_determined(a: Seq<Seq<char>>, b: Seq<Seq<char>>)
    requires
        texts_sorted(a),
        texts_sorted(b),
        a.to_multiset() == b.to_multiset(),
    ensures
        a == b,
{
    let le = |x: Seq<char>, y: Seq<char>| text_le(x, y);
    assert forall|x: Seq<char>, y: Seq<char>, z: Seq<char>|
        #![trigger le(x, y), le(y, z)]
        le(x, x) && (le(x, y) || le(y, x)) && (le(x, y) && le(y, x) ==> x == y) && (le(x, y) && le(
            y,
            z,
        ) ==> le(x, z)) by {
        law_text_order_is_total(x, y, z);
    }
    assert forall|x: Seq<char>| #[trigger] le(x, x) by {
        law_text_order_is_total(x, x, x);
    }
    assert forall|x: Seq<char>, y: Seq<char>| #[trigger] le(x, y) || #[trigger] le(y, x) by {
        law_text_order_is_total(x, y, x);
    }
    vstd::seq_lib::lemma_sorted_unique(a, b, le);
}

/// Texts that begin alike are the same only where what follows is.
pub(crate) proof fn lemma_same_tail(head: Seq<char>, a: Seq<char>, b: Seq<char>)
    ensures
        head + a == head + b <==> a == b,
{
    assert((head + a).skip(head.len() as int) =~= a);
    assert((head + b).skip(head.len() as int) =~= b);
}

/// Whether two texts are the same.
pub(crate) fn same_text(a: &str, b: &str) -> (same: bool)
    ensures
        same == (a@ == b@),
{
    let left = a.as_bytes();
    let right = b.as_bytes();
    if left.len() != right.len() {
        return false;
    }
    let mut i: usize = 0;
    while i < left.len()
        invariant
            left@ == encode_utf8(a@),
            right@ == encode_utf8(b@),
            left@.len() == right@.len(),
            i <= left@.len(),
            forall|j: int| 0 <= j < i ==> left@[j] == right@[j],
        decreases left.len() - i,
    {
        if left[i] != right[i] {
            return false;
        }
        i += 1;
    }
    proof {
        assert(left@ =~= right@);
        lemma_same_bytes_same_text(a@, b@);
    }
    true
}

/// Whether `a` stands no later than `b` in the order of texts.
pub(crate) fn in_order(a: &str, b: &str) -> (ordered: bool)
    ensures
        ordered == text_le(a@, b@),
{
    let left = a.as_bytes();
    let right = b.as_bytes();
    let mut i: usize = 0;
    proof {
        assert(left@.skip(0) =~= left@);
        assert(right@.skip(0) =~= right@);
    }
    while i < left.len() && i < right.len()
        invariant
            left@ == encode_utf8(a@),
            right@ == encode_utf8(b@),
            i <= left@.len(),
            i <= right@.len(),
            text_le(a@, b@) == bytes_le(left@.skip(i as int), right@.skip(i as int)),
        decreases left.len() - i,
    {
        if left[i] != right[i] {
            return left[i] < right[i];
        }
        proof {
            assert(left@.skip(i as int).drop_first() =~= left@.skip(i + 1));
            assert(right@.skip(i as int).drop_first() =~= right@.skip(i + 1));
        }
        i += 1;
    }
    i == left.len()
}

/// `head` followed by `tail`.
pub(crate) fn join(head: &str, tail: &str) -> (joined: String)
    ensures
        joined@ == head@ + tail@,
{
    let mut joined = head.to_owned();
    joined.append(tail);
    joined
}

/// What follows `prefix` in `raw`, or `None` where `raw` does not begin with it.
pub(crate) fn strip_prefix<'a>(raw: &'a str, prefix: &str) -> (rest: Option<&'a str>)
    ensures
        match rest {
            Some(rest) => raw@ == prefix@ + rest@,
            None => !prefix@.is_prefix_of(raw@),
        },
{
    let width: usize = prefix.unicode_len();
    let length: usize = raw.unicode_len();
    if length < width {
        return None;
    }
    if !same_text(raw.substring_char(0, width), prefix) {
        return None;
    }
    proof {
        assert(raw@ =~= raw@.subrange(0, width as int) + raw@.subrange(width as int, length as int));
    }
    Some(raw.substring_char(width, length))
}

/// Puts `name` into a sorted list at its place.
fn insert_sorted(names: &mut Vec<String>, name: String)
    requires
        texts_sorted(texts(old(names)@)),
    ensures
        texts_sorted(texts(final(names)@)),
        texts(final(names)@).to_multiset() == texts(old(names)@).to_multiset().insert(name@),
{
    let ghost before = texts(names@);
    let mut place: usize = 0;
    while place < names.len() && in_order(names[place].as_str(), name.as_str())
        invariant
            place <= names@.len(),
            before == texts(names@),
            texts_sorted(before),
            forall|j: int| 0 <= j < place ==> text_le(before[j], name@),
        decreases names.len() - place,
    {
        place += 1;
    }
    let ghost text = name@;
    proof {
        if place < names@.len() {
            assert(!text_le(before[place as int], text));
            law_text_order_is_total(before[place as int], text, text);
            assert forall|j: int| place <= j < before.len() implies text_le(text, #[trigger] before[j]) by {
                law_text_order_is_total(text, before[place as int], before[j]);
            }
        }
        law_text_order_is_total(text, text, text);
    }
    names.insert(place, name);
    proof {
        assert(texts(names@) =~= before.insert(place as int, text));
        vstd::seq_lib::to_multiset_insert(before, place as int, text);
        let after = texts(names@);
        assert forall|i: int, j: int| 0 <= i <= j < after.len() implies text_le(after[i], after[j]) by {
            if i == place && j == place {
            } else if j == place {
                assert(text_le(before[i], text));
            } else if i == place {
                assert(text_le(text, before[j - 1]));
            } else {
                let p = if i < place { i } else { i - 1 };
                let q = if j < place { j } else { j - 1 };
                assert(text_le(before[p], before[q]));
            }
        }
    }
}

/// Sorts names by the order of texts.
pub(crate) fn sort_names(names: Vec<String>) -> (sorted: Vec<String>)
    ensures
        texts_sorted(texts(sorted@)),
        texts(sorted@).to_multiset() == texts(names@).to_multiset(),
{
    let mut rest = names;
    let mut sorted: Vec<String> = Vec::new();
    proof {
        assert(texts(sorted@) =~= Seq::<Seq<char>>::empty());
        assert(texts(rest@) =~= texts(names@));
        assert(texts(names@).to_multiset() =~= texts(rest@).to_multiset().add(
            texts(sorted@).to_multiset(),
        )) by {
            broadcast use vstd::seq_lib::group_to_multiset_ensures;
        }
    }
    while rest.len() > 0
        invariant
            texts_sorted(texts(sorted@)),
            texts(names@).to_multiset() == texts(rest@).to_multiset().add(
                texts(sorted@).to_multiset(),
            ),
        decreases rest.len(),
    {
        let ghost before = texts(rest@);
        let ghost kept = texts(sorted@);
        match rest.pop() {
            Some(name) => {
                let ghost text = name@;
                insert_sorted(&mut sorted, name);
                proof {
                    assert(before =~= texts(rest@).push(text));
                    vstd::seq_lib::to_multiset_build(texts(rest@), text);
                    assert(before.to_multiset().add(kept.to_multiset()) =~= texts(
                        rest@,
                    ).to_multiset().add(kept.to_multiset().insert(text)));
                }
            },
            None => {},
        }
    }
    proof {
        assert(texts(rest@) =~= Seq::<Seq<char>>::empty());
        assert(texts(names@).to_multiset() =~= texts(sorted@).to_multiset()) by {
            broadcast use vstd::seq_lib::group_to_multiset_ensures;
        }
    }
    sorted
}

} // verus!

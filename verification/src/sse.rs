//! Server-sent events: counting the events of a stream.
use vstd::prelude::*;
use vstd::utf8::*;

verus! {

/// How often `pattern` is met in `text`, read from the front, each search going on behind the
/// last match.
pub open spec fn matches_in<T>(text: Seq<T>, pattern: Seq<T>) -> nat
    decreases text.len(),
{
    if text.len() == 0 || pattern.len() == 0 {
        0
    } else if pattern.is_prefix_of(text) {
        1 + matches_in(text.skip(pattern.len() as int), pattern)
    } else {
        matches_in(text.drop_first(), pattern)
    }
}

/// At how many places of `text` an occurrence of `pattern` begins, overlapping or not.
pub open spec fn occurrences<T>(text: Seq<T>, pattern: Seq<T>) -> nat
    decreases text.len(),
{
    if text.len() == 0 {
        0
    } else {
        occurrences(text.drop_first(), pattern) + if pattern.is_prefix_of(text) {
            1nat
        } else {
            0
        }
    }
}

/// The field that opens each event, in bytes.
pub open spec fn event_marker() -> Seq<u8> {
    encode_utf8("event:"@)
}

fn begins_at(text: &[u8], start: usize, pattern: &[u8]) -> (begins: bool)
    requires
        start <= text@.len(),
    ensures
        begins == pattern@.is_prefix_of(text@.skip(start as int)),
{
    let length: usize = text.len();
    if length - start < pattern.len() {
        return false;
    }
    let ghost rest = text@.skip(start as int);
    let mut i: usize = 0;
    while i < pattern.len()
        invariant
            rest == text@.skip(start as int),
            length == text@.len(),
            start + pattern@.len() <= text@.len(),
            i <= pattern@.len(),
            forall|j: int| 0 <= j < i ==> pattern@[j] == rest[j],
        decreases pattern.len() - i,
    {
        if text[start + i] != pattern[i] {
            assert(rest.subrange(0, pattern@.len() as int)[i as int] != pattern@[i as int]);
            return false;
        }
        i += 1;
    }
    assert(pattern@ =~= rest.subrange(0, pattern@.len() as int));
    true
}

/// The number of `event:` fields in a body. The marker is ASCII, so reading the bytes as text
/// first would neither make nor break a match.
pub fn count_sse_events(bytes: &[u8]) -> (events: u64)
    ensures
        events == matches_in(bytes@, event_marker()),
        events == event_places(bytes@, 0).len(),
        forall|text: Seq<char>| #[trigger]
            reads_as(bytes@, text) ==> events == matches_in(text, "event:"@),
{
    let marker = "event:".as_bytes();
    proof {
        lemma_event_marker();
        assert(bytes@.skip(0) =~= bytes@);
    }
    let mut events: u64 = 0;
    let mut i: usize = 0;
    while i < bytes.len()
        invariant
            marker@ == event_marker(),
            marker@.len() == 6,
            i <= bytes@.len(),
            events <= i,
            events + matches_in(bytes@.skip(i as int), event_marker()) == matches_in(
                bytes@,
                event_marker(),
            ),
        decreases bytes.len() - i,
    {
        if begins_at(bytes, i, marker) {
            proof {
                assert(bytes@.skip(i as int).skip(6) =~= bytes@.skip(i + 6));
            }
            events += 1;
            i += marker.len();
        } else {
            proof {
                assert(bytes@.skip(i as int).drop_first() =~= bytes@.skip(i + 1));
            }
            i += 1;
        }
    }
    proof {
        law_events_are_counted_by_their_places(bytes@);
        assert forall|text: Seq<char>| #[trigger] reads_as(bytes@, text) implies events
            == matches_in(text, "event:"@) by {
            law_events_survive_decoding(bytes@, text);
        }
    }
    events
}

/// The marker has one byte for each of its characters.
proof fn lemma_event_marker()
    ensures
        event_marker() == seq![0x65u8, 0x76, 0x65, 0x6e, 0x74, 0x3a],
        "event:"@ == seq!['e', 'v', 'e', 'n', 't', ':'],
{
    reveal_strlit("event:");
    assert("event:"@ =~= seq!['e', 'v', 'e', 'n', 't', ':']);
    is_ascii_chars_encode_utf8("event:"@);
    assert(event_marker() =~= seq![0x65u8, 0x76, 0x65, 0x6e, 0x74, 0x3a]);
}

/// No two occurrences of the pattern can overlap: it never begins inside itself.
pub open spec fn never_overlaps<T>(pattern: Seq<T>) -> bool {
    forall|k: int|
        0 < k < pattern.len() ==> #[trigger] pattern.skip(k) != pattern.take(pattern.len() - k)
}

proof fn lemma_no_occurrence_inside<T>(text: Seq<T>, pattern: Seq<T>, k: int)
    requires
        never_overlaps(pattern),
        pattern.is_prefix_of(text),
        0 < k <= pattern.len(),
    ensures
        occurrences(text.skip(k), pattern) == occurrences(
            text.skip(pattern.len() as int),
            pattern,
        ),
    decreases pattern.len() - k,
{
    if k < pattern.len() {
        let rest = text.skip(k);
        lemma_no_occurrence_inside(text, pattern, k + 1);
        assert(rest.drop_first() =~= text.skip(k + 1));
        if pattern.is_prefix_of(rest) {
            let shared = pattern.len() - k;
            assert(pattern.skip(k) =~= pattern.take(shared)) by {
                assert forall|j: int| 0 <= j < shared implies pattern.skip(k)[j] == pattern.take(
                    shared,
                )[j] by {
                    assert(text.subrange(0, pattern.len() as int)[k + j] == text[k + j]);
                    assert(rest.subrange(0, pattern.len() as int)[j] == rest[j]);
                }
            }
        }
    }
}

proof fn lemma_matches_are_occurrences<T>(text: Seq<T>, pattern: Seq<T>)
    requires
        never_overlaps(pattern),
        pattern.len() > 0,
    ensures
        matches_in(text, pattern) == occurrences(text, pattern),
    decreases text.len(),
{
    if text.len() > 0 {
        if pattern.is_prefix_of(text) {
            lemma_matches_are_occurrences(text.skip(pattern.len() as int), pattern);
            lemma_no_occurrence_inside(text, pattern, 1);
            assert(text.skip(1) =~= text.drop_first());
        } else {
            lemma_matches_are_occurrences(text.drop_first(), pattern);
        }
    }
}

/// Every occurrence of the event marker in a body is counted, once.
pub proof fn law_every_event_is_counted(body: Seq<u8>)
    ensures
        matches_in(body, event_marker()) == occurrences(body, event_marker()),
{
    lemma_event_marker();
    let marker = event_marker();
    assert forall|k: int| 0 < k < marker.len() implies #[trigger] marker.skip(k) != marker.take(
        marker.len() - k,
    ) by {
        let a = marker.skip(k);
        let b = marker.take(marker.len() - k);
        if k == 2 {
            assert(a[1] != b[1]);
        } else {
            assert(a[0] != b[0]);
        }
    }
    lemma_matches_are_occurrences(body, marker);
}

/// The places of a body, from `start` on, at which the bytes of `event:` stand.
pub open spec fn event_places(body: Seq<u8>, start: int) -> Set<int> {
    Set::new(
        |i: int|
            {
                &&& start <= i
                &&& i + 6 <= body.len()
                &&& body[i] == 'e' as u8
                &&& body[i + 1] == 'v' as u8
                &&& body[i + 2] == 'e' as u8
                &&& body[i + 3] == 'n' as u8
                &&& body[i + 4] == 't' as u8
                &&& body[i + 5] == ':' as u8
            },
    )
}

proof fn lemma_occurrences_are_places(body: Seq<u8>, start: int)
    requires
        0 <= start <= body.len(),
    ensures
        event_places(body, start).finite(),
        event_places(body, start).len() == occurrences(body.skip(start), event_marker()),
    decreases body.len() - start,
{
    lemma_event_marker();
    let marker = event_marker();
    let rest = body.skip(start);
    let places = event_places(body, start);
    if start == body.len() {
        assert(places =~= Set::empty());
    } else {
        let later = event_places(body, start + 1);
        lemma_occurrences_are_places(body, start + 1);
        assert(rest.drop_first() =~= body.skip(start + 1));
        if marker.is_prefix_of(rest) {
            assert forall|j: int| 0 <= j < 6 implies body[start + j] == marker[j] by {
                assert(rest.subrange(0, 6)[j] == rest[j]);
            }
            assert(body[start] == body[start + 0]);
            assert(places.contains(start));
            assert(places =~= later.insert(start));
        } else {
            if places.contains(start) {
                assert(marker =~= rest.subrange(0, 6));
            }
            assert(places =~= later);
        }
    }
}

/// The count of events is the number of places at which the six bytes of `event:` stand.
pub proof fn law_events_are_counted_by_their_places(body: Seq<u8>)
    ensures
        event_places(body, 0).finite(),
        matches_in(body, event_marker()) == event_places(body, 0).len(),
{
    law_every_event_is_counted(body);
    lemma_occurrences_are_places(body, 0);
    assert(body.skip(0) =~= body);
}

proof fn lemma_occurrences_fit<T>(text: Seq<T>, pattern: Seq<T>)
    ensures
        occurrences(text, pattern) <= text.len(),
    decreases text.len(),
{
    if text.len() > 0 {
        lemma_occurrences_fit(text.drop_first(), pattern);
    }
}

/// A body has no more events than bytes.
pub(crate) proof fn lemma_events_fit(body: Seq<u8>)
    ensures
        matches_in(body, event_marker()) <= body.len(),
        matches_in(body, event_marker()) == event_places(body, 0).len(),
{
    law_every_event_is_counted(body);
    law_events_are_counted_by_their_places(body);
    lemma_occurrences_fit(body, event_marker());
}

/// One event more is one more in the count: the bytes of `event:` in front of a body add one, and
/// the first byte of a body that does not begin with them adds none.
pub proof fn law_each_event_adds_one(body: Seq<u8>)
    ensures
        body.len() == 0 ==> matches_in(body, event_marker()) == 0,
        matches_in(encode_utf8("event:"@) + body, event_marker()) == 1 + matches_in(
            body,
            event_marker(),
        ),
        body.len() > 0 && !encode_utf8("event:"@).is_prefix_of(body) ==> matches_in(
            body,
            event_marker(),
        ) == matches_in(body.drop_first(), event_marker()),
{
    lemma_event_marker();
    let with_event = encode_utf8("event:"@) + body;
    assert(event_marker() =~= with_event.subrange(0, 6));
    assert(with_event.skip(6) =~= body);
}

/// None of the elements of `gap` occurs in `pattern`.
pub open spec fn foreign<T>(gap: Seq<T>, pattern: Seq<T>) -> bool {
    forall|i: int| 0 <= i < gap.len() ==> !pattern.contains(#[trigger] gap[i])
}

proof fn lemma_matches_split<T>(head: Seq<T>, gap: Seq<T>, tail: Seq<T>, pattern: Seq<T>)
    requires
        pattern.len() > 0,
        gap.len() > 0,
        foreign(gap, pattern),
    ensures
        matches_in(head + gap + tail, pattern) == matches_in(head, pattern) + matches_in(
            tail,
            pattern,
        ),
    decreases head.len() + gap.len(),
{
    let text = head + gap + tail;
    let n = pattern.len() as int;
    if head.len() == 0 {
        if pattern.is_prefix_of(text) {
            assert(text.subrange(0, n)[0] == gap[0]);
            assert(pattern[0] == gap[0]);
            assert(pattern.contains(gap[0]));
        }
        let rest = gap.drop_first();
        assert(text.drop_first() =~= head + rest + tail);
        if rest.len() > 0 {
            assert forall|i: int| 0 <= i < rest.len() implies !pattern.contains(
                #[trigger] rest[i],
            ) by {
                assert(rest[i] == gap[i + 1]);
            }
            lemma_matches_split(head, rest, tail, pattern);
        } else {
            assert(text.drop_first() =~= tail);
        }
    } else {
        if pattern.is_prefix_of(text) {
            if n > head.len() {
                let at = head.len() as int;
                assert(text.subrange(0, n)[at] == gap[0]);
                assert(pattern[at] == gap[0]);
                assert(pattern.contains(gap[0]));
            }
            assert(pattern =~= head.subrange(0, n)) by {
                assert(text.subrange(0, n) =~= head.subrange(0, n));
            }
            assert(text.skip(n) =~= head.skip(n) + gap + tail);
            lemma_matches_split(head.skip(n), gap, tail, pattern);
        } else {
            if pattern.is_prefix_of(head) {
                assert(head.subrange(0, n) =~= text.subrange(0, n));
            }
            assert(text.drop_first() =~= head.drop_first() + gap + tail);
            lemma_matches_split(head.drop_first(), gap, tail, pattern);
        }
    }
}

/// Bytes outside ASCII separate: around a run of them, the events of a body are those in front
/// of the run and those behind it, whatever the run holds.
pub proof fn law_non_ascii_bytes_separate_events(head: Seq<u8>, run: Seq<u8>, tail: Seq<u8>)
    requires
        run.len() > 0,
        forall|i: int| 0 <= i < run.len() ==> #[trigger] run[i] >= 0x80,
    ensures
        matches_in(head + run + tail, event_marker()) == matches_in(head, event_marker())
            + matches_in(tail, event_marker()),
{
    lemma_event_marker();
    lemma_matches_split(head, run, tail, event_marker());
}

/// The bytes of a character outside ASCII are all outside ASCII.
proof fn lemma_wide_scalar(scalar: u32)
    requires
        is_scalar(scalar),
        scalar >= 0x80,
    ensures
        encode_scalar(scalar).len() > 0,
        forall|i: int|
            0 <= i < encode_scalar(scalar).len() ==> #[trigger] encode_scalar(scalar)[i] >= 0x80,
{
    assert(leading_byte_width_2(scalar) >= 0x80) by (bit_vector);
    assert(leading_byte_width_3(scalar) >= 0x80) by (bit_vector);
    assert(leading_byte_width_4(scalar) >= 0x80) by (bit_vector);
    assert(last_continuation_byte(scalar) >= 0x80) by (bit_vector);
    assert(second_last_continuation_byte(scalar) >= 0x80) by (bit_vector);
    assert(third_last_continuation_byte(scalar) >= 0x80) by (bit_vector);
}

proof fn lemma_ascii_scalar(c: char)
    requires
        (c as u32) < 0x80,
    ensures
        encode_scalar(c as u32) == seq![c as u8],
        c as u8 as int == c as int,
{
    let s = c as u32;
    assert(leading_byte_width_1(s) == s as u8) by (bit_vector)
        requires
            s < 0x80u32,
    ;
}

/// The text is a reading of the bytes: each ASCII byte stands for its character, and each
/// non-empty run of other bytes for a non-empty run of characters outside ASCII, whichever these
/// are. Decoding in which replacement characters stand for what is not UTF-8 reads bytes so.
pub open spec fn reads_as(body: Seq<u8>, text: Seq<char>) -> bool
    decreases body.len(),
{
    if body.len() == 0 {
        text.len() == 0
    } else if body[0] < 0x80 {
        &&& text.len() > 0
        &&& text[0] as u32 == body[0] as u32
        &&& reads_as(body.drop_first(), text.drop_first())
    } else {
        exists|n: int, m: int| #[trigger]
            begin_wide(body, n, text, m) && reads_as(body.skip(n), text.skip(m))
    }
}

/// All bytes of the run are outside ASCII.
pub open spec fn wide_bytes(run: Seq<u8>) -> bool {
    forall|i: int| 0 <= i < run.len() ==> #[trigger] run[i] >= 0x80
}

/// All characters of the run are outside ASCII.
pub open spec fn wide_chars(run: Seq<char>) -> bool {
    forall|i: int| 0 <= i < run.len() ==> #[trigger] run[i] as u32 >= 0x80
}

/// The first `n` bytes and the first `m` characters are non-empty runs outside ASCII.
pub open spec fn begin_wide(body: Seq<u8>, n: int, text: Seq<char>, m: int) -> bool {
    &&& 0 < n <= body.len()
    &&& 0 < m <= text.len()
    &&& wide_bytes(body.take(n))
    &&& wide_chars(text.take(m))
}

/// The characters are ASCII, and the bytes are theirs.
spec fn ascii_pair(bytes: Seq<u8>, chars: Seq<char>) -> bool {
    &&& bytes.len() == chars.len()
    &&& forall|i: int|
        0 <= i < bytes.len() ==> #[trigger] bytes[i] < 0x80 && chars[i] as u32 == bytes[i] as u32
}

proof fn lemma_prefix_step<A>(prefix: Seq<A>, text: Seq<A>)
    requires
        prefix.len() > 0,
        text.len() > 0,
    ensures
        prefix.is_prefix_of(text) <==> prefix[0] == text[0] && prefix.drop_first().is_prefix_of(
            text.drop_first(),
        ),
{
    let more = prefix.drop_first();
    let rest = text.drop_first();
    if prefix.is_prefix_of(text) {
        assert(text.subrange(0, prefix.len() as int)[0] == text[0]);
        assert forall|i: int| 0 <= i < more.len() implies more[i] == rest[i] by {
            assert(text.subrange(0, prefix.len() as int)[i + 1] == text[i + 1]);
        }
        assert(more =~= rest.subrange(0, more.len() as int));
    }
    if prefix[0] == text[0] && more.is_prefix_of(rest) {
        assert forall|i: int| 0 <= i < prefix.len() implies prefix[i] == text[i] by {
            if i > 0 {
                assert(rest.subrange(0, more.len() as int)[i - 1] == rest[i - 1]);
                assert(more[i - 1] == rest[i - 1]);
            }
        }
        assert(prefix =~= text.subrange(0, prefix.len() as int));
    }
}

/// An ASCII text begins a reading of some bytes exactly where its bytes begin them, and what
/// follows is a reading of what follows.
proof fn lemma_read_prefix(bytes: Seq<u8>, chars: Seq<char>, body: Seq<u8>, text: Seq<char>)
    requires
        ascii_pair(bytes, chars),
        reads_as(body, text),
    ensures
        bytes.is_prefix_of(body) <==> chars.is_prefix_of(text),
        bytes.is_prefix_of(body) ==> reads_as(
            body.skip(bytes.len() as int),
            text.skip(chars.len() as int),
        ),
    decreases bytes.len(),
{
    if bytes.len() == 0 {
        assert(bytes =~= body.subrange(0, 0));
        assert(chars =~= text.subrange(0, 0));
        assert(body.skip(0) =~= body);
        assert(text.skip(0) =~= text);
    } else if body.len() == 0 {
    } else {
        assert(text.len() > 0);
        lemma_prefix_step(bytes, body);
        lemma_prefix_step(chars, text);
        assert(bytes[0] < 0x80 && chars[0] as u32 == bytes[0] as u32);
        if body[0] < 0x80 {
            let more_bytes = bytes.drop_first();
            let more_chars = chars.drop_first();
            assert forall|i: int| 0 <= i < more_bytes.len() implies #[trigger] more_bytes[i] < 0x80
                && more_chars[i] as u32 == more_bytes[i] as u32 by {
                assert(more_bytes[i] == bytes[i + 1]);
            }
            lemma_read_prefix(more_bytes, more_chars, body.drop_first(), text.drop_first());
            lemma_same_char(chars[0], text[0]);
            if bytes.is_prefix_of(body) {
                assert(body.skip(bytes.len() as int) =~= body.drop_first().skip(
                    more_bytes.len() as int,
                ));
                assert(text.skip(chars.len() as int) =~= text.drop_first().skip(
                    more_chars.len() as int,
                ));
            }
        } else {
            let (n, m) = choose|n: int, m: int| #[trigger]
                begin_wide(body, n, text, m) && reads_as(body.skip(n), text.skip(m));
            assert(text.take(m)[0] == text[0]);
            assert(text[0] as u32 >= 0x80);
        }
    }
}

proof fn lemma_same_char(a: char, b: char)
    ensures
        a as u32 == b as u32 <==> a == b,
{
}

proof fn lemma_event_marker_is_ascii()
    ensures
        ascii_pair(event_marker(), "event:"@),
{
    lemma_event_marker();
}

/// Reading a body as text keeps its events: their number is that of the `event:` fields in any
/// reading of the bytes, also where some of them are not UTF-8.
pub proof fn law_events_survive_decoding(body: Seq<u8>, text: Seq<char>)
    requires
        reads_as(body, text),
    ensures
        matches_in(body, event_marker()) == matches_in(text, "event:"@),
    decreases body.len(),
{
    let marker = "event:"@;
    lemma_event_marker();
    lemma_event_marker_is_ascii();
    if body.len() > 0 {
        if body[0] < 0x80 {
            lemma_read_prefix(event_marker(), marker, body, text);
            if event_marker().is_prefix_of(body) {
                law_events_survive_decoding(body.skip(6), text.skip(6));
            } else {
                law_events_survive_decoding(body.drop_first(), text.drop_first());
            }
        } else {
            let (n, m) = choose|n: int, m: int| #[trigger]
                begin_wide(body, n, text, m) && reads_as(body.skip(n), text.skip(m));
            law_events_survive_decoding(body.skip(n), text.skip(m));
            law_non_ascii_bytes_separate_events(Seq::empty(), body.take(n), body.skip(n));
            assert(Seq::<u8>::empty() + body.take(n) + body.skip(n) =~= body);
            assert(foreign(text.take(m), marker));
            lemma_matches_split(Seq::empty(), text.take(m), text.skip(m), marker);
            assert(Seq::<char>::empty() + text.take(m) + text.skip(m) =~= text);
        }
    }
}

/// A text is a reading of its own UTF-8 bytes.
pub proof fn law_utf8_reads_as_its_text(text: Seq<char>)
    ensures
        reads_as(encode_utf8(text), text),
    decreases text.len(),
{
    if text.len() > 0 {
        let bytes = encode_utf8(text);
        let first = encode_scalar(text[0] as u32);
        let rest = text.drop_first();
        law_utf8_reads_as_its_text(rest);
        char_is_scalar(text[0]);
        if text[0] as u32 >= 0x80 {
            lemma_wide_scalar(text[0] as u32);
            let n = first.len() as int;
            assert(bytes[0] == first[0]);
            assert(bytes.take(n) =~= first);
            assert(bytes.skip(n) =~= encode_utf8(rest));
            assert(text.skip(1) =~= rest);
            assert(begin_wide(bytes, n, text, 1));
        } else {
            lemma_ascii_scalar(text[0]);
            assert(bytes[0] == text[0] as u8);
            assert(bytes.drop_first() =~= encode_utf8(rest));
        }
    }
}

/// Counting the events of a text by its bytes counts the `event:` fields that a reader of the
/// text would find.
pub proof fn law_events_of_text(text: Seq<char>)
    ensures
        matches_in(encode_utf8(text), event_marker()) == matches_in(text, "event:"@),
{
    law_utf8_reads_as_its_text(text);
    law_events_survive_decoding(encode_utf8(text), text);
}

} // verus!

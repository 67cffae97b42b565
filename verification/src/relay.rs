//! Relaying a stream of the upstream as it comes, with a meter on it.
use vstd::prelude::*;
use vstd::utf8::*;

use crate::chunk::{content, from_static, length};

verus! {

/// The event that is sent on where the upstream's stream fails.
pub const FAILURE_EVENT: &'static str = "event: error\ndata: {\"type\":\"error\",\"error\":{\"type\":\"api_error\",\"message\":\"OpenCode Go upstream stream failed\"}}\n\n";

/// How far a stream has come, as it is reported.
#[derive(Debug, Clone, Copy, PartialEq, Eq)]
pub struct Progress {
    pub bytes: u64,
    pub events: u64,
    pub input_tokens: Option<u64>,
    pub output_tokens: Option<u64>,
}

/// What a relayed stream has carried so far.
#[derive(Debug, Clone, Copy, PartialEq, Eq, Structural)]
pub struct StreamMeter {
    pub bytes: u64,
    pub chunks: u64,
}

/// What the upstream's stream gives next: a chunk, with the token counts read from it, or a
/// failure.
#[derive(Debug)]
pub enum Received {
    Chunk { chunk: bytes::Bytes, input_tokens: Option<u64>, output_tokens: Option<u64> },
    Failed,
}

/// What the upstream's stream gives next, by its values.
pub enum ReceivedView {
    Chunk { chunk: Seq<u8>, input_tokens: Option<u64>, output_tokens: Option<u64> },
    Failed,
}

impl View for Received {
    type V = ReceivedView;

    open spec fn view(&self) -> ReceivedView {
        match self {
            Received::Chunk { chunk, input_tokens, output_tokens } => ReceivedView::Chunk {
                chunk: content(*chunk),
                input_tokens: *input_tokens,
                output_tokens: *output_tokens,
            },
            Received::Failed => ReceivedView::Failed,
        }
    }
}

/// What is sent on, and the progress to report, if any.
#[derive(Debug)]
pub struct Relayed {
    pub output: bytes::Bytes,
    pub progress: Option<Progress>,
}

/// A count as a meter shows it: the count itself, up to the largest number that a meter holds.
pub open spec fn saturated(count: int) -> u64 {
    if count > u64::MAX {
        u64::MAX
    } else {
        count as u64
    }
}

/// What is sent on for what came: a chunk as it is, an error event for a failure.
pub open spec fn relayed_output(received: ReceivedView) -> Seq<u8> {
    match received {
        ReceivedView::Chunk { chunk, .. } => chunk,
        ReceivedView::Failed => encode_utf8(FAILURE_EVENT@),
    }
}

/// The meter after what came; a failure moves nothing.
pub open spec fn metered(meter: StreamMeter, received: ReceivedView) -> StreamMeter {
    match received {
        ReceivedView::Chunk { chunk, .. } => StreamMeter {
            bytes: saturated(meter.bytes + chunk.len()),
            chunks: saturated(meter.chunks + 1),
        },
        ReceivedView::Failed => meter,
    }
}

/// The progress to report for what came: the meter behind a chunk with the chunk's token counts.
pub open spec fn reported_progress(meter: StreamMeter, received: ReceivedView) -> Option<Progress> {
    match received {
        ReceivedView::Chunk { input_tokens, output_tokens, .. } => Some(
            Progress {
                bytes: metered(meter, received).bytes,
                events: metered(meter, received).chunks,
                input_tokens,
                output_tokens,
            },
        ),
        ReceivedView::Failed => None,
    }
}

impl StreamMeter {
    /// The meter of a stream that has carried nothing yet.
    pub fn new() -> (meter: StreamMeter)
        ensures
            meter == (StreamMeter { bytes: 0, chunks: 0 }),
    {
        StreamMeter { bytes: 0, chunks: 0 }
    }

    /// Takes what the upstream's stream gave and says what is sent on for it.
    pub fn relay(&mut self, received: Received) -> (relayed: Relayed)
        ensures
            *final(self) == metered(*old(self), received@),
            content(relayed.output) == relayed_output(received@),
            relayed.progress == reported_progress(*old(self), received@),
            match received {
                Received::Chunk { chunk, input_tokens, output_tokens } => {
                    let bytes = old(self).bytes + content(chunk).len();
                    let chunks = old(self).chunks + 1;
                    &&& content(relayed.output) == content(chunk)
                    &&& final(self).bytes == bytes || (bytes > u64::MAX && final(self).bytes
                        == u64::MAX)
                    &&& final(self).chunks == chunks || (chunks > u64::MAX && final(self).chunks
                        == u64::MAX)
                    &&& relayed.progress matches Some(progress)
                    &&& progress.bytes == final(self).bytes
                    &&& progress.events == final(self).chunks
                    &&& progress.input_tokens == input_tokens
                    &&& progress.output_tokens == output_tokens
                },
                Received::Failed => {
                    &&& content(relayed.output) == encode_utf8(
                        "event: error\ndata: {\"type\":\"error\",\"error\":{\"type\":\"api_error\",\"message\":\"OpenCode Go upstream stream failed\"}}\n\n"@,
                    )
                    &&& *final(self) == *old(self)
                    &&& relayed.progress is None
                },
            },
    {
        match received {
            Received::Chunk { chunk, input_tokens, output_tokens } => {
                let size: usize = length(&chunk);
                self.bytes = self.bytes.saturating_add(size as u64);
                self.chunks = self.chunks.saturating_add(1);
                let progress = Progress {
                    bytes: self.bytes,
                    events: self.chunks,
                    input_tokens,
                    output_tokens,
                };
                Relayed { output: chunk, progress: Some(progress) }
            },
            Received::Failed => {
                Relayed { output: from_static(FAILURE_EVENT.as_bytes()), progress: None }
            },
        }
    }
}

/// The meter after a whole run of a stream.
pub open spec fn metered_all(meter: StreamMeter, received: Seq<ReceivedView>) -> StreamMeter
    decreases received.len(),
{
    if received.len() == 0 {
        meter
    } else {
        metered(metered_all(meter, received.drop_last()), received.last())
    }
}

/// What a relayed stream carries for a whole run of the upstream's stream.
pub open spec fn relayed_all(received: Seq<ReceivedView>) -> Seq<u8>
    decreases received.len(),
{
    if received.len() == 0 {
        Seq::empty()
    } else {
        relayed_all(received.drop_last()) + relayed_output(received.last())
    }
}

/// The bytes of the chunks of a run, in order.
pub open spec fn chunk_bytes(received: Seq<ReceivedView>) -> Seq<u8>
    decreases received.len(),
{
    if received.len() == 0 {
        Seq::empty()
    } else {
        chunk_bytes(received.drop_last()) + match received.last() {
            ReceivedView::Chunk { chunk, .. } => chunk,
            ReceivedView::Failed => Seq::empty(),
        }
    }
}

/// The number of chunks of a run.
pub open spec fn chunk_count(received: Seq<ReceivedView>) -> nat
    decreases received.len(),
{
    if received.len() == 0 {
        0
    } else {
        chunk_count(received.drop_last()) + if received.last() is Chunk {
            1nat
        } else {
            0
        }
    }
}

/// A stream that does not fail passes through unchanged: what is sent on is what came.
pub proof fn law_stream_passes_through(received: Seq<ReceivedView>)
    requires
        forall|i: int| 0 <= i < received.len() ==> #[trigger] received[i] is Chunk,
    ensures
        relayed_all(received) == chunk_bytes(received),
    decreases received.len(),
{
    if received.len() > 0 {
        let init = received.drop_last();
        assert forall|i: int| 0 <= i < init.len() implies #[trigger] init[i] is Chunk by {
            assert(init[i] == received[i]);
        }
        law_stream_passes_through(init);
        assert(received[received.len() - 1] is Chunk);
    }
}

/// The meter of a stream shows how many bytes and how many chunks have come, up to the largest
/// number that it can show.
pub proof fn law_meter_shows_totals(received: Seq<ReceivedView>)
    ensures
        metered_all(StreamMeter { bytes: 0, chunks: 0 }, received) == (StreamMeter {
            bytes: saturated(chunk_bytes(received).len() as int),
            chunks: saturated(chunk_count(received) as int),
        }),
    decreases received.len(),
{
    if received.len() > 0 {
        law_meter_shows_totals(received.drop_last());
    }
}

/// What one chunk does: it is sent on as it came, the meter moves by its bytes and by one chunk up
/// to the largest number that it can show, and what the meter then shows is reported with the
/// token counts that came with the chunk.
pub proof fn law_chunk_is_sent_on_and_metered(
    meter: StreamMeter,
    chunk: Seq<u8>,
    input_tokens: Option<u64>,
    output_tokens: Option<u64>,
)
    ensures
        ({
            let received = ReceivedView::Chunk { chunk, input_tokens, output_tokens };
            let moved = metered(meter, received);
            &&& relayed_output(received) == chunk
            &&& meter.bytes + chunk.len() <= u64::MAX ==> moved.bytes == meter.bytes + chunk.len()
            &&& meter.bytes + chunk.len() > u64::MAX ==> moved.bytes == u64::MAX
            &&& meter.chunks < u64::MAX ==> moved.chunks == meter.chunks + 1
            &&& meter.chunks == u64::MAX ==> moved.chunks == u64::MAX
            &&& reported_progress(meter, received) matches Some(progress)
            &&& progress.bytes == moved.bytes
            &&& progress.events == moved.chunks
            &&& progress.input_tokens == input_tokens
            &&& progress.output_tokens == output_tokens
        }),
{
}

/// What a failure does: the error event is sent on, the meter stays, and nothing is reported.
pub proof fn law_failure_is_sent_on_as_an_event(meter: StreamMeter)
    ensures
        relayed_output(ReceivedView::Failed) == encode_utf8(
            "event: error\ndata: {\"type\":\"error\",\"error\":{\"type\":\"api_error\",\"message\":\"OpenCode Go upstream stream failed\"}}\n\n"@,
        ),
        metered(meter, ReceivedView::Failed) == meter,
        reported_progress(meter, ReceivedView::Failed) is None,
{
}

/// A run of a stream can be cut anywhere: what is sent on for the whole is what is sent on for the
/// front and then for the rest, and the meter goes on where it stood at the cut.
pub proof fn law_stream_can_be_cut_anywhere(
    meter: StreamMeter,
    front: Seq<ReceivedView>,
    rest: Seq<ReceivedView>,
)
    ensures
        relayed_all(front + rest) == relayed_all(front) + relayed_all(rest),
        metered_all(meter, front + rest) == metered_all(metered_all(meter, front), rest),
    decreases rest.len(),
{
    if rest.len() == 0 {
        assert(front + rest =~= front);
        assert(relayed_all(front) + relayed_all(rest) =~= relayed_all(front));
    } else {
        law_stream_can_be_cut_anywhere(meter, front, rest.drop_last());
        assert((front + rest).drop_last() =~= front + rest.drop_last());
        assert((front + rest).last() == rest.last());
        assert(relayed_all(front + rest) =~= relayed_all(front) + relayed_all(rest));
    }
}

/// What came shows what it holds.
pub proof fn law_received_views_are_exact(received: Received)
    ensures
        match received {
            Received::Chunk { chunk, input_tokens, output_tokens } => {
                &&& received@ matches ReceivedView::Chunk {
                    chunk: seen,
                    input_tokens: input,
                    output_tokens: output,
                }
                &&& seen == content(chunk)
                &&& input == input_tokens
                &&& output == output_tokens
            },
            Received::Failed => received@ is Failed,
        },
{
}

} // verus!

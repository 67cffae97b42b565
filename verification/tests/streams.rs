use bytes::Bytes;
use opencode_provider::relay::{Progress, Received, StreamMeter, FAILURE_EVENT};
use opencode_provider::reply::Reply;
use opencode_provider::sse::count_sse_events;

fn chunk(bytes: &'static [u8], input_tokens: Option<u64>, output_tokens: Option<u64>) -> Received {
    Received::Chunk { chunk: Bytes::from_static(bytes), input_tokens, output_tokens }
}

#[test]
fn events_are_counted_by_their_field() {
    assert_eq!(count_sse_events(b""), 0);
    assert_eq!(count_sse_events(b"event"), 0);
    assert_eq!(count_sse_events(b"event:"), 1);
    assert_eq!(count_sse_events(b"evevent:event:event"), 2);
    assert_eq!(count_sse_events(b"event: message_start\ndata: {}\n\nevent: message_stop\n\n"), 2);
    assert_eq!(count_sse_events(FAILURE_EVENT.as_bytes()), 1);
}

#[test]
fn events_are_counted_as_in_the_decoded_text() {
    let bodies: [&[u8]; 8] = [
        b"event:\xffevent:",
        b"even\xfft:event:",
        b"\xe2\x82event:\xe2\x82\xac",
        b"\xf0event:\xf0\x9fevent:\x98event:\x80",
        b"event\xc3\xa9:event:",
        b"\xff\xfe\xfd",
        b"ev\x80ent:\xc0\x80event:",
        b"event:\xed\xa0\x80event:event",
    ];
    for body in bodies {
        let decoded = String::from_utf8_lossy(body).matches("event:").count() as u64;
        assert_eq!(count_sse_events(body), decoded);
    }
}

#[test]
fn chunks_pass_through_and_are_metered() {
    let mut meter = StreamMeter::new();
    let first = meter.relay(chunk(b"event: message_start\n\n", Some(4), Some(0)));
    assert_eq!(&first.output[..], b"event: message_start\n\n");
    assert_eq!(
        first.progress,
        Some(Progress { bytes: 22, events: 1, input_tokens: Some(4), output_tokens: Some(0) })
    );
    let second = meter.relay(chunk(b"", None, None));
    assert!(second.output.is_empty());
    assert_eq!(
        second.progress,
        Some(Progress { bytes: 22, events: 2, input_tokens: None, output_tokens: None })
    );
    let third = meter.relay(chunk(b"abc", None, Some(3)));
    assert_eq!(
        third.progress,
        Some(Progress { bytes: 25, events: 3, input_tokens: None, output_tokens: Some(3) })
    );
    assert_eq!(meter, StreamMeter { bytes: 25, chunks: 3 });
}

#[test]
fn a_failed_chunk_becomes_an_error_event() {
    let mut meter = StreamMeter { bytes: 7, chunks: 2 };
    let relayed = meter.relay(Received::Failed);
    assert_eq!(
        &relayed.output[..],
        b"event: error\ndata: {\"type\":\"error\",\"error\":{\"type\":\"api_error\",\"message\":\"OpenCode Go upstream stream failed\"}}\n\n"
    );
    assert!(relayed.progress.is_none());
    assert_eq!(meter, StreamMeter { bytes: 7, chunks: 2 });
}

#[test]
fn meters_stop_at_their_largest_count() {
    let mut meter = StreamMeter { bytes: u64::MAX - 1, chunks: u64::MAX };
    meter.relay(chunk(b"abc", None, None));
    assert_eq!(meter, StreamMeter { bytes: u64::MAX, chunks: u64::MAX });
}

#[test]
fn event_streams_say_what_they_are() {
    for reply in [
        Reply::EventStream(Bytes::from_static(b"event:")),
        Reply::Relay { response: 7u8, meter: StreamMeter::new() },
    ] {
        assert_eq!(reply.status(), 200);
        let headers: Vec<(&str, String)> = reply
            .headers()
            .into_iter()
            .map(|header| (header.name, header.value))
            .collect();
        assert_eq!(
            headers,
            vec![
                ("content-type", "text/event-stream".to_string()),
                ("cache-control", "no-cache".to_string()),
                ("connection", "keep-alive".to_string()),
            ]
        );
    }
}

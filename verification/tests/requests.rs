use bytes::Bytes;
use opencode_provider::error::{ErrorReply, ErrorType, OpenCodeError};
use opencode_provider::exchange::{
    chat_json_response, chat_response, chat_stream_response, messages_response,
    messages_response_from, Action, Event, Next, Note, Payload, Stage, Step, TranslatedStream,
};
use opencode_provider::json::{parse_message, read_message, Message};
use opencode_provider::message_id::{message_id_from, new_message_id};
use opencode_provider::model::EndpointKind;
use opencode_provider::provider::OpenCodeProvider;
use opencode_provider::relay::{Progress, Received, StreamMeter};
use opencode_provider::reply::Reply;
use serde_json::Value;

fn json(text: &str) -> Value {
    serde_json::from_str(text).unwrap()
}

fn object(text: &str) -> serde_json::Map<String, Value> {
    serde_json::from_str(text).unwrap()
}

fn ready() -> OpenCodeProvider<&'static str> {
    OpenCodeProvider::with_client("client")
}

fn perform(step: Step<String, u8>) -> (Action<String, u8>, Stage) {
    match step.next {
        Next::Perform(action, stage) => (action, stage),
        Next::Finish(reply) => panic!("unexpected reply: {:?}", reply),
    }
}

fn finish(step: Step<String, u8>) -> Reply<u8> {
    match step.next {
        Next::Finish(reply) => reply,
        Next::Perform(action, _) => panic!("unexpected action: {:?}", action),
    }
}

fn error(step: Step<String, u8>) -> ErrorReply {
    match finish(step) {
        Reply::Error(error) => error,
        reply => panic!("unexpected reply: {:?}", reply),
    }
}

fn upstream_error(status: u16, message: &str, retry_after: Option<&str>) -> OpenCodeError {
    OpenCodeError {
        status,
        message: message.to_string(),
        retry_after: retry_after.map(|value| value.to_string()),
    }
}

/// Takes a chat request to the point where the upstream's answer is due.
fn posted_chat(model: &str, stream: bool) -> Stage {
    let (action, stage) = perform(ready().handle_messages(Some(model), stream));
    assert!(matches!(action, Action::Translate { .. }));
    let request = format!("chat for {model}");
    let (action, stage) = perform(stage.advance(Event::Translated(Ok(request.clone()))).unwrap());
    match action {
        Action::Post {
            endpoint: EndpointKind::ChatCompletions,
            payload: Payload::Translated(posted),
            stream: true,
        } => assert_eq!(posted, request),
        action => panic!("unexpected action: {:?}", action),
    }
    stage
}

/// Takes a messages request to the point where the upstream's answer is due, and gives what was
/// sent.
fn posted_messages(model: &str, body: &str, wants_stream: bool) -> (serde_json::Map<String, Value>, Stage) {
    let (action, stage) = perform(ready().handle_messages(Some(model), wants_stream));
    assert!(matches!(action, Action::Serialize));
    let (action, stage) = perform(stage.advance(Event::Serialized(Ok(object(body)))).unwrap());
    match action {
        Action::Post { endpoint: EndpointKind::Messages, payload: Payload::Members(sent), stream } => {
            assert_eq!(stream, wants_stream);
            (sent, stage)
        }
        action => panic!("unexpected action: {:?}", action),
    }
}

#[test]
fn missing_key_is_actionable() {
    let stage = posted_chat("glm-5.2", false);
    let failure = upstream_error(401, "OpenCode Go needs a key; set OPENCODE_API_KEY", None);
    let reply = error(stage.advance(Event::Posted(Err(failure))).unwrap());
    assert_eq!(reply.status, 401);
    assert_eq!(reply.error_type, ErrorType::Authentication);
    assert!(reply.message.contains("OPENCODE_API_KEY"));
}

#[test]
fn count_tokens_is_local_for_both_protocol_families() {
    for model in ["glm-5.2", "minimax-m3"] {
        let step = ready().handle_count_tokens(Some(model));
        assert_eq!(step.notes.len(), 1);
        match &step.notes[0] {
            Note::ModelResolved { id } => assert_eq!(*id, model),
            note => panic!("unexpected note: {:?}", note),
        }
        let (action, stage) = perform(step);
        assert!(matches!(action, Action::CountTokens));
        let step = stage.advance(Event::Counted(12)).unwrap();
        assert!(matches!(
            step.notes[0],
            Note::UsageUpdated { input_tokens: Some(12), output_tokens: None }
        ));
        let reply = finish(step);
        assert_eq!(reply.status(), 200);
        assert!(matches!(reply, Reply::InputTokens(12)));
    }
}

#[test]
fn provider_translates_chat_and_passes_messages_through() {
    let stage = posted_chat("glm-5.2", false);
    let (action, stage) = perform(stage.advance(Event::Posted(Ok(7))).unwrap());
    assert!(matches!(action, Action::ReadBody { response: 7 }));
    let body = Bytes::from_static(
        b"data: {\"choices\":[{\"delta\":{\"content\":\"hello from chat\"}}]}\n\ndata: {\"choices\":[{\"finish_reason\":\"stop\"}],\"usage\":{\"prompt_tokens\":5,\"completion_tokens\":3}}\n\ndata: [DONE]\n\n",
    );
    let (action, stage) = perform(stage.advance(Event::Body(Ok(body.clone()))).unwrap());
    match action {
        Action::Accumulate { body: handed, message_id, model } => {
            assert_eq!(handed, body);
            assert!(message_id.starts_with("msg_"));
            assert_eq!(model, "glm-5.2");
        }
        action => panic!("unexpected action: {:?}", action),
    }
    let message = json("{\"content\":[{\"type\":\"text\",\"text\":\"hello from chat\"}],\"usage\":{\"input_tokens\":5,\"output_tokens\":3}}");
    let step = stage.advance(Event::Accumulated(Ok(message))).unwrap();
    assert!(matches!(
        step.notes[0],
        Note::UsageUpdated { input_tokens: Some(5), output_tokens: Some(3) }
    ));
    let reply = finish(step);
    assert_eq!(reply.status(), 200);
    match reply {
        Reply::Json(value) => assert_eq!(value["content"][0]["text"], "hello from chat"),
        reply => panic!("unexpected reply: {:?}", reply),
    }

    let request = "{\"model\":\"opencode-go/minimax-m3\",\"stream\":false,\"messages\":[{\"role\":\"user\",\"content\":\"hello\"}]}";
    let (sent, stage) = posted_messages("opencode-go/minimax-m3", request, false);
    assert_eq!(sent["model"], "minimax-m3");
    let (action, stage) = perform(stage.advance(Event::Posted(Ok(7))).unwrap());
    assert!(matches!(action, Action::ReadBody { response: 7 }));
    let answer = format!(
        "{{\"id\":\"msg_native\",\"model\":{},\"content\":[{{\"type\":\"text\",\"text\":\"hello from messages\"}}],\"usage\":{{\"input_tokens\":4,\"output_tokens\":3}}}}",
        sent["model"]
    );
    let reply = finish(stage.advance(Event::Body(Ok(Bytes::from(answer)))).unwrap());
    assert_eq!(reply.status(), 200);
    match reply {
        Reply::Json(value) => {
            assert_eq!(value["model"], "minimax-m3");
            assert_eq!(value["content"][0]["text"], "hello from messages");
        }
        reply => panic!("unexpected reply: {:?}", reply),
    }
}

#[test]
fn messages_stream_is_passthrough_and_rate_limit_is_preserved() {
    let request = "{\"model\":\"minimax-m3\",\"stream\":true,\"messages\":[{\"role\":\"user\",\"content\":\"hello\"}]}";
    let (_, stage) = posted_messages("minimax-m3", request, true);
    let reply = finish(stage.advance(Event::Posted(Ok(7))).unwrap());
    assert_eq!(reply.status(), 200);
    let headers = reply.headers();
    assert!(headers
        .iter()
        .any(|header| header.name == "content-type" && header.value == "text/event-stream"));
    let mut meter = match reply {
        Reply::Relay { response, meter } => {
            assert_eq!(response, 7);
            meter
        }
        reply => panic!("unexpected reply: {:?}", reply),
    };
    let mut sent: Vec<u8> = Vec::new();
    for piece in ["event: message_start\ndata: {}\n\n", "event: message_stop\ndata: {\"type\":\"message_stop\"}\n\n"] {
        let received = Received::Chunk {
            chunk: Bytes::from_static(piece.as_bytes()),
            input_tokens: None,
            output_tokens: None,
        };
        sent.extend_from_slice(&meter.relay(received).output);
    }
    assert!(String::from_utf8_lossy(&sent).contains("event: message_stop"));

    let request = "{\"model\":\"qwen3.7-max\",\"messages\":[{\"role\":\"user\",\"content\":\"hello\"}]}";
    let (_, stage) = posted_messages("qwen3.7-max", request, false);
    let failure = upstream_error(429, "Go limit reached", Some("17"));
    let reply = finish(stage.advance(Event::Posted(Err(failure))).unwrap());
    assert_eq!(reply.status(), 429);
    let headers = reply.headers();
    assert_eq!(headers[0].name, "retry-after");
    assert_eq!(headers[0].value, "17");
    match reply {
        Reply::Error(error) => {
            assert_eq!(error.error_type.as_str(), "rate_limit_error");
            assert_eq!(error.message, "Go limit reached");
        }
        reply => panic!("unexpected reply: {:?}", reply),
    }
}

#[test]
fn unsupported_models_are_refused_at_once() {
    for requested in [Some("gpt-0"), Some("opencode-go/"), Some(""), None] {
        let expected = format!("Unsupported OpenCode Go model: {}", requested.unwrap_or(""));
        for step in [
            ready().handle_messages(requested, true),
            ready().handle_count_tokens(requested),
        ] {
            assert!(step.notes.is_empty());
            let reply = error(step);
            assert_eq!(reply.status, 400);
            assert_eq!(reply.error_type, ErrorType::InvalidRequest);
            assert_eq!(reply.message, expected);
        }
    }
}

#[test]
fn an_invalid_configuration_is_answered() {
    let provider: OpenCodeProvider<()> = OpenCodeProvider::new(Err("bad URL".to_string()));
    assert_eq!(provider.client().unwrap_err(), "bad URL");
    let step: Step<String, u8> = provider.handle_messages(Some("opencode-go/glm-5"), false);
    assert!(matches!(step.notes[0], Note::ModelResolved { id: "glm-5" }));
    assert!(matches!(step.notes[1], Note::UpstreamStarted));
    assert_eq!(step.notes.len(), 2);
    let reply = error(step);
    assert_eq!(reply.status, 500);
    assert_eq!(reply.error_type, ErrorType::Api);
    assert_eq!(reply.message, "Invalid OpenCode Go configuration: bad URL");
    let step: Step<String, u8> = provider.handle_count_tokens(Some("glm-5"));
    assert!(matches!(
        step.next,
        Next::Perform(Action::CountTokens, Stage::CountingTokens)
    ));
}

#[test]
fn a_provider_knows_its_client_and_its_names() {
    let provider = OpenCodeProvider::new(Ok::<u8, String>(7));
    assert_eq!(*provider.client().unwrap(), 7);
    assert_eq!(*ready().client().unwrap(), "client");
    assert_eq!(provider.name(), "opencode");
    assert_eq!(
        provider.supported_models(),
        opencode_provider::provider::advertised_models()
    );
}

#[test]
fn requests_that_cannot_be_translated_are_bad_requests() {
    let (action, stage) = perform(ready().handle_messages(Some("opencode-go/glm-5.1"), true));
    assert!(matches!(action, Action::Translate { id: "glm-5.1" }));
    let reply = error(stage.advance(Event::Translated(Err("no user turn".to_string()))).unwrap());
    assert_eq!(reply.status, 400);
    assert_eq!(reply.error_type, ErrorType::InvalidRequest);
    assert_eq!(reply.message, "no user turn");

    let (_, stage) = perform(ready().handle_messages(Some("minimax-m3"), true));
    let reply = error(stage.advance(Event::Serialized(Err("key".to_string()))).unwrap());
    assert_eq!(reply.status, 400);
    assert_eq!(reply.message, "key");
}

#[test]
fn only_the_model_of_a_messages_request_changes() {
    let request = "{\"a\":1.5,\"model\":\"opencode-go/qwen3.7-plus\",\"z\":[null,{\"model\":\"x\"}]}";
    let (sent, _) = posted_messages("opencode-go/qwen3.7-plus", request, true);
    let mut expected = object(request);
    expected.insert("model".to_string(), Value::String("qwen3.7-plus".to_string()));
    assert_eq!(sent, expected);

    let (sent, _) = posted_messages("minimax-m2.5", "{}", false);
    assert_eq!(sent, object("{\"model\":\"minimax-m2.5\"}"));
}

#[test]
fn events_that_answer_something_else_are_turned_away() {
    assert!(Stage::CountingTokens.advance(Event::<String, u8>::Posted(Ok(7))).is_none());
    assert!(Stage::ReadingMessages.advance(Event::<String, u8>::Counted(1)).is_none());
    assert!(Stage::Accumulating
        .advance(Event::<String, u8>::StreamTranslated(Err("late".to_string())))
        .is_none());
}

#[test]
fn chat_streams_are_translated_and_reported() {
    let stage = posted_chat("opencode-go/deepseek-v4-pro", true);
    let (_, stage) = perform(stage.advance(Event::Posted(Ok(7))).unwrap());
    let step = stage.advance(Event::Body(Ok(Bytes::from_static(b"data: {}\n\n")))).unwrap();
    match &step.notes[0] {
        Note::BodyCaptured { name, body } => {
            assert_eq!(*name, "032-upstream-response-body.sse");
            assert_eq!(&body[..], b"data: {}\n\n");
        }
        note => panic!("unexpected note: {:?}", note),
    }
    let (action, stage) = perform(step);
    match action {
        Action::TranslateStream { body, model, .. } => {
            assert_eq!(&body[..], b"data: {}\n\n");
            assert_eq!(model, "opencode-go/deepseek-v4-pro");
        }
        action => panic!("unexpected action: {:?}", action),
    }
    let translated = Bytes::from_static(b"event: message_start\n\nevent: message_stop\n\n");
    let step = stage
        .advance(Event::StreamTranslated(Ok(TranslatedStream {
            body: translated.clone(),
            input_tokens: Some(5),
            output_tokens: Some(3),
        })))
        .unwrap();
    match &step.notes[0] {
        Note::StreamProgress(progress) => assert_eq!(
            *progress,
            Progress { bytes: 43, events: 2, input_tokens: Some(5), output_tokens: Some(3) }
        ),
        note => panic!("unexpected note: {:?}", note),
    }
    match finish(step) {
        Reply::EventStream(body) => assert_eq!(body, translated),
        reply => panic!("unexpected reply: {:?}", reply),
    }
}

#[test]
fn failed_translations_of_answers_are_bad_gateways() {
    let reply = error(chat_stream_response(Err("cut off".to_string())));
    assert_eq!(reply.status, 502);
    assert_eq!(reply.error_type, ErrorType::Api);
    assert_eq!(reply.message, "OpenCode Go stream translation failed: cut off");

    let reply = error(chat_json_response(Err("cut off".to_string())));
    assert_eq!(reply.status, 502);
    assert_eq!(reply.error_type, ErrorType::Api);
    assert_eq!(reply.message, "OpenCode Go response translation failed: cut off");
}

#[test]
fn bodies_that_cannot_be_read_are_upstream_failures() {
    let stage = Stage::ReadingChat { requested: "glm-5".to_string(), stream: true };
    let reply = error(stage.advance(Event::Body(Err(upstream_error(500, "reset", None)))).unwrap());
    assert_eq!(reply.status, 502);
    assert_eq!(reply.message, "reset");
    let reply = error(
        Stage::ReadingMessages
            .advance(Event::Body(Err(upstream_error(504, "slow", Some("3")))))
            .unwrap(),
    );
    assert_eq!(reply.status, 502);
    assert_eq!(reply.retry_after, Some("3".to_string()));
}

#[test]
fn message_bodies_are_captured_and_parsed() {
    let step: Step<String, u8> = messages_response(Bytes::from_static(b"{\"usage\":{\"input_tokens\":4,\"output_tokens\":-3}}"));
    assert_eq!(step.notes.len(), 2);
    match &step.notes[0] {
        Note::BodyCaptured { name, body } => {
            assert_eq!(*name, "032-upstream-response-body.json");
            assert_eq!(&body[..], b"{\"usage\":{\"input_tokens\":4,\"output_tokens\":-3}}");
        }
        note => panic!("unexpected note: {:?}", note),
    }
    assert!(matches!(
        step.notes[1],
        Note::UsageUpdated { input_tokens: Some(4), output_tokens: None }
    ));

    let step: Step<String, u8> = messages_response(Bytes::from_static(b"<html>"));
    assert_eq!(step.notes.len(), 1);
    let reply = error(step);
    assert_eq!(reply.status, 502);
    assert_eq!(reply.error_type, ErrorType::Api);
    assert_eq!(reply.message, "OpenCode Go returned invalid JSON");
}

#[test]
fn answers_follow_what_was_read() {
    let message = Message { value: json("[1]"), input_tokens: Some(9), output_tokens: None };
    let step: Step<String, u8> = messages_response_from(Bytes::from_static(b"[1]"), Some(message));
    assert!(matches!(
        step.notes[1],
        Note::UsageUpdated { input_tokens: Some(9), output_tokens: None }
    ));
    match finish(step) {
        Reply::Json(value) => assert_eq!(value, json("[1]")),
        reply => panic!("unexpected reply: {:?}", reply),
    }
}

#[test]
fn token_counts_are_unsigned_integers_at_their_place() {
    let counts = |text: &str| {
        let message = read_message(json(text));
        (message.input_tokens, message.output_tokens)
    };
    assert_eq!(counts("{\"usage\":{\"input_tokens\":4,\"output_tokens\":3}}"), (Some(4), Some(3)));
    assert_eq!(counts("{\"usage\":{\"input_tokens\":18446744073709551615}}"), (Some(u64::MAX), None));
    assert_eq!(counts("{\"usage\":{\"input_tokens\":4.0,\"output_tokens\":\"3\"}}"), (None, None));
    assert_eq!(counts("{\"input_tokens\":4}"), (None, None));
    assert_eq!(counts("null"), (None, None));
    assert!(parse_message(b"{\"usage\":").is_none());
    assert!(parse_message(b"{} {}").is_none());
    assert!(parse_message(b" {} ").is_some());
}

#[test]
fn message_ids_are_random_uuids_behind_a_prefix() {
    let id = new_message_id();
    assert_eq!(id.len(), 36);
    let digits = id.strip_prefix("msg_").unwrap();
    assert!(digits
        .chars()
        .all(|digit| digit.is_ascii_digit() || ('a'..='f').contains(&digit)));
    assert_eq!(&digits[12..13], "4");
    assert!(matches!(&digits[16..17], "8" | "9" | "a" | "b"));
    assert_ne!(id, new_message_id());
    assert_eq!(message_id_from("abc"), "msg_abc");
}

#[test]
fn chat_bodies_go_where_the_client_asked() {
    let step = chat_response(Bytes::from_static(b"x"), true, "m".to_string(), "msg_1".to_string());
    match perform(step) {
        (Action::TranslateStream { message_id, model, .. }, Stage::TranslatingStream) => {
            assert_eq!(message_id, "msg_1");
            assert_eq!(model, "m");
        }
        other => panic!("unexpected step: {:?}", other),
    }
    let step = chat_response(Bytes::from_static(b"x"), false, "m".to_string(), "msg_1".to_string());
    assert!(matches!(perform(step), (Action::Accumulate { .. }, Stage::Accumulating)));
}

#[test]
fn every_course_is_short() {
    assert_eq!(StreamMeter::new(), StreamMeter { bytes: 0, chunks: 0 });
    for (model, events) in [
        (
            "glm-5",
            vec![
                Event::Translated(Ok("chat".to_string())),
                Event::Posted(Ok(7)),
                Event::Body(Ok(Bytes::new())),
                Event::Accumulated(Ok(Value::Null)),
            ],
        ),
        (
            "minimax-m3",
            vec![
                Event::Serialized(Ok(serde_json::Map::new())),
                Event::Posted(Ok(7)),
                Event::Body(Ok(Bytes::from_static(b"null"))),
            ],
        ),
    ] {
        let mut posts = 0;
        let mut step = ready().handle_messages(Some(model), false);
        for event in events {
            let (action, stage) = perform(step);
            if matches!(action, Action::Post { .. }) {
                posts += 1;
            }
            step = stage.advance(event).unwrap();
        }
        assert!(matches!(finish(step), Reply::Json(Value::Null)));
        assert_eq!(posts, 1);
    }
}

//! The course of a request: what is done in turn, what each outcome leads to, and what is
//! reported on the way.
//!
//! A request begins with a [`Step`]. While a step asks for an [`Action`], the caller performs it
//! and hands the outcome to the [`Stage`] as an [`Event`], which gives the next step. A step that
//! carries a [`Reply`] ends the course.
//!
//! `T` is the type of a translated request, which the course carries from its translation to the
//! call of the upstream. `R` is the type of a response of the upstream, which it carries from the
//! call to where the response is read or relayed.
use vstd::prelude::*;

use crate::chunk::{as_slice, content, length, share};
use crate::error::{
    map_error, mapped_error, optional_text, ErrorReply, ErrorReplyView, ErrorType, OpenCodeError,
    OpenCodeErrorView,
};
use crate::json::{
    json_members, message_of, parse_message, parsed_json, parsed_message, read_message, set_text,
    Member, Message,
};
use crate::message_id::{is_message_id, lemma_some_message_id, new_message_id};
use crate::model::{resolve, resolved, EndpointKind};
use crate::relay::{Progress, StreamMeter};
use crate::reply::{Reply, ReplyView};
use crate::sse::{count_sse_events, event_marker, event_places, matches_in};
use crate::status::{BAD_GATEWAY, BAD_REQUEST, INTERNAL_SERVER_ERROR};
use crate::text::join;

verus! {

/// The name that the upstream's chat body is captured under.
pub const CHAT_CAPTURE: &'static str = "032-upstream-response-body.sse";

/// The name that the upstream's messages body is captured under.
pub const MESSAGES_CAPTURE: &'static str = "032-upstream-response-body.json";

pub const UNSUPPORTED_MODEL: &'static str = "Unsupported OpenCode Go model: ";

pub const INVALID_CONFIGURATION: &'static str = "Invalid OpenCode Go configuration: ";

pub const STREAM_NOT_TRANSLATED: &'static str = "OpenCode Go stream translation failed: ";

pub const RESPONSE_NOT_TRANSLATED: &'static str = "OpenCode Go response translation failed: ";

pub const INVALID_JSON: &'static str = "OpenCode Go returned invalid JSON";

/// Something to report about a request, for a monitor or a traffic log where there is one.
#[derive(Debug)]
pub enum Note {
    ModelResolved { id: &'static str },
    UpstreamStarted,
    UsageUpdated { input_tokens: Option<u64>, output_tokens: Option<u64> },
    StreamProgress(Progress),
    BodyCaptured { name: &'static str, body: bytes::Bytes },
}

/// A report, by its values.
pub enum NoteView {
    ModelResolved { id: Seq<char> },
    UpstreamStarted,
    UsageUpdated { input_tokens: Option<u64>, output_tokens: Option<u64> },
    StreamProgress(Progress),
    BodyCaptured { name: Seq<char>, body: Seq<u8> },
}

impl View for Note {
    type V = NoteView;

    open spec fn view(&self) -> NoteView {
        match self {
            Note::ModelResolved { id } => NoteView::ModelResolved { id: id@ },
            Note::UpstreamStarted => NoteView::UpstreamStarted,
            Note::UsageUpdated { input_tokens, output_tokens } => NoteView::UsageUpdated {
                input_tokens: *input_tokens,
                output_tokens: *output_tokens,
            },
            Note::StreamProgress(progress) => NoteView::StreamProgress(*progress),
            Note::BodyCaptured { name, body } => NoteView::BodyCaptured {
                name: name@,
                body: content(*body),
            },
        }
    }
}

/// The body of an upstream call: a translated request, or the members of a JSON object.
#[derive(Debug)]
pub enum Payload<T> {
    Translated(T),
    Members(serde_json::Map<String, serde_json::Value>),
}

/// The body of an upstream call, by its values.
pub enum PayloadView<T> {
    Translated(T),
    Members(Map<Seq<char>, Member>),
}

impl<T> View for Payload<T> {
    type V = PayloadView<T>;

    open spec fn view(&self) -> PayloadView<T> {
        match self {
            Payload::Translated(translated) => PayloadView::Translated(*translated),
            Payload::Members(members) => PayloadView::Members(json_members(*members)),
        }
    }
}

/// Something that the caller is to do next.
#[derive(Debug)]
pub enum Action<T, R> {
    /// Translate the request into a chat completion for the model.
    Translate { id: &'static str },
    /// Write the request as a JSON object.
    Serialize,
    /// Call the upstream.
    Post { endpoint: EndpointKind, payload: Payload<T>, stream: bool },
    /// Read the whole body of the upstream's response.
    ReadBody { response: R },
    /// Translate a chat stream into an event stream of messages.
    TranslateStream { body: bytes::Bytes, message_id: String, model: String },
    /// Gather a chat stream into one message.
    Accumulate { body: bytes::Bytes, message_id: String, model: String },
    /// Count the input tokens of the request.
    CountTokens,
}

/// Something that the caller is to do next, by its values.
pub enum ActionView<T, R> {
    Translate { id: Seq<char> },
    Serialize,
    Post { endpoint: EndpointKind, payload: PayloadView<T>, stream: bool },
    ReadBody { response: R },
    TranslateStream { body: Seq<u8>, message_id: Seq<char>, model: Seq<char> },
    Accumulate { body: Seq<u8>, message_id: Seq<char>, model: Seq<char> },
    CountTokens,
}

impl<T, R> View for Action<T, R> {
    type V = ActionView<T, R>;

    open spec fn view(&self) -> ActionView<T, R> {
        match self {
            Action::Translate { id } => ActionView::Translate { id: id@ },
            Action::Serialize => ActionView::Serialize,
            Action::Post { endpoint, payload, stream } => ActionView::Post {
                endpoint: *endpoint,
                payload: payload@,
                stream: *stream,
            },
            Action::ReadBody { response } => ActionView::ReadBody { response: *response },
            Action::TranslateStream { body, message_id, model } => ActionView::TranslateStream {
                body: content(*body),
                message_id: message_id@,
                model: model@,
            },
            Action::Accumulate { body, message_id, model } => ActionView::Accumulate {
                body: content(*body),
                message_id: message_id@,
                model: model@,
            },
            Action::CountTokens => ActionView::CountTokens,
        }
    }
}

/// A translated stream, with the token counts read from it.
#[derive(Debug)]
pub struct TranslatedStream {
    pub body: bytes::Bytes,
    pub input_tokens: Option<u64>,
    pub output_tokens: Option<u64>,
}

/// A translated stream, by its values.
pub struct TranslatedStreamView {
    pub body: Seq<u8>,
    pub input_tokens: Option<u64>,
    pub output_tokens: Option<u64>,
}

impl View for TranslatedStream {
    type V = TranslatedStreamView;

    open spec fn view(&self) -> TranslatedStreamView {
        TranslatedStreamView {
            body: content(self.body),
            input_tokens: self.input_tokens,
            output_tokens: self.output_tokens,
        }
    }
}

/// The outcome of an action.
#[derive(Debug)]
pub enum Event<T, R> {
    Translated(Result<T, String>),
    Serialized(Result<serde_json::Map<String, serde_json::Value>, String>),
    Posted(Result<R, OpenCodeError>),
    Body(Result<bytes::Bytes, OpenCodeError>),
    StreamTranslated(Result<TranslatedStream, String>),
    Accumulated(Result<serde_json::Value, String>),
    Counted(u64),
}

/// The outcome of an action, by its values.
pub enum EventView<T, R> {
    Translated(Result<T, Seq<char>>),
    Serialized(Result<Map<Seq<char>, Member>, Seq<char>>),
    Posted(Result<R, OpenCodeErrorView>),
    Body(Result<Seq<u8>, OpenCodeErrorView>),
    StreamTranslated(Result<TranslatedStreamView, Seq<char>>),
    Accumulated(Result<serde_json::Value, Seq<char>>),
    Counted(u64),
}

impl<T, R> View for Event<T, R> {
    type V = EventView<T, R>;

    open spec fn view(&self) -> EventView<T, R> {
        match self {
            Event::Translated(Ok(translated)) => EventView::Translated(Ok(*translated)),
            Event::Translated(Err(error)) => EventView::Translated(Err(error@)),
            Event::Serialized(Ok(members)) => EventView::Serialized(Ok(json_members(*members))),
            Event::Serialized(Err(error)) => EventView::Serialized(Err(error@)),
            Event::Posted(Ok(response)) => EventView::Posted(Ok(*response)),
            Event::Posted(Err(error)) => EventView::Posted(Err(error@)),
            Event::Body(Ok(body)) => EventView::Body(Ok(content(*body))),
            Event::Body(Err(error)) => EventView::Body(Err(error@)),
            Event::StreamTranslated(Ok(stream)) => EventView::StreamTranslated(Ok(stream@)),
            Event::StreamTranslated(Err(error)) => EventView::StreamTranslated(Err(error@)),
            Event::Accumulated(Ok(value)) => EventView::Accumulated(Ok(*value)),
            Event::Accumulated(Err(error)) => EventView::Accumulated(Err(error@)),
            Event::Counted(tokens) => EventView::Counted(*tokens),
        }
    }
}

/// Where a request stands while an action is performed for it.
#[derive(Debug)]
pub enum Stage {
    Translating { requested: String, stream: bool },
    PostingChat { requested: String, stream: bool },
    ReadingChat { requested: String, stream: bool },
    TranslatingStream,
    Accumulating,
    Serializing { id: &'static str, stream: bool },
    PostingMessages { stream: bool },
    ReadingMessages,
    CountingTokens,
}

/// Where a request stands, by its values.
pub enum StageView {
    Translating { requested: Seq<char>, stream: bool },
    PostingChat { requested: Seq<char>, stream: bool },
    ReadingChat { requested: Seq<char>, stream: bool },
    TranslatingStream,
    Accumulating,
    Serializing { id: Seq<char>, stream: bool },
    PostingMessages { stream: bool },
    ReadingMessages,
    CountingTokens,
}

impl View for Stage {
    type V = StageView;

    open spec fn view(&self) -> StageView {
        match self {
            Stage::Translating { requested, stream } => StageView::Translating {
                requested: requested@,
                stream: *stream,
            },
            Stage::PostingChat { requested, stream } => StageView::PostingChat {
                requested: requested@,
                stream: *stream,
            },
            Stage::ReadingChat { requested, stream } => StageView::ReadingChat {
                requested: requested@,
                stream: *stream,
            },
            Stage::TranslatingStream => StageView::TranslatingStream,
            Stage::Accumulating => StageView::Accumulating,
            Stage::Serializing { id, stream } => StageView::Serializing {
                id: id@,
                stream: *stream,
            },
            Stage::PostingMessages { stream } => StageView::PostingMessages { stream: *stream },
            Stage::ReadingMessages => StageView::ReadingMessages,
            Stage::CountingTokens => StageView::CountingTokens,
        }
    }
}

/// What follows: an action and the stage that takes its outcome, or the answer.
#[derive(Debug)]
pub enum Next<T, R> {
    Perform(Action<T, R>, Stage),
    Finish(Reply<R>),
}

/// What follows, by its values.
pub enum NextView<T, R> {
    Perform(ActionView<T, R>, StageView),
    Finish(ReplyView<R>),
}

impl<T, R> View for Next<T, R> {
    type V = NextView<T, R>;

    open spec fn view(&self) -> NextView<T, R> {
        match self {
            Next::Perform(action, stage) => NextView::Perform(action@, stage@),
            Next::Finish(reply) => NextView::Finish(reply@),
        }
    }
}

/// One step in the course of a request: what to report, in order, and what follows.
#[derive(Debug)]
pub struct Step<T, R> {
    pub notes: Vec<Note>,
    pub next: Next<T, R>,
}

/// One step in the course of a request, by its values.
pub struct StepView<T, R> {
    pub notes: Seq<NoteView>,
    pub next: NextView<T, R>,
}

/// The reports of a list, by their values.
pub open spec fn note_views(notes: Seq<Note>) -> Seq<NoteView> {
    notes.map_values(|note: Note| note@)
}

impl<T, R> View for Step<T, R> {
    type V = StepView<T, R>;

    open spec fn view(&self) -> StepView<T, R> {
        StepView { notes: note_views(self.notes@), next: self.next@ }
    }
}

/// A step with nothing to report.
pub open spec fn quiet<T, R>(next: NextView<T, R>) -> StepView<T, R> {
    StepView { notes: Seq::empty(), next }
}

/// A step with one report.
pub open spec fn noted<T, R>(note: NoteView, next: NextView<T, R>) -> StepView<T, R> {
    StepView { notes: seq![note], next }
}

/// An answer that refuses, made here.
pub open spec fn refusal<T, R>(status: u16, error_type: ErrorType, message: Seq<char>) -> NextView<T, R> {
    NextView::Finish(
        ReplyView::Error(ErrorReplyView { status, error_type, message, retry_after: None }),
    )
}

/// The answer for a failure of the upstream.
pub open spec fn upstream_failure<T, R>(error: OpenCodeErrorView) -> NextView<T, R> {
    NextView::Finish(ReplyView::Error(mapped_error(error)))
}

/// The first step for a messages request. `invalid` is what is wrong with the configuration of
/// the upstream's client, if anything is.
pub open spec fn opening<T, R>(
    invalid: Option<Seq<char>>,
    requested: Seq<char>,
    stream: bool,
) -> StepView<T, R> {
    match resolved(requested) {
        None => quiet(
            refusal(BAD_REQUEST, ErrorType::InvalidRequest, UNSUPPORTED_MODEL@ + requested),
        ),
        Some(model) => StepView {
            notes: seq![NoteView::ModelResolved { id: model.id@ }, NoteView::UpstreamStarted],
            next: match invalid {
                Some(error) => refusal(
                    INTERNAL_SERVER_ERROR,
                    ErrorType::Api,
                    INVALID_CONFIGURATION@ + error,
                ),
                None => match model.endpoint {
                    EndpointKind::ChatCompletions => NextView::Perform(
                        ActionView::Translate { id: model.id@ },
                        StageView::Translating { requested, stream },
                    ),
                    EndpointKind::Messages => NextView::Perform(
                        ActionView::Serialize,
                        StageView::Serializing { id: model.id@, stream },
                    ),
                },
            },
        },
    }
}

/// The first step for a request to count tokens.
pub open spec fn count_opening<T, R>(requested: Seq<char>) -> StepView<T, R> {
    match resolved(requested) {
        None => quiet(
            refusal(BAD_REQUEST, ErrorType::InvalidRequest, UNSUPPORTED_MODEL@ + requested),
        ),
        Some(model) => noted(
            NoteView::ModelResolved { id: model.id@ },
            NextView::Perform(ActionView::CountTokens, StageView::CountingTokens),
        ),
    }
}

/// The step behind the body of a chat completion.
pub open spec fn chat_step<T, R>(
    body: Seq<u8>,
    stream: bool,
    requested: Seq<char>,
    message_id: Seq<char>,
) -> StepView<T, R> {
    noted(
        NoteView::BodyCaptured { name: CHAT_CAPTURE@, body },
        if stream {
            NextView::Perform(
                ActionView::TranslateStream { body, message_id, model: requested },
                StageView::TranslatingStream,
            )
        } else {
            NextView::Perform(
                ActionView::Accumulate { body, message_id, model: requested },
                StageView::Accumulating,
            )
        },
    )
}

/// The step behind the translation of a chat stream.
pub open spec fn chat_stream_step<T, R>(
    translated: Result<TranslatedStreamView, Seq<char>>,
) -> StepView<T, R> {
    match translated {
        Ok(stream) => noted(
            NoteView::StreamProgress(
                Progress {
                    bytes: stream.body.len() as u64,
                    events: matches_in(stream.body, event_marker()) as u64,
                    input_tokens: stream.input_tokens,
                    output_tokens: stream.output_tokens,
                },
            ),
            NextView::Finish(ReplyView::EventStream(stream.body)),
        ),
        Err(error) => quiet(
            refusal(BAD_GATEWAY, ErrorType::Api, STREAM_NOT_TRANSLATED@ + error),
        ),
    }
}

/// The report of a message's token counts.
pub open spec fn usage_note(message: Message) -> NoteView {
    NoteView::UsageUpdated {
        input_tokens: message.input_tokens,
        output_tokens: message.output_tokens,
    }
}

/// The step behind the gathering of a chat stream.
pub open spec fn chat_json_step<T, R>(accumulated: Result<Message, Seq<char>>) -> StepView<T, R> {
    match accumulated {
        Ok(message) => noted(
            usage_note(message),
            NextView::Finish(ReplyView::Json(message.value)),
        ),
        Err(error) => quiet(
            refusal(BAD_GATEWAY, ErrorType::Api, RESPONSE_NOT_TRANSLATED@ + error),
        ),
    }
}

/// The step behind the body of a message, given the message that was read from it, if one was.
pub open spec fn messages_step<T, R>(body: Seq<u8>, parsed: Option<Message>) -> StepView<T, R> {
    let captured = NoteView::BodyCaptured { name: MESSAGES_CAPTURE@, body };
    match parsed {
        Some(message) => StepView {
            notes: seq![captured, usage_note(message)],
            next: NextView::Finish(ReplyView::Json(message.value)),
        },
        None => noted(captured, refusal(BAD_GATEWAY, ErrorType::Api, INVALID_JSON@)),
    }
}

/// The members of a request with its model replaced.
pub open spec fn with_model(members: Map<Seq<char>, Member>, id: Seq<char>) -> Map<
    Seq<char>,
    Member,
> {
    members.insert("model"@, Member::Text(id))
}

/// The event is an outcome of the action that the stage waits for.
pub open spec fn expects<T, R>(stage: StageView, event: EventView<T, R>) -> bool {
    match stage {
        StageView::Translating { .. } => event is Translated,
        StageView::PostingChat { .. } => event is Posted,
        StageView::ReadingChat { .. } => event is Body,
        StageView::TranslatingStream => event is StreamTranslated,
        StageView::Accumulating => event is Accumulated,
        StageView::Serializing { .. } => event is Serialized,
        StageView::PostingMessages { .. } => event is Posted,
        StageView::ReadingMessages => event is Body,
        StageView::CountingTokens => event is Counted,
    }
}

/// The step that an outcome leads to. `message_id` is the id for a message that is made here.
pub open spec fn next_step<T, R>(
    stage: StageView,
    event: EventView<T, R>,
    message_id: Seq<char>,
) -> StepView<T, R>
    recommends
        expects(stage, event),
{
    match (stage, event) {
        (StageView::Translating { requested, stream }, EventView::Translated(Ok(translated))) =>
            quiet(
            NextView::Perform(
                ActionView::Post {
                    endpoint: EndpointKind::ChatCompletions,
                    payload: PayloadView::Translated(translated),
                    stream: true,
                },
                StageView::PostingChat { requested, stream },
            ),
        ),
        (StageView::Translating { .. }, EventView::Translated(Err(error))) => quiet(
            refusal(BAD_REQUEST, ErrorType::InvalidRequest, error),
        ),
        (StageView::PostingChat { requested, stream }, EventView::Posted(Ok(response))) => quiet(
            NextView::Perform(
                ActionView::ReadBody { response },
                StageView::ReadingChat { requested, stream },
            ),
        ),
        (StageView::ReadingChat { requested, stream }, EventView::Body(Ok(body))) => chat_step(
            body,
            stream,
            requested,
            message_id,
        ),
        (StageView::TranslatingStream, EventView::StreamTranslated(translated)) =>
            chat_stream_step(translated),
        (StageView::Accumulating, EventView::Accumulated(accumulated)) => chat_json_step(
            match accumulated {
                Ok(value) => Ok(message_of(value)),
                Err(error) => Err(error),
            },
        ),
        (StageView::Serializing { id, stream }, EventView::Serialized(Ok(members))) => quiet(
            NextView::Perform(
                ActionView::Post {
                    endpoint: EndpointKind::Messages,
                    payload: PayloadView::Members(with_model(members, id)),
                    stream,
                },
                StageView::PostingMessages { stream },
            ),
        ),
        (StageView::Serializing { .. }, EventView::Serialized(Err(error))) => quiet(
            refusal(BAD_REQUEST, ErrorType::InvalidRequest, error),
        ),
        (StageView::PostingMessages { stream }, EventView::Posted(Ok(response))) => quiet(
            if stream {
                NextView::Finish(
                    ReplyView::Relay { response, meter: StreamMeter { bytes: 0, chunks: 0 } },
                )
            } else {
                NextView::Perform(ActionView::ReadBody { response }, StageView::ReadingMessages)
            },
        ),
        (StageView::ReadingMessages, EventView::Body(Ok(body))) => messages_step(
            body,
            parsed_message(body),
        ),
        (StageView::CountingTokens, EventView::Counted(tokens)) => noted(
            NoteView::UsageUpdated { input_tokens: Some(tokens), output_tokens: None },
            NextView::Finish(ReplyView::InputTokens(tokens)),
        ),
        (_, EventView::Posted(Err(error))) => quiet(upstream_failure(error)),
        (_, EventView::Body(Err(error))) => quiet(upstream_failure(error)),
        _ => arbitrary(),
    }
}

fn quietly<T, R>(next: Next<T, R>) -> (step: Step<T, R>)
    ensures
        step@ == quiet(next@),
        step.notes@.len() == 0,
        step.next == next,
{
    let step = Step { notes: Vec::new(), next };
    assert(step@.notes =~= quiet(next@).notes);
    step
}

fn noting<T, R>(note: Note, next: Next<T, R>) -> (step: Step<T, R>)
    ensures
        step@ == noted(note@, next@),
        step.notes@ == seq![note],
        step.next == next,
{
    let mut notes: Vec<Note> = Vec::new();
    notes.push(note);
    let step = Step { notes, next };
    assert(step@.notes =~= noted(note@, next@).notes);
    step
}

fn refuse<T, R>(status: u16, error_type: ErrorType, message: String) -> (next: Next<T, R>)
    ensures
        next@ == refusal::<T, R>(status, error_type, message@),
        next == Next::<T, R>::Finish(
            Reply::Error(ErrorReply { status, error_type, message, retry_after: None }),
        ),
{
    Next::Finish(Reply::Error(ErrorReply { status, error_type, message, retry_after: None }))
}

fn fail_upstream<T, R>(error: OpenCodeError) -> (step: Step<T, R>)
    ensures
        step@ == quiet(upstream_failure::<T, R>(error@)),
{
    quietly(Next::Finish(Reply::Error(map_error(error))))
}

/// The first step for a messages request.
pub(crate) fn open_messages<T, R>(
    invalid: Option<String>,
    requested: &str,
    stream: bool,
) -> (step: Step<T, R>)
    ensures
        step@ == opening::<T, R>(optional_text(invalid), requested@, stream),
{
    match resolve(requested) {
        None => quietly(
            refuse(BAD_REQUEST, ErrorType::InvalidRequest, join(UNSUPPORTED_MODEL, requested)),
        ),
        Some(model) => {
            let mut notes: Vec<Note> = Vec::new();
            notes.push(Note::ModelResolved { id: model.id });
            notes.push(Note::UpstreamStarted);
            let next = match &invalid {
                Some(error) => refuse(
                    INTERNAL_SERVER_ERROR,
                    ErrorType::Api,
                    join(INVALID_CONFIGURATION, error.as_str()),
                ),
                None => match model.endpoint {
                    EndpointKind::ChatCompletions => Next::Perform(
                        Action::Translate { id: model.id },
                        Stage::Translating { requested: requested.to_owned(), stream },
                    ),
                    EndpointKind::Messages => Next::Perform(
                        Action::Serialize,
                        Stage::Serializing { id: model.id, stream },
                    ),
                },
            };
            let step = Step { notes, next };
            assert(step@.notes =~= opening::<T, R>(
                optional_text(invalid),
                requested@,
                stream,
            ).notes);
            step
        },
    }
}

/// The first step for a request to count tokens.
pub(crate) fn open_count<T, R>(requested: &str) -> (step: Step<T, R>)
    ensures
        step@ == count_opening::<T, R>(requested@),
{
    match resolve(requested) {
        None => quietly(
            refuse(BAD_REQUEST, ErrorType::InvalidRequest, join(UNSUPPORTED_MODEL, requested)),
        ),
        Some(model) => noting(
            Note::ModelResolved { id: model.id },
            Next::Perform(Action::CountTokens, Stage::CountingTokens),
        ),
    }
}

/// The step behind the body of a chat completion: the body is captured and handed on, with the
/// id of the message to make and the model as it was asked for.
pub fn chat_response<T, R>(
    body: bytes::Bytes,
    stream: bool,
    requested: String,
    message_id: String,
) -> (step: Step<T, R>)
    ensures
        step@ == chat_step::<T, R>(content(body), stream, requested@, message_id@),
        ({
            &&& step.notes@.len() == 1
            &&& step.notes@[0] matches Note::BodyCaptured { name, body: captured }
            &&& name@ == "032-upstream-response-body.sse"@
            &&& content(captured) == content(body)
        }),
        stream ==> ({
            &&& step.next matches Next::Perform(
                Action::TranslateStream { body: handed, message_id: id, model },
                Stage::TranslatingStream,
            )
            &&& content(handed) == content(body)
            &&& id@ == message_id@
            &&& model@ == requested@
        }),
        !stream ==> ({
            &&& step.next matches Next::Perform(
                Action::Accumulate { body: handed, message_id: id, model },
                Stage::Accumulating,
            )
            &&& content(handed) == content(body)
            &&& id@ == message_id@
            &&& model@ == requested@
        }),
{
    let note = Note::BodyCaptured { name: CHAT_CAPTURE, body: share(&body) };
    if stream {
        noting(
            note,
            Next::Perform(
                Action::TranslateStream { body, message_id, model: requested },
                Stage::TranslatingStream,
            ),
        )
    } else {
        noting(
            note,
            Next::Perform(
                Action::Accumulate { body, message_id, model: requested },
                Stage::Accumulating,
            ),
        )
    }
}

/// The step behind the translation of a chat stream: the stream is the answer, and its size, its
/// events and its token counts are reported.
pub fn chat_stream_response<T, R>(translated: Result<TranslatedStream, String>) -> (step: Step<T, R>)
    ensures
        step@ == chat_stream_step::<T, R>(
            match translated {
                Ok(stream) => Ok(stream@),
                Err(error) => Err(error@),
            },
        ),
        translated matches Ok(stream) ==> ({
            &&& step.next matches Next::Finish(Reply::EventStream(body))
            &&& content(body) == content(stream.body)
            &&& step.notes@.len() == 1
            &&& step.notes@[0] matches Note::StreamProgress(progress)
            &&& progress.bytes == content(stream.body).len()
            &&& progress.events == event_places(content(stream.body), 0).len()
            &&& progress.input_tokens == stream.input_tokens
            &&& progress.output_tokens == stream.output_tokens
        }),
        translated matches Err(error) ==> ({
            &&& step.notes@.len() == 0
            &&& step.next matches Next::Finish(Reply::Error(reply))
            &&& reply.status == 502
            &&& reply.error_type == ErrorType::Api
            &&& reply.message@ == "OpenCode Go stream translation failed: "@ + error@
            &&& reply.retry_after is None
        }),
{
    match translated {
        Ok(stream) => {
            let size: usize = length(&stream.body);
            let progress = Progress {
                bytes: size as u64,
                events: count_sse_events(as_slice(&stream.body)),
                input_tokens: stream.input_tokens,
                output_tokens: stream.output_tokens,
            };
            noting(Note::StreamProgress(progress), Next::Finish(Reply::EventStream(stream.body)))
        },
        Err(error) => quietly(
            refuse(BAD_GATEWAY, ErrorType::Api, join(STREAM_NOT_TRANSLATED, error.as_str())),
        ),
    }
}

/// The step behind the gathering of a chat stream: the message is the answer, and its token
/// counts are reported.
pub fn chat_json_response<T, R>(accumulated: Result<Message, String>) -> (step: Step<T, R>)
    ensures
        step@ == chat_json_step::<T, R>(
            match accumulated {
                Ok(message) => Ok(message),
                Err(error) => Err(error@),
            },
        ),
        accumulated matches Ok(message) ==> ({
            &&& step.next == Next::<T, R>::Finish(Reply::Json(message.value))
            &&& step.notes@.len() == 1
            &&& step.notes@[0] == (Note::UsageUpdated {
                input_tokens: message.input_tokens,
                output_tokens: message.output_tokens,
            })
        }),
        accumulated matches Err(error) ==> ({
            &&& step.notes@.len() == 0
            &&& step.next matches Next::Finish(Reply::Error(reply))
            &&& reply.status == 502
            &&& reply.error_type == ErrorType::Api
            &&& reply.message@ == "OpenCode Go response translation failed: "@ + error@
            &&& reply.retry_after is None
        }),
{
    match accumulated {
        Ok(message) => noting(
            Note::UsageUpdated {
                input_tokens: message.input_tokens,
                output_tokens: message.output_tokens,
            },
            Next::Finish(Reply::Json(message.value)),
        ),
        Err(error) => quietly(
            refuse(BAD_GATEWAY, ErrorType::Api, join(RESPONSE_NOT_TRANSLATED, error.as_str())),
        ),
    }
}

/// The step behind the body of a message: the body is captured; a JSON value is the answer, and
/// its token counts are reported; anything else is refused.
pub fn messages_response<T, R>(body: bytes::Bytes) -> (step: Step<T, R>)
    ensures
        step@ == messages_step::<T, R>(content(body), parsed_message(content(body))),
        ({
            &&& step.notes@.len() >= 1
            &&& step.notes@[0] matches Note::BodyCaptured { name, body: captured }
            &&& name@ == "032-upstream-response-body.json"@
            &&& content(captured) == content(body)
        }),
        parsed_json(content(body)) matches Some(value) ==> step.next == Next::<T, R>::Finish(
            Reply::Json(value),
        ),
        parsed_json(content(body)) is None ==> ({
            &&& step.next matches Next::Finish(Reply::Error(reply))
            &&& reply.status == 502
            &&& reply.error_type == ErrorType::Api
            &&& reply.message@ == "OpenCode Go returned invalid JSON"@
            &&& reply.retry_after is None
        }),
{
    let parsed = parse_message(as_slice(&body));
    messages_response_from(body, parsed)
}

/// The step behind the body of a message, given the message that was read from it, if one was.
pub fn messages_response_from<T, R>(body: bytes::Bytes, parsed: Option<Message>) -> (step: Step<T, R>)
    ensures
        step@ == messages_step::<T, R>(content(body), parsed),
        ({
            &&& step.notes@.len() >= 1
            &&& step.notes@[0] matches Note::BodyCaptured { name, body: captured }
            &&& name@ == "032-upstream-response-body.json"@
            &&& content(captured) == content(body)
        }),
        parsed matches Some(message) ==> ({
            &&& step.next == Next::<T, R>::Finish(Reply::Json(message.value))
            &&& step.notes@.len() == 2
            &&& step.notes@[1] == (Note::UsageUpdated {
                input_tokens: message.input_tokens,
                output_tokens: message.output_tokens,
            })
        }),
        parsed is None ==> ({
            &&& step.notes@.len() == 1
            &&& step.next matches Next::Finish(Reply::Error(reply))
            &&& reply.status == 502
            &&& reply.error_type == ErrorType::Api
            &&& reply.message@ == "OpenCode Go returned invalid JSON"@
            &&& reply.retry_after is None
        }),
{
    let captured = Note::BodyCaptured { name: MESSAGES_CAPTURE, body };
    match parsed {
        Some(message) => {
            let mut notes: Vec<Note> = Vec::new();
            notes.push(captured);
            notes.push(
                Note::UsageUpdated {
                    input_tokens: message.input_tokens,
                    output_tokens: message.output_tokens,
                },
            );
            let step = Step { notes, next: Next::Finish(Reply::Json(message.value)) };
            assert(step@.notes =~= messages_step::<T, R>(content(body), parsed).notes);
            step
        },
        None => noting(captured, refuse(BAD_GATEWAY, ErrorType::Api, INVALID_JSON.to_owned())),
    }
}

impl Stage {
    /// The step that an outcome leads to, or `None` where the event is not an outcome of the
    /// action that the stage waits for.
    pub fn advance<T, R>(self, event: Event<T, R>) -> (step: Option<Step<T, R>>)
        ensures
            step is Some <==> expects(self@, event@),
            step matches Some(step) ==> exists|id: Seq<char>|
                is_message_id(id) && step@ == #[trigger] next_step(self@, event@, id),
    {
        let ghost mut some_id = lemma_some_message_id();
        let step = match (self, event) {
            (Stage::Translating { requested, stream }, Event::Translated(translated)) => {
                match translated {
                    Ok(translated) => quietly(
                        Next::Perform(
                            Action::Post {
                                endpoint: EndpointKind::ChatCompletions,
                                payload: Payload::Translated(translated),
                                stream: true,
                            },
                            Stage::PostingChat { requested, stream },
                        ),
                    ),
                    Err(error) => quietly(refuse(BAD_REQUEST, ErrorType::InvalidRequest, error)),
                }
            },
            (Stage::PostingChat { requested, stream }, Event::Posted(posted)) => match posted {
                Ok(response) => quietly(
                    Next::Perform(
                        Action::ReadBody { response },
                        Stage::ReadingChat { requested, stream },
                    ),
                ),
                Err(error) => fail_upstream(error),
            },
            (Stage::ReadingChat { requested, stream }, Event::Body(body)) => match body {
                Ok(body) => {
                    let message_id = new_message_id();
                    proof {
                        some_id = message_id@;
                    }
                    chat_response(body, stream, requested, message_id)
                },
                Err(error) => fail_upstream(error),
            },
            (Stage::TranslatingStream, Event::StreamTranslated(translated)) => {
                chat_stream_response(translated)
            },
            (Stage::Accumulating, Event::Accumulated(accumulated)) => match accumulated {
                Ok(value) => chat_json_response(Ok(read_message(value))),
                Err(error) => chat_json_response(Err(error)),
            },
            (Stage::Serializing { id, stream }, Event::Serialized(serialized)) => {
                match serialized {
                    Ok(members) => {
                        let mut members = members;
                        set_text(&mut members, "model", id);
                        quietly(
                            Next::Perform(
                                Action::Post {
                                    endpoint: EndpointKind::Messages,
                                    payload: Payload::Members(members),
                                    stream,
                                },
                                Stage::PostingMessages { stream },
                            ),
                        )
                    },
                    Err(error) => quietly(refuse(BAD_REQUEST, ErrorType::InvalidRequest, error)),
                }
            },
            (Stage::PostingMessages { stream }, Event::Posted(posted)) => match posted {
                Ok(response) => if stream {
                    quietly(Next::Finish(Reply::Relay { response, meter: StreamMeter::new() }))
                } else {
                    quietly(Next::Perform(Action::ReadBody { response }, Stage::ReadingMessages))
                },
                Err(error) => fail_upstream(error),
            },
            (Stage::ReadingMessages, Event::Body(body)) => match body {
                Ok(body) => messages_response(body),
                Err(error) => fail_upstream(error),
            },
            (Stage::CountingTokens, Event::Counted(tokens)) => noting(
                Note::UsageUpdated { input_tokens: Some(tokens), output_tokens: None },
                Next::Finish(Reply::InputTokens(tokens)),
            ),
            _ => {
                return None;
            },
        };
        assert(step@ == next_step(self@, event@, some_id));
        Some(step)
    }
}

} // verus!

//! What holds of each step in the course of a request, by what goes into it and what comes out.
use vstd::prelude::*;

use crate::chunk::content;
use crate::error::{ErrorReplyView, ErrorType, OpenCodeErrorView};
use crate::exchange::{
    count_opening, expects, next_step, note_views, opening, Action, ActionView, Event, EventView,
    Next, NextView, Note, NoteView, Payload, PayloadView, Stage, StageView, Step, TranslatedStream,
    TranslatedStreamView,
};
use crate::json::{json_integers, json_members, parsed_json, Member};
use crate::model::{resolved, EndpointKind};
use crate::relay::StreamMeter;
use crate::reply::ReplyView;
use crate::sse::{event_places, lemma_events_fit};

verus! {

/// The first step for a messages request. A name that stands for no model is refused, with the
/// name in the message and nothing reported. Otherwise the model and the start are reported; an
/// invalid configuration is answered by what is wrong with it, and with a valid one the request
/// is translated for a chat model, under its id, or written as it is for a messages model.
pub proof fn law_first_step_of_a_messages_request<T, R>(
    invalid: Option<Seq<char>>,
    requested: Seq<char>,
    stream: bool,
)
    ensures
        ({
            let step = opening::<T, R>(invalid, requested, stream);
            match resolved(requested) {
                None => {
                    &&& step.notes.len() == 0
                    &&& step.next == NextView::<T, R>::Finish(
                        ReplyView::Error(
                            ErrorReplyView {
                                status: 400,
                                error_type: ErrorType::InvalidRequest,
                                message: "Unsupported OpenCode Go model: "@ + requested,
                                retry_after: None,
                            },
                        ),
                    )
                },
                Some(model) => {
                    &&& step.notes.len() == 2
                    &&& step.notes[0] == (NoteView::ModelResolved { id: model.id@ })
                    &&& step.notes[1] == NoteView::UpstreamStarted
                    &&& invalid matches Some(error) ==> step.next == NextView::<T, R>::Finish(
                        ReplyView::Error(
                            ErrorReplyView {
                                status: 500,
                                error_type: ErrorType::Api,
                                message: "Invalid OpenCode Go configuration: "@ + error,
                                retry_after: None,
                            },
                        ),
                    )
                    &&& invalid is None && model.endpoint == EndpointKind::ChatCompletions
                        ==> step.next == NextView::<T, R>::Perform(
                        ActionView::Translate { id: model.id@ },
                        StageView::Translating { requested, stream },
                    )
                    &&& invalid is None && model.endpoint == EndpointKind::Messages ==> step.next
                        == NextView::<T, R>::Perform(
                        ActionView::Serialize,
                        StageView::Serializing { id: model.id@, stream },
                    )
                },
            }
        }),
{
}

/// The first step for a request to count tokens: a name that stands for no model is refused as
/// for messages; for any other the model is reported and the tokens are counted, whatever the
/// configuration.
pub proof fn law_first_step_of_counting<T, R>(requested: Seq<char>)
    ensures
        ({
            let step = count_opening::<T, R>(requested);
            match resolved(requested) {
                None => {
                    &&& step.notes.len() == 0
                    &&& step.next == NextView::<T, R>::Finish(
                        ReplyView::Error(
                            ErrorReplyView {
                                status: 400,
                                error_type: ErrorType::InvalidRequest,
                                message: "Unsupported OpenCode Go model: "@ + requested,
                                retry_after: None,
                            },
                        ),
                    )
                },
                Some(model) => {
                    &&& step.notes.len() == 1
                    &&& step.notes[0] == (NoteView::ModelResolved { id: model.id@ })
                    &&& step.next == NextView::<T, R>::Perform(
                        ActionView::CountTokens,
                        StageView::CountingTokens,
                    )
                },
            }
        }),
{
}

/// A translated request is posted for a chat completion, as it is and streaming, and what the
/// client asked for is kept beside it.
pub proof fn law_translated_request_is_posted<T, R>(
    requested: Seq<char>,
    stream: bool,
    request: T,
    message_id: Seq<char>,
)
    ensures
        ({
            let stage = StageView::Translating { requested, stream };
            let event = EventView::<T, R>::Translated(Ok(request));
            let step = next_step::<T, R>(stage, event, message_id);
            &&& expects::<T, R>(stage, event)
            &&& step.notes.len() == 0
            &&& step.next == NextView::<T, R>::Perform(
                ActionView::Post {
                    endpoint: EndpointKind::ChatCompletions,
                    payload: PayloadView::Translated(request),
                    stream: true,
                },
                StageView::PostingChat { requested, stream },
            )
        }),
{
}

/// A request that cannot be translated, or cannot be written, is refused as invalid, with the
/// reason as the whole message.
pub proof fn law_unusable_request_is_refused<T, R>(
    requested: Seq<char>,
    id: Seq<char>,
    stream: bool,
    reason: Seq<char>,
    message_id: Seq<char>,
)
    ensures
        ({
            let translating = StageView::Translating { requested, stream };
            let untranslated = EventView::<T, R>::Translated(Err(reason));
            let serializing = StageView::Serializing { id, stream };
            let unwritten = EventView::<T, R>::Serialized(Err(reason));
            let refused = NextView::<T, R>::Finish(
                ReplyView::Error(
                    ErrorReplyView {
                        status: 400,
                        error_type: ErrorType::InvalidRequest,
                        message: reason,
                        retry_after: None,
                    },
                ),
            );
            &&& expects::<T, R>(translating, untranslated)
            &&& next_step::<T, R>(translating, untranslated, message_id).next == refused
            &&& next_step::<T, R>(translating, untranslated, message_id).notes.len() == 0
            &&& expects::<T, R>(serializing, unwritten)
            &&& next_step::<T, R>(serializing, unwritten, message_id).next == refused
            &&& next_step::<T, R>(serializing, unwritten, message_id).notes.len() == 0
        }),
{
}

/// The members of a messages request are posted for a message, streaming exactly where the client
/// asked for a stream. Their `model` is the catalogue id; every other member is as it was, and
/// none is added.
pub proof fn law_written_request_is_posted<T, R>(
    id: Seq<char>,
    stream: bool,
    members: Map<Seq<char>, Member>,
    message_id: Seq<char>,
)
    ensures
        ({
            let stage = StageView::Serializing { id, stream };
            let event = EventView::<T, R>::Serialized(Ok(members));
            let step = next_step::<T, R>(stage, event, message_id);
            &&& expects::<T, R>(stage, event)
            &&& step.notes.len() == 0
            &&& step.next matches NextView::Perform(
                ActionView::Post { endpoint, payload: PayloadView::Members(sent), stream: streamed },
                StageView::PostingMessages { stream: kept },
            )
            &&& endpoint == EndpointKind::Messages
            &&& streamed == stream
            &&& kept == stream
            &&& sent.dom() == members.dom().insert("model"@)
            &&& sent["model"@] == Member::Text(id)
            &&& forall|key: Seq<char>|
                key != "model"@ && members.contains_key(key) ==> #[trigger] sent[key]
                    == members[key]
        }),
{
}

/// The response to a chat call is read whole, whether or not the client asked for a stream.
pub proof fn law_chat_response_is_read<T, R>(
    requested: Seq<char>,
    stream: bool,
    response: R,
    message_id: Seq<char>,
)
    ensures
        ({
            let stage = StageView::PostingChat { requested, stream };
            let event = EventView::<T, R>::Posted(Ok(response));
            let step = next_step::<T, R>(stage, event, message_id);
            &&& expects::<T, R>(stage, event)
            &&& step.notes.len() == 0
            &&& step.next == NextView::<T, R>::Perform(
                ActionView::ReadBody { response },
                StageView::ReadingChat { requested, stream },
            )
        }),
{
}

/// The body of a chat response is captured and handed on whole, with the message id at hand and
/// the name that the client asked for: to be translated for a stream, to be gathered otherwise.
pub proof fn law_chat_body_is_handed_on<T, R>(
    requested: Seq<char>,
    stream: bool,
    body: Seq<u8>,
    message_id: Seq<char>,
)
    ensures
        ({
            let stage = StageView::ReadingChat { requested, stream };
            let event = EventView::<T, R>::Body(Ok(body));
            let step = next_step::<T, R>(stage, event, message_id);
            &&& expects::<T, R>(stage, event)
            &&& step.notes.len() == 1
            &&& step.notes[0] == (NoteView::BodyCaptured {
                name: "032-upstream-response-body.sse"@,
                body,
            })
            &&& stream ==> step.next == NextView::<T, R>::Perform(
                ActionView::TranslateStream { body, message_id, model: requested },
                StageView::TranslatingStream,
            )
            &&& !stream ==> step.next == NextView::<T, R>::Perform(
                ActionView::Accumulate { body, message_id, model: requested },
                StageView::Accumulating,
            )
        }),
{
}

/// A translated stream is the answer as it is, and its size in bytes, the number of places at
/// which `event:` stands in it, and its token counts are reported.
pub proof fn law_translated_stream_is_answered<T, R>(
    translated: TranslatedStreamView,
    message_id: Seq<char>,
)
    requires
        translated.body.len() <= u64::MAX,
    ensures
        ({
            let event = EventView::<T, R>::StreamTranslated(Ok(translated));
            let step = next_step::<T, R>(StageView::TranslatingStream, event, message_id);
            &&& expects::<T, R>(StageView::TranslatingStream, event)
            &&& step.next == NextView::<T, R>::Finish(ReplyView::EventStream(translated.body))
            &&& step.notes.len() == 1
            &&& step.notes[0] matches NoteView::StreamProgress(progress)
            &&& progress.bytes == translated.body.len()
            &&& progress.events == event_places(translated.body, 0).len()
            &&& progress.input_tokens == translated.input_tokens
            &&& progress.output_tokens == translated.output_tokens
        }),
{
    lemma_events_fit(translated.body);
}

/// A chat body that cannot be translated or gathered is answered as a failure of the upstream,
/// with the reason behind what failed.
pub proof fn law_unusable_chat_body_is_a_bad_gateway<T, R>(
    reason: Seq<char>,
    message_id: Seq<char>,
)
    ensures
        ({
            let untranslated = EventView::<T, R>::StreamTranslated(Err(reason));
            let streaming = next_step::<T, R>(
                StageView::TranslatingStream,
                untranslated,
                message_id,
            );
            let ungathered = EventView::<T, R>::Accumulated(Err(reason));
            let gathering = next_step::<T, R>(StageView::Accumulating, ungathered, message_id);
            &&& expects::<T, R>(StageView::TranslatingStream, untranslated)
            &&& streaming.notes.len() == 0
            &&& streaming.next == NextView::<T, R>::Finish(
                ReplyView::Error(
                    ErrorReplyView {
                        status: 502,
                        error_type: ErrorType::Api,
                        message: "OpenCode Go stream translation failed: "@ + reason,
                        retry_after: None,
                    },
                ),
            )
            &&& expects::<T, R>(StageView::Accumulating, ungathered)
            &&& gathering.notes.len() == 0
            &&& gathering.next == NextView::<T, R>::Finish(
                ReplyView::Error(
                    ErrorReplyView {
                        status: 502,
                        error_type: ErrorType::Api,
                        message: "OpenCode Go response translation failed: "@ + reason,
                        retry_after: None,
                    },
                ),
            )
        }),
{
}

/// The report gives the token counts that a JSON value holds as `usage.input_tokens` and
/// `usage.output_tokens`, and none for one that it does not hold.
pub open spec fn reports_usage(note: NoteView, value: serde_json::Value) -> bool {
    &&& note matches NoteView::UsageUpdated { input_tokens, output_tokens }
    &&& input_tokens is Some <==> json_integers(value).contains_key("/usage/input_tokens"@)
    &&& input_tokens matches Some(tokens) ==> tokens
        == json_integers(value)["/usage/input_tokens"@]
    &&& output_tokens is Some <==> json_integers(value).contains_key("/usage/output_tokens"@)
    &&& output_tokens matches Some(tokens) ==> tokens
        == json_integers(value)["/usage/output_tokens"@]
}

/// A gathered message is the answer as it is, and its token counts are reported.
pub proof fn law_gathered_message_is_answered<T, R>(value: serde_json::Value, message_id: Seq<char>)
    ensures
        ({
            let event = EventView::<T, R>::Accumulated(Ok(value));
            let step = next_step::<T, R>(StageView::Accumulating, event, message_id);
            &&& expects::<T, R>(StageView::Accumulating, event)
            &&& step.next == NextView::<T, R>::Finish(ReplyView::Json(value))
            &&& step.notes.len() == 1
            &&& reports_usage(step.notes[0], value)
        }),
{
}

/// The response to a messages call is relayed from a meter at zero where the client asked for a
/// stream, and read whole otherwise.
pub proof fn law_messages_response_is_relayed_or_read<T, R>(
    stream: bool,
    response: R,
    message_id: Seq<char>,
)
    ensures
        ({
            let stage = StageView::PostingMessages { stream };
            let event = EventView::<T, R>::Posted(Ok(response));
            let step = next_step::<T, R>(stage, event, message_id);
            &&& expects::<T, R>(stage, event)
            &&& step.notes.len() == 0
            &&& stream ==> step.next == NextView::<T, R>::Finish(
                ReplyView::Relay { response, meter: StreamMeter { bytes: 0, chunks: 0 } },
            )
            &&& !stream ==> step.next == NextView::<T, R>::Perform(
                ActionView::ReadBody { response },
                StageView::ReadingMessages,
            )
        }),
{
}

/// The body of a messages response is captured whole. Where it is JSON, its value is the answer
/// and its token counts are reported; where it is not, the answer says so.
pub proof fn law_messages_body_is_answered<T, R>(body: Seq<u8>, message_id: Seq<char>)
    ensures
        ({
            let event = EventView::<T, R>::Body(Ok(body));
            let step = next_step::<T, R>(StageView::ReadingMessages, event, message_id);
            &&& expects::<T, R>(StageView::ReadingMessages, event)
            &&& step.notes.len() >= 1
            &&& step.notes[0] == (NoteView::BodyCaptured {
                name: "032-upstream-response-body.json"@,
                body,
            })
            &&& parsed_json(body) matches Some(value) ==> {
                &&& step.next == NextView::<T, R>::Finish(ReplyView::Json(value))
                &&& step.notes.len() == 2
                &&& reports_usage(step.notes[1], value)
            }
            &&& parsed_json(body) is None ==> {
                &&& step.notes.len() == 1
                &&& step.next == NextView::<T, R>::Finish(
                    ReplyView::Error(
                        ErrorReplyView {
                            status: 502,
                            error_type: ErrorType::Api,
                            message: "OpenCode Go returned invalid JSON"@,
                            retry_after: None,
                        },
                    ),
                )
            }
        }),
{
}

/// The count of tokens is the answer, and it is reported as the input of the request; no output
/// is reported.
pub proof fn law_count_is_answered_and_reported<T, R>(tokens: u64, message_id: Seq<char>)
    ensures
        ({
            let event = EventView::<T, R>::Counted(tokens);
            let step = next_step::<T, R>(StageView::CountingTokens, event, message_id);
            &&& expects::<T, R>(StageView::CountingTokens, event)
            &&& step.next == NextView::<T, R>::Finish(ReplyView::InputTokens(tokens))
            &&& step.notes.len() == 1
            &&& step.notes[0] == (NoteView::UsageUpdated {
                input_tokens: Some(tokens),
                output_tokens: None,
            })
        }),
{
}

/// A call that fails, and a body that fails while it is read, are answered alike in every stage
/// that waits for one: with the message and the retry hint of the failure, 502 for a failure of
/// the upstream server and the status of the failure otherwise, in the class of the status.
/// Nothing is reported.
pub proof fn law_upstream_failures_are_answered_alike<T, R>(
    stage: StageView,
    error: OpenCodeErrorView,
    message_id: Seq<char>,
)
    ensures
        stage is PostingChat || stage is PostingMessages <==> expects::<T, R>(
            stage,
            EventView::Posted(Err(error)),
        ),
        stage is ReadingChat || stage is ReadingMessages <==> expects::<T, R>(
            stage,
            EventView::Body(Err(error)),
        ),
        ({
            let step = if stage is PostingChat || stage is PostingMessages {
                next_step::<T, R>(stage, EventView::Posted(Err(error)), message_id)
            } else {
                next_step::<T, R>(stage, EventView::Body(Err(error)), message_id)
            };
            stage is PostingChat || stage is PostingMessages || stage is ReadingChat
                || stage is ReadingMessages ==> {
                &&& step.notes.len() == 0
                &&& step.next matches NextView::Finish(ReplyView::Error(answer))
                &&& answer.message == error.message
                &&& answer.retry_after == error.retry_after
                &&& 500 <= error.status <= 599 ==> answer.status == 502
                &&& !(500 <= error.status <= 599) ==> answer.status == error.status
                &&& answer.error_type == ErrorType::Authentication <==> error.status == 401
                    || error.status == 403
                &&& answer.error_type == ErrorType::RateLimit <==> error.status == 429
                &&& answer.error_type == ErrorType::InvalidRequest <==> 400 <= error.status <= 499
                    && error.status != 401 && error.status != 403 && error.status != 429
            }
        }),
{
}

/// An outcome is taken by the stages that wait for its action, whatever it holds, and by no
/// other.
pub proof fn law_stages_take_the_outcomes_they_wait_for<T, R>(
    stage: StageView,
    event: EventView<T, R>,
)
    ensures
        expects::<T, R>(stage, event) <==> ({
            ||| stage is Translating && event is Translated
            ||| stage is Serializing && event is Serialized
            ||| (stage is PostingChat || stage is PostingMessages) && event is Posted
            ||| (stage is ReadingChat || stage is ReadingMessages) && event is Body
            ||| stage is TranslatingStream && event is StreamTranslated
            ||| stage is Accumulating && event is Accumulated
            ||| stage is CountingTokens && event is Counted
        }),
{
}

/// The message id bears on one step alone: that behind the body of a chat response.
pub proof fn law_message_id_bears_on_chat_bodies_alone<T, R>(
    stage: StageView,
    event: EventView<T, R>,
    message_id: Seq<char>,
    other_id: Seq<char>,
)
    requires
        expects::<T, R>(stage, event),
        !(stage is ReadingChat && event->Body_0 is Ok),
    ensures
        next_step::<T, R>(stage, event, message_id) == next_step::<T, R>(stage, event, other_id),
{
}

/// A report shows what it holds.
pub proof fn law_note_views_are_exact(note: Note, notes: Seq<Note>)
    ensures
        match note {
            Note::ModelResolved { id } => note@ matches NoteView::ModelResolved { id: seen } && seen
                == id@,
            Note::UpstreamStarted => note@ is UpstreamStarted,
            Note::UsageUpdated { input_tokens, output_tokens } => note@
                matches NoteView::UsageUpdated { input_tokens: input, output_tokens: output }
                && input == input_tokens && output == output_tokens,
            Note::StreamProgress(progress) => note@ matches NoteView::StreamProgress(seen) && seen
                == progress,
            Note::BodyCaptured { name, body } => note@ matches NoteView::BodyCaptured {
                name: under,
                body: seen,
            } && under == name@ && seen == content(body),
        },
        note_views(notes).len() == notes.len(),
        forall|i: int| 0 <= i < notes.len() ==> (#[trigger] note_views(notes)[i]) == notes[i]@,
{
}

/// An action shows what it holds.
pub proof fn law_action_views_are_exact<T, R>(action: Action<T, R>)
    ensures
        match action {
            Action::Translate { id } => action@ matches ActionView::Translate { id: seen } && seen
                == id@,
            Action::Serialize => action@ is Serialize,
            Action::Post { endpoint, payload, stream } => {
                &&& action@ matches ActionView::Post {
                    endpoint: called,
                    payload: sent,
                    stream: streamed,
                }
                &&& called == endpoint
                &&& streamed == stream
                &&& match payload {
                    Payload::Translated(request) => sent matches PayloadView::Translated(seen)
                        && seen == request,
                    Payload::Members(members) => sent matches PayloadView::Members(seen) && seen
                        == json_members(members),
                }
            },
            Action::ReadBody { response } => action@ matches ActionView::ReadBody { response: seen }
                && seen == response,
            Action::TranslateStream { body, message_id, model } => action@
                matches ActionView::TranslateStream { body: seen, message_id: id, model: name }
                && seen == content(body) && id == message_id@ && name == model@,
            Action::Accumulate { body, message_id, model } => action@
                matches ActionView::Accumulate { body: seen, message_id: id, model: name } && seen
                == content(body) && id == message_id@ && name == model@,
            Action::CountTokens => action@ is CountTokens,
        },
{
}

/// A translated stream shows what it holds.
pub proof fn law_translated_stream_views_are_exact(stream: TranslatedStream)
    ensures
        stream@.body == content(stream.body),
        stream@.input_tokens == stream.input_tokens,
        stream@.output_tokens == stream.output_tokens,
{
}

/// An outcome shows what it holds.
pub proof fn law_event_views_are_exact<T, R>(event: Event<T, R>)
    ensures
        match event {
            Event::Translated(outcome) => {
                &&& event@ matches EventView::Translated(seen)
                &&& outcome matches Ok(request) ==> seen == Ok::<T, Seq<char>>(request)
                &&& outcome matches Err(reason) ==> seen == Err::<T, Seq<char>>(reason@)
            },
            Event::Serialized(outcome) => {
                &&& event@ matches EventView::Serialized(seen)
                &&& outcome matches Ok(members) ==> seen == Ok::<
                    Map<Seq<char>, Member>,
                    Seq<char>,
                >(json_members(members))
                &&& outcome matches Err(reason) ==> seen == Err::<
                    Map<Seq<char>, Member>,
                    Seq<char>,
                >(reason@)
            },
            Event::Posted(outcome) => {
                &&& event@ matches EventView::Posted(seen)
                &&& outcome matches Ok(response) ==> seen == Ok::<R, OpenCodeErrorView>(response)
                &&& outcome matches Err(error) ==> seen == Err::<R, OpenCodeErrorView>(error@)
            },
            Event::Body(outcome) => {
                &&& event@ matches EventView::Body(seen)
                &&& outcome matches Ok(body) ==> seen == Ok::<Seq<u8>, OpenCodeErrorView>(
                    content(body),
                )
                &&& outcome matches Err(error) ==> seen == Err::<Seq<u8>, OpenCodeErrorView>(error@)
            },
            Event::StreamTranslated(outcome) => {
                &&& event@ matches EventView::StreamTranslated(seen)
                &&& outcome matches Ok(stream) ==> seen == Ok::<TranslatedStreamView, Seq<char>>(
                    stream@,
                )
                &&& outcome matches Err(reason) ==> seen == Err::<TranslatedStreamView, Seq<char>>(
                    reason@,
                )
            },
            Event::Accumulated(outcome) => {
                &&& event@ matches EventView::Accumulated(seen)
                &&& outcome matches Ok(value) ==> seen == Ok::<serde_json::Value, Seq<char>>(value)
                &&& outcome matches Err(reason) ==> seen == Err::<serde_json::Value, Seq<char>>(
                    reason@,
                )
            },
            Event::Counted(tokens) => event@ matches EventView::Counted(seen) && seen == tokens,
        },
{
}

/// A stage shows what it keeps.
pub proof fn law_stage_views_are_exact(stage: Stage)
    ensures
        match stage {
            Stage::Translating { requested, stream } => stage@ matches StageView::Translating {
                requested: name,
                stream: streamed,
            } && name == requested@ && streamed == stream,
            Stage::PostingChat { requested, stream } => stage@ matches StageView::PostingChat {
                requested: name,
                stream: streamed,
            } && name == requested@ && streamed == stream,
            Stage::ReadingChat { requested, stream } => stage@ matches StageView::ReadingChat {
                requested: name,
                stream: streamed,
            } && name == requested@ && streamed == stream,
            Stage::TranslatingStream => stage@ is TranslatingStream,
            Stage::Accumulating => stage@ is Accumulating,
            Stage::Serializing { id, stream } => stage@ matches StageView::Serializing {
                id: name,
                stream: streamed,
            } && name == id@ && streamed == stream,
            Stage::PostingMessages { stream } => stage@ matches StageView::PostingMessages {
                stream: streamed,
            } && streamed == stream,
            Stage::ReadingMessages => stage@ is ReadingMessages,
            Stage::CountingTokens => stage@ is CountingTokens,
        },
{
}

/// A step shows its reports in turn and what follows.
pub proof fn law_step_views_are_exact<T, R>(step: Step<T, R>)
    ensures
        step@.notes.len() == step.notes@.len(),
        forall|i: int| 0 <= i < step.notes@.len() ==> (#[trigger] step@.notes[i]) == step.notes@[i]@,
        match step.next {
            Next::Perform(action, stage) => step@.next matches NextView::Perform(asked, kept)
                && asked == action@ && kept == stage@,
            Next::Finish(reply) => step@.next matches NextView::Finish(answer) && answer == reply@,
        },
{
}

} // verus!

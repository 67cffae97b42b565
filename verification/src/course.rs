//! What holds of the whole course of a request.
pub mod steps;

use vstd::prelude::*;

use crate::error::{mapped_error, ErrorType, OpenCodeErrorView};
use crate::exchange::{
    chat_step, count_opening, expects, next_step, opening, quiet, refusal, usage_note, with_model,
    ActionView, EventView, NextView, NoteView, PayloadView, StageView, TranslatedStreamView,
    CHAT_CAPTURE, INVALID_CONFIGURATION, INVALID_JSON, MESSAGES_CAPTURE, UNSUPPORTED_MODEL,
};
use crate::json::{message_of, parsed_json, Member};
use crate::model::{resolved, EndpointKind};
use crate::relay::StreamMeter;
use crate::reply::ReplyView;
use crate::status::{BAD_GATEWAY, BAD_REQUEST, INTERNAL_SERVER_ERROR, TOO_MANY_REQUESTS};

verus! {

/// The event is an outcome of the action.
pub open spec fn answers<T, R>(action: ActionView<T, R>, event: EventView<T, R>) -> bool {
    match action {
        ActionView::Translate { .. } => event is Translated,
        ActionView::Serialize => event is Serialized,
        ActionView::Post { .. } => event is Posted,
        ActionView::ReadBody { .. } => event is Body,
        ActionView::TranslateStream { .. } => event is StreamTranslated,
        ActionView::Accumulate { .. } => event is Accumulated,
        ActionView::CountTokens => event is Counted,
    }
}

/// Where a step asks for an action, the stage beside it waits for the outcomes of that action.
pub open spec fn coherent<T, R>(next: NextView<T, R>) -> bool {
    match next {
        NextView::Perform(action, stage) => forall|event: EventView<T, R>|
            expects::<T, R>(stage, event) <==> answers(action, event),
        NextView::Finish(_) => true,
    }
}

/// A caller who performs what is asked and hands the outcome back is never turned away: each step
/// asks for an action whose outcomes its stage waits for.
pub proof fn law_outcomes_are_taken<T, R>(
    invalid: Option<Seq<char>>,
    requested: Seq<char>,
    stream: bool,
    stage: StageView,
    event: EventView<T, R>,
    message_id: Seq<char>,
)
    ensures
        coherent(opening::<T, R>(invalid, requested, stream).next),
        coherent(count_opening::<T, R>(requested).next),
        expects::<T, R>(stage, event) ==> coherent(next_step::<T, R>(stage, event, message_id).next),
{
}

/// How many actions are still to come at most, the present one included.
pub open spec fn rank<T, R>(next: NextView<T, R>) -> nat {
    match next {
        NextView::Finish(_) => 0,
        NextView::Perform(_, stage) => match stage {
            StageView::Translating { .. } => 4,
            StageView::PostingChat { .. } => 3,
            StageView::ReadingChat { .. } => 2,
            StageView::TranslatingStream => 1,
            StageView::Accumulating => 1,
            StageView::Serializing { .. } => 3,
            StageView::PostingMessages { .. } => 2,
            StageView::ReadingMessages => 1,
            StageView::CountingTokens => 1,
        },
    }
}

/// The course of a request comes to an end: every outcome brings it closer to its answer.
pub proof fn law_course_moves_on<T, R>(
    action: ActionView<T, R>,
    stage: StageView,
    event: EventView<T, R>,
    message_id: Seq<char>,
)
    requires
        expects::<T, R>(stage, event),
    ensures
        rank(next_step::<T, R>(stage, event, message_id).next) < rank(NextView::Perform(action, stage)),
{
}

/// An outcome with the message id that is at hand when it comes.
pub struct Outcome<T, R> {
    pub event: EventView<T, R>,
    pub message_id: Seq<char>,
}

/// The actions that are asked for in turn, from `next` on, while the outcomes are as given.
pub open spec fn actions<T, R>(next: NextView<T, R>, outcomes: Seq<Outcome<T, R>>) -> Seq<ActionView<T, R>>
    decreases outcomes.len(),
{
    match next {
        NextView::Finish(_) => Seq::empty(),
        NextView::Perform(action, stage) => if outcomes.len() == 0 || !expects::<T, R>(
            stage,
            outcomes[0].event,
        ) {
            seq![action]
        } else {
            seq![action] + actions(
                next_step::<T, R>(stage, outcomes[0].event, outcomes[0].message_id).next,
                outcomes.drop_first(),
            )
        },
    }
}

/// Where the course stands, from `next` on, after the outcomes.
pub open spec fn after<T, R>(next: NextView<T, R>, outcomes: Seq<Outcome<T, R>>) -> NextView<T, R>
    decreases outcomes.len(),
{
    match next {
        NextView::Finish(_) => next,
        NextView::Perform(_, stage) => if outcomes.len() == 0 || !expects::<T, R>(
            stage,
            outcomes[0].event,
        ) {
            next
        } else {
            after(
                next_step::<T, R>(stage, outcomes[0].event, outcomes[0].message_id).next,
                outcomes.drop_first(),
            )
        },
    }
}

/// Up to the answer, each outcome is one of the action that was asked for.
pub open spec fn faithful<T, R>(next: NextView<T, R>, outcomes: Seq<Outcome<T, R>>) -> bool
    decreases outcomes.len(),
{
    match next {
        NextView::Finish(_) => true,
        NextView::Perform(action, stage) => outcomes.len() == 0 || (answers(
            action,
            outcomes[0].event,
        ) && faithful(
            next_step::<T, R>(stage, outcomes[0].event, outcomes[0].message_id).next,
            outcomes.drop_first(),
        )),
    }
}

/// The number of calls of the upstream among some actions.
pub open spec fn posts<T, R>(done: Seq<ActionView<T, R>>) -> nat
    decreases done.len(),
{
    if done.len() == 0 {
        0
    } else {
        posts(done.drop_first()) + if done[0] is Post {
            1nat
        } else {
            0
        }
    }
}

/// The stages that stand behind the call of the upstream, and those of a course without one.
spec fn behind_post<T, R>(next: NextView<T, R>) -> bool {
    match next {
        NextView::Finish(_) => true,
        NextView::Perform(action, stage) => action !is Post && match stage {
            StageView::Translating { .. } => false,
            StageView::PostingChat { .. } => false,
            StageView::Serializing { .. } => false,
            StageView::PostingMessages { .. } => false,
            _ => true,
        },
    }
}

proof fn lemma_posts_cons<T, R>(action: ActionView<T, R>, rest: Seq<ActionView<T, R>>)
    ensures
        posts(seq![action] + rest) == posts(rest) + if action is Post {
            1nat
        } else {
            0
        },
{
    assert((seq![action] + rest).drop_first() =~= rest);
}

/// The pairs of action and stage that steps ask for.
spec fn reachable<T, R>(next: NextView<T, R>) -> bool {
    match next {
        NextView::Finish(_) => true,
        NextView::Perform(action, stage) => match stage {
            StageView::PostingChat { .. } => action is Post,
            StageView::PostingMessages { .. } => action is Post,
            _ => action !is Post,
        },
    }
}

proof fn lemma_actions_bounded<T, R>(next: NextView<T, R>, outcomes: Seq<Outcome<T, R>>)
    requires
        reachable(next),
    ensures
        actions(next, outcomes).len() <= rank(next),
        posts(actions(next, outcomes)) <= 1,
        behind_post(next) ==> posts(actions(next, outcomes)) == 0,
    decreases outcomes.len(),
{
    match next {
        NextView::Finish(_) => {},
        NextView::Perform(action, stage) => {
            if outcomes.len() == 0 || !expects::<T, R>(stage, outcomes[0].event) {
                lemma_posts_cons(action, Seq::empty());
                assert(seq![action] + Seq::<ActionView<T, R>>::empty() =~= seq![action]);
            } else {
                let after = next_step::<T, R>(stage, outcomes[0].event, outcomes[0].message_id).next;
                law_course_moves_on(action, stage, outcomes[0].event, outcomes[0].message_id);
                lemma_actions_bounded(after, outcomes.drop_first());
                lemma_posts_cons(action, actions(after, outcomes.drop_first()));
            }
        },
    }
}

proof fn lemma_course_ends<T, R>(next: NextView<T, R>, outcomes: Seq<Outcome<T, R>>)
    requires
        coherent(next),
        faithful(next, outcomes),
        outcomes.len() >= rank(next),
    ensures
        after(next, outcomes) is Finish,
    decreases outcomes.len(),
{
    match next {
        NextView::Finish(_) => {},
        NextView::Perform(action, stage) => {
            let event = outcomes[0].event;
            let message_id = outcomes[0].message_id;
            assert(expects::<T, R>(stage, event) <==> answers(action, event));
            law_course_moves_on(action, stage, event, message_id);
            lemma_course_ends(next_step::<T, R>(stage, event, message_id).next, outcomes.drop_first());
        },
    }
}

/// Every request is answered: a caller who performs what is asked has the answer after four
/// outcomes at the latest, whatever they are.
pub proof fn law_every_request_is_answered<T, R>(
    invalid: Option<Seq<char>>,
    requested: Seq<char>,
    stream: bool,
    outcomes: Seq<Outcome<T, R>>,
)
    requires
        outcomes.len() >= 4,
    ensures
        faithful(opening::<T, R>(invalid, requested, stream).next, outcomes) ==> after(
            opening::<T, R>(invalid, requested, stream).next,
            outcomes,
        ) is Finish,
        faithful(count_opening::<T, R>(requested).next, outcomes) ==> after(
            count_opening::<T, R>(requested).next,
            outcomes,
        ) is Finish,
{
    if faithful(opening::<T, R>(invalid, requested, stream).next, outcomes) {
        lemma_course_ends(opening::<T, R>(invalid, requested, stream).next, outcomes);
    }
    if faithful(count_opening::<T, R>(requested).next, outcomes) {
        lemma_course_ends(count_opening::<T, R>(requested).next, outcomes);
    }
}

/// A request calls the upstream at most once and asks for at most four actions, whatever their
/// outcomes.
pub proof fn law_upstream_is_called_at_most_once<T, R>(
    invalid: Option<Seq<char>>,
    requested: Seq<char>,
    stream: bool,
    outcomes: Seq<Outcome<T, R>>,
)
    ensures
        posts(actions(opening::<T, R>(invalid, requested, stream).next, outcomes)) <= 1,
        actions(opening::<T, R>(invalid, requested, stream).next, outcomes).len() <= 4,
{
    lemma_actions_bounded(opening::<T, R>(invalid, requested, stream).next, outcomes);
}

/// Counting tokens is local: it never calls the upstream, for no model of either protocol, and
/// takes one action.
pub proof fn law_counting_tokens_is_local<T, R>(requested: Seq<char>, outcomes: Seq<Outcome<T, R>>)
    ensures
        posts(actions(count_opening::<T, R>(requested).next, outcomes)) == 0,
        actions(count_opening::<T, R>(requested).next, outcomes).len() <= 1,
{
    lemma_actions_bounded(count_opening::<T, R>(requested).next, outcomes);
}

/// A supported model has its tokens counted, and the count is the answer.
pub proof fn law_counted_tokens_are_answered<T, R>(
    requested: Seq<char>,
    tokens: u64,
    message_id: Seq<char>,
)
    requires
        resolved(requested) is Some,
    ensures
        count_opening::<T, R>(requested).next == NextView::<T, R>::Perform(
            ActionView::CountTokens,
            StageView::CountingTokens,
        ),
        next_step::<T, R>(StageView::CountingTokens, EventView::Counted(tokens), message_id).next
            == NextView::<T, R>::Finish(ReplyView::InputTokens(tokens)),
{
}

/// A request for a model that is not supported is refused at once: the client is told which
/// model, nothing is reported, and nothing else is done. Nothing else is refused this way.
pub proof fn law_unsupported_model_is_refused<T, R>(
    invalid: Option<Seq<char>>,
    requested: Seq<char>,
    stream: bool,
)
    ensures
        resolved(requested) is None <==> opening::<T, R>(invalid, requested, stream) == quiet::<T, R>(
            refusal::<T, R>(BAD_REQUEST, ErrorType::InvalidRequest, UNSUPPORTED_MODEL@ + requested),
        ),
        resolved(requested) is None <==> count_opening::<T, R>(requested) == quiet::<T, R>(
            refusal::<T, R>(BAD_REQUEST, ErrorType::InvalidRequest, UNSUPPORTED_MODEL@ + requested),
        ),
{
}

/// With an invalid configuration every messages request for a supported model is answered by
/// what is wrong, without calling the upstream; with a valid one none is refused before an
/// action was asked for.
pub proof fn law_invalid_configuration_is_answered<T, R>(
    invalid: Option<Seq<char>>,
    requested: Seq<char>,
    stream: bool,
)
    requires
        resolved(requested) is Some,
    ensures
        match invalid {
            Some(error) => opening::<T, R>(invalid, requested, stream).next == refusal::<T, R>(
                INTERNAL_SERVER_ERROR,
                ErrorType::Api,
                INVALID_CONFIGURATION@ + error,
            ),
            None => opening::<T, R>(invalid, requested, stream).next is Perform,
        },
{
}

/// Wherever the upstream fails, the client gets the answer for that failure and nothing is
/// reported.
pub proof fn law_upstream_failure_is_answered<T, R>(
    stage: StageView,
    error: OpenCodeErrorView,
    message_id: Seq<char>,
)
    ensures
        expects::<T, R>(stage, EventView::Posted(Err(error))) ==> next_step::<T, R>(
            stage,
            EventView::Posted(Err(error)),
            message_id,
        ) == quiet::<T, R>(NextView::Finish(ReplyView::Error(mapped_error(error)))),
        expects::<T, R>(stage, EventView::Body(Err(error))) ==> next_step::<T, R>(
            stage,
            EventView::Body(Err(error)),
            message_id,
        ) == quiet::<T, R>(NextView::Finish(ReplyView::Error(mapped_error(error)))),
{
}

/// A rate limit of the upstream reaches the client as one: the status, the class, the message,
/// and the retry hint as a header exactly where the upstream gave one.
pub proof fn law_rate_limit_is_preserved<T, R>(
    stage: StageView,
    message: Seq<char>,
    retry_after: Option<Seq<char>>,
    message_id: Seq<char>,
)
    requires
        expects::<T, R>(
            stage,
            EventView::Posted(
                Err(OpenCodeErrorView { status: TOO_MANY_REQUESTS, message, retry_after }),
            ),
        ),
    ensures
        ({
            let error = OpenCodeErrorView { status: TOO_MANY_REQUESTS, message, retry_after };
            let next = next_step::<T, R>(stage, EventView::Posted(Err(error)), message_id).next;
            &&& next matches NextView::Finish(reply)
            &&& reply.status() == TOO_MANY_REQUESTS
            &&& reply matches ReplyView::Error(answer)
            &&& answer.error_type == ErrorType::RateLimit
            &&& answer.message == message
            &&& reply.headers() == (match retry_after {
                Some(hint) => seq![("retry-after"@, hint)],
                None => Seq::empty(),
            })
        }),
{
}

/// A request for a messages model goes to the upstream as it came, but that it names the model by
/// its catalogue id; the upstream streams exactly where the client asked for a stream.
pub proof fn law_messages_request_passes_through<T, R>(
    requested: Seq<char>,
    stream: bool,
    members: Map<Seq<char>, Member>,
    message_id: Seq<char>,
)
    requires
        resolved(requested) is Some,
        resolved(requested)->0.endpoint == EndpointKind::Messages,
    ensures
        ({
            let id = resolved(requested)->0.id@;
            let sent = with_model(members, id);
            &&& opening::<T, R>(None, requested, stream).next == NextView::<T, R>::Perform(
                ActionView::Serialize,
                StageView::Serializing { id, stream },
            )
            &&& next_step::<T, R>(
                StageView::Serializing { id, stream },
                EventView::Serialized(Ok(members)),
                message_id,
            ) == quiet::<T, R>(
                NextView::Perform(
                    ActionView::Post {
                        endpoint: EndpointKind::Messages,
                        payload: PayloadView::Members(sent),
                        stream,
                    },
                    StageView::PostingMessages { stream },
                ),
            )
            &&& sent.contains_key("model"@) && sent["model"@] == Member::Text(id)
            &&& forall|key: Seq<char>|
                key != "model"@ ==> (#[trigger] sent.contains_key(key) <==> members.contains_key(
                    key,
                )) && (members.contains_key(key) ==> sent[key] == members[key])
        }),
{
}

/// The response of the upstream to a messages request is the answer to the client: its stream
/// relayed from the start, or the JSON value of its body.
pub proof fn law_messages_answer_passes_through<T, R>(
    requested: Seq<char>,
    stream: bool,
    members: Map<Seq<char>, Member>,
    response: R,
    body: Seq<u8>,
    message_id: Seq<char>,
)
    requires
        resolved(requested) is Some,
        resolved(requested)->0.endpoint == EndpointKind::Messages,
    ensures
        after(
            opening::<T, R>(None, requested, stream).next,
            seq![
                Outcome { event: EventView::Serialized(Ok(members)), message_id },
                Outcome { event: EventView::Posted(Ok(response)), message_id },
                Outcome { event: EventView::Body(Ok(body)), message_id },
            ],
        ) == (if stream {
            NextView::<T, R>::Finish(ReplyView::Relay { response, meter: StreamMeter { bytes: 0, chunks: 0 } })
        } else {
            match parsed_json(body) {
                Some(value) => NextView::<T, R>::Finish(ReplyView::Json(value)),
                None => refusal::<T, R>(BAD_GATEWAY, ErrorType::Api, INVALID_JSON@),
            }
        }),
{
    reveal_with_fuel(after, 4);
}

/// Where a JSON message is the answer, the token counts in it are reported with it.
pub proof fn law_usage_of_messages_is_reported<T, R>(
    stage: StageView,
    event: EventView<T, R>,
    message_id: Seq<char>,
)
    requires
        expects::<T, R>(stage, event),
    ensures
        next_step::<T, R>(stage, event, message_id).next matches NextView::Finish(ReplyView::Json(value))
            ==> next_step::<T, R>(stage, event, message_id).notes.last() == usage_note(message_of(value)),
{
}

/// The course of a chat completion up to its body: translated for the catalogue id, posted as it
/// was translated, with streaming whatever the client asked for, read whole, and handed on under
/// the name that the client asked for.
pub proof fn law_chat_request_course<T, R>(
    requested: Seq<char>,
    stream: bool,
    request: T,
    response: R,
    body: Seq<u8>,
    message_id: Seq<char>,
)
    requires
        resolved(requested) is Some,
        resolved(requested)->0.endpoint == EndpointKind::ChatCompletions,
    ensures
        opening::<T, R>(None, requested, stream).next == NextView::<T, R>::Perform(
            ActionView::Translate { id: resolved(requested)->0.id@ },
            StageView::Translating { requested, stream },
        ),
        next_step::<T, R>(
            StageView::Translating { requested, stream },
            EventView::Translated(Ok(request)),
            message_id,
        ) == quiet::<T, R>(
            NextView::Perform(
                ActionView::Post {
                    endpoint: EndpointKind::ChatCompletions,
                    payload: PayloadView::Translated(request),
                    stream: true,
                },
                StageView::PostingChat { requested, stream },
            ),
        ),
        next_step::<T, R>(
            StageView::PostingChat { requested, stream },
            EventView::Posted(Ok(response)),
            message_id,
        ) == quiet::<T, R>(
            NextView::Perform(ActionView::ReadBody { response }, StageView::ReadingChat { requested, stream }),
        ),
        next_step::<T, R>(
            StageView::ReadingChat { requested, stream },
            EventView::Body(Ok(body)),
            message_id,
        ) == chat_step::<T, R>(body, stream, requested, message_id),
{
}

/// What is posted is what was made of the request: a chat call carries the very request that was
/// translated, and a messages call the members that were written, with the model replaced.
pub proof fn law_posts_carry_the_request<T, R>(
    stage: StageView,
    event: EventView<T, R>,
    message_id: Seq<char>,
)
    requires
        expects::<T, R>(stage, event),
    ensures
        next_step::<T, R>(stage, event, message_id).next matches NextView::Perform(
            ActionView::Post { endpoint, payload, .. },
            _,
        ) ==> match payload {
            PayloadView::Translated(request) => endpoint == EndpointKind::ChatCompletions && event
                == EventView::<T, R>::Translated(Ok(request)),
            PayloadView::Members(sent) => {
                &&& endpoint == EndpointKind::Messages
                &&& stage matches StageView::Serializing { id, .. }
                &&& event matches EventView::Serialized(Ok(members))
                &&& sent == with_model(members, id)
            },
        },
{
}

/// What is read or relayed is the response that the upstream gave to the call.
pub proof fn law_the_given_response_is_used<T, R>(
    stage: StageView,
    event: EventView<T, R>,
    message_id: Seq<char>,
)
    requires
        expects::<T, R>(stage, event),
    ensures
        next_step::<T, R>(stage, event, message_id).next matches NextView::Perform(
            ActionView::ReadBody { response },
            _,
        ) ==> event == EventView::<T, R>::Posted(Ok(response)),
        next_step::<T, R>(stage, event, message_id).next matches NextView::Finish(
            ReplyView::Relay { response, .. },
        ) ==> event == EventView::<T, R>::Posted(Ok(response)),
{
}

/// A chat completion is answered in the form that the client asked for: an event stream for a
/// stream, one JSON message otherwise, each as the translation made it.
pub proof fn law_chat_answer_has_the_form_asked_for<T, R>(
    requested: Seq<char>,
    stream: bool,
    request: T,
    response: R,
    body: Seq<u8>,
    translated: TranslatedStreamView,
    accumulated: serde_json::Value,
    message_id: Seq<char>,
)
    requires
        resolved(requested) is Some,
        resolved(requested)->0.endpoint == EndpointKind::ChatCompletions,
    ensures
        after(
            opening::<T, R>(None, requested, stream).next,
            seq![
                Outcome { event: EventView::Translated(Ok(request)), message_id },
                Outcome { event: EventView::Posted(Ok(response)), message_id },
                Outcome { event: EventView::Body(Ok(body)), message_id },
                Outcome {
                    event: if stream {
                        EventView::StreamTranslated(Ok(translated))
                    } else {
                        EventView::Accumulated(Ok(accumulated))
                    },
                    message_id,
                },
            ],
        ) == NextView::<T, R>::Finish(
            if stream {
                ReplyView::EventStream(translated.body)
            } else {
                ReplyView::Json(accumulated)
            },
        ),
{
    reveal_with_fuel(after, 5);
}

/// Every body of the upstream that is read whole is captured before anything else is made of it,
/// under the name for its protocol.
pub proof fn law_upstream_bodies_are_captured<T, R>(
    stage: StageView,
    body: Seq<u8>,
    message_id: Seq<char>,
)
    requires
        expects::<T, R>(stage, EventView::Body(Ok(body))),
    ensures
        next_step::<T, R>(stage, EventView::Body(Ok(body)), message_id).notes.len() > 0,
        next_step::<T, R>(stage, EventView::Body(Ok(body)), message_id).notes[0] == (
        NoteView::BodyCaptured {
            name: if stage is ReadingChat {
                CHAT_CAPTURE@
            } else {
                MESSAGES_CAPTURE@
            },
            body,
        }),
{
}

/// The event reports a failure.
pub open spec fn fails<T, R>(event: EventView<T, R>) -> bool {
    match event {
        EventView::Translated(outcome) => outcome is Err,
        EventView::Serialized(outcome) => outcome is Err,
        EventView::Posted(outcome) => outcome is Err,
        EventView::Body(outcome) => outcome is Err,
        EventView::StreamTranslated(outcome) => outcome is Err,
        EventView::Accumulated(outcome) => outcome is Err,
        EventView::Counted(_) => false,
    }
}

/// A failed action ends the course with an error, and an action that did not fail ends it with
/// one only where the upstream's body is not JSON.
pub proof fn law_failures_and_only_failures_are_errors<T, R>(
    stage: StageView,
    event: EventView<T, R>,
    message_id: Seq<char>,
)
    requires
        expects::<T, R>(stage, event),
    ensures
        ({
            let next = next_step::<T, R>(stage, event, message_id).next;
            (next is Finish && next->Finish_0 is Error) <==> fails(event) || (stage
                == StageView::ReadingMessages && parsed_json(event->Body_0->Ok_0) is None)
        }),
{
}

} // verus!

//! What a request is answered with.
use vstd::prelude::*;

use crate::chunk::content;
use crate::error::{ErrorReply, ErrorReplyView};
use crate::relay::StreamMeter;
use crate::status::OK;

verus! {

/// An answer.
#[derive(Debug)]
pub enum Reply<R> {
    /// An error body.
    Error(ErrorReply),
    /// A JSON body.
    Json(serde_json::Value),
    /// A whole event stream.
    EventStream(bytes::Bytes),
    /// The event stream of the upstream's response, relayed as it comes, starting with this
    /// meter.
    Relay { response: R, meter: StreamMeter },
    /// The number of input tokens of a request.
    InputTokens(u64),
}

/// An answer, by its values.
pub enum ReplyView<R> {
    Error(ErrorReplyView),
    Json(serde_json::Value),
    EventStream(Seq<u8>),
    Relay { response: R, meter: StreamMeter },
    InputTokens(u64),
}

impl<R> View for Reply<R> {
    type V = ReplyView<R>;

    open spec fn view(&self) -> ReplyView<R> {
        match self {
            Reply::Error(error) => ReplyView::Error(error@),
            Reply::Json(value) => ReplyView::Json(*value),
            Reply::EventStream(body) => ReplyView::EventStream(content(*body)),
            Reply::Relay { response, meter } => ReplyView::Relay {
                response: *response,
                meter: *meter,
            },
            Reply::InputTokens(tokens) => ReplyView::InputTokens(*tokens),
        }
    }
}

/// A header that an answer carries.
#[derive(Debug)]
pub struct Header {
    pub name: &'static str,
    pub value: String,
}

impl View for Header {
    type V = (Seq<char>, Seq<char>);

    open spec fn view(&self) -> (Seq<char>, Seq<char>) {
        (self.name@, self.value@)
    }
}

/// The headers of a list, by their values.
pub open spec fn header_views(headers: Seq<Header>) -> Seq<(Seq<char>, Seq<char>)> {
    headers.map_values(|header: Header| header@)
}

/// The headers of an event stream.
pub open spec fn event_stream_headers() -> Seq<(Seq<char>, Seq<char>)> {
    seq![
        ("content-type"@, "text/event-stream"@),
        ("cache-control"@, "no-cache"@),
        ("connection"@, "keep-alive"@),
    ]
}

impl<R> ReplyView<R> {
    /// The status of the answer.
    pub open spec fn status(self) -> u16 {
        match self {
            ReplyView::Error(error) => error.status,
            _ => OK,
        }
    }

    /// The headers of the answer, besides those that its body brings along.
    pub open spec fn headers(self) -> Seq<(Seq<char>, Seq<char>)> {
        match self {
            ReplyView::Error(error) => match error.retry_after {
                Some(retry_after) => seq![("retry-after"@, retry_after)],
                None => Seq::empty(),
            },
            ReplyView::EventStream(_) => event_stream_headers(),
            ReplyView::Relay { .. } => event_stream_headers(),
            _ => Seq::empty(),
        }
    }
}

fn stream_headers() -> (headers: Vec<Header>)
    ensures
        header_views(headers@) == event_stream_headers(),
        headers@.len() == 3,
        headers@[0].name@ == "content-type"@,
        headers@[0].value@ == "text/event-stream"@,
        headers@[1].name@ == "cache-control"@,
        headers@[1].value@ == "no-cache"@,
        headers@[2].name@ == "connection"@,
        headers@[2].value@ == "keep-alive"@,
{
    let mut headers: Vec<Header> = Vec::new();
    headers.push(Header { name: "content-type", value: "text/event-stream".to_owned() });
    headers.push(Header { name: "cache-control", value: "no-cache".to_owned() });
    headers.push(Header { name: "connection", value: "keep-alive".to_owned() });
    assert(header_views(headers@) =~= event_stream_headers());
    headers
}

impl<R> Reply<R> {
    /// The status of the answer.
    pub fn status(&self) -> (status: u16)
        ensures
            status == self@.status(),
            match self {
                Reply::Error(error) => status == error.status,
                _ => status == 200,
            },
    {
        match self {
            Reply::Error(error) => error.status,
            _ => OK,
        }
    }

    /// The headers of the answer, besides those that its body brings along: a retry hint goes
    /// with an error that has one, and event streams say what they are and that they are live.
    pub fn headers(&self) -> (headers: Vec<Header>)
        ensures
            header_views(headers@) == self@.headers(),
            match self {
                Reply::Error(error) => match error.retry_after {
                    Some(retry_after) => {
                        &&& headers@.len() == 1
                        &&& headers@[0].name@ == "retry-after"@
                        &&& headers@[0].value@ == retry_after@
                    },
                    None => headers@.len() == 0,
                },
                Reply::EventStream(_) | Reply::Relay { .. } => {
                    &&& headers@.len() == 3
                    &&& headers@[0].name@ == "content-type"@
                    &&& headers@[0].value@ == "text/event-stream"@
                    &&& headers@[1].name@ == "cache-control"@
                    &&& headers@[1].value@ == "no-cache"@
                    &&& headers@[2].name@ == "connection"@
                    &&& headers@[2].value@ == "keep-alive"@
                },
                Reply::Json(_) | Reply::InputTokens(_) => headers@.len() == 0,
            },
    {
        match self {
            Reply::Error(error) => {
                let mut headers: Vec<Header> = Vec::new();
                match &error.retry_after {
                    Some(retry_after) => {
                        headers.push(Header { name: "retry-after", value: retry_after.clone() });
                    },
                    None => {},
                }
                assert(header_views(headers@) =~= self@.headers());
                headers
            },
            Reply::EventStream(_) => stream_headers(),
            Reply::Relay { .. } => stream_headers(),
            _ => {
                let headers: Vec<Header> = Vec::new();
                assert(header_views(headers@) =~= self@.headers());
                headers
            },
        }
    }
}

proof fn lemma_header_names_are_distinct()
    ensures
        "content-type"@.len() == 12,
        "cache-control"@.len() == 13,
        "connection"@.len() == 10,
        "retry-after"@.len() == 11,
{
    reveal_strlit("content-type");
    reveal_strlit("cache-control");
    reveal_strlit("connection");
    reveal_strlit("retry-after");
}

/// An answer says that it is an event stream, live and not to be cached, exactly where it is one:
/// where it carries a whole stream or relays one.
pub proof fn law_event_streams_and_no_others_say_so<R>(reply: ReplyView<R>)
    ensures
        reply.headers().contains(("content-type"@, "text/event-stream"@)) <==> reply is EventStream
            || reply is Relay,
        reply.headers().contains(("cache-control"@, "no-cache"@)) <==> reply is EventStream || reply is Relay,
        reply.headers().contains(("connection"@, "keep-alive"@)) <==> reply is EventStream || reply is Relay,
        reply is EventStream || reply is Relay ==> reply.headers().len() == 3,
        reply is Json || reply is InputTokens ==> reply.headers().len() == 0,
{
    lemma_header_names_are_distinct();
    if reply is EventStream || reply is Relay {
        assert(reply.headers()[0] == ("content-type"@, "text/event-stream"@));
        assert(reply.headers()[1] == ("cache-control"@, "no-cache"@));
        assert(reply.headers()[2] == ("connection"@, "keep-alive"@));
    }
}

/// A retry hint is a header exactly of the errors that have one, and it is the hint that the
/// error has. An error has no other header.
pub proof fn law_retry_hint_is_a_header<R>(reply: ReplyView<R>, hint: Seq<char>)
    ensures
        reply.headers().contains(("retry-after"@, hint)) <==> {
            &&& reply matches ReplyView::Error(error)
            &&& error.retry_after == Some(hint)
        },
        reply matches ReplyView::Error(error) ==> reply.headers().len() == (
        if error.retry_after is Some {
            1nat
        } else {
            0
        }),
{
    lemma_header_names_are_distinct();
    if let ReplyView::Error(error) = reply {
        if let Some(given) = error.retry_after {
            assert(reply.headers()[0] == ("retry-after"@, given));
        }
    }
}

/// An error is answered with its own status, and everything else with 200.
pub proof fn law_status_is_that_of_the_error<R>(reply: ReplyView<R>)
    ensures
        reply matches ReplyView::Error(error) ==> reply.status() == error.status,
        reply !is Error ==> reply.status() == 200,
{
}

/// Values show what they hold: a list of headers shows the name and the value of each in turn,
/// and an answer shows its body.
pub proof fn law_reply_views_are_exact<R>(reply: Reply<R>, headers: Seq<Header>)
    ensures
        header_views(headers).len() == headers.len(),
        forall|i: int|
            0 <= i < headers.len() ==> (#[trigger] header_views(headers)[i]) == (
                headers[i].name@,
                headers[i].value@,
            ),
        match reply {
            Reply::Error(error) => reply@ matches ReplyView::Error(seen) && seen == error@,
            Reply::Json(value) => reply@ matches ReplyView::Json(seen) && seen == value,
            Reply::EventStream(body) => reply@ matches ReplyView::EventStream(seen) && seen
                == content(body),
            Reply::Relay { response, meter } => reply@ matches ReplyView::Relay {
                response: seen,
                meter: shown,
            } && seen == response && shown == meter,
            Reply::InputTokens(tokens) => reply@ matches ReplyView::InputTokens(seen) && seen
                == tokens,
        },
{
}

} // verus!

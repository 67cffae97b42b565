//! Failures: what the upstream reports, and what is answered for it.
use vstd::prelude::*;

use crate::status::{
    is_client_error, is_server_error, BAD_GATEWAY, FORBIDDEN, TOO_MANY_REQUESTS, UNAUTHORIZED,
};

verus! {

/// The class of an error, as error bodies name it.
#[derive(Debug, Clone, Copy, PartialEq, Eq, Structural)]
pub enum ErrorType {
    Authentication,
    RateLimit,
    InvalidRequest,
    Api,
}

impl ErrorType {
    /// The name of the class in an error body.
    pub open spec fn name(self) -> Seq<char> {
        match self {
            ErrorType::Authentication => "authentication_error"@,
            ErrorType::RateLimit => "rate_limit_error"@,
            ErrorType::InvalidRequest => "invalid_request_error"@,
            ErrorType::Api => "api_error"@,
        }
    }

    /// The name of the class in an error body.
    pub fn as_str(&self) -> (name: &'static str)
        ensures
            name@ == self.name(),
            self is Authentication ==> name@ == "authentication_error"@,
            self is RateLimit ==> name@ == "rate_limit_error"@,
            self is InvalidRequest ==> name@ == "invalid_request_error"@,
            self is Api ==> name@ == "api_error"@,
    {
        match self {
            ErrorType::Authentication => "authentication_error",
            ErrorType::RateLimit => "rate_limit_error",
            ErrorType::InvalidRequest => "invalid_request_error",
            ErrorType::Api => "api_error",
        }
    }
}

/// The text of an optional string.
pub open spec fn optional_text(text: Option<String>) -> Option<Seq<char>> {
    match text {
        Some(text) => Some(text@),
        None => None,
    }
}

/// A failure of an upstream call.
#[derive(Debug)]
pub struct OpenCodeError {
    pub status: u16,
    pub message: String,
    pub retry_after: Option<String>,
}

/// A failure of an upstream call, by its values.
pub struct OpenCodeErrorView {
    pub status: u16,
    pub message: Seq<char>,
    pub retry_after: Option<Seq<char>>,
}

impl View for OpenCodeError {
    type V = OpenCodeErrorView;

    open spec fn view(&self) -> OpenCodeErrorView {
        OpenCodeErrorView {
            status: self.status,
            message: self.message@,
            retry_after: optional_text(self.retry_after),
        }
    }
}

/// An error as it is answered.
#[derive(Debug)]
pub struct ErrorReply {
    pub status: u16,
    pub error_type: ErrorType,
    pub message: String,
    pub retry_after: Option<String>,
}

/// An error as it is answered, by its values.
pub struct ErrorReplyView {
    pub status: u16,
    pub error_type: ErrorType,
    pub message: Seq<char>,
    pub retry_after: Option<Seq<char>>,
}

impl View for ErrorReply {
    type V = ErrorReplyView;

    open spec fn view(&self) -> ErrorReplyView {
        ErrorReplyView {
            status: self.status,
            error_type: self.error_type,
            message: self.message@,
            retry_after: optional_text(self.retry_after),
        }
    }
}

/// The class that a status of the upstream is answered as.
pub open spec fn error_type_of(status: u16) -> ErrorType {
    if status == UNAUTHORIZED || status == FORBIDDEN {
        ErrorType::Authentication
    } else if status == TOO_MANY_REQUESTS {
        ErrorType::RateLimit
    } else if 400 <= status <= 499 {
        ErrorType::InvalidRequest
    } else {
        ErrorType::Api
    }
}

/// The status that a status of the upstream is answered with: a failure of the upstream server
/// is a bad gateway here, every other status is passed on.
pub open spec fn answered_status(status: u16) -> u16 {
    if 500 <= status <= 599 {
        BAD_GATEWAY
    } else {
        status
    }
}

/// The answer for a failure of the upstream.
pub open spec fn mapped_error(error: OpenCodeErrorView) -> ErrorReplyView {
    ErrorReplyView {
        status: answered_status(error.status),
        error_type: error_type_of(error.status),
        message: error.message,
        retry_after: error.retry_after,
    }
}

/// The answer for a failure of the upstream: its status, but for server failures, the class of
/// the status, its message, and its retry hint where it gave one.
pub fn map_error(error: OpenCodeError) -> (reply: ErrorReply)
    ensures
        reply@ == mapped_error(error@),
        reply.error_type == ErrorType::Authentication <==> error.status == 401 || error.status
            == 403,
        reply.error_type == ErrorType::RateLimit <==> error.status == 429,
        reply.error_type == ErrorType::InvalidRequest <==> 400 <= error.status <= 499
            && error.status != 401 && error.status != 403 && error.status != 429,
        reply.status == (if 500 <= error.status <= 599 {
            502
        } else {
            error.status
        }),
        reply.message@ == error.message@,
        reply.retry_after == error.retry_after,
{
    let error_type = if error.status == UNAUTHORIZED || error.status == FORBIDDEN {
        ErrorType::Authentication
    } else if error.status == TOO_MANY_REQUESTS {
        ErrorType::RateLimit
    } else if is_client_error(error.status) {
        ErrorType::InvalidRequest
    } else {
        ErrorType::Api
    };
    let status: u16 = if is_server_error(error.status) {
        BAD_GATEWAY
    } else {
        error.status
    };
    ErrorReply { status, error_type, message: error.message, retry_after: error.retry_after }
}

/// What the upstream says of a failure is kept: its message, its retry hint, and its status
/// unless the upstream server itself failed.
pub proof fn law_upstream_failure_is_kept(error: OpenCodeErrorView)
    ensures
        mapped_error(error).message == error.message,
        mapped_error(error).retry_after == error.retry_after,
        !(500 <= error.status <= 599) ==> mapped_error(error).status == error.status,
        500 <= error.status <= 599 ==> mapped_error(error).status == BAD_GATEWAY,
{
}

/// Which statuses a class stands for: 401 and 403 are failures to authenticate, 429 is a rate
/// limit, every other status from 400 to 499 is an invalid request, and no other status is any of
/// these.
pub proof fn law_class_of_each_status(error: OpenCodeErrorView)
    ensures
        mapped_error(error).error_type == ErrorType::Authentication <==> error.status == 401
            || error.status == 403,
        mapped_error(error).error_type == ErrorType::RateLimit <==> error.status == 429,
        mapped_error(error).error_type == ErrorType::InvalidRequest <==> 400 <= error.status <= 499
            && error.status != 401 && error.status != 403 && error.status != 429,
        mapped_error(error).error_type == ErrorType::Api <==> error.status < 400 || error.status
            > 499,
{
}

/// Which statuses are answered: a failure of the upstream server is answered as 502, whichever it
/// was; the status of any other failure is that of its answer.
pub proof fn law_server_failures_become_bad_gateways(error: OpenCodeErrorView)
    ensures
        mapped_error(error).status == 502 <==> 500 <= error.status <= 599,
        mapped_error(error).status != error.status ==> 500 <= error.status <= 599,
        !(500 <= mapped_error(error).status <= 599) || mapped_error(error).status == 502,
{
}

/// Answers do not mix: two failures get the same answer only where they agree in message, retry
/// hint and class, and in status unless both are failures of the upstream server.
pub proof fn law_answers_tell_failures_apart(a: OpenCodeErrorView, b: OpenCodeErrorView)
    ensures
        mapped_error(a) == mapped_error(b) <==> a.message == b.message && a.retry_after
            == b.retry_after && (a.status == b.status || (500 <= a.status <= 599 && 500 <= b.status
            <= 599)),
{
}

/// Each class has a name of its own.
pub proof fn law_class_names_are_distinct(a: ErrorType, b: ErrorType)
    ensures
        a.name() == b.name() <==> a == b,
        a.name() == "authentication_error"@ <==> a == ErrorType::Authentication,
        a.name() == "rate_limit_error"@ <==> a == ErrorType::RateLimit,
        a.name() == "invalid_request_error"@ <==> a == ErrorType::InvalidRequest,
        a.name() == "api_error"@ <==> a == ErrorType::Api,
{
    reveal_strlit("authentication_error");
    reveal_strlit("rate_limit_error");
    reveal_strlit("invalid_request_error");
    reveal_strlit("api_error");
    assert("authentication_error"@.len() == 20);
    assert("rate_limit_error"@.len() == 16);
    assert("invalid_request_error"@.len() == 21);
    assert("api_error"@.len() == 9);
}

/// Values show what they hold: the view of a failure and that of an answer have the status, the
/// class, the message and the retry hint of the value itself.
pub proof fn law_error_views_are_exact(error: OpenCodeError, reply: ErrorReply)
    ensures
        error@.status == error.status,
        error@.message == error.message@,
        error@.retry_after is Some <==> error.retry_after is Some,
        error.retry_after matches Some(hint) ==> error@.retry_after == Some(hint@),
        reply@.status == reply.status,
        reply@.error_type == reply.error_type,
        reply@.message == reply.message@,
        reply@.retry_after is Some <==> reply.retry_after is Some,
        reply.retry_after matches Some(hint) ==> reply@.retry_after == Some(hint@),
{
}

/// The class agrees with the answered status: the classes that blame the request go with client
/// statuses and the `Api` class with all others, and mapping an answer again changes nothing
/// in it.
pub proof fn law_error_class_follows_status(error: OpenCodeErrorView)
    ensures
        mapped_error(error).error_type != ErrorType::Api <==> 400 <= mapped_error(error).status
            <= 499,
        mapped_error(error).error_type == ErrorType::RateLimit <==> error.status
            == TOO_MANY_REQUESTS,
        ({
            let once = mapped_error(error);
            mapped_error(
                OpenCodeErrorView {
                    status: once.status,
                    message: once.message,
                    retry_after: once.retry_after,
                },
            ) == once
        }),
{
}

} // verus!

//! HTTP status codes, by number.
use vstd::prelude::*;

verus! {

pub const OK: u16 = 200;

pub const BAD_REQUEST: u16 = 400;

pub const UNAUTHORIZED: u16 = 401;

pub const FORBIDDEN: u16 = 403;

pub const TOO_MANY_REQUESTS: u16 = 429;

pub const INTERNAL_SERVER_ERROR: u16 = 500;

pub const BAD_GATEWAY: u16 = 502;

/// Calls `http::StatusCode::is_client_error`: the status lies within 400-499. A number that is no
/// status code is no client error.
#[verifier::external_body]
pub(crate) fn is_client_error(status: u16) -> (client: bool)
    ensures
        client == (400 <= status <= 499),
{
    match http::StatusCode::from_u16(status) {
        Ok(code) => code.is_client_error(),
        Err(_) => false,
    }
}

/// Calls `http::StatusCode::is_server_error`: the status lies within 500-599. A number that is no
/// status code is no server error.
#[verifier::external_body]
pub(crate) fn is_server_error(status: u16) -> (server: bool)
    ensures
        server == (500 <= status <= 599),
{
    match http::StatusCode::from_u16(status) {
        Ok(code) => code.is_server_error(),
        Err(_) => false,
    }
}

} // verus!

use opencode_provider::error::{map_error, ErrorType, OpenCodeError};
use opencode_provider::reply::Reply;
use opencode_provider::status;

fn failure(status: u16) -> OpenCodeError {
    OpenCodeError { status, message: "broken".to_string(), retry_after: None }
}

#[test]
fn statuses_have_the_numbers_of_http() {
    assert_eq!(status::OK, http::StatusCode::OK.as_u16());
    assert_eq!(status::BAD_REQUEST, http::StatusCode::BAD_REQUEST.as_u16());
    assert_eq!(status::UNAUTHORIZED, http::StatusCode::UNAUTHORIZED.as_u16());
    assert_eq!(status::FORBIDDEN, http::StatusCode::FORBIDDEN.as_u16());
    assert_eq!(status::TOO_MANY_REQUESTS, http::StatusCode::TOO_MANY_REQUESTS.as_u16());
    assert_eq!(status::INTERNAL_SERVER_ERROR, http::StatusCode::INTERNAL_SERVER_ERROR.as_u16());
    assert_eq!(status::BAD_GATEWAY, http::StatusCode::BAD_GATEWAY.as_u16());
}

#[test]
fn classes_follow_the_status() {
    let cases = [
        (200, 200, ErrorType::Api),
        (302, 302, ErrorType::Api),
        (399, 399, ErrorType::Api),
        (400, 400, ErrorType::InvalidRequest),
        (401, 401, ErrorType::Authentication),
        (402, 402, ErrorType::InvalidRequest),
        (403, 403, ErrorType::Authentication),
        (404, 404, ErrorType::InvalidRequest),
        (429, 429, ErrorType::RateLimit),
        (499, 499, ErrorType::InvalidRequest),
        (500, 502, ErrorType::Api),
        (502, 502, ErrorType::Api),
        (503, 502, ErrorType::Api),
        (599, 502, ErrorType::Api),
        (600, 600, ErrorType::Api),
        (999, 999, ErrorType::Api),
    ];
    for (status, answered, error_type) in cases {
        let reply = map_error(failure(status));
        assert_eq!(reply.status, answered);
        assert_eq!(reply.error_type, error_type);
        assert_eq!(reply.message, "broken");
        assert!(reply.retry_after.is_none());
    }
}

#[test]
fn numbers_that_are_no_status_stay_as_they_are() {
    for status in [0, 99, 1000, u16::MAX] {
        let reply = map_error(failure(status));
        assert_eq!(reply.status, status);
        assert_eq!(reply.error_type, ErrorType::Api);
    }
}

#[test]
fn classes_have_their_names() {
    assert_eq!(ErrorType::Authentication.as_str(), "authentication_error");
    assert_eq!(ErrorType::RateLimit.as_str(), "rate_limit_error");
    assert_eq!(ErrorType::InvalidRequest.as_str(), "invalid_request_error");
    assert_eq!(ErrorType::Api.as_str(), "api_error");
}

#[test]
fn retry_hint_becomes_a_header() {
    let reply = Reply::<u8>::Error(map_error(OpenCodeError {
        status: 503,
        message: "busy".to_string(),
        retry_after: Some("30".to_string()),
    }));
    assert_eq!(reply.status(), 502);
    let headers = reply.headers();
    assert_eq!(headers.len(), 1);
    assert_eq!(headers[0].name, "retry-after");
    assert_eq!(headers[0].value, "30");
    assert!(Reply::<u8>::Error(map_error(failure(503))).headers().is_empty());
}

#[test]
fn mapping_an_answer_again_changes_nothing() {
    for status in [400, 401, 429, 500, 599, 999] {
        let once = map_error(failure(status));
        let again = map_error(failure(once.status));
        assert_eq!(again.status, once.status);
        assert_eq!(again.error_type, once.error_type);
    }
}

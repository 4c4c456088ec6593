use agui_rs::error::AgUiError;
use agui_rs::http::{body_read_failure, request_failure, status_failure, status_is_success};

#[test]
fn only_2xx_statuses_succeed() {
    assert!(status_is_success(200));
    assert!(status_is_success(204));
    assert!(status_is_success(299));
    assert!(!status_is_success(199));
    assert!(!status_is_success(300));
    assert!(!status_is_success(404));
    assert!(!status_is_success(500));
}

#[test]
fn failed_request_is_cancelled_when_aborted() {
    assert!(matches!(request_failure("boom", true, true, false, false), AgUiError::Cancelled));
}

#[test]
fn failed_request_is_a_transport_error_with_retryability() {
    match request_failure("connection refused", false, true, false, false) {
        AgUiError::Transport { message, retryable } => {
            assert_eq!(message, "request failed: connection refused");
            assert!(retryable);
        }
        other => panic!("unexpected: {other:?}"),
    }
    match request_failure("bad", false, false, false, false) {
        AgUiError::Transport { retryable, .. } => assert!(!retryable),
        other => panic!("unexpected: {other:?}"),
    }
    assert!(request_failure("t", false, false, true, false).is_retryable());
    assert!(request_failure("r", false, false, false, true).is_retryable());
}

#[test]
fn unreadable_error_body_is_a_transport_error() {
    let e = body_read_failure("eof", false, true);
    assert!(e.is_retryable());
    assert_eq!(e.to_message(), "transport error: failed reading error response body: eof");
}

#[test]
fn non_success_status_keeps_url_content_type_and_body() {
    let e = status_failure(503, "http://agent/", Some("text/plain".into()), "down".into());
    assert_eq!(e.status(), Some(503));
    assert!(e.is_retryable());
    assert_eq!(e.to_message(), "HTTP 503 from http://agent/ (content-type: text/plain) down");
}

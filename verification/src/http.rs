//! The decisions of an HTTP agent about a request's outcome: which status counts as success,
//! and which error a failure becomes. Sending the request and reading the response are left
//! to the caller, which hands over what it saw.
use vstd::prelude::*;
use crate::error::AgUiError;
use crate::text::concat2;

verus! {

/// Whether an HTTP status is a success: 200 to 299.
pub open spec fn is_success_status(status: u16) -> bool {
    200 <= status && status < 300
}

/// Whether an HTTP status is a success, as `is_success_status` says.
pub fn status_is_success(status: u16) -> (r: bool)
    ensures
        r == is_success_status(status),
{
    200 <= status && status < 300
}

/// The error of a request that failed before a response came: `Cancelled` when the run was
/// aborted meanwhile; otherwise a transport error `request failed: <error>`, retryable when
/// the failure was in connecting, a timeout, or in building the request.
pub fn request_failure(
    error_text: &str,
    aborted: bool,
    is_connect: bool,
    is_timeout: bool,
    is_request: bool,
) -> (r: AgUiError)
    ensures
        aborted ==> r is Cancelled,
        !aborted ==> (r matches AgUiError::Transport { message, retryable } && message@
            == "request failed: "@ + error_text@ && retryable == (is_connect || is_timeout
            || is_request)),
{
    if aborted {
        AgUiError::Cancelled
    } else {
        AgUiError::Transport {
            message: concat2("request failed: ", error_text),
            retryable: is_connect || is_timeout || is_request,
        }
    }
}

/// The error of a failure to read the body of an error response: a transport error, retryable
/// when the failure was in connecting or a timeout.
pub fn body_read_failure(error_text: &str, is_connect: bool, is_timeout: bool) -> (r: AgUiError)
    ensures
        r matches AgUiError::Transport { message, retryable } && message@
            == "failed reading error response body: "@ + error_text@ && retryable == (is_connect
            || is_timeout),
{
    AgUiError::Transport {
        message: concat2("failed reading error response body: ", error_text),
        retryable: is_connect || is_timeout,
    }
}

/// The error of a response whose status is not a success: the status, the agent's url, the
/// response's content type and its body.
pub fn status_failure(status: u16, url: &str, content_type: Option<String>, body: String) -> (r:
    AgUiError)
    ensures
        r matches AgUiError::Http { status: s, url: u, content_type: c, body: b } && s == status
            && c == content_type && b == body && (u matches Some(x) && x@ == url@),
{
    AgUiError::Http {
        status,
        url: Some(crate::text::owned(url)),
        content_type,
        body,
    }
}

} // verus!

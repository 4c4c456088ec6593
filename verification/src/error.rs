//! The error type of the library.
use crate::text::{concat2, decimal, owned, u64_decimal};
use vstd::prelude::*;

verus! {

/// The unified error type.
///
/// `is_retryable` says whether an operation may be retried, and `is_user_input` whether the
/// caller's input was at fault.
#[derive(Debug)]
#[non_exhaustive]
pub enum AgUiError {
    Protocol(String),
    Cancelled,
    Json(serde_json::Error),
    ConnectNotImplemented,
    Validation(String),
    Unsupported(String),
    /// A non-success HTTP status of an agent endpoint, with what the response said.
    Http { status: u16, url: Option<String>, content_type: Option<String>, body: String },
    /// A transport failure; `retryable` is set by the layer that saw it.
    Transport { message: String, retryable: bool },
    Other(String),
}

/// The library's result type.
pub type Result<T> = core::result::Result<T, AgUiError>;

/// The rendering of an HTTP error: `HTTP <status>`, then ` from <url>` when there is a url,
/// ` (content-type: <ct>)` when there is a non-empty content type, and ` <body>` when the body
/// is not empty.
pub open spec fn http_text(
    status: u16,
    url: Option<Seq<char>>,
    content_type: Option<Seq<char>>,
    body: Seq<char>,
) -> Seq<char> {
    "HTTP "@ + decimal(status as nat) + match url {
        Some(u) => " from "@ + u,
        None => Seq::empty(),
    } + match content_type {
        Some(ct) => if ct.len() > 0 {
            " (content-type: "@ + ct + ")"@
        } else {
            Seq::empty()
        },
        None => Seq::empty(),
    } + if body.len() > 0 {
        " "@ + body
    } else {
        Seq::empty()
    }
}

/// Renders an HTTP error as `http_text` says.
pub fn format_http(status: u16, url: Option<&str>, content_type: Option<&str>, body: &str) -> (r:
    String)
    ensures
        r@ == http_text(
            status,
            match url {
                Some(u) => Some(u@),
                None => None,
            },
            match content_type {
                Some(c) => Some(c@),
                None => None,
            },
            body@,
        ),
{
    let mut message = owned("HTTP ");
    let digits = u64_decimal(status as u64);
    message.append(digits.as_str());
    let ghost after_status = message@;
    if let Some(url) = url {
        message.append(" from ");
        message.append(url);
    }
    let ghost after_url = message@;
    match content_type {
        Some(ct) => {
            if !ct.is_empty() {
                message.append(" (content-type: ");
                message.append(ct);
                message.append(")");
            }
        },
        None => {},
    }
    let ghost after_ct = message@;
    if !body.is_empty() {
        message.append(" ");
        message.append(body);
    }
    message
}

/// The message of an error, as its `Display` rendering gives it.
pub open spec fn error_message(e: AgUiError) -> Seq<char> {
    match e {
        AgUiError::Protocol(m) => "AG-UI protocol error: "@ + m@,
        AgUiError::Cancelled => "operation cancelled"@,
        AgUiError::Json(j) => "JSON serialization failed: "@ + crate::json::json_error_display(j),
        AgUiError::ConnectNotImplemented => "connect not implemented for this agent"@,
        AgUiError::Validation(m) => "event validation failed: "@ + m@,
        AgUiError::Unsupported(m) => "unsupported operation: "@ + m@,
        AgUiError::Http { status, url, content_type, body } => http_text(
            status,
            crate::types::opt_str(url),
            crate::types::opt_str(content_type),
            body@,
        ),
        AgUiError::Transport { message, .. } => "transport error: "@ + message@,
        AgUiError::Other(m) => m@,
    }
}

impl AgUiError {
    /// A protocol error with the given message.
    pub fn protocol(msg: &str) -> (r: Self)
        ensures
            r matches AgUiError::Protocol(m) && m@ == msg@,
    {
        AgUiError::Protocol(owned(msg))
    }

    /// The cancellation error.
    pub fn cancelled() -> (r: Self)
        ensures
            r is Cancelled,
    {
        AgUiError::Cancelled
    }

    /// A validation error with the given message.
    pub fn validation(msg: &str) -> (r: Self)
        ensures
            r matches AgUiError::Validation(m) && m@ == msg@,
    {
        AgUiError::Validation(owned(msg))
    }

    /// An unsupported-operation error with the given message.
    pub fn unsupported(msg: &str) -> (r: Self)
        ensures
            r matches AgUiError::Unsupported(m) && m@ == msg@,
    {
        AgUiError::Unsupported(owned(msg))
    }

    /// Any other error with the given message.
    pub fn other(msg: &str) -> (r: Self)
        ensures
            r matches AgUiError::Other(m) && m@ == msg@,
    {
        AgUiError::Other(owned(msg))
    }

    /// An HTTP error from a status and a response body, with no url and no content type.
    pub fn http(status: u16, body: &str) -> (r: Self)
        ensures
            r matches AgUiError::Http { status: s, url, content_type, body: b } && s == status
                && url is None && content_type is None && b@ == body@,
    {
        AgUiError::Http { status, url: None, content_type: None, body: owned(body) }
    }

    /// A transport error, saying whether a retry makes sense.
    pub fn transport(msg: &str, retryable: bool) -> (r: Self)
        ensures
            r matches AgUiError::Transport { message, retryable: rt } && message@ == msg@ && rt
                == retryable,
    {
        AgUiError::Transport { message: owned(msg), retryable }
    }

    /// The HTTP status, for an HTTP error.
    pub open spec fn spec_status(&self) -> Option<u16> {
        match self {
            AgUiError::Http { status, .. } => Some(*status),
            _ => None,
        }
    }

    /// The HTTP status, for an HTTP error.
    pub fn status(&self) -> (r: Option<u16>)
        ensures
            r == self.spec_status(),
    {
        match self {
            AgUiError::Http { status, .. } => Some(*status),
            _ => None,
        }
    }

    /// Whether a retry is likely to help: a transport error flagged retryable, an HTTP 5xx, or
    /// HTTP 429.
    pub open spec fn spec_is_retryable(&self) -> bool {
        match self {
            AgUiError::Transport { retryable, .. } => *retryable,
            AgUiError::Http { status, .. } => *status >= 500 || *status == 429,
            _ => false,
        }
    }

    /// Whether a retry is likely to help: a transport error flagged retryable, an HTTP 5xx, or
    /// HTTP 429.
    pub fn is_retryable(&self) -> (r: bool)
        ensures
            r == self.spec_is_retryable(),
    {
        match self {
            AgUiError::Transport { retryable, .. } => *retryable,
            AgUiError::Http { status, .. } => *status >= 500 || *status == 429,
            _ => false,
        }
    }

    /// Whether the caller's input was at fault: a validation error.
    pub fn is_user_input(&self) -> (r: bool)
        ensures
            r == self is Validation,
    {
        match self {
            AgUiError::Validation(_) => true,
            _ => false,
        }
    }

    /// The human-readable message of the error, as `error_message` says.
    pub fn to_message(&self) -> (r: String)
        ensures
            r@ == error_message(*self),
    {
        match self {
            AgUiError::Protocol(m) => concat2("AG-UI protocol error: ", m.as_str()),
            AgUiError::Cancelled => owned("operation cancelled"),
            AgUiError::Json(e) => {
                let text = crate::json::json_error_text(e);
                concat2("JSON serialization failed: ", text.as_str())
            },
            AgUiError::ConnectNotImplemented => owned("connect not implemented for this agent"),
            AgUiError::Validation(m) => concat2("event validation failed: ", m.as_str()),
            AgUiError::Unsupported(m) => concat2("unsupported operation: ", m.as_str()),
            AgUiError::Http { status, url, content_type, body } => {
                let u = match url {
                    Some(u) => Some(u.as_str()),
                    None => None,
                };
                let c = match content_type {
                    Some(c) => Some(c.as_str()),
                    None => None,
                };
                format_http(*status, u, c, body.as_str())
            },
            AgUiError::Transport { message, .. } => concat2("transport error: ", message.as_str()),
            AgUiError::Other(m) => owned(m.as_str()),
        }
    }
}

} // verus!

use agui_rs::error::{format_http, AgUiError};

#[test]
fn http_error_message_includes_status_url_and_body() {
    let error = AgUiError::Http {
        status: 404,
        url: Some("http://localhost:3000/".into()),
        content_type: Some("application/json".into()),
        body: r#"{"message":"User not found"}"#.into(),
    };

    let message = error.to_message();
    assert!(message.contains("HTTP 404"));
    assert!(message.contains("http://localhost:3000/"));
    assert!(message.contains("application/json"));
    assert!(message.contains("User not found"));
    assert_eq!(
        message,
        "HTTP 404 from http://localhost:3000/ (content-type: application/json) {\"message\":\"User not found\"}"
    );
}

#[test]
fn http_error_message_omits_optional_parts() {
    assert_eq!(AgUiError::http(503, "").to_message(), "HTTP 503");
    assert_eq!(format_http(200, None, Some(""), "x"), "HTTP 200 x");
}

#[test]
fn server_errors_and_rate_limit_are_retryable() {
    assert!(AgUiError::http(500, "boom").is_retryable());
    assert!(AgUiError::http(503, "boom").is_retryable());
    assert!(AgUiError::http(429, "slow down").is_retryable());
}

#[test]
fn client_errors_are_not_retryable() {
    assert!(!AgUiError::http(404, "nope").is_retryable());
    assert!(!AgUiError::http(400, "bad").is_retryable());
}

#[test]
fn transport_retryability_is_explicit() {
    assert!(AgUiError::transport("connection refused", true).is_retryable());
    assert!(!AgUiError::transport("malformed", false).is_retryable());
}

#[test]
fn validation_is_user_input_and_not_retryable() {
    let error = AgUiError::validation("bad field");
    assert!(error.is_user_input());
    assert!(!error.is_retryable());
}

#[test]
fn status_accessor_returns_code_only_for_http() {
    assert_eq!(AgUiError::http(418, "teapot").status(), Some(418));
    assert_eq!(AgUiError::other("x").status(), None);
}

#[test]
fn error_messages_follow_their_variant() {
    assert_eq!(AgUiError::protocol("p").to_message(), "AG-UI protocol error: p");
    assert_eq!(AgUiError::cancelled().to_message(), "operation cancelled");
    assert_eq!(AgUiError::unsupported("u").to_message(), "unsupported operation: u");
    assert_eq!(AgUiError::transport("t", false).to_message(), "transport error: t");
    assert_eq!(AgUiError::ConnectNotImplemented.to_message(), "connect not implemented for this agent");
    let json_err = serde_json::from_str::<serde_json::Value>("{").unwrap_err();
    let text = json_err.to_string();
    assert_eq!(AgUiError::Json(json_err).to_message(), format!("JSON serialization failed: {text}"));
}

use agui_rs::debug_logger::{debug_value_enabled, DebugLogger};
use agui_rs::error::AgUiError;

#[test]
fn debug_logger_preserves_prefix() {
    let logger = DebugLogger::new("test-agent", None);
    assert_eq!(logger.prefix(), "test-agent");
}

#[test]
fn debug_logger_is_undefined_equivalent_when_debug_env_is_missing() {
    let logger = DebugLogger::new("agent", None);
    assert!(!logger.enabled());
}

#[test]
fn debug_logger_is_enabled_for_truthy_env_values() {
    for value in ["1", "true", "yes", "on", "debug"] {
        assert!(
            DebugLogger::new("agent", Some(value)).enabled(),
            "expected {value} to enable logging"
        );
    }
}

#[test]
fn debug_logger_is_disabled_for_falsey_env_values() {
    for value in ["", "0", "false", "off", "no", "  FALSE ", "Off", "\tNo\n"] {
        assert!(
            !DebugLogger::new("agent", Some(value)).enabled(),
            "expected {value:?} to disable logging"
        );
    }
    assert!(debug_value_enabled(" 2 "));
    assert!(!debug_value_enabled("  "));
}

#[test]
fn forced_logger_is_enabled_regardless_of_env() {
    let logger = DebugLogger::forced("LIFECYCLE");
    assert!(logger.enabled());
    assert_eq!(logger.prefix(), "LIFECYCLE");
}

#[test]
fn render_log_prefixes_message() {
    let logger = DebugLogger::forced("agent");
    assert_eq!(logger.render_log("hello"), "[agent] hello");
    let quiet = DebugLogger::new("agent", Some("0"));
    assert_eq!(quiet.render_log("hello"), "[agent] hello");
}

#[test]
fn render_error_uses_error_message() {
    let logger = DebugLogger::forced("agent");
    assert_eq!(logger.render_error(&AgUiError::other("boom")), "[agent] error: boom");
    assert_eq!(
        logger.render_error(&AgUiError::validation("bad")),
        "[agent] error: event validation failed: bad"
    );
}

#[test]
fn formats_error_payload() {
    let err = AgUiError::other("boom");
    let logger = DebugLogger::forced("agent");
    assert_eq!(logger.render_error(&err), "[agent] error: boom");
}

#[test]
fn error_display_uses_message() {
    let logger = DebugLogger::forced("agent");
    let rendered = logger.render_error(&AgUiError::other("boom"));
    assert_eq!(rendered, "[agent] error: boom");
}

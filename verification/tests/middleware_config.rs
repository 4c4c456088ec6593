use agui_rs::error::AgUiError;
use agui_rs::middleware::{FilterToolCallsConfig, FilterToolCallsMiddleware};

#[test]
fn config_validation_rejects_both_or_neither_lists() {
    let both = FilterToolCallsConfig::new(Some(vec!["a".into()]), Some(vec!["b".into()]));
    let neither = FilterToolCallsConfig::new(None, None);

    assert!(both.is_err());
    assert!(neither.is_err());
}

#[test]
fn config_validation_messages() {
    match FilterToolCallsConfig::new(Some(vec!["a".into()]), Some(vec!["b".into()])) {
        Err(AgUiError::Validation(m)) => {
            assert_eq!(m, "Cannot specify both allowedToolCalls and disallowedToolCalls")
        }
        _ => panic!("expected a validation error"),
    }
    match FilterToolCallsConfig::new(None, None) {
        Err(AgUiError::Validation(m)) => {
            assert_eq!(m, "Must specify either allowedToolCalls or disallowedToolCalls")
        }
        _ => panic!("expected a validation error"),
    }
    assert!(FilterToolCallsConfig::new(Some(vec!["a".into()]), None).is_ok());
    assert!(FilterToolCallsConfig::new(None, Some(vec![])).is_ok());
}

#[test]
fn allow_and_deny_lists_block_names() {
    let allow = FilterToolCallsMiddleware::new(FilterToolCallsConfig::allowed(vec!["ok".into()]));
    assert!(!allow.is_blocked("ok"));
    assert!(allow.is_blocked("other"));
    let deny = FilterToolCallsMiddleware::new(FilterToolCallsConfig::disallowed(vec!["bad".into()]));
    assert!(deny.is_blocked("bad"));
    assert!(!deny.is_blocked("ok"));
}

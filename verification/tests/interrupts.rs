use agui_rs::error::AgUiError;
use agui_rs::interrupts::{ensure_resume_covers, interrupt_is_expired, is_answered};
use agui_rs::types::{Interrupt, ResumeEntry, ResumeStatus};

fn interrupt(id: &str, expires_at: Option<&str>) -> Interrupt {
    Interrupt {
        id: id.into(),
        reason: "approval".into(),
        message: None,
        tool_call_id: None,
        response_schema: None,
        expires_at: expires_at.map(|s| s.to_string()),
        metadata: None,
    }
}

fn resolved(id: &str) -> ResumeEntry {
    ResumeEntry { interrupt_id: id.into(), status: ResumeStatus::Resolved, payload: None }
}

#[test]
fn no_pending_interrupts_need_no_resume() {
    assert!(ensure_resume_covers(&vec![], &vec![], "").is_ok());
}

#[test]
fn resume_covering_every_pending_interrupt_lets_the_run_go() {
    let pending = vec![interrupt("int-1", None), interrupt("int-2", None)];
    let resume = vec![
        resolved("int-1"),
        ResumeEntry { interrupt_id: "int-2".into(), status: ResumeStatus::Cancelled, payload: None },
    ];
    assert!(ensure_resume_covers(&pending, &resume, "").is_ok());
}

#[test]
fn missing_resume_is_a_validation_error_naming_the_interrupt() {
    match ensure_resume_covers(&vec![interrupt("int-1", None)], &vec![], "") {
        Err(AgUiError::Validation(message)) => {
            assert_eq!(message, "pending interrupt 'int-1' is not answered by resume");
            assert!(message.contains("pending interrupt"));
        }
        other => panic!("expected validation error, got {other:?}"),
    }
}

#[test]
fn partial_resume_names_the_unanswered_interrupt() {
    let pending = vec![interrupt("int-1", None), interrupt("int-2", None)];
    let err = ensure_resume_covers(&pending, &vec![resolved("int-1")], "").unwrap_err();
    assert!(err.to_message().contains("int-2"));
}

#[test]
fn expired_interrupt_rejects_the_run() {
    let pending = vec![interrupt("int-1", Some("2000-01-01T00:00:00Z"))];
    let err = ensure_resume_covers(&pending, &vec![resolved("int-1")], "2026-05-30T00:00:00Z")
        .unwrap_err();
    assert!(err.to_message().to_lowercase().contains("expired"));
    match err {
        AgUiError::Validation(m) => assert_eq!(m, "pending interrupt 'int-1' has expired"),
        other => panic!("expected validation error, got {other:?}"),
    }
}

#[test]
fn expiry_compares_iso_times_and_never_fires_without_a_clock() {
    let i = interrupt("int-1", Some("2000-01-01T00:00:00Z"));
    assert!(interrupt_is_expired(&i, "2026-05-30T00:00:00Z"));
    assert!(!interrupt_is_expired(&i, "1999-12-31T23:59:59Z"));
    assert!(!interrupt_is_expired(&i, ""));
    assert!(!interrupt_is_expired(&interrupt("int-2", None), "2026-05-30T00:00:00Z"));
    assert!(is_answered(&vec![resolved("a"), resolved("b")], "b"));
    assert!(!is_answered(&vec![resolved("a")], "b"));
}

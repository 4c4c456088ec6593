use agui_rs::error::AgUiError;
use agui_rs::events::Event;
use agui_rs::factories::{
    create_run_error_event, create_run_finished_success_event, create_run_started_event,
    create_step_finished_event, create_step_started_event, create_text_message_content_event,
    create_text_message_end_event, create_text_message_start_event, create_tool_call_args_event,
    create_tool_call_end_event, create_tool_call_start_event,
};
use agui_rs::verify::verify_events;

fn run_started(thread: &str, run: &str) -> Event {
    create_run_started_event(thread, run, None, None, Some(1), None)
}
fn run_finished(thread: &str, run: &str) -> Event {
    create_run_finished_success_event(thread, run, None, Some(1), None)
}
fn run_error(message: &str) -> Event {
    create_run_error_event(message, None, Some(1), None)
}
fn text_start(id: &str) -> Event {
    create_text_message_start_event(id, None, None, Some(1), None)
}
fn text_content(id: &str, delta: &str) -> Event {
    create_text_message_content_event(id, delta, Some(1), None)
}
fn text_end(id: &str) -> Event {
    create_text_message_end_event(id, Some(1), None)
}
fn tool_start(id: &str, name: &str) -> Event {
    create_tool_call_start_event(id, name, None, Some(1), None)
}
fn tool_args(id: &str, delta: &str) -> Event {
    create_tool_call_args_event(id, delta, Some(1), None)
}
fn tool_end(id: &str) -> Event {
    create_tool_call_end_event(id, Some(1), None)
}

fn collect(events: Vec<Event>) -> Vec<Result<Event, AgUiError>> {
    verify_events(events.into_iter().map(Ok).collect())
}

fn assert_validation(result: &Result<Event, AgUiError>, expected: &str) {
    match result {
        Err(AgUiError::Validation(message)) => {
            assert!(
                message.contains(expected),
                "expected '{expected}' in '{message}'"
            );
        }
        other => panic!("expected validation error, got {other:?}"),
    }
}

#[test]
fn requires_run_started_as_first_event() {
    let out = collect(vec![text_start("m1")]);

    assert_eq!(out.len(), 1);
    assert_validation(&out[0], "First event must be 'RUN_STARTED'");
}

#[test]
fn rejects_multiple_run_started_events_in_same_stream() {
    let out = collect(vec![run_started("thread", "run-1"), run_started("thread", "run-2")]);

    assert_eq!(out.len(), 2);
    assert!(out[0].is_ok());
    assert_validation(
        &out[1],
        "Cannot send 'RUN_STARTED' while a run is still active",
    );
}

#[test]
fn rejects_events_after_run_finished() {
    let out = collect(vec![
        run_started("thread", "run"),
        text_start("m1"),
        text_end("m1"),
        run_finished("thread", "run"),
        text_start("m2"),
    ]);

    assert_eq!(out.len(), 5);
    assert!(out[..4].iter().all(Result::is_ok));
    assert_validation(
        &out[4],
        "Cannot send event type 'TEXT_MESSAGE_START': The run has already finished with 'RUN_FINISHED'",
    );
}

#[test]
fn rejects_events_after_run_error() {
    let out = collect(vec![run_started("thread", "run"), run_error("boom"), text_start("m1")]);

    assert_eq!(out.len(), 3);
    assert!(out[..2].iter().all(Result::is_ok));
    assert_validation(
        &out[2],
        "Cannot send event type 'TEXT_MESSAGE_START': The run has already errored with 'RUN_ERROR'",
    );
}

#[test]
fn allows_valid_lifecycle_sequence() {
    let out = collect(vec![
        run_started("thread", "run"),
        text_start("m1"),
        text_content("m1", "hello"),
        text_end("m1"),
        tool_start("tc1", "search"),
        tool_args("tc1", "{}"),
        tool_end("tc1"),
        run_finished("thread", "run"),
    ]);

    assert_eq!(out.len(), 8);
    assert!(out.iter().all(Result::is_ok));
}

#[test]
fn allows_run_error_after_run_finished() {
    let out = collect(vec![
        run_started("test-thread-id", "test-run-id"),
        text_start("1"),
        text_end("1"),
        run_finished("test-thread-id", "test-run-id"),
        run_error("Test error"),
    ]);

    assert_eq!(out.len(), 5);
    assert!(out.iter().all(Result::is_ok), "all events should verify: {out:?}");
    assert!(matches!(out[4], Ok(Event::RunError(_))));
}

#[test]
fn allows_run_error_as_first_event() {
    let out = collect(vec![run_error("Test error")]);

    assert_eq!(out.len(), 1);
    assert!(matches!(out[0], Ok(Event::RunError(_))));
}

#[test]
fn run_finished_is_rejected_while_a_step_is_open() {
    let out = collect(vec![
        run_started("t", "r"),
        create_step_started_event("plan", Some(1), None),
        run_finished("t", "r"),
    ]);
    assert_eq!(out.len(), 3);
    assert!(out[..2].iter().all(Result::is_ok));
    assert!(matches!(out[2], Err(AgUiError::Validation(_))));
}

#[test]
fn new_run_may_follow_a_finished_one() {
    let out = collect(vec![
        run_started("t", "r1"),
        create_step_started_event("plan", Some(1), None),
        create_step_finished_event("plan", Some(1), None),
        run_finished("t", "r1"),
        run_started("t", "r2"),
        run_finished("t", "r2"),
    ]);
    assert_eq!(out.len(), 6);
    assert!(out.iter().all(Result::is_ok));
}

#[test]
fn upstream_error_is_passed_on_and_ends_the_stream() {
    let out = verify_events(vec![
        Ok(run_started("t", "r")),
        Err(AgUiError::other("network")),
        Ok(text_start("m1")),
    ]);
    assert_eq!(out.len(), 2);
    assert!(matches!(&out[1], Err(AgUiError::Other(m)) if m == "network"));
}

#[test]
fn content_without_open_message_is_rejected() {
    let out = collect(vec![run_started("t", "r"), text_content("m1", "x")]);
    assert_eq!(out.len(), 2);
    assert!(matches!(out[1], Err(AgUiError::Validation(_))));
}

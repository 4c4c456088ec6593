use agui_rs::error::AgUiError;
use agui_rs::events::Event;
use agui_rs::factories::{
    create_run_error_event, create_run_finished_success_event, create_run_started_event,
    create_step_finished_event, create_step_started_event, create_text_message_content_event,
    create_text_message_end_event, create_text_message_start_event, create_tool_call_args_event,
    create_tool_call_end_event, create_tool_call_start_event,
};
use agui_rs::verify::verify_events;

fn collect(events: Vec<Event>) -> Vec<Result<Event, AgUiError>> {
    verify_events(events.into_iter().map(Ok).collect())
}

fn assert_validation(result: &Result<Event, AgUiError>, expected: &str) {
    match result {
        Err(AgUiError::Validation(message)) => {
            assert!(message.contains(expected), "expected '{expected}' in '{message}'");
        }
        other => panic!("expected validation error, got {other:?}"),
    }
}

fn started(thread: &str, run: &str) -> Event {
    create_run_started_event(thread, run, None, None, Some(1), None)
}
fn finished(thread: &str, run: &str) -> Event {
    create_run_finished_success_event(thread, run, None, Some(1), None)
}
fn text_start(id: &str) -> Event {
    create_text_message_start_event(id, None, None, Some(1), None)
}
fn text_content(id: &str, delta: &str) -> Event {
    create_text_message_content_event(id, delta, Some(1), None)
}
fn text_end(id: &str) -> Event {
    create_text_message_end_event(id, Some(1), None)
}

#[test]
fn rejects_new_run_started_while_current_run_is_active() {
    let out = collect(vec![started("thread", "run-1"), started("thread", "run-2")]);
    assert_eq!(out.len(), 2);
    assert!(out[0].is_ok());
    assert_validation(&out[1], "Cannot send 'RUN_STARTED' while a run is still active");
}

#[test]
fn run_error_blocks_subsequent_events_within_the_same_run() {
    let out = collect(vec![
        started("thread", "run-1"),
        create_run_error_event("Test error", None, Some(1), None),
        text_start("msg-1"),
    ]);
    assert_eq!(out.len(), 3);
    assert!(out[..2].iter().all(Result::is_ok));
    assert_validation(
        &out[2],
        "Cannot send event type 'TEXT_MESSAGE_START': The run has already errored with 'RUN_ERROR'",
    );
}

#[test]
fn allows_multiple_sequential_runs() {
    let out = collect(vec![
        started("test-thread-1", "test-run-1"),
        text_start("msg-1"),
        text_content("msg-1", "Hello from run 1"),
        text_end("msg-1"),
        finished("test-thread-1", "test-run-1"),
        started("test-thread-1", "test-run-2"),
        text_start("msg-2"),
        text_content("msg-2", "Hello from run 2"),
        text_end("msg-2"),
        finished("test-thread-1", "test-run-2"),
    ]);
    assert_eq!(out.len(), 10);
    assert!(out.iter().all(Result::is_ok), "all events should verify: {out:?}");
    assert!(matches!(out[0], Ok(Event::RunStarted(_))));
    assert!(matches!(out[4], Ok(Event::RunFinished(_))));
    assert!(matches!(out[5], Ok(Event::RunStarted(_))));
    assert!(matches!(out[9], Ok(Event::RunFinished(_))));
}

#[test]
fn allows_reusing_message_ids_across_different_runs() {
    let out = collect(vec![
        started("test-thread-1", "test-run-1"),
        text_start("msg-1"),
        text_end("msg-1"),
        finished("test-thread-1", "test-run-1"),
        started("test-thread-1", "test-run-2"),
        text_start("msg-1"),
        text_end("msg-1"),
        finished("test-thread-1", "test-run-2"),
    ]);
    assert_eq!(out.len(), 8);
    assert!(out.iter().all(Result::is_ok), "all events should verify: {out:?}");
}

#[test]
fn allows_multiple_runs_with_tool_calls() {
    let out = collect(vec![
        started("test-thread-1", "test-run-1"),
        create_tool_call_start_event("tool-1", "calculator", None, Some(1), None),
        create_tool_call_args_event("tool-1", "{\"a\": 1, \"b\": 2}", Some(1), None),
        create_tool_call_end_event("tool-1", Some(1), None),
        finished("test-thread-1", "test-run-1"),
        started("test-thread-1", "test-run-2"),
        create_tool_call_start_event("tool-1", "weather", None, Some(1), None),
        create_tool_call_args_event("tool-1", "{\"city\": \"NYC\"}", Some(1), None),
        create_tool_call_end_event("tool-1", Some(1), None),
        finished("test-thread-1", "test-run-2"),
    ]);
    assert_eq!(out.len(), 10);
    assert!(out.iter().all(Result::is_ok), "all events should verify: {out:?}");
}

#[test]
fn allows_multiple_runs_with_steps() {
    let out = collect(vec![
        started("test-thread-1", "test-run-1"),
        create_step_started_event("planning", Some(1), None),
        create_step_finished_event("planning", Some(1), None),
        finished("test-thread-1", "test-run-1"),
        started("test-thread-1", "test-run-2"),
        create_step_started_event("planning", Some(1), None),
        create_step_finished_event("planning", Some(1), None),
        finished("test-thread-1", "test-run-2"),
    ]);
    assert_eq!(out.len(), 8);
    assert!(out.iter().all(Result::is_ok), "all events should verify: {out:?}");
}

#[test]
fn allows_three_sequential_runs() {
    let mut events = Vec::new();
    for i in 1..=3 {
        events.push(started("test-thread-1", &format!("test-run-{i}")));
        events.push(text_start(&format!("msg-{i}")));
        events.push(text_content(&format!("msg-{i}"), &format!("Message from run {i}")));
        events.push(text_end(&format!("msg-{i}")));
        events.push(finished("test-thread-1", &format!("test-run-{i}")));
    }
    let out = collect(events);
    assert_eq!(out.len(), 15);
    assert!(out.iter().all(Result::is_ok), "all events should verify: {out:?}");
    assert!(matches!(out[0], Ok(Event::RunStarted(_))));
    assert!(matches!(out[5], Ok(Event::RunStarted(_))));
    assert!(matches!(out[10], Ok(Event::RunStarted(_))));
}

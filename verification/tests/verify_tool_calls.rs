use agui_rs::error::AgUiError;
use agui_rs::events::{
    BaseEventFields, CustomEvent, Event, MessagesSnapshotEvent, RawEvent, StateDeltaEvent,
    ToolCallResultEvent, ToolCallStartEvent, ToolResultRole,
};
use agui_rs::factories::{
    create_run_finished_success_event, create_run_started_event, create_state_snapshot_event,
    create_step_finished_event, create_step_started_event, create_text_message_content_event,
    create_text_message_end_event, create_text_message_start_event, create_tool_call_args_event,
    create_tool_call_end_event, create_tool_call_start_event,
};
use agui_rs::verify::verify_events;
use serde_json::Value;

fn collect(events: Vec<Event>) -> Vec<Result<Event, AgUiError>> {
    verify_events(events.into_iter().map(Ok).collect())
}

fn assert_validation(result: &Result<Event, AgUiError>, expected: &str) {
    match result {
        Err(AgUiError::Validation(message)) => {
            assert!(message.contains(expected), "expected '{expected}' in '{message}'");
        }
        other => panic!("expected validation error, got {other:?}"),
    }
}

fn run_started() -> Event {
    create_run_started_event("thread", "run", None, None, Some(1), None)
}
fn run_finished() -> Event {
    create_run_finished_success_event("thread", "run", None, Some(1), None)
}
fn tool_start(id: &str, name: &str) -> Event {
    create_tool_call_start_event(id, name, None, Some(1), None)
}
fn tool_args(id: &str, delta: &str) -> Event {
    create_tool_call_args_event(id, delta, Some(1), None)
}
fn tool_end(id: &str) -> Event {
    create_tool_call_end_event(id, Some(1), None)
}
fn text_start(id: &str) -> Event {
    create_text_message_start_event(id, None, None, Some(1), None)
}

fn tool_call_start_with_parent(tool_call_id: &str, parent_message_id: &str) -> Event {
    Event::ToolCallStart(ToolCallStartEvent {
        tool_call_id: tool_call_id.into(),
        tool_call_name: "search".into(),
        parent_message_id: Some(parent_message_id.into()),
        base: BaseEventFields::empty(),
    })
}

fn tool_call_result(message_id: &str, tool_call_id: &str, content: &str) -> Event {
    Event::ToolCallResult(ToolCallResultEvent {
        message_id: message_id.into(),
        tool_call_id: tool_call_id.into(),
        content: content.into(),
        role: Some(ToolResultRole::Tool),
        base: BaseEventFields::empty(),
    })
}

#[test]
fn tool_call_args_before_start_errors() {
    let out = collect(vec![run_started(), tool_args("tc1", "{}")]);
    assert_validation(
        &out[1],
        "Cannot send 'TOOL_CALL_ARGS' event: No active tool call found with ID 'tc1'",
    );
}

#[test]
fn tool_call_end_before_start_errors() {
    let out = collect(vec![run_started(), tool_end("tc1")]);
    assert_validation(
        &out[1],
        "Cannot send 'TOOL_CALL_END' event: No active tool call found with ID 'tc1'",
    );
}

#[test]
fn second_tool_call_start_while_active_errors() {
    let out = collect(vec![run_started(), tool_start("tc1", "search"), tool_start("tc2", "calculate")]);
    assert_validation(&out[2], "A tool call with ID 'tc1' is already in progress");
}

#[test]
fn mismatched_tool_call_args_id_errors() {
    let out = collect(vec![run_started(), tool_start("tc1", "search"), tool_args("tc2", "{}")]);
    assert_validation(
        &out[2],
        "Cannot send 'TOOL_CALL_ARGS' event: No active tool call found with ID 'tc2'",
    );
}

#[test]
fn tool_call_start_with_non_active_parent_message_errors() {
    let out = collect(vec![run_started(), tool_call_start_with_parent("tc1", "m1")]);
    assert_validation(
        &out[1],
        "Parent message ID 'm1' does not reference an active text message",
    );
}

#[test]
fn tool_call_start_with_mismatched_active_parent_message_errors() {
    let out = collect(vec![run_started(), text_start("m1"), tool_call_start_with_parent("tc1", "m2")]);
    assert_validation(
        &out[2],
        "Parent message ID 'm2' must match the active text message ID 'm1'",
    );
}

#[test]
fn raw_custom_state_messages_and_steps_inside_tool_call_pass() {
    let mut op = serde_json::Map::new();
    op.insert("op".into(), Value::from("add"));
    op.insert("path".into(), Value::from("/result"));
    op.insert("value".into(), Value::from("success"));
    let out = collect(vec![
        run_started(),
        tool_start("tc1", "search"),
        create_step_started_event("test-step", Some(1), None),
        tool_args("tc1", "{"),
        Event::Raw(RawEvent { event: Value::from("raw"), source: None, base: BaseEventFields::empty() }),
        Event::Custom(CustomEvent {
            name: "test_event".into(),
            value: Value::from("test_value"),
            base: BaseEventFields::empty(),
        }),
        create_state_snapshot_event(Value::Object(serde_json::Map::new()), Some(1), None),
        Event::StateDelta(StateDeltaEvent { delta: vec![Value::Object(op)], base: BaseEventFields::empty() }),
        Event::MessagesSnapshot(MessagesSnapshotEvent { messages: vec![], base: BaseEventFields::empty() }),
        create_step_finished_event("test-step", Some(1), None),
        tool_end("tc1"),
        run_finished(),
    ]);
    assert_eq!(out.len(), 12);
    assert!(out.iter().all(|item| item.is_ok()));
}

#[test]
fn text_message_can_run_inside_active_tool_call() {
    let out = collect(vec![
        run_started(),
        tool_start("tc1", "search"),
        tool_args("tc1", "Preparing..."),
        text_start("m1"),
        create_text_message_content_event("m1", "Tool is processing...", Some(1), None),
        create_text_message_end_event("m1", Some(1), None),
        tool_args("tc1", "Completed."),
        tool_end("tc1"),
        run_finished(),
    ]);
    assert_eq!(out.len(), 9);
    assert!(out.iter().all(|item| item.is_ok()));
}

#[test]
fn multiple_args_then_end_and_result_pass() {
    let out = collect(vec![
        run_started(),
        tool_start("tc1", "test-tool"),
        tool_args("tc1", "test args 1"),
        tool_args("tc1", "test args 2"),
        tool_end("tc1"),
        tool_call_result("m1", "tc1", "done"),
        run_finished(),
    ]);
    assert_eq!(out.len(), 7);
    assert!(out.iter().all(|item| item.is_ok()));
}

#[test]
fn multiple_sequential_tool_calls_pass() {
    let out = collect(vec![
        run_started(),
        tool_start("tc1", "search"),
        tool_args("tc1", "{\"query\":\"test\"}"),
        tool_end("tc1"),
        tool_start("tc2", "calculate"),
        tool_args("tc2", "{\"expression\":\"1+1\"}"),
        tool_end("tc2"),
        run_finished(),
    ]);
    assert_eq!(out.len(), 8);
    assert!(out.iter().all(|item| item.is_ok()));
}

#[test]
fn tool_call_at_run_boundaries_passes() {
    let out = collect(vec![
        run_started(),
        tool_start("tc1", "test-tool"),
        tool_args("tc1", "test args"),
        tool_end("tc1"),
        run_finished(),
    ]);
    assert_eq!(out.len(), 5);
    assert!(out.iter().all(|item| item.is_ok()));
}

#[test]
fn starting_tool_call_before_run_started_errors() {
    let out = collect(vec![tool_start("tc1", "test-tool")]);
    assert_eq!(out.len(), 1);
    assert_validation(&out[0], "First event must be 'RUN_STARTED'");
}

#[test]
fn run_finished_with_active_tool_call_errors() {
    let out = collect(vec![run_started(), tool_start("tc1", "search"), run_finished()]);
    assert_validation(
        &out[2],
        "Cannot send 'RUN_FINISHED' while tool call 'tc1' is still active",
    );
}

use agui_rs::clock::{current_timestamp_millis, format_id, generate_id, timestamp_from_millis};
use agui_rs::events::{Event, ReasoningEncryptedValueSubtype, ReasoningMessageRole, RunFinishedOutcome, ToolResultRole};
use agui_rs::factories::{
    base_fields, create_activity_delta_event, create_activity_snapshot_event, create_custom_event,
    create_messages_snapshot_event, create_raw_event, create_reasoning_encrypted_value_event,
    create_reasoning_end_event, create_reasoning_message_chunk_event,
    create_reasoning_message_content_event, create_reasoning_message_end_event,
    create_reasoning_message_start_event, create_reasoning_start_event, create_run_error_event,
    create_run_finished_event, create_run_finished_interrupt_event,
    create_run_finished_success_event, create_run_started_event, create_state_delta_event,
    create_state_snapshot_event, create_step_finished_event, create_step_started_event,
    create_text_message_chunk_event, create_text_message_content_event,
    create_text_message_end_event, create_text_message_start_event, create_thinking_end_event,
    create_thinking_start_event, create_thinking_text_message_content_event,
    create_thinking_text_message_end_event, create_thinking_text_message_start_event,
    create_tool_call_args_event, create_tool_call_chunk_event, create_tool_call_end_event,
    create_tool_call_result_event, create_tool_call_start_event,
};
use agui_rs::types::{
    AssistantMessage, BinaryInputContent, InputContent, Interrupt, Message, RunAgentInput,
    TextMessageRole, UserMessage, UserMessageContent,
};
use serde_json::Value;

#[test]
fn text_message_start_defaults_to_assistant_role() {
    match create_text_message_start_event("m1", None, None, Some(10), None) {
        Event::TextMessageStart(e) => {
            assert_eq!(e.message_id, "m1");
            assert_eq!(e.role, TextMessageRole::Assistant);
            assert_eq!(e.base.timestamp, Some(10));
            assert_eq!(e.base.raw_event, None);
        }
        other => panic!("unexpected: {other:?}"),
    }
    match create_text_message_start_event("m1", Some(TextMessageRole::User), None, Some(1), None) {
        Event::TextMessageStart(e) => assert_eq!(e.role, TextMessageRole::User),
        other => panic!("unexpected: {other:?}"),
    }
}

#[test]
fn missing_timestamp_is_filled_with_the_current_time() {
    let before = current_timestamp_millis();
    let base = base_fields(None, Some(Value::from("raw")));
    let after = current_timestamp_millis();
    let t = base.timestamp.expect("timestamp");
    assert!(before <= t && t <= after);
    assert_eq!(base.raw_event, Some(Value::from("raw")));
}

#[test]
fn activity_snapshot_replaces_by_default() {
    match create_activity_snapshot_event("a1", "plan", serde_json::Map::new(), None, Some(1), None) {
        Event::ActivitySnapshot(e) => assert!(e.replace),
        other => panic!("unexpected: {other:?}"),
    }
    match create_activity_snapshot_event("a1", "plan", serde_json::Map::new(), Some(false), Some(1), None) {
        Event::ActivitySnapshot(e) => assert!(!e.replace),
        other => panic!("unexpected: {other:?}"),
    }
}

#[test]
fn reasoning_message_role_is_reasoning() {
    match create_reasoning_message_start_event("r1", None, Some(1), None) {
        Event::ReasoningMessageStart(e) => assert_eq!(e.role, ReasoningMessageRole::Reasoning),
        other => panic!("unexpected: {other:?}"),
    }
}

#[test]
fn run_finished_helpers_set_the_outcome() {
    match create_run_finished_success_event("t", "r", None, Some(1), None) {
        Event::RunFinished(e) => assert_eq!(e.outcome, Some(RunFinishedOutcome::Success)),
        other => panic!("unexpected: {other:?}"),
    }
    match create_run_finished_interrupt_event("t", "r", None, vec![], Some(1), None) {
        Event::RunFinished(e) => {
            assert_eq!(e.outcome, Some(RunFinishedOutcome::Interrupt { interrupts: vec![] }))
        }
        other => panic!("unexpected: {other:?}"),
    }
}

#[test]
fn tool_call_result_carries_ids_and_content() {
    match create_tool_call_result_event("m", "tc", "done", None, Some(1), None) {
        Event::ToolCallResult(e) => {
            assert_eq!((e.message_id.as_str(), e.tool_call_id.as_str(), e.content.as_str()), ("m", "tc", "done"));
            assert_eq!(e.role, None);
        }
        other => panic!("unexpected: {other:?}"),
    }
}

#[test]
fn ids_are_prefix_dash_number() {
    assert_eq!(format_id("run", 0), "run-0");
    assert_eq!(format_id("thread", 1234567), "thread-1234567");
    let id = generate_id("run");
    assert!(id.starts_with("run-"));
    assert!(id["run-".len()..].chars().all(|c| c.is_ascii_digit()));
}

fn interrupt(id: &str, reason: &str) -> Interrupt {
    Interrupt {
        id: id.to_string(),
        reason: reason.to_string(),
        message: None,
        tool_call_id: None,
        response_schema: None,
        expires_at: None,
        metadata: None,
    }
}

fn object(entries: Vec<(&str, Value)>) -> Value {
    let mut map = serde_json::Map::new();
    for (k, v) in entries {
        map.insert(k.to_string(), v);
    }
    Value::Object(map)
}

#[test]
fn create_text_message_start_event_defaults_role() {
    let event = create_text_message_start_event("m1", None, None, Some(42), None);
    match event {
        Event::TextMessageStart(event) => {
            assert_eq!(event.role, TextMessageRole::Assistant);
            assert_eq!(event.base.timestamp, Some(42));
        }
        _ => panic!("expected text message start"),
    }
}

#[test]
fn create_activity_snapshot_event_defaults_replace_true() {
    let event = create_activity_snapshot_event("a1", "plan", serde_json::Map::new(), None, Some(42), None);
    match event {
        Event::ActivitySnapshot(event) => {
            assert!(event.replace);
            assert_eq!(event.base.timestamp, Some(42));
        }
        _ => panic!("expected activity snapshot"),
    }
}

#[test]
fn create_run_finished_success_event_sets_success_outcome() {
    let event = create_run_finished_success_event("t1", "r1", None, Some(42), None);
    match event {
        Event::RunFinished(event) => {
            assert_eq!(event.outcome, Some(RunFinishedOutcome::Success));
            assert_eq!(event.base.timestamp, Some(42));
        }
        _ => panic!("expected run finished"),
    }
}

#[test]
fn create_run_finished_interrupt_event_sets_interrupt_outcome() {
    let raw = object(vec![("raw", Value::Bool(true))]);
    let event = create_run_finished_interrupt_event(
        "t1",
        "r1",
        None,
        vec![interrupt("i1", "approval")],
        Some(42),
        Some(raw.clone()),
    );
    match event {
        Event::RunFinished(event) => match event.outcome {
            Some(RunFinishedOutcome::Interrupt { interrupts }) => {
                assert_eq!(interrupts.len(), 1);
                assert_eq!(event.base.raw_event, Some(raw));
            }
            _ => panic!("expected interrupt outcome"),
        },
        _ => panic!("expected run finished"),
    }
}

#[test]
fn create_messages_snapshot_event_accepts_binary_parts() {
    let event = create_messages_snapshot_event(
        vec![Message::User(UserMessage {
            id: "u1".into(),
            content: UserMessageContent::Parts(vec![InputContent::Binary {
                content: BinaryInputContent {
                    mime_type: "application/octet-stream".into(),
                    id: Some("blob-1".into()),
                    url: None,
                    data: None,
                    filename: None,
                },
            }]),
            name: None,
            encrypted_value: None,
        })],
        Some(42),
        None,
    );
    match event {
        Event::MessagesSnapshot(event) => {
            assert_eq!(event.messages.len(), 1);
            assert_eq!(event.base.timestamp, Some(42));
        }
        _ => panic!("expected messages snapshot"),
    }
}

#[test]
fn text_message_factories_cover_roles_names_and_optional_fields() {
    let start_default = create_text_message_start_event("msg-1", None, None, Some(11), None);
    let start_user = create_text_message_start_event(
        "msg-2",
        Some(TextMessageRole::User),
        Some("research-agent".into()),
        Some(12),
        None,
    );
    let content_empty = create_text_message_content_event("msg-3", "", Some(13), None);
    let content_text = create_text_message_content_event("msg-4", "hi", Some(14), None);
    let end = create_text_message_end_event("msg-5", Some(15), None);
    let chunk_named = create_text_message_chunk_event(
        Some("msg-1".into()),
        None,
        Some("Hello".into()),
        Some("research-agent".into()),
        Some(16),
        None,
    );
    let chunk_optional =
        create_text_message_chunk_event(None, None, Some("partial".into()), None, Some(17), None);

    assert!(
        matches!(start_default, Event::TextMessageStart(ref event) if event.role == TextMessageRole::Assistant && event.base.timestamp == Some(11))
    );
    assert!(
        matches!(start_user, Event::TextMessageStart(ref event) if event.role == TextMessageRole::User && event.name.as_deref() == Some("research-agent"))
    );
    assert!(matches!(content_empty, Event::TextMessageContent(ref event) if event.delta.is_empty()));
    assert!(matches!(content_text, Event::TextMessageContent(ref event) if event.delta == "hi"));
    assert!(matches!(end, Event::TextMessageEnd(ref event) if event.message_id == "msg-5"));
    assert!(
        matches!(chunk_named, Event::TextMessageChunk(ref event) if event.name.as_deref() == Some("research-agent"))
    );
    assert!(
        matches!(chunk_optional, Event::TextMessageChunk(ref event) if event.delta.as_deref() == Some("partial") && event.message_id.is_none())
    );
}

#[test]
fn thinking_message_and_reasoning_factories_build_expected_variants() {
    let thinking_start = create_thinking_start_event(Some("working".into()), Some(21), None);
    let thinking_text_start = create_thinking_text_message_start_event(Some(22), None);
    let thinking_text_content =
        create_thinking_text_message_content_event("thinking…", Some(23), None);
    let thinking_text_end = create_thinking_text_message_end_event(Some(24), None);
    let thinking_end = create_thinking_end_event(Some(25), None);
    let reasoning_start = create_reasoning_start_event("r1", Some(26), None);
    let reasoning_message_start =
        create_reasoning_message_start_event("r1", Some(ReasoningMessageRole::Reasoning), Some(27), None);
    let reasoning_message_content = create_reasoning_message_content_event("r1", "step", Some(28), None);
    let reasoning_message_end = create_reasoning_message_end_event("r1", Some(29), None);
    let reasoning_chunk =
        create_reasoning_message_chunk_event(Some("r1".into()), Some("chunk".into()), Some(30), None);
    let reasoning_end = create_reasoning_end_event("r1", Some(31), None);
    let encrypted = create_reasoning_encrypted_value_event(
        ReasoningEncryptedValueSubtype::ToolCall,
        "tc1",
        "cipher",
        Some(32),
        None,
    );

    assert!(
        matches!(thinking_start, Event::ThinkingStart(ref event) if event.title.as_deref() == Some("working"))
    );
    assert!(matches!(thinking_text_start, Event::ThinkingTextMessageStart(_)));
    assert!(
        matches!(thinking_text_content, Event::ThinkingTextMessageContent(ref event) if event.delta == "thinking…")
    );
    assert!(matches!(thinking_text_end, Event::ThinkingTextMessageEnd(_)));
    assert!(matches!(thinking_end, Event::ThinkingEnd(_)));
    assert!(matches!(reasoning_start, Event::ReasoningStart(ref event) if event.message_id == "r1"));
    assert!(
        matches!(reasoning_message_start, Event::ReasoningMessageStart(ref event) if event.role == ReasoningMessageRole::Reasoning)
    );
    assert!(
        matches!(reasoning_message_content, Event::ReasoningMessageContent(ref event) if event.delta == "step")
    );
    assert!(
        matches!(reasoning_message_end, Event::ReasoningMessageEnd(ref event) if event.message_id == "r1")
    );
    assert!(
        matches!(reasoning_chunk, Event::ReasoningMessageChunk(ref event) if event.delta.as_deref() == Some("chunk"))
    );
    assert!(matches!(reasoning_end, Event::ReasoningEnd(ref event) if event.message_id == "r1"));
    assert!(
        matches!(encrypted, Event::ReasoningEncryptedValue(ref event) if event.subtype == ReasoningEncryptedValueSubtype::ToolCall)
    );
}

#[test]
fn tool_call_factories_cover_start_args_chunk_end_and_result() {
    let start =
        create_tool_call_start_event("tc-1", "search", Some("msg-parent".into()), Some(41), None);
    let args = create_tool_call_args_event("tc-1", r#"{"q":"hi"}"#, Some(42), None);
    let chunk = create_tool_call_chunk_event(
        Some("tc-1".into()),
        Some("search".into()),
        None,
        Some("partial".into()),
        Some(43),
        None,
    );
    let end = create_tool_call_end_event("tc-1", Some(44), None);
    let result = create_tool_call_result_event(
        "msg-6",
        "tc-1",
        r#"{"ok":true}"#,
        Some(ToolResultRole::Tool),
        Some(45),
        None,
    );

    assert!(
        matches!(start, Event::ToolCallStart(ref event) if event.parent_message_id.as_deref() == Some("msg-parent"))
    );
    assert!(matches!(args, Event::ToolCallArgs(ref event) if event.delta.contains('q')));
    assert!(matches!(chunk, Event::ToolCallChunk(ref event) if event.delta.as_deref() == Some("partial")));
    assert!(matches!(end, Event::ToolCallEnd(ref event) if event.tool_call_id == "tc-1"));
    assert!(
        matches!(result, Event::ToolCallResult(ref event) if event.role == Some(ToolResultRole::Tool) && event.content == r#"{"ok":true}"#)
    );
}

#[test]
fn snapshot_raw_custom_run_and_step_factories_cover_public_api() {
    let messages = vec![
        Message::User(UserMessage {
            id: "u1".into(),
            content: UserMessageContent::Text("hello".into()),
            name: None,
            encrypted_value: None,
        }),
        Message::Assistant(AssistantMessage {
            id: "a1".into(),
            content: Some("hi there".into()),
            name: None,
            tool_calls: None,
            encrypted_value: None,
        }),
    ];
    let run_input = RunAgentInput {
        thread_id: "t1".into(),
        run_id: "r1".into(),
        parent_run_id: None,
        state: Value::Null,
        messages: vec![],
        tools: vec![],
        context: vec![],
        forwarded_props: Value::Null,
        resume: None,
    };
    let state_snapshot =
        create_state_snapshot_event(object(vec![("step", Value::from(1))]), Some(51), None);
    let state_delta = create_state_delta_event(
        vec![object(vec![
            ("op", Value::from("add")),
            ("path", Value::from("/foo")),
            ("value", Value::from("bar")),
        ])],
        Some(52),
        None,
    );
    let messages_snapshot = create_messages_snapshot_event(messages, Some(123), None);
    let mut steps = serde_json::Map::new();
    steps.insert("steps".to_string(), Value::Array(vec![]));
    let activity_snapshot =
        create_activity_snapshot_event("activity-1", "PLAN", steps, None, Some(53), None);
    let activity_delta = create_activity_delta_event(
        "activity-1",
        "PLAN",
        vec![object(vec![
            ("op", Value::from("replace")),
            ("path", Value::from("/steps/0")),
            ("value", Value::from("done")),
        ])],
        Some(54),
        None,
    );
    let raw = create_raw_event(
        object(vec![("any", Value::Bool(true))]),
        Some("webhook".into()),
        Some(55),
        None,
    );
    let custom = create_custom_event("metric", Value::from(42), Some(56), None);
    let started = create_run_started_event("t1", "r1", None, Some(run_input), Some(57), None);
    let finished = create_run_finished_event(
        "t1",
        "r1",
        Some(object(vec![("ok", Value::Bool(true))])),
        None,
        Some(58),
        None,
    );
    let error = create_run_error_event("boom", Some("E_FAIL".into()), Some(59), None);
    let step_started = create_step_started_event("fetch", Some(60), None);
    let step_finished = create_step_finished_event("fetch", Some(61), None);

    assert!(
        matches!(state_snapshot, Event::StateSnapshot(ref event) if event.snapshot == object(vec![("step", Value::from(1))]))
    );
    assert!(matches!(state_delta, Event::StateDelta(ref event) if event.delta[0]["op"] == "add"));
    assert!(
        matches!(messages_snapshot, Event::MessagesSnapshot(ref event) if event.messages.len() == 2 && event.base.timestamp == Some(123))
    );
    assert!(matches!(activity_snapshot, Event::ActivitySnapshot(ref event) if event.replace));
    assert!(
        matches!(activity_delta, Event::ActivityDelta(ref event) if event.patch[0]["path"] == "/steps/0")
    );
    assert!(matches!(raw, Event::Raw(ref event) if event.source.as_deref() == Some("webhook")));
    assert!(matches!(custom, Event::Custom(ref event) if event.value == Value::from(42)));
    assert!(
        matches!(started, Event::RunStarted(ref event) if event.input.as_ref().map(|input| input.run_id.as_str()) == Some("r1"))
    );
    assert!(
        matches!(finished, Event::RunFinished(ref event) if event.result == Some(object(vec![("ok", Value::Bool(true))])) && event.outcome.is_none())
    );
    assert!(matches!(error, Event::RunError(ref event) if event.code.as_deref() == Some("E_FAIL")));
    assert!(matches!(step_started, Event::StepStarted(ref event) if event.step_name == "fetch"));
    assert!(matches!(step_finished, Event::StepFinished(ref event) if event.step_name == "fetch"));
}

#[test]
fn run_finished_success_factory_sets_success_outcome() {
    let ok = object(vec![("ok", Value::Bool(true))]);
    let event = create_run_finished_success_event("t-1", "r-1", Some(ok.clone()), Some(71), None);
    assert!(
        matches!(event, Event::RunFinished(ref event) if event.outcome == Some(RunFinishedOutcome::Success) && event.result == Some(ok.clone()))
    );
}

#[test]
fn run_finished_interrupt_factory_sets_interrupt_outcome() {
    let event = create_run_finished_interrupt_event(
        "t-1",
        "r-1",
        None,
        vec![interrupt("int-1", "tool_call")],
        Some(72),
        None,
    );
    assert!(
        matches!(event, Event::RunFinished(ref event) if matches!(&event.outcome, Some(RunFinishedOutcome::Interrupt { interrupts }) if interrupts.len() == 1))
    );
}

#[test]
fn run_finished_factory_accepts_explicit_success_and_interrupt_outcomes() {
    let success =
        create_run_finished_event("t-1", "r-1", None, Some(RunFinishedOutcome::Success), Some(73), None);
    let interrupt_event = create_run_finished_event(
        "t-1",
        "r-1",
        None,
        Some(RunFinishedOutcome::Interrupt { interrupts: vec![interrupt("int-1", "tool_call")] }),
        Some(74),
        None,
    );
    assert!(
        matches!(success, Event::RunFinished(ref event) if event.outcome == Some(RunFinishedOutcome::Success))
    );
    assert!(
        matches!(interrupt_event, Event::RunFinished(ref event) if matches!(&event.outcome, Some(RunFinishedOutcome::Interrupt { interrupts }) if interrupts.len() == 1))
    );
}

#[test]
fn timestamps_are_milliseconds_capped_at_i64_max() {
    assert_eq!(timestamp_from_millis(0), 0);
    assert_eq!(timestamp_from_millis(1_700_000_000_123), 1_700_000_000_123);
    assert_eq!(timestamp_from_millis(i64::MAX as u128), i64::MAX);
    assert_eq!(timestamp_from_millis(i64::MAX as u128 + 1), i64::MAX);
    assert_eq!(timestamp_from_millis(u128::MAX), i64::MAX);
}

use agui_rs::apply::{
    apply_event, assistant_message_mut, default_apply_events, find_tool_call_mut, role_name,
    AppliedEvent, ApplyState,
};
use agui_rs::error::AgUiError;
use agui_rs::events::{
    ActivityDeltaEvent, ActivitySnapshotEvent, BaseEventFields, Event, MessagesSnapshotEvent, ReasoningEncryptedValueEvent,
    ReasoningEncryptedValueSubtype, ReasoningMessageRole, ReasoningMessageStartEvent,
    StateDeltaEvent, StateSnapshotEvent, TextMessageStartEvent, ToolCallResultEvent,
    ToolCallStartEvent, ToolResultRole,
};
use agui_rs::factories::{
    create_reasoning_message_content_event, create_text_message_content_event,
    create_text_message_end_event, create_tool_call_args_event, create_tool_call_end_event,
};
use agui_rs::types::{
    AssistantMessage, FunctionCall, Message, ReasoningMessage, TextMessageRole, ToolCall,
    ToolCallKind,
};
use serde_json::Value;

fn base() -> BaseEventFields {
    BaseEventFields::empty()
}

fn collect(events: Vec<Event>) -> Vec<AppliedEvent> {
    default_apply_events(events.into_iter().map(Ok).collect(), Vec::new(), Value::Null)
        .into_iter()
        .collect::<Result<Vec<_>, _>>()
        .expect("apply should succeed")
}

fn apply_all(events: Vec<Event>) -> ApplyState {
    let mut state = ApplyState { messages: Vec::new(), state: Value::Null };
    for event in events {
        apply_event(&mut state, &event).expect("event should apply");
    }
    state
}

fn object(pairs: &[(&str, Value)]) -> Value {
    let mut m = serde_json::Map::new();
    for (k, v) in pairs {
        m.insert(k.to_string(), v.clone());
    }
    Value::Object(m)
}

fn tool_start(id: &str, parent: Option<&str>) -> Event {
    Event::ToolCallStart(ToolCallStartEvent {
        tool_call_id: id.into(),
        tool_call_name: "search".into(),
        parent_message_id: parent.map(String::from),
        base: base(),
    })
}

#[test]
fn builds_assistant_message_from_text_events() {
    let items = collect(vec![
        Event::TextMessageStart(TextMessageStartEvent {
            message_id: "m1".into(),
            role: TextMessageRole::Assistant,
            name: None,
            base: base(),
        }),
        create_text_message_content_event("m1", "hello", Some(1), None),
        create_text_message_end_event("m1", Some(1), None),
    ]);

    let final_messages = &items.last().expect("final event").messages;
    match &final_messages[0] {
        Message::Assistant(message) => assert_eq!(message.content.as_deref(), Some("hello")),
        _ => panic!("expected assistant message"),
    }
}

#[test]
fn creates_reasoning_message_on_start() {
    let items = collect(vec![Event::ReasoningMessageStart(ReasoningMessageStartEvent {
        message_id: "r1".into(),
        role: ReasoningMessageRole::Reasoning,
        base: base(),
    })]);

    assert!(matches!(items[0].messages[0], Message::Reasoning(_)));
}

#[test]
fn appends_reasoning_content_across_events() {
    let state = apply_all(vec![
        Event::ReasoningMessageStart(ReasoningMessageStartEvent {
            message_id: "r1".into(),
            role: ReasoningMessageRole::Reasoning,
            base: base(),
        }),
        create_reasoning_message_content_event("r1", "step ", Some(1), None),
        create_reasoning_message_content_event("r1", "two", Some(1), None),
    ]);
    match &state.messages[0] {
        Message::Reasoning(m) => assert_eq!(m.content, "step two"),
        _ => panic!("expected reasoning message"),
    }
}

#[test]
fn creates_assistant_message_for_parentless_tool_call() {
    let state = apply_all(vec![tool_start("tc1", None)]);

    match &state.messages[0] {
        Message::Assistant(message) => {
            assert_eq!(message.id, "tc1");
            assert_eq!(message.tool_calls.as_ref().map(Vec::len), Some(1));
        }
        _ => panic!("expected assistant message"),
    }
}

#[test]
fn merges_tool_call_args_across_lifecycle() {
    let state = apply_all(vec![
        tool_start("tc1", Some("m1")),
        create_tool_call_args_event("tc1", "{\"q\":\"ru", Some(1), None),
        create_tool_call_args_event("tc1", "st\"}", Some(1), None),
        create_tool_call_end_event("tc1", Some(1), None),
    ]);

    match &state.messages[0] {
        Message::Assistant(message) => {
            let tool_call = &message.tool_calls.as_ref().expect("tool calls")[0];
            assert_eq!(tool_call.function.arguments, "{\"q\":\"rust\"}");
        }
        _ => panic!("expected assistant message"),
    }
}

#[test]
fn applies_reasoning_encrypted_value_to_tool_call() {
    let state = apply_all(vec![
        tool_start("tc1", None),
        Event::ReasoningEncryptedValue(ReasoningEncryptedValueEvent {
            subtype: ReasoningEncryptedValueSubtype::ToolCall,
            entity_id: "tc1".into(),
            encrypted_value: "cipher".into(),
            base: base(),
        }),
    ]);

    match &state.messages[0] {
        Message::Assistant(message) => {
            let tool_call = &message.tool_calls.as_ref().expect("tool calls")[0];
            assert_eq!(tool_call.encrypted_value.as_deref(), Some("cipher"));
        }
        _ => panic!("expected assistant message"),
    }
}

#[test]
fn appends_tool_message_from_tool_call_result() {
    let items = collect(vec![Event::ToolCallResult(ToolCallResultEvent {
        message_id: "tool-msg-1".into(),
        tool_call_id: "tc1".into(),
        content: "done".into(),
        role: Some(ToolResultRole::Tool),
        base: base(),
    })]);

    match &items[0].messages[0] {
        Message::Tool(message) => {
            assert_eq!(message.id, "tool-msg-1");
            assert_eq!(message.tool_call_id, "tc1");
        }
        _ => panic!("expected tool message"),
    }
}

#[test]
fn applies_state_snapshot() {
    let snapshot = object(&[("count", Value::from(1))]);
    let items = collect(vec![Event::StateSnapshot(StateSnapshotEvent {
        snapshot: snapshot.clone(),
        base: base(),
    })]);

    assert_eq!(items[0].state, snapshot);
}

#[test]
fn applies_state_delta_via_json_patch() {
    let state = apply_all(vec![
        Event::StateSnapshot(StateSnapshotEvent {
            snapshot: object(&[("count", Value::from(1))]),
            base: base(),
        }),
        Event::StateDelta(StateDeltaEvent {
            delta: vec![object(&[
                ("op", Value::from("replace")),
                ("path", Value::from("/count")),
                ("value", Value::from(2)),
            ])],
            base: base(),
        }),
    ]);

    assert_eq!(state.state, object(&[("count", Value::from(2))]));
}

#[test]
fn failed_state_delta_leaves_state_unchanged() {
    let snapshot = object(&[("count", Value::from(1))]);
    let mut state = ApplyState { messages: Vec::new(), state: snapshot.clone() };
    let r = apply_event(
        &mut state,
        &Event::StateDelta(StateDeltaEvent {
            delta: vec![object(&[
                ("op", Value::from("remove")),
                ("path", Value::from("/missing")),
            ])],
            base: base(),
        }),
    );
    assert!(r.is_err());
    assert_eq!(state.state, snapshot);
}

#[test]
fn messages_snapshot_preserves_client_only_messages() {
    let mut state = ApplyState {
        messages: vec![
            Message::Reasoning(ReasoningMessage {
                id: "r1".into(),
                content: "plan".into(),
                encrypted_value: None,
            }),
            Message::Assistant(AssistantMessage {
                id: "m1".into(),
                content: Some("old".into()),
                name: None,
                tool_calls: None,
                encrypted_value: None,
            }),
        ],
        state: Value::Null,
    };

    apply_event(
        &mut state,
        &Event::MessagesSnapshot(MessagesSnapshotEvent {
            messages: vec![Message::Assistant(AssistantMessage {
                id: "m1".into(),
                content: Some("new".into()),
                name: None,
                tool_calls: None,
                encrypted_value: None,
            })],
            base: base(),
        }),
    )
    .expect("snapshot should apply");

    assert!(matches!(state.messages[0], Message::Reasoning(_)));
    match &state.messages[1] {
        Message::Assistant(message) => assert_eq!(message.content.as_deref(), Some("new")),
        _ => panic!("expected assistant message"),
    }
}

#[test]
fn content_for_unknown_message_is_an_error_that_changes_nothing() {
    let mut state = ApplyState { messages: Vec::new(), state: Value::Null };
    let r = apply_event(&mut state, &create_text_message_content_event("nope", "x", Some(1), None));
    assert!(matches!(&r, Err(AgUiError::Validation(m)) if m == "message 'nope' not found"));
    assert!(state.messages.is_empty());
}

#[test]
fn role_names_are_lower_case() {
    let m = Message::Reasoning(ReasoningMessage {
        id: "r".into(),
        content: String::new(),
        encrypted_value: None,
    });
    assert_eq!(role_name(&m), "reasoning");
}

#[test]
fn updates_activity_message_from_delta() {
    let mut content = serde_json::Map::new();
    content.insert("step".into(), Value::from(1));
    let state = apply_all(vec![
        Event::ActivitySnapshot(ActivitySnapshotEvent {
            message_id: "a1".into(),
            activity_type: "plan".into(),
            content,
            replace: true,
            base: base(),
        }),
        Event::ActivityDelta(ActivityDeltaEvent {
            message_id: "a1".into(),
            activity_type: "plan".into(),
            patch: vec![object(&[
                ("op", Value::from("replace")),
                ("path", Value::from("/step")),
                ("value", Value::from(2)),
            ])],
            base: base(),
        }),
    ]);
    match &state.messages[0] {
        Message::Activity(a) => assert_eq!(a.content.get("step"), Some(&Value::from(2))),
        other => panic!("unexpected: {other:?}"),
    }
}

#[test]
fn activity_delta_missing_message_is_noop() {
    let state = apply_all(vec![Event::ActivityDelta(ActivityDeltaEvent {
        message_id: "missing".into(),
        activity_type: "plan".into(),
        patch: vec![],
        base: base(),
    })]);
    assert!(state.messages.is_empty());
}

#[test]
fn assistant_message_mut_edits_in_place_or_rejects() {
    let mut m = Message::Assistant(AssistantMessage {
        id: "a".into(),
        content: None,
        name: None,
        tool_calls: None,
        encrypted_value: None,
    });
    assistant_message_mut(&mut m).expect("assistant").content = Some("x".into());
    match &m {
        Message::Assistant(a) => assert_eq!(a.content.as_deref(), Some("x")),
        _ => panic!("kind changed"),
    }
    let mut r = Message::Reasoning(ReasoningMessage { id: "r".into(), content: String::new(), encrypted_value: None });
    match assistant_message_mut(&mut r) {
        Err(AgUiError::Validation(msg)) => assert_eq!(msg, "expected assistant message"),
        _ => panic!("expected an error"),
    }
}

#[test]
fn find_tool_call_mut_finds_the_first_call_with_the_id() {
    let tc = |id: &str| ToolCall {
        id: id.into(),
        kind: ToolCallKind::Function,
        function: FunctionCall { name: "f".into(), arguments: String::new() },
        encrypted_value: None,
    };
    let mut messages = vec![
        Message::Reasoning(ReasoningMessage { id: "r".into(), content: String::new(), encrypted_value: None }),
        Message::Assistant(AssistantMessage {
            id: "a".into(),
            content: None,
            name: None,
            tool_calls: Some(vec![tc("t1"), tc("t2")]),
            encrypted_value: None,
        }),
    ];
    find_tool_call_mut(&mut messages, "t2").expect("found").function.arguments = "{}".into();
    match &messages[1] {
        Message::Assistant(a) => {
            let calls = a.tool_calls.as_ref().unwrap();
            assert_eq!(calls[1].function.arguments, "{}");
            assert_eq!(calls[0].function.arguments, "");
        }
        _ => panic!("kind changed"),
    }
    match find_tool_call_mut(&mut messages, "t9") {
        Err(AgUiError::Validation(msg)) => assert_eq!(msg, "tool call 't9' not found"),
        _ => panic!("expected an error"),
    }
}

fn json_obj(entries: Vec<(&str, Value)>) -> Value {
    let mut m = serde_json::Map::new();
    for (k, v) in entries {
        m.insert(k.to_string(), v);
    }
    Value::Object(m)
}

fn delta_event(ops: Vec<Value>) -> Event {
    Event::StateDelta(StateDeltaEvent { delta: ops, base: BaseEventFields::empty() })
}

#[test]
fn failed_move_leaves_the_state_unchanged() {
    let start = json_obj(vec![("a", Value::from(1))]);
    let mut state = ApplyState { messages: vec![], state: start.clone() };
    let op = json_obj(vec![
        ("op", Value::from("move")),
        ("from", Value::from("/a")),
        ("path", Value::from("/b/c")),
    ]);
    match apply_event(&mut state, &delta_event(vec![op])) {
        Err(AgUiError::Validation(m)) => assert!(m.starts_with("failed to apply state delta: ")),
        other => panic!("unexpected: {other:?}"),
    }
    assert_eq!(state.state, start);
}

#[test]
fn failure_after_earlier_operations_leaves_the_state_unchanged() {
    let start = json_obj(vec![("a", json_obj(vec![]))]);
    let mut state = ApplyState { messages: vec![], state: start.clone() };
    let add = json_obj(vec![
        ("op", Value::from("add")),
        ("path", Value::from("/a/b")),
        ("value", Value::from(1)),
    ]);
    let mov = json_obj(vec![
        ("op", Value::from("move")),
        ("from", Value::from("/a")),
        ("path", Value::from("/q/r")),
    ]);
    assert!(apply_event(&mut state, &delta_event(vec![add.clone(), mov])).is_err());
    assert_eq!(state.state, start);
    assert!(apply_event(&mut state, &delta_event(vec![add])).is_ok());
    assert_eq!(state.state, json_obj(vec![("a", json_obj(vec![("b", Value::from(1))]))]));
}

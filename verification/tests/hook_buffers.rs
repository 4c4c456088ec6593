use agui_rs::events::{
    BaseEventFields, Event, ReasoningMessageContentEvent, ReasoningMessageEndEvent,
    ReasoningMessageRole, ReasoningMessageStartEvent, TextMessageContentEvent,
    TextMessageEndEvent, TextMessageStartEvent, ToolCallArgsEvent, ToolCallEndEvent,
    ToolCallStartEvent,
};
use agui_rs::hook_buffers::{args_or_null, BufferedHook, HookBuffers};
use agui_rs::types::TextMessageRole;
use serde_json::Value;

fn text_start(id: &str) -> Event {
    Event::TextMessageStart(TextMessageStartEvent {
        message_id: id.into(),
        role: TextMessageRole::Assistant,
        name: None,
        base: BaseEventFields::empty(),
    })
}

fn text_content(id: &str, delta: &str) -> Event {
    Event::TextMessageContent(TextMessageContentEvent {
        message_id: id.into(),
        delta: delta.into(),
        base: BaseEventFields::empty(),
    })
}

fn text_end(id: &str) -> Event {
    Event::TextMessageEnd(TextMessageEndEvent { message_id: id.into(), base: BaseEventFields::empty() })
}

fn tool_start(id: &str, name: &str) -> Event {
    Event::ToolCallStart(ToolCallStartEvent {
        tool_call_id: id.into(),
        tool_call_name: name.into(),
        parent_message_id: None,
        base: BaseEventFields::empty(),
    })
}

fn tool_args(id: &str, delta: &str) -> Event {
    Event::ToolCallArgs(ToolCallArgsEvent {
        tool_call_id: id.into(),
        delta: delta.into(),
        base: BaseEventFields::empty(),
    })
}

fn tool_end(id: &str) -> Event {
    Event::ToolCallEnd(ToolCallEndEvent { tool_call_id: id.into(), base: BaseEventFields::empty() })
}

fn buffer_of(hook: BufferedHook) -> String {
    match hook {
        BufferedHook::TextContent { buffer }
        | BufferedHook::TextEnd { buffer }
        | BufferedHook::ReasoningContent { buffer }
        | BufferedHook::ReasoningEnd { buffer } => buffer,
        other => panic!("no buffer: {other:?}"),
    }
}

#[test]
fn text_buffers_accumulate_per_message_until_the_end() {
    let mut buffers = HookBuffers::new();
    assert!(matches!(buffers.observe(&text_start("m1")), BufferedHook::Unbuffered));
    assert_eq!(buffer_of(buffers.observe(&text_content("m1", "Hel"))), "Hel");
    assert!(matches!(buffers.observe(&text_start("m2")), BufferedHook::Unbuffered));
    assert_eq!(buffer_of(buffers.observe(&text_content("m2", "other"))), "other");
    assert_eq!(buffer_of(buffers.observe(&text_content("m1", "lo"))), "Hello");
    assert_eq!(buffer_of(buffers.observe(&text_end("m1"))), "Hello");
    // The ended buffer is dropped: a later end sees nothing.
    assert_eq!(buffer_of(buffers.observe(&text_end("m1"))), "");
    assert_eq!(buffer_of(buffers.observe(&text_end("m2"))), "other");
}

#[test]
fn content_without_a_start_begins_from_empty() {
    let mut buffers = HookBuffers::new();
    assert_eq!(buffer_of(buffers.observe(&text_content("m9", "x"))), "x");
}

#[test]
fn tool_call_args_are_parsed_as_json_once_complete() {
    let mut buffers = HookBuffers::new();
    buffers.observe(&tool_start("tc1", "search"));
    match buffers.observe(&tool_args("tc1", "{\"q\":")) {
        BufferedHook::ToolCallArgs { buffer, tool_call_name, partial_args } => {
            assert_eq!(buffer, "{\"q\":");
            assert_eq!(tool_call_name, "search");
            assert_eq!(partial_args, Value::Null);
        }
        other => panic!("unexpected: {other:?}"),
    }
    let mut expected = serde_json::Map::new();
    expected.insert("q".to_string(), Value::from("hi"));
    match buffers.observe(&tool_args("tc1", "\"hi\"}")) {
        BufferedHook::ToolCallArgs { buffer, partial_args, .. } => {
            assert_eq!(buffer, "{\"q\":\"hi\"}");
            assert_eq!(partial_args, Value::Object(expected.clone()));
        }
        other => panic!("unexpected: {other:?}"),
    }
    match buffers.observe(&tool_end("tc1")) {
        BufferedHook::ToolCallEnd { tool_call_name, tool_call_args } => {
            assert_eq!(tool_call_name, "search");
            assert_eq!(tool_call_args, Value::Object(expected));
        }
        other => panic!("unexpected: {other:?}"),
    }
    // After the end, name and arguments are gone.
    match buffers.observe(&tool_end("tc1")) {
        BufferedHook::ToolCallEnd { tool_call_name, tool_call_args } => {
            assert_eq!(tool_call_name, "");
            assert_eq!(tool_call_args, Value::Null);
        }
        other => panic!("unexpected: {other:?}"),
    }
}

#[test]
fn tool_call_end_with_text_that_is_not_json_shows_null() {
    let mut buffers = HookBuffers::new();
    buffers.observe(&tool_start("tc1", "calc"));
    buffers.observe(&tool_args("tc1", "Preparing..."));
    match buffers.observe(&tool_end("tc1")) {
        BufferedHook::ToolCallEnd { tool_call_name, tool_call_args } => {
            assert_eq!(tool_call_name, "calc");
            assert_eq!(tool_call_args, Value::Null);
        }
        other => panic!("unexpected: {other:?}"),
    }
}

#[test]
fn reasoning_buffers_accumulate_and_other_events_leave_buffers_alone() {
    let mut buffers = HookBuffers::new();
    buffers.observe(&Event::ReasoningMessageStart(ReasoningMessageStartEvent {
        message_id: "r1".into(),
        role: ReasoningMessageRole::Reasoning,
        base: BaseEventFields::empty(),
    }));
    let content = |d: &str| {
        Event::ReasoningMessageContent(ReasoningMessageContentEvent {
            message_id: "r1".into(),
            delta: d.into(),
            base: BaseEventFields::empty(),
        })
    };
    assert_eq!(buffer_of(buffers.observe(&content("think"))), "think");
    assert!(matches!(buffers.observe(&text_start("m1")), BufferedHook::Unbuffered));
    assert!(matches!(buffers.observe(&tool_start("tc", "n")), BufferedHook::Unbuffered));
    assert_eq!(buffer_of(buffers.observe(&content("ing"))), "thinking");
    let end = Event::ReasoningMessageEnd(ReasoningMessageEndEvent {
        message_id: "r1".into(),
        base: BaseEventFields::empty(),
    });
    assert_eq!(buffer_of(buffers.observe(&end)), "thinking");
}

#[test]
fn arguments_fall_back_to_null() {
    assert_eq!(args_or_null(None), Value::Null);
    assert_eq!(args_or_null(Some(Value::from(3))), Value::from(3));
}

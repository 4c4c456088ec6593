use agui_rs::chunks::expand_chunks;
use agui_rs::error::AgUiError;
use agui_rs::events::{
    BaseEventFields, Event, ReasoningEncryptedValueEvent, ReasoningEncryptedValueSubtype,
    ReasoningMessageChunkEvent, RunStartedEvent, TextMessageChunkEvent, ToolCallChunkEvent,
};
use agui_rs::types::TextMessageRole;

fn collect_ok(events: Vec<Event>) -> Vec<Event> {
    expand_chunks(events.into_iter().map(Ok).collect())
        .into_iter()
        .collect::<Result<Vec<_>, _>>()
        .expect("chunk expansion should succeed")
}

fn text_chunk(id: Option<&str>, delta: Option<&str>) -> Event {
    Event::TextMessageChunk(TextMessageChunkEvent {
        message_id: id.map(String::from),
        role: id.map(|_| TextMessageRole::Assistant),
        delta: delta.map(String::from),
        name: None,
        base: BaseEventFields::empty(),
    })
}

fn tool_chunk(id: Option<&str>, name: Option<&str>, delta: Option<&str>) -> Event {
    Event::ToolCallChunk(ToolCallChunkEvent {
        tool_call_id: id.map(String::from),
        tool_call_name: name.map(String::from),
        parent_message_id: None,
        delta: delta.map(String::from),
        base: BaseEventFields::empty(),
    })
}

fn reasoning_chunk(id: Option<&str>, delta: Option<&str>) -> Event {
    Event::ReasoningMessageChunk(ReasoningMessageChunkEvent {
        message_id: id.map(String::from),
        delta: delta.map(String::from),
        base: BaseEventFields::empty(),
    })
}

#[test]
fn expands_single_text_message_chunk() {
    let events = collect_ok(vec![text_chunk(Some("m1"), Some("hello"))]);

    assert_eq!(events.len(), 3);
    assert!(matches!(events[0], Event::TextMessageStart(_)));
    assert!(matches!(&events[1], Event::TextMessageContent(e) if e.delta == "hello" && e.message_id == "m1"));
    assert!(matches!(events[2], Event::TextMessageEnd(_)));
}

#[test]
fn expands_multiple_text_message_chunks() {
    let events = collect_ok(vec![text_chunk(Some("m1"), Some("hel")), text_chunk(None, Some("lo"))]);

    assert_eq!(events.len(), 4);
    assert!(matches!(events[0], Event::TextMessageStart(_)));
    assert!(matches!(events[1], Event::TextMessageContent(_)));
    assert!(matches!(&events[2], Event::TextMessageContent(e) if e.message_id == "m1" && e.delta == "lo"));
    assert!(matches!(events[3], Event::TextMessageEnd(_)));
}

#[test]
fn expands_two_text_messages_back_to_back() {
    let events = collect_ok(vec![text_chunk(Some("m1"), Some("one")), text_chunk(Some("m2"), Some("two"))]);

    assert_eq!(events.len(), 6);
    assert!(matches!(events[0], Event::TextMessageStart(_)));
    assert!(matches!(events[1], Event::TextMessageContent(_)));
    assert!(matches!(&events[2], Event::TextMessageEnd(e) if e.message_id == "m1"));
    assert!(matches!(&events[3], Event::TextMessageStart(e) if e.message_id == "m2"));
    assert!(matches!(events[4], Event::TextMessageContent(_)));
    assert!(matches!(events[5], Event::TextMessageEnd(_)));
}

#[test]
fn expands_single_tool_call_chunk() {
    let events = collect_ok(vec![tool_chunk(Some("tc1"), Some("search"), Some("{}"))]);

    assert_eq!(events.len(), 3);
    assert!(matches!(&events[0], Event::ToolCallStart(e) if e.tool_call_name == "search"));
    assert!(matches!(events[1], Event::ToolCallArgs(_)));
    assert!(matches!(events[2], Event::ToolCallEnd(_)));
}

#[test]
fn expands_multiple_tool_call_chunks() {
    let events = collect_ok(vec![
        tool_chunk(Some("tc1"), Some("search"), Some("{\"q\":")),
        tool_chunk(None, None, Some("1}")),
    ]);

    assert_eq!(events.len(), 4);
    assert!(matches!(events[0], Event::ToolCallStart(_)));
    assert!(matches!(events[1], Event::ToolCallArgs(_)));
    assert!(matches!(events[2], Event::ToolCallArgs(_)));
    assert!(matches!(events[3], Event::ToolCallEnd(_)));
}

#[test]
fn passes_through_non_chunk_events() {
    let started = Event::RunStarted(RunStartedEvent {
        thread_id: "thread".into(),
        run_id: "run".into(),
        parent_run_id: None,
        input: None,
        base: BaseEventFields::empty(),
    });
    let events = collect_ok(vec![started.clone()]);
    assert_eq!(events, vec![started]);
}

#[test]
fn expands_single_reasoning_chunk() {
    let events = collect_ok(vec![reasoning_chunk(Some("r1"), Some("think"))]);

    assert_eq!(events.len(), 3);
    assert!(matches!(events[0], Event::ReasoningMessageStart(_)));
    assert!(matches!(events[1], Event::ReasoningMessageContent(_)));
    assert!(matches!(events[2], Event::ReasoningMessageEnd(_)));
}

#[test]
fn closes_previous_reasoning_message_when_message_id_changes() {
    let events = collect_ok(vec![reasoning_chunk(Some("r1"), Some("a")), reasoning_chunk(Some("r2"), Some("b"))]);

    assert_eq!(events.len(), 6);
    assert!(matches!(&events[2], Event::ReasoningMessageEnd(e) if e.message_id == "r1"));
    assert!(matches!(&events[3], Event::ReasoningMessageStart(e) if e.message_id == "r2"));
}

#[test]
fn reasoning_encrypted_value_does_not_close_open_reasoning_message() {
    let events = collect_ok(vec![
        reasoning_chunk(Some("r1"), Some("a")),
        Event::ReasoningEncryptedValue(ReasoningEncryptedValueEvent {
            subtype: ReasoningEncryptedValueSubtype::Message,
            entity_id: "r1".into(),
            encrypted_value: "secret".into(),
            base: BaseEventFields::empty(),
        }),
        reasoning_chunk(None, Some("b")),
    ]);

    assert_eq!(events.len(), 5);
    assert!(matches!(events[0], Event::ReasoningMessageStart(_)));
    assert!(matches!(events[1], Event::ReasoningMessageContent(_)));
    assert!(matches!(events[2], Event::ReasoningEncryptedValue(_)));
    assert!(matches!(events[3], Event::ReasoningMessageContent(_)));
    assert!(matches!(events[4], Event::ReasoningMessageEnd(_)));
}

#[test]
fn first_text_chunk_without_id_is_rejected() {
    let out = expand_chunks(vec![Ok(text_chunk(None, Some("x")))]);
    assert_eq!(out.len(), 1);
    match &out[0] {
        Err(AgUiError::Validation(m)) => {
            assert_eq!(m, "first TEXT_MESSAGE_CHUNK must include message_id")
        }
        other => panic!("unexpected: {other:?}"),
    }
}

#[test]
fn first_tool_chunk_without_name_is_rejected() {
    let out = expand_chunks(vec![Ok(tool_chunk(Some("tc1"), None, Some("{}")))]);
    assert_eq!(out.len(), 1);
    assert!(matches!(out[0], Err(AgUiError::Validation(_))));
}

#[test]
fn upstream_error_ends_the_expanded_stream() {
    let out = expand_chunks(vec![
        Ok(text_chunk(Some("m1"), Some("a"))),
        Err(AgUiError::other("io")),
        Ok(text_chunk(None, Some("b"))),
    ]);
    assert_eq!(out.len(), 3);
    assert!(matches!(out[0], Ok(Event::TextMessageStart(_))));
    assert!(matches!(out[1], Ok(Event::TextMessageContent(_))));
    assert!(matches!(&out[2], Err(AgUiError::Other(m)) if m == "io"));
}

#[test]
fn expansion_never_emits_chunks() {
    let out = collect_ok(vec![
        text_chunk(Some("m1"), None),
        tool_chunk(Some("t"), Some("n"), None),
        reasoning_chunk(Some("r"), None),
    ]);
    assert!(out.iter().all(|e| !matches!(
        e,
        Event::TextMessageChunk(_) | Event::ToolCallChunk(_) | Event::ReasoningMessageChunk(_)
    )));
    assert!(matches!(out.last(), Some(Event::ReasoningMessageEnd(_))));
}

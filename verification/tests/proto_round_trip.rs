use agui_rs::error::AgUiError;
use agui_rs::events::{
    BaseEventFields, CustomEvent, Event, RawEvent, ReasoningStartEvent, RunFinishedEvent,
    RunFinishedOutcome, RunStartedEvent, StateDeltaEvent, TextMessageContentEvent,
    TextMessageEndEvent, TextMessageStartEvent, ToolCallArgsEvent, ToolCallStartEvent,
};
use agui_rs::factories::{
    create_custom_event, create_messages_snapshot_event, create_run_finished_interrupt_event,
    create_run_finished_success_event, create_run_started_event, create_state_snapshot_event,
    create_text_message_content_event, create_tool_call_chunk_event,
};
use agui_rs::proto::{Part, EventBody, EventMessage, JsonPatchOperation, ProtoMessage};
use agui_rs::proto_convert::{
    content_part_to_proto,
    from_proto_event, from_proto_message, message_from_proto, message_to_proto,
    parse_text_role, patch_op_from_members, patch_op_from_proto, patch_op_to_proto,
    to_proto_event, to_proto_message,
};
use agui_rs::types::{
    AssistantMessage, FunctionCall, Interrupt, Message, TextMessageRole, ToolCall, ToolCallKind,
    UserMessage, UserMessageContent, InputContent, BinaryInputContent,
};
use serde_json::Value;

fn round_trip(e: &Event) -> Event {
    let body = to_proto_event(e).expect("encodes");
    from_proto_event(body).expect("decodes")
}

#[test]
fn simple_events_round_trip() {
    let events = vec![
        create_text_message_content_event("m1", "hi", Some(5), None),
        create_run_started_event("t", "r", None, None, Some(7), Some(Value::from("raw"))),
        create_run_finished_success_event("t", "r", Some(Value::from(1)), Some(9), None),
        create_state_snapshot_event(Value::from("s"), Some(1), None),
        create_custom_event("name", Value::Bool(true), Some(2), None),
        create_tool_call_chunk_event(Some("tc".into()), Some("n".into()), None, Some("{".into()), Some(3), None),
        Event::TextMessageStart(TextMessageStartEvent {
            message_id: "m".into(),
            role: TextMessageRole::User,
            name: Some("bob".into()),
            base: BaseEventFields::empty(),
        }),
    ];
    for e in &events {
        assert_eq!(&round_trip(e), e);
    }
}

#[test]
fn text_message_start_role_is_lower_case_on_the_wire() {
    let e = Event::TextMessageStart(TextMessageStartEvent {
        message_id: "m".into(),
        role: TextMessageRole::Developer,
        name: None,
        base: BaseEventFields::empty(),
    });
    match to_proto_event(&e).unwrap() {
        EventBody::TextMessageStart(p) => {
            assert_eq!(p.role.as_deref(), Some("developer"));
            assert_eq!(p.base_event.unwrap().kind, 0);
        }
        _ => panic!("wrong variant"),
    }
    assert_eq!(parse_text_role(Some("system")), TextMessageRole::System);
    assert_eq!(parse_text_role(Some("unknown")), TextMessageRole::Assistant);
    assert_eq!(parse_text_role(None), TextMessageRole::Assistant);
}

#[test]
fn events_outside_the_schema_are_unsupported() {
    let e = Event::ReasoningStart(ReasoningStartEvent { message_id: "r".into(), base: BaseEventFields::empty() });
    match to_proto_event(&e) {
        Err(AgUiError::Unsupported(m)) => assert_eq!(
            m,
            "event type ReasoningStart is not part of the AG-UI protobuf schema"
        ),
        other => panic!("unexpected: {other:?}"),
    }
    assert!(to_proto_message(&e).is_err());
}

#[test]
fn message_without_event_is_a_protocol_error() {
    match from_proto_message(EventMessage { event: None }) {
        Err(AgUiError::Protocol(m)) => assert_eq!(m, "protobuf Event has no variant set"),
        other => panic!("unexpected: {other:?}"),
    }
}

#[test]
fn interrupt_outcome_round_trips_through_the_outcome_name() {
    let mut schema = serde_json::Map::new();
    schema.insert("type".into(), Value::from("object"));
    let e = create_run_finished_interrupt_event(
        "t",
        "r",
        None,
        vec![Interrupt {
            id: "i1".into(),
            reason: "approval".into(),
            message: Some("ok?".into()),
            tool_call_id: None,
            response_schema: Some(schema),
            expires_at: None,
            metadata: None,
        }],
        Some(1),
        None,
    );
    match to_proto_event(&e).unwrap() {
        EventBody::RunFinished(p) => {
            assert_eq!(p.outcome, "interrupt");
            assert_eq!(p.interrupts.len(), 1);
        }
        _ => panic!("wrong variant"),
    }
    assert_eq!(round_trip(&e), e);
    match round_trip(&create_run_finished_success_event("t", "r", None, Some(1), None)) {
        Event::RunFinished(f) => assert_eq!(f.outcome, Some(RunFinishedOutcome::Success)),
        _ => panic!("wrong variant"),
    }
}

#[test]
fn state_delta_ops_convert_both_ways() {
    let mut op = serde_json::Map::new();
    op.insert("op".into(), Value::from("replace"));
    op.insert("path".into(), Value::from("/a"));
    op.insert("value".into(), Value::from(2));
    let v = Value::Object(op);
    let p = patch_op_to_proto(&v).unwrap();
    assert_eq!(p, JsonPatchOperation { op: 2, path: "/a".into(), from: None, value: Some(Value::from(2)) });
    assert_eq!(patch_op_from_proto(p), v);

    let e = Event::StateDelta(StateDeltaEvent { delta: vec![v.clone()], base: BaseEventFields::empty() });
    assert_eq!(round_trip(&e), e);
}

#[test]
fn bad_state_delta_ops_are_protocol_errors() {
    let not_object = Value::from(3);
    assert!(matches!(patch_op_to_proto(&not_object), Err(AgUiError::Protocol(m)) if m == "state delta op is not an object"));
    let mut no_op = serde_json::Map::new();
    no_op.insert("path".into(), Value::from("/a"));
    assert!(matches!(patch_op_to_proto(&Value::Object(no_op)), Err(AgUiError::Protocol(m)) if m == "state delta op missing 'op'"));
    assert!(matches!(patch_op_from_members("jump", None, None, None), Err(AgUiError::Protocol(m)) if m == "unknown JSON patch op 'jump'"));
    let ok = patch_op_from_members("move", None, Some("/b".into()), None).unwrap();
    assert_eq!(ok, JsonPatchOperation { op: 3, path: String::new(), from: Some("/b".into()), value: None });
    let unknown_code = JsonPatchOperation { op: 42, path: "/x".into(), from: None, value: None };
    let mut expected = serde_json::Map::new();
    expected.insert("op".into(), Value::from("add"));
    expected.insert("path".into(), Value::from("/x"));
    assert_eq!(patch_op_from_proto(unknown_code), Value::Object(expected));
}

#[test]
fn messages_convert_by_role() {
    let assistant = Message::Assistant(AssistantMessage {
        id: "a1".into(),
        content: Some("hi".into()),
        name: None,
        tool_calls: Some(vec![ToolCall {
            id: "tc1".into(),
            kind: ToolCallKind::Function,
            function: FunctionCall { name: "f".into(), arguments: "{}".into() },
            encrypted_value: None,
        }]),
        encrypted_value: None,
    });
    let p = message_to_proto(&assistant);
    assert_eq!(p.role, "assistant");
    assert_eq!(p.tool_calls[0].kind, "function");
    assert_eq!(message_from_proto(p).unwrap(), assistant);

    let user = Message::User(UserMessage {
        id: "u1".into(),
        content: UserMessageContent::Parts(vec![InputContent::Text { text: "x".into() }]),
        name: None,
        encrypted_value: None,
    });
    let e = create_messages_snapshot_event(vec![assistant.clone(), user.clone()], Some(1), None);
    assert_eq!(round_trip(&e), e);
}

#[test]
fn unknown_role_is_a_protocol_error() {
    let p = ProtoMessage {
        id: "x".into(),
        role: "robot".into(),
        content: None,
        name: None,
        tool_calls: vec![],
        tool_call_id: None,
        error: None,
        content_parts: vec![],
    };
    match message_from_proto(p) {
        Err(AgUiError::Protocol(m)) => assert_eq!(m, "protobuf message has unknown role 'robot'"),
        other => panic!("unexpected: {other:?}"),
    }
}

#[test]
fn legacy_binary_part_becomes_marked_document() {
    let part = InputContent::Binary {
        content: BinaryInputContent {
            mime_type: "application/pdf".into(),
            id: Some("file-1".into()),
            url: None,
            data: None,
            filename: Some("a.pdf".into()),
        },
    };
    let p = content_part_to_proto(&part).expect("has a source");
    match p.part {
        Some(Part::Document(m)) => {
            let mut meta = serde_json::Map::new();
            meta.insert("legacyBinary".into(), Value::Bool(true));
            meta.insert("filename".into(), Value::from("a.pdf"));
            meta.insert("id".into(), Value::from("file-1"));
            assert_eq!(m.metadata, Some(Value::Object(meta)));
            let src = m.source.unwrap().source.unwrap();
            assert_eq!(
                src,
                agui_rs::proto::Source::Url(agui_rs::proto::InputContentUrlSource {
                    value: "file-1".into(),
                    mime_type: Some("application/pdf".into()),
                })
            );
        }
        other => panic!("unexpected: {other:?}"),
    }
    let empty = InputContent::Binary {
        content: BinaryInputContent {
            mime_type: "x".into(),
            id: None,
            url: None,
            data: None,
            filename: None,
        },
    };
    assert!(content_part_to_proto(&empty).is_none());
}

fn run_started(thread_id: &str, run_id: &str) -> Event {
    Event::RunStarted(RunStartedEvent {
        thread_id: thread_id.into(),
        run_id: run_id.into(),
        parent_run_id: None,
        input: None,
        base: BaseEventFields::empty(),
    })
}

fn text_message_start(message_id: &str) -> Event {
    Event::TextMessageStart(TextMessageStartEvent {
        message_id: message_id.into(),
        role: TextMessageRole::Assistant,
        name: None,
        base: BaseEventFields::empty(),
    })
}

fn text_message_content(message_id: &str, delta: &str) -> Event {
    Event::TextMessageContent(TextMessageContentEvent {
        message_id: message_id.into(),
        delta: delta.into(),
        base: BaseEventFields::empty(),
    })
}

fn text_message_end(message_id: &str) -> Event {
    Event::TextMessageEnd(TextMessageEndEvent {
        message_id: message_id.into(),
        base: BaseEventFields::empty(),
    })
}

fn tool_call_start(tool_call_id: &str, name: &str) -> Event {
    Event::ToolCallStart(ToolCallStartEvent {
        tool_call_id: tool_call_id.into(),
        tool_call_name: name.into(),
        parent_message_id: None,
        base: BaseEventFields::empty(),
    })
}

fn tool_call_args(tool_call_id: &str, delta: &str) -> Event {
    Event::ToolCallArgs(ToolCallArgsEvent {
        tool_call_id: tool_call_id.into(),
        delta: delta.into(),
        base: BaseEventFields::empty(),
    })
}

fn run_finished(outcome: Option<RunFinishedOutcome>) -> Event {
    Event::RunFinished(RunFinishedEvent {
        thread_id: "t1".into(),
        run_id: "r1".into(),
        result: None,
        outcome,
        base: BaseEventFields::empty(),
    })
}

fn json_object(entries: Vec<(&str, Value)>) -> Value {
    let mut map = serde_json::Map::new();
    for (k, v) in entries {
        map.insert(k.to_string(), v);
    }
    Value::Object(map)
}

#[test]
fn run_started_round_trips() {
    let event = run_started("t1", "r1");
    assert_eq!(round_trip(&event), event);
}

#[test]
fn text_message_chain_round_trips() {
    assert_eq!(round_trip(&text_message_start("m1")), text_message_start("m1"));
    assert_eq!(round_trip(&text_message_content("m1", "hi")), text_message_content("m1", "hi"));
    assert_eq!(round_trip(&text_message_end("m1")), text_message_end("m1"));
}

#[test]
fn tool_call_chain_round_trips() {
    assert_eq!(round_trip(&tool_call_start("tc1", "search")), tool_call_start("tc1", "search"));
    assert_eq!(round_trip(&tool_call_args("tc1", "{}")), tool_call_args("tc1", "{}"));
}

#[test]
fn run_finished_success_outcome_round_trips() {
    let event = run_finished(Some(RunFinishedOutcome::Success));
    assert_eq!(round_trip(&event), event);
}

#[test]
fn run_finished_interrupt_outcome_round_trips() {
    let event = run_finished(Some(RunFinishedOutcome::Interrupt {
        interrupts: vec![Interrupt {
            id: "i1".into(),
            reason: "approval".into(),
            message: Some("ok?".into()),
            tool_call_id: None,
            response_schema: None,
            expires_at: None,
            metadata: None,
        }],
    }));
    assert_eq!(round_trip(&event), event);
}

#[test]
fn run_finished_no_outcome_round_trips_to_none() {
    let event = run_finished(None);
    assert_eq!(round_trip(&event), event);
}

#[test]
fn custom_event_round_trips() {
    let event = Event::Custom(CustomEvent {
        name: "ping".into(),
        value: json_object(vec![("x", Value::Bool(true)), ("s", Value::from("hi"))]),
        base: BaseEventFields::empty(),
    });
    assert_eq!(round_trip(&event), event);
}

#[test]
fn raw_event_round_trips() {
    let event = Event::Raw(RawEvent {
        event: json_object(vec![("provider", Value::from("openai"))]),
        source: Some("upstream".into()),
        base: BaseEventFields::empty(),
    });
    assert_eq!(round_trip(&event), event);
}

#[test]
fn reasoning_events_are_not_part_of_proto_schema() {
    let event = Event::ReasoningStart(ReasoningStartEvent {
        message_id: "r1".into(),
        base: BaseEventFields::empty(),
    });
    let err = to_proto_event(&event).expect_err("reasoning is not in proto schema");
    assert!(matches!(err, AgUiError::Unsupported(_)));
}

use agui_rs::error::AgUiError;
use agui_rs::events::{
    BaseEventFields, Event, ThinkingEndEvent, ThinkingStartEvent, ThinkingTextMessageContentEvent,
    ThinkingTextMessageEndEvent, ThinkingTextMessageStartEvent, ToolCallResultEvent,
};
use agui_rs::factories::{
    create_run_started_event, create_tool_call_args_event, create_tool_call_end_event,
    create_tool_call_start_event,
};
use agui_rs::middleware::{
    convert_legacy_binary_to_new_format_0_0_47, generate_transformation_id,
    sanitize_message_content_0_0_39, sanitize_run_agent_input_0_0_39,
    upgrade_message_content_0_0_47, BackwardCompat0_0_39, BackwardCompat0_0_45,
    BackwardCompat0_0_47, FilterToolCallsConfig, FilterToolCallsMiddleware, FreshIdKind,
    MiddlewareInput, ThinkingUpgrade,
};
use agui_rs::types::{
    BinaryInputContent, InputContent, InputContentSource, Message, RunAgentInput, UserMessage,
    UserMessageContent,
};
use serde_json::Value;

fn input_with(messages: Vec<Message>) -> RunAgentInput {
    RunAgentInput {
        thread_id: "thread-1".into(),
        run_id: "run-1".into(),
        parent_run_id: Some("parent".into()),
        state: Value::Null,
        messages,
        tools: vec![],
        context: vec![],
        forwarded_props: Value::Null,
        resume: None,
    }
}

fn user_parts(parts: Vec<InputContent>) -> Message {
    Message::User(UserMessage {
        id: "msg-1".into(),
        content: UserMessageContent::Parts(parts),
        name: None,
        encrypted_value: None,
    })
}

fn tool_events(id: &str, name: &str) -> Vec<Result<Event, AgUiError>> {
    vec![
        Ok(create_tool_call_start_event(id, name, None, Some(1), None)),
        Ok(create_tool_call_args_event(id, "{}", Some(1), None)),
        Ok(create_tool_call_end_event(id, Some(1), None)),
        Ok(Event::ToolCallResult(ToolCallResultEvent {
            message_id: "m".into(),
            tool_call_id: id.into(),
            content: "ok".into(),
            role: None,
            base: BaseEventFields::empty(),
        })),
    ]
}

#[test]
fn disallowed_filter_drops_blocked_tool_call_events() {
    let middleware =
        FilterToolCallsMiddleware::new(FilterToolCallsConfig::disallowed(vec!["blocked".into()]));
    let mut items = vec![Ok(create_run_started_event("t", "r", None, None, Some(1), None))];
    items.extend(tool_events("tc-1", "blocked"));
    items.extend(tool_events("tc-2", "allowed"));
    let filtered = middleware.filter_events(items);
    assert_eq!(filtered.len(), 5);
    assert!(filtered.iter().all(|e| match e {
        Ok(Event::ToolCallStart(s)) => s.tool_call_name != "blocked",
        Ok(Event::ToolCallArgs(a)) => a.tool_call_id == "tc-2",
        _ => true,
    }));
}

#[test]
fn allowed_filter_keeps_only_listed_tools() {
    let middleware =
        FilterToolCallsMiddleware::new(FilterToolCallsConfig::allowed(vec!["allowed".into()]));
    let mut items = tool_events("tc-1", "other");
    items.extend(tool_events("tc-2", "allowed"));
    let filtered = middleware.filter_events(items);
    assert_eq!(filtered.len(), 4);
}

#[test]
fn empty_disallowed_filter_keeps_all_events() {
    let middleware = FilterToolCallsMiddleware::new(FilterToolCallsConfig::disallowed(Vec::new()));
    let filtered = middleware.filter_events(tool_events("allowed-1", "allowed"));

    assert_eq!(filtered.len(), 4);
}

#[test]
fn sanitizes_multipart_user_message_to_text() {
    let message = user_parts(vec![
        InputContent::Text { text: "hello ".into() },
        InputContent::Image {
            source: InputContentSource::Url { value: "https://x/y.png".into(), mime_type: None },
            metadata: None,
        },
        InputContent::Text { text: "world".into() },
    ]);
    match sanitize_message_content_0_0_39(message) {
        Message::User(u) => assert_eq!(u.content, UserMessageContent::Text("hello world".into())),
        other => panic!("unexpected: {other:?}"),
    }
}

#[test]
fn sanitized_input_drops_parent_run_id() {
    let input = input_with(vec![user_parts(vec![InputContent::Text { text: "a".into() }])]);
    let out = sanitize_run_agent_input_0_0_39(input);
    assert_eq!(out.parent_run_id, None);
    assert_eq!(out.thread_id, "thread-1");
    let again = BackwardCompat0_0_39.transform_input(out.clone());
    assert_eq!(again, out);
}

#[test]
fn converts_legacy_binary_data_to_image_part() {
    let part = InputContent::Binary {
        content: BinaryInputContent {
            mime_type: "image/png".into(),
            id: None,
            url: None,
            data: Some("AAAA".into()),
            filename: Some("a.png".into()),
        },
    };
    let mut meta = serde_json::Map::new();
    meta.insert("filename".into(), Value::from("a.png"));
    assert_eq!(
        convert_legacy_binary_to_new_format_0_0_47(part),
        InputContent::Image {
            source: InputContentSource::Data { value: "AAAA".into(), mime_type: "image/png".into() },
            metadata: Some(Value::Object(meta)),
        }
    );
}

#[test]
fn converts_legacy_binary_url_to_document_part() {
    let part = InputContent::Binary {
        content: BinaryInputContent {
            mime_type: "application/pdf".into(),
            id: None,
            url: Some("https://x/doc.pdf".into()),
            data: None,
            filename: None,
        },
    };
    assert_eq!(
        convert_legacy_binary_to_new_format_0_0_47(part),
        InputContent::Document {
            source: InputContentSource::Url {
                value: "https://x/doc.pdf".into(),
                mime_type: Some("application/pdf".into()),
            },
            metadata: None,
        }
    );
}

#[test]
fn upgrade_leaves_plain_text_unchanged() {
    let message = Message::User(UserMessage {
        id: "msg-1".into(),
        content: UserMessageContent::Text("hello world".into()),
        name: None,
        encrypted_value: None,
    });
    assert_eq!(upgrade_message_content_0_0_47(message.clone()), message);
    let input = input_with(vec![message.clone()]);
    let out = BackwardCompat0_0_47.transform_input(input);
    assert_eq!(out.messages, vec![message]);
    assert_eq!(out.parent_run_id.as_deref(), Some("parent"));
}

#[test]
fn thinking_events_become_reasoning_events_with_stable_ids() {
    let mut up: ThinkingUpgrade = BackwardCompat0_0_45.start_run();
    let start = Event::ThinkingStart(ThinkingStartEvent { title: None, base: BaseEventFields::empty() });
    assert_eq!(up.fresh_id_kind(&start), Some(FreshIdKind::Reasoning));
    let e1 = up.upgrade_event(start, Some("reasoning-1".into()));
    assert!(matches!(&e1, Event::ReasoningStart(r) if r.message_id == "reasoning-1"));

    let msg_start = Event::ThinkingTextMessageStart(ThinkingTextMessageStartEvent { base: BaseEventFields::empty() });
    let e2 = up.upgrade_event(msg_start, Some("reasoning-message-1".into()));
    assert!(matches!(&e2, Event::ReasoningMessageStart(r) if r.message_id == "reasoning-message-1"));

    let content = Event::ThinkingTextMessageContent(ThinkingTextMessageContentEvent {
        delta: "hmm".into(),
        base: BaseEventFields::empty(),
    });
    assert_eq!(up.fresh_id_kind(&content), None);
    let e3 = up.upgrade_event(content, None);
    assert!(matches!(&e3, Event::ReasoningMessageContent(r) if r.message_id == "reasoning-message-1" && r.delta == "hmm"));

    let msg_end = Event::ThinkingTextMessageEnd(ThinkingTextMessageEndEvent { base: BaseEventFields::empty() });
    let e4 = up.upgrade_event(msg_end, None);
    assert!(matches!(&e4, Event::ReasoningMessageEnd(r) if r.message_id == "reasoning-message-1"));

    let end = Event::ThinkingEnd(ThinkingEndEvent { base: BaseEventFields::empty() });
    let e5 = up.upgrade_event(end, None);
    assert!(matches!(&e5, Event::ReasoningEnd(r) if r.message_id == "reasoning-1"));
}

#[test]
fn transformation_ids_have_prefix_time_and_counter() {
    assert_eq!(generate_transformation_id("reasoning", 123, 7), "reasoning-123-7");
    assert_eq!(FreshIdKind::ReasoningMessage.prefix(), "reasoning-message");
}

#[test]
fn middleware_input_from_run_input_has_empty_extras() {
    let m = MiddlewareInput::from_run_input(input_with(vec![]));
    assert_eq!(m.extras, Value::Object(serde_json::Map::new()));
    let n = MiddlewareInput::new(input_with(vec![]), Value::from(3));
    assert_eq!(n.extras, Value::from(3));
}

use agui_rs::agent::{
    apply_message_replacements, apply_tool_call_replacements, default_now, find_activity_message,
    find_message, resolve_run_id, AgentConfig, RunAgentParameters, RunTracker, RunnerState,
};
use agui_rs::apply::AppliedEvent;
use agui_rs::events::RunFinishedOutcome;
use agui_rs::factories::{
    create_run_finished_interrupt_event, create_run_finished_success_event,
    create_run_started_event, create_step_started_event,
};
use agui_rs::id_map::IdMap;
use agui_rs::types::{
    ActivityMessage, AssistantMessage, FunctionCall, Interrupt, Message, ReasoningMessage,
    ResumeEntry, ResumeStatus, ToolCall, ToolCallKind,
};
use serde_json::Value;

fn assistant(id: &str, content: &str, tool_calls: Option<Vec<ToolCall>>) -> Message {
    Message::Assistant(AssistantMessage {
        id: id.into(),
        content: Some(content.into()),
        name: None,
        tool_calls,
        encrypted_value: None,
    })
}

fn tool_call(id: &str, name: &str) -> ToolCall {
    ToolCall {
        id: id.into(),
        kind: ToolCallKind::Function,
        function: FunctionCall { name: name.into(), arguments: "{}".into() },
        encrypted_value: None,
    }
}

fn interrupt(id: &str) -> Interrupt {
    Interrupt {
        id: id.into(),
        reason: "approval".into(),
        message: None,
        tool_call_id: None,
        response_schema: None,
        expires_at: None,
        metadata: None,
    }
}

fn config(thread: Option<&str>) -> AgentConfig {
    AgentConfig {
        agent_id: None,
        description: None,
        thread_id: thread.map(String::from),
        initial_messages: vec![assistant("m0", "hello", None)],
        initial_state: Value::from(1),
    }
}

#[test]
fn default_clock_reads_the_empty_string() {
    assert_eq!(default_now(), "");
}

#[test]
fn runner_uses_configured_or_generated_thread_id() {
    let r = RunnerState::new(config(Some("thread-x")));
    assert_eq!(r.thread_id, "thread-x");
    assert_eq!(r.messages.len(), 1);
    assert!(r.pending_interrupts.is_empty());
    let g = RunnerState::new(config(None));
    assert!(g.thread_id.starts_with("thread-"));
    assert_eq!(resolve_run_id(Some("run-9".into())), "run-9");
    assert!(resolve_run_id(None).starts_with("run-"));
}

#[test]
fn run_input_carries_thread_state_and_parameters() {
    let r = RunnerState::new(config(Some("t")));
    let params = RunAgentParameters {
        run_id: None,
        tools: vec![],
        context: vec![],
        forwarded_props: None,
        resume: vec![],
    };
    let input = r.run_input("run-1", params);
    assert_eq!(input.thread_id, "t");
    assert_eq!(input.run_id, "run-1");
    assert_eq!(input.state, Value::from(1));
    assert_eq!(input.forwarded_props, Value::Null);
    assert_eq!(input.resume, None);
    assert_eq!(input.messages, r.messages);

    let params = RunAgentParameters {
        run_id: None,
        tools: vec![],
        context: vec![],
        forwarded_props: Some(Value::from("p")),
        resume: vec![ResumeEntry { interrupt_id: "i1".into(), status: ResumeStatus::Resolved, payload: None }],
    };
    let input = r.run_input("run-2", params);
    assert_eq!(input.forwarded_props, Value::from("p"));
    assert_eq!(input.resume.map(|v| v.len()), Some(1));
}

#[test]
fn tracker_follows_run_ids_and_outcome() {
    let mut runner = RunnerState::new(config(Some("t")));
    let mut tracker = RunTracker::new(runner.start_context("run-1"));
    let started = create_run_started_event("t2", "run-1b", None, None, Some(1), None);
    let current = runner.messages.clone();
    tracker.observe(&mut runner, AppliedEvent { event: started, messages: current, state: Value::from(2) });
    assert_eq!(tracker.context.run_id, "run-1b");
    assert_eq!(tracker.context.thread_id, "t2");
    assert_eq!(runner.thread_id, "t2");
    assert_eq!(tracker.context.state, Value::from(2));

    let mut messages = runner.messages.clone();
    messages.push(assistant("m1", "new", None));
    let finished = create_run_finished_interrupt_event("t2", "run-1b", None, vec![interrupt("i1")], Some(1), None);
    tracker.observe(&mut runner, AppliedEvent { event: finished, messages, state: Value::from(3) });
    let result = runner.finish_run(tracker, 1);
    assert_eq!(result.run_id, "run-1b");
    assert_eq!(result.new_messages, vec![assistant("m1", "new", None)]);
    assert_eq!(result.new_state, Value::from(3));
    assert_eq!(result.outcome, Some(RunFinishedOutcome::Interrupt { interrupts: vec![interrupt("i1")] }));
    assert_eq!(runner.pending_interrupts, vec![interrupt("i1")]);
    assert_eq!(runner.messages.len(), 2);
    assert_eq!(runner.state, Value::from(3));
}

#[test]
fn successful_run_clears_pending_interrupts() {
    let mut runner = RunnerState::new(config(Some("t")));
    runner.pending_interrupts.push(interrupt("old"));
    let mut tracker = RunTracker::new(runner.start_context("r"));
    let done = create_run_finished_success_event("t", "r", None, Some(1), None);
    let current = runner.messages.clone();
    tracker.observe(&mut runner, AppliedEvent { event: done, messages: current, state: Value::Null });
    let result = runner.finish_run(tracker, 1);
    assert!(result.new_messages.is_empty());
    assert!(runner.pending_interrupts.is_empty());
    assert_eq!(result.outcome, Some(RunFinishedOutcome::Success));
}

#[test]
fn message_replacements_persist_for_later_events() {
    let mut runner = RunnerState::new(config(Some("t")));
    let mut tracker = RunTracker::new(runner.start_context("r"));
    let msgs = vec![assistant("m0", "hello", None), assistant("m1", "orig", None)];
    tracker.observe(&mut runner, AppliedEvent { event: create_step_started_event("s", Some(1), None), messages: msgs.clone(), state: Value::Null });
    tracker.replace_message(1, assistant("m1-new", "replaced", None));
    assert_eq!(tracker.context.messages[1], assistant("m1-new", "replaced", None));
    tracker.observe(&mut runner, AppliedEvent { event: create_step_started_event("s2", Some(1), None), messages: msgs, state: Value::Null });
    assert_eq!(tracker.context.messages[1], assistant("m1-new", "replaced", None));
    assert_eq!(tracker.context.messages[0], assistant("m0", "hello", None));
}

#[test]
fn tool_call_replacements_persist_and_announce_both_ids() {
    let mut runner = RunnerState::new(config(Some("t")));
    let mut tracker = RunTracker::new(runner.start_context("r"));
    let msgs = vec![assistant("m1", "", Some(vec![tool_call("tc1", "search")]))];
    tracker.observe(&mut runner, AppliedEvent { event: create_step_started_event("s", Some(1), None), messages: msgs.clone(), state: Value::Null });
    assert!(!tracker.is_announced("tc1"));
    tracker.replace_tool_call(0, 0, tool_call("tc1-new", "other"));
    assert!(tracker.is_announced("tc1"));
    assert!(tracker.is_announced("tc1-new"));
    tracker.observe(&mut runner, AppliedEvent { event: create_step_started_event("s2", Some(1), None), messages: msgs, state: Value::Null });
    assert_eq!(tracker.context.messages[0], assistant("m1", "", Some(vec![tool_call("tc1-new", "other")])));
    tracker.announce("tc9".into());
    assert!(tracker.is_announced("tc9"));
}

#[test]
fn replacement_helpers_replace_by_id() {
    let mut messages = vec![assistant("a", "1", None), assistant("b", "2", Some(vec![tool_call("x", "f")]))];
    let mut reps: IdMap<Message> = IdMap::new();
    reps.insert("a".into(), assistant("a2", "one", None));
    apply_message_replacements(&mut messages, &reps);
    assert_eq!(messages[0], assistant("a2", "one", None));
    let mut tcs: IdMap<ToolCall> = IdMap::new();
    tcs.insert("x".into(), tool_call("y", "g"));
    apply_tool_call_replacements(&mut messages, &tcs);
    assert_eq!(messages[1], assistant("b", "2", Some(vec![tool_call("y", "g")])));
}

#[test]
fn find_message_and_activity_message() {
    let messages = vec![
        Message::Reasoning(ReasoningMessage { id: "act".into(), content: String::new(), encrypted_value: None }),
        Message::Activity(ActivityMessage { id: "act".into(), activity_type: "plan".into(), content: serde_json::Map::new() }),
    ];
    assert!(matches!(find_message(&messages, "act"), Some(Message::Reasoning(_))));
    assert_eq!(find_activity_message(&messages, "act").map(|a| a.activity_type.as_str()), Some("plan"));
    assert!(find_message(&messages, "none").is_none());
    assert!(find_activity_message(&messages, "none").is_none());
}

#[test]
fn id_map_insert_lookup_remove() {
    let mut m: IdMap<i32> = IdMap::new();
    assert_eq!(m.lookup("a"), None);
    m.insert("a".into(), 1);
    m.insert("b".into(), 2);
    m.insert("a".into(), 3);
    assert_eq!(m.lookup("a"), Some(&3));
    assert_eq!(m.lookup("b"), Some(&2));
    m.remove("a");
    assert_eq!(m.lookup("a"), None);
    assert_eq!(m.lookup("b"), Some(&2));
}

#[test]
fn events_other_than_run_lifecycle_leave_ids_unchanged() {
    let mut runner = RunnerState::new(config(Some("t")));
    let mut tracker = RunTracker::new(runner.start_context("r"));
    tracker.observe(&mut runner, AppliedEvent { event: create_step_started_event("s", Some(1), None), messages: vec![], state: Value::Null });
    assert_eq!(tracker.context.run_id, "r");
    assert_eq!(runner.thread_id, "t");
    assert!(tracker.outcome.is_none());
}

//! Constructors of events. Each stamps the event with the given timestamp, or with the
//! current time when none is given, and carries the given raw event.
use vstd::prelude::*;
use crate::clock::current_timestamp_millis;
use crate::events::{
    ActivityDeltaEvent, ActivitySnapshotEvent, BaseEventFields, CustomEvent, Event, MessagesSnapshotEvent, RawEvent, ReasoningEncryptedValueEvent, ReasoningEncryptedValueSubtype, ReasoningEndEvent, ReasoningMessageChunkEvent, ReasoningMessageContentEvent, ReasoningMessageEndEvent, ReasoningMessageRole, ReasoningMessageStartEvent, ReasoningStartEvent, RunErrorEvent, RunFinishedEvent, RunFinishedOutcome, RunStartedEvent, StateDeltaEvent, StateSnapshotEvent, StepFinishedEvent, StepStartedEvent, TextMessageChunkEvent, TextMessageContentEvent, TextMessageEndEvent, TextMessageStartEvent, ThinkingEndEvent, ThinkingStartEvent, ThinkingTextMessageContentEvent, ThinkingTextMessageEndEvent, ThinkingTextMessageStartEvent, ToolCallArgsEvent, ToolCallChunkEvent, ToolCallEndEvent, ToolCallResultEvent, ToolCallStartEvent, ToolResultRole,
};
use crate::text::owned;
use crate::types::{Interrupt, Message, RunAgentInput, State, TextMessageRole};

verus! {

/// Whether `base` carries the raw event, and the timestamp when one was given, or else some
/// time after the Unix epoch.
pub open spec fn stamped(base: BaseEventFields, timestamp: Option<i64>, raw_event: Option<
    serde_json::Value,
>) -> bool {
    &&& base.raw_event == raw_event
    &&& match timestamp {
        Some(t) => base.timestamp == Some(t),
        None => base.timestamp is Some && base.timestamp->0 >= 0,
    }
}

/// The common fields of an event: the timestamp when one is given, the current time in
/// milliseconds otherwise, and the raw event.
pub fn base_fields(timestamp: Option<i64>, raw_event: Option<serde_json::Value>) -> (r:
    BaseEventFields)
    ensures
        stamped(r, timestamp, raw_event),
{
    let ts = match timestamp {
        Some(t) => t,
        None => current_timestamp_millis(),
    };
    BaseEventFields { timestamp: Some(ts), raw_event }
}

/// Creates the start of a text message; the role is `Assistant` when none is given.
pub fn create_text_message_start_event(
    message_id: &str,
    role: Option<TextMessageRole>,
    name: Option<String>,
    timestamp: Option<i64>,
    raw_event: Option<serde_json::Value>,
) -> (r: Event)
    ensures
        r matches Event::TextMessageStart(e) && e.message_id@ == message_id@ && e.role == match role { Some(x) => x, None => TextMessageRole::Assistant } && e.name == name && stamped(e.base, timestamp, raw_event),
{
    Event::TextMessageStart(TextMessageStartEvent { message_id: owned(message_id), role: match role { Some(x) => x, None => TextMessageRole::default_role() }, name, base: base_fields(timestamp, raw_event) })
}

/// Creates a piece of a text message's content.
pub fn create_text_message_content_event(
    message_id: &str,
    delta: &str,
    timestamp: Option<i64>,
    raw_event: Option<serde_json::Value>,
) -> (r: Event)
    ensures
        r matches Event::TextMessageContent(e) && e.message_id@ == message_id@ && e.delta@ == delta@ && stamped(e.base, timestamp, raw_event),
{
    Event::TextMessageContent(TextMessageContentEvent { message_id: owned(message_id), delta: owned(delta), base: base_fields(timestamp, raw_event) })
}

/// Creates the end of a text message.
pub fn create_text_message_end_event(
    message_id: &str,
    timestamp: Option<i64>,
    raw_event: Option<serde_json::Value>,
) -> (r: Event)
    ensures
        r matches Event::TextMessageEnd(e) && e.message_id@ == message_id@ && stamped(e.base, timestamp, raw_event),
{
    Event::TextMessageEnd(TextMessageEndEvent { message_id: owned(message_id), base: base_fields(timestamp, raw_event) })
}

/// Creates a text message chunk.
pub fn create_text_message_chunk_event(
    message_id: Option<String>,
    role: Option<TextMessageRole>,
    delta: Option<String>,
    name: Option<String>,
    timestamp: Option<i64>,
    raw_event: Option<serde_json::Value>,
) -> (r: Event)
    ensures
        r matches Event::TextMessageChunk(e) && e.message_id == message_id && e.role == role && e.delta == delta && e.name == name && stamped(e.base, timestamp, raw_event),
{
    Event::TextMessageChunk(TextMessageChunkEvent { message_id, role, delta, name, base: base_fields(timestamp, raw_event) })
}

/// Creates the start of a thinking text message.
pub fn create_thinking_text_message_start_event(
    timestamp: Option<i64>,
    raw_event: Option<serde_json::Value>,
) -> (r: Event)
    ensures
        r matches Event::ThinkingTextMessageStart(e) && stamped(e.base, timestamp, raw_event),
{
    Event::ThinkingTextMessageStart(ThinkingTextMessageStartEvent { base: base_fields(timestamp, raw_event) })
}

/// Creates a piece of a thinking text message.
pub fn create_thinking_text_message_content_event(
    delta: &str,
    timestamp: Option<i64>,
    raw_event: Option<serde_json::Value>,
) -> (r: Event)
    ensures
        r matches Event::ThinkingTextMessageContent(e) && e.delta@ == delta@ && stamped(e.base, timestamp, raw_event),
{
    Event::ThinkingTextMessageContent(ThinkingTextMessageContentEvent { delta: owned(delta), base: base_fields(timestamp, raw_event) })
}

/// Creates the end of a thinking text message.
pub fn create_thinking_text_message_end_event(
    timestamp: Option<i64>,
    raw_event: Option<serde_json::Value>,
) -> (r: Event)
    ensures
        r matches Event::ThinkingTextMessageEnd(e) && stamped(e.base, timestamp, raw_event),
{
    Event::ThinkingTextMessageEnd(ThinkingTextMessageEndEvent { base: base_fields(timestamp, raw_event) })
}

/// Creates the start of a tool call.
pub fn create_tool_call_start_event(
    tool_call_id: &str,
    tool_call_name: &str,
    parent_message_id: Option<String>,
    timestamp: Option<i64>,
    raw_event: Option<serde_json::Value>,
) -> (r: Event)
    ensures
        r matches Event::ToolCallStart(e) && e.tool_call_id@ == tool_call_id@ && e.tool_call_name@ == tool_call_name@ && e.parent_message_id == parent_message_id && stamped(e.base, timestamp, raw_event),
{
    Event::ToolCallStart(ToolCallStartEvent { tool_call_id: owned(tool_call_id), tool_call_name: owned(tool_call_name), parent_message_id, base: base_fields(timestamp, raw_event) })
}

/// Creates a piece of a tool call's arguments.
pub fn create_tool_call_args_event(
    tool_call_id: &str,
    delta: &str,
    timestamp: Option<i64>,
    raw_event: Option<serde_json::Value>,
) -> (r: Event)
    ensures
        r matches Event::ToolCallArgs(e) && e.tool_call_id@ == tool_call_id@ && e.delta@ == delta@ && stamped(e.base, timestamp, raw_event),
{
    Event::ToolCallArgs(ToolCallArgsEvent { tool_call_id: owned(tool_call_id), delta: owned(delta), base: base_fields(timestamp, raw_event) })
}

/// Creates the end of a tool call.
pub fn create_tool_call_end_event(
    tool_call_id: &str,
    timestamp: Option<i64>,
    raw_event: Option<serde_json::Value>,
) -> (r: Event)
    ensures
        r matches Event::ToolCallEnd(e) && e.tool_call_id@ == tool_call_id@ && stamped(e.base, timestamp, raw_event),
{
    Event::ToolCallEnd(ToolCallEndEvent { tool_call_id: owned(tool_call_id), base: base_fields(timestamp, raw_event) })
}

/// Creates a tool call chunk.
pub fn create_tool_call_chunk_event(
    tool_call_id: Option<String>,
    tool_call_name: Option<String>,
    parent_message_id: Option<String>,
    delta: Option<String>,
    timestamp: Option<i64>,
    raw_event: Option<serde_json::Value>,
) -> (r: Event)
    ensures
        r matches Event::ToolCallChunk(e) && e.tool_call_id == tool_call_id && e.tool_call_name == tool_call_name && e.parent_message_id == parent_message_id && e.delta == delta && stamped(e.base, timestamp, raw_event),
{
    Event::ToolCallChunk(ToolCallChunkEvent { tool_call_id, tool_call_name, parent_message_id, delta, base: base_fields(timestamp, raw_event) })
}

/// Creates the result of a tool call.
pub fn create_tool_call_result_event(
    message_id: &str,
    tool_call_id: &str,
    content: &str,
    role: Option<ToolResultRole>,
    timestamp: Option<i64>,
    raw_event: Option<serde_json::Value>,
) -> (r: Event)
    ensures
        r matches Event::ToolCallResult(e) && e.message_id@ == message_id@ && e.tool_call_id@ == tool_call_id@ && e.content@ == content@ && e.role == role && stamped(e.base, timestamp, raw_event),
{
    Event::ToolCallResult(ToolCallResultEvent { message_id: owned(message_id), tool_call_id: owned(tool_call_id), content: owned(content), role, base: base_fields(timestamp, raw_event) })
}

/// Creates the start of thinking.
pub fn create_thinking_start_event(
    title: Option<String>,
    timestamp: Option<i64>,
    raw_event: Option<serde_json::Value>,
) -> (r: Event)
    ensures
        r matches Event::ThinkingStart(e) && e.title == title && stamped(e.base, timestamp, raw_event),
{
    Event::ThinkingStart(ThinkingStartEvent { title, base: base_fields(timestamp, raw_event) })
}

/// Creates the end of thinking.
pub fn create_thinking_end_event(
    timestamp: Option<i64>,
    raw_event: Option<serde_json::Value>,
) -> (r: Event)
    ensures
        r matches Event::ThinkingEnd(e) && stamped(e.base, timestamp, raw_event),
{
    Event::ThinkingEnd(ThinkingEndEvent { base: base_fields(timestamp, raw_event) })
}

/// Creates a snapshot of the state.
pub fn create_state_snapshot_event(
    snapshot: State,
    timestamp: Option<i64>,
    raw_event: Option<serde_json::Value>,
) -> (r: Event)
    ensures
        r matches Event::StateSnapshot(e) && e.snapshot == snapshot && stamped(e.base, timestamp, raw_event),
{
    Event::StateSnapshot(StateSnapshotEvent { snapshot, base: base_fields(timestamp, raw_event) })
}

/// Creates a JSON Patch delta of the state.
pub fn create_state_delta_event(
    delta: Vec<serde_json::Value>,
    timestamp: Option<i64>,
    raw_event: Option<serde_json::Value>,
) -> (r: Event)
    ensures
        r matches Event::StateDelta(e) && e.delta == delta && stamped(e.base, timestamp, raw_event),
{
    Event::StateDelta(StateDeltaEvent { delta, base: base_fields(timestamp, raw_event) })
}

/// Creates a snapshot of the messages.
pub fn create_messages_snapshot_event(
    messages: Vec<Message>,
    timestamp: Option<i64>,
    raw_event: Option<serde_json::Value>,
) -> (r: Event)
    ensures
        r matches Event::MessagesSnapshot(e) && e.messages == messages && stamped(e.base, timestamp, raw_event),
{
    Event::MessagesSnapshot(MessagesSnapshotEvent { messages, base: base_fields(timestamp, raw_event) })
}

/// Creates a snapshot of an activity; it replaces the activity's content unless `replace` is `Some(false)`.
pub fn create_activity_snapshot_event(
    message_id: &str,
    activity_type: &str,
    content: serde_json::Map<String, serde_json::Value>,
    replace: Option<bool>,
    timestamp: Option<i64>,
    raw_event: Option<serde_json::Value>,
) -> (r: Event)
    ensures
        r matches Event::ActivitySnapshot(e) && e.message_id@ == message_id@ && e.activity_type@ == activity_type@ && e.content == content && e.replace == match replace { Some(b) => b, None => true } && stamped(e.base, timestamp, raw_event),
{
    Event::ActivitySnapshot(ActivitySnapshotEvent { message_id: owned(message_id), activity_type: owned(activity_type), content, replace: match replace { Some(b) => b, None => true }, base: base_fields(timestamp, raw_event) })
}

/// Creates a JSON Patch delta of an activity.
pub fn create_activity_delta_event(
    message_id: &str,
    activity_type: &str,
    patch: Vec<serde_json::Value>,
    timestamp: Option<i64>,
    raw_event: Option<serde_json::Value>,
) -> (r: Event)
    ensures
        r matches Event::ActivityDelta(e) && e.message_id@ == message_id@ && e.activity_type@ == activity_type@ && e.patch == patch && stamped(e.base, timestamp, raw_event),
{
    Event::ActivityDelta(ActivityDeltaEvent { message_id: owned(message_id), activity_type: owned(activity_type), patch, base: base_fields(timestamp, raw_event) })
}

/// Creates a raw event passed through from another system.
pub fn create_raw_event(
    event: serde_json::Value,
    source: Option<String>,
    timestamp: Option<i64>,
    raw_event: Option<serde_json::Value>,
) -> (r: Event)
    ensures
        r matches Event::Raw(e) && e.event == event && e.source == source && stamped(e.base, timestamp, raw_event),
{
    Event::Raw(RawEvent { event, source, base: base_fields(timestamp, raw_event) })
}

/// Creates a custom event.
pub fn create_custom_event(
    name: &str,
    value: serde_json::Value,
    timestamp: Option<i64>,
    raw_event: Option<serde_json::Value>,
) -> (r: Event)
    ensures
        r matches Event::Custom(e) && e.name@ == name@ && e.value == value && stamped(e.base, timestamp, raw_event),
{
    Event::Custom(CustomEvent { name: owned(name), value, base: base_fields(timestamp, raw_event) })
}

/// Creates the start of a run.
pub fn create_run_started_event(
    thread_id: &str,
    run_id: &str,
    parent_run_id: Option<String>,
    input: Option<RunAgentInput>,
    timestamp: Option<i64>,
    raw_event: Option<serde_json::Value>,
) -> (r: Event)
    ensures
        r matches Event::RunStarted(e) && e.thread_id@ == thread_id@ && e.run_id@ == run_id@ && e.parent_run_id == parent_run_id && e.input == input && stamped(e.base, timestamp, raw_event),
{
    Event::RunStarted(RunStartedEvent { thread_id: owned(thread_id), run_id: owned(run_id), parent_run_id, input, base: base_fields(timestamp, raw_event) })
}

/// Creates the end of a run.
pub fn create_run_finished_event(
    thread_id: &str,
    run_id: &str,
    result: Option<serde_json::Value>,
    outcome: Option<RunFinishedOutcome>,
    timestamp: Option<i64>,
    raw_event: Option<serde_json::Value>,
) -> (r: Event)
    ensures
        r matches Event::RunFinished(e) && e.thread_id@ == thread_id@ && e.run_id@ == run_id@ && e.result == result && e.outcome == outcome && stamped(e.base, timestamp, raw_event),
{
    Event::RunFinished(RunFinishedEvent { thread_id: owned(thread_id), run_id: owned(run_id), result, outcome, base: base_fields(timestamp, raw_event) })
}

/// Creates a run error.
pub fn create_run_error_event(
    message: &str,
    code: Option<String>,
    timestamp: Option<i64>,
    raw_event: Option<serde_json::Value>,
) -> (r: Event)
    ensures
        r matches Event::RunError(e) && e.message@ == message@ && e.code == code && stamped(e.base, timestamp, raw_event),
{
    Event::RunError(RunErrorEvent { message: owned(message), code, base: base_fields(timestamp, raw_event) })
}

/// Creates the start of a step.
pub fn create_step_started_event(
    step_name: &str,
    timestamp: Option<i64>,
    raw_event: Option<serde_json::Value>,
) -> (r: Event)
    ensures
        r matches Event::StepStarted(e) && e.step_name@ == step_name@ && stamped(e.base, timestamp, raw_event),
{
    Event::StepStarted(StepStartedEvent { step_name: owned(step_name), base: base_fields(timestamp, raw_event) })
}

/// Creates the end of a step.
pub fn create_step_finished_event(
    step_name: &str,
    timestamp: Option<i64>,
    raw_event: Option<serde_json::Value>,
) -> (r: Event)
    ensures
        r matches Event::StepFinished(e) && e.step_name@ == step_name@ && stamped(e.base, timestamp, raw_event),
{
    Event::StepFinished(StepFinishedEvent { step_name: owned(step_name), base: base_fields(timestamp, raw_event) })
}

/// Creates the start of reasoning.
pub fn create_reasoning_start_event(
    message_id: &str,
    timestamp: Option<i64>,
    raw_event: Option<serde_json::Value>,
) -> (r: Event)
    ensures
        r matches Event::ReasoningStart(e) && e.message_id@ == message_id@ && stamped(e.base, timestamp, raw_event),
{
    Event::ReasoningStart(ReasoningStartEvent { message_id: owned(message_id), base: base_fields(timestamp, raw_event) })
}

/// Creates the start of a reasoning message; its role is always `Reasoning`.
pub fn create_reasoning_message_start_event(
    message_id: &str,
    role: Option<ReasoningMessageRole>,
    timestamp: Option<i64>,
    raw_event: Option<serde_json::Value>,
) -> (r: Event)
    ensures
        r matches Event::ReasoningMessageStart(e) && e.message_id@ == message_id@ && e.role == ReasoningMessageRole::Reasoning && stamped(e.base, timestamp, raw_event),
{
    Event::ReasoningMessageStart(ReasoningMessageStartEvent { message_id: owned(message_id), role: match role { Some(x) => x, None => ReasoningMessageRole::Reasoning }, base: base_fields(timestamp, raw_event) })
}

/// Creates a piece of a reasoning message.
pub fn create_reasoning_message_content_event(
    message_id: &str,
    delta: &str,
    timestamp: Option<i64>,
    raw_event: Option<serde_json::Value>,
) -> (r: Event)
    ensures
        r matches Event::ReasoningMessageContent(e) && e.message_id@ == message_id@ && e.delta@ == delta@ && stamped(e.base, timestamp, raw_event),
{
    Event::ReasoningMessageContent(ReasoningMessageContentEvent { message_id: owned(message_id), delta: owned(delta), base: base_fields(timestamp, raw_event) })
}

/// Creates the end of a reasoning message.
pub fn create_reasoning_message_end_event(
    message_id: &str,
    timestamp: Option<i64>,
    raw_event: Option<serde_json::Value>,
) -> (r: Event)
    ensures
        r matches Event::ReasoningMessageEnd(e) && e.message_id@ == message_id@ && stamped(e.base, timestamp, raw_event),
{
    Event::ReasoningMessageEnd(ReasoningMessageEndEvent { message_id: owned(message_id), base: base_fields(timestamp, raw_event) })
}

/// Creates a reasoning message chunk.
pub fn create_reasoning_message_chunk_event(
    message_id: Option<String>,
    delta: Option<String>,
    timestamp: Option<i64>,
    raw_event: Option<serde_json::Value>,
) -> (r: Event)
    ensures
        r matches Event::ReasoningMessageChunk(e) && e.message_id == message_id && e.delta == delta && stamped(e.base, timestamp, raw_event),
{
    Event::ReasoningMessageChunk(ReasoningMessageChunkEvent { message_id, delta, base: base_fields(timestamp, raw_event) })
}

/// Creates the end of reasoning.
pub fn create_reasoning_end_event(
    message_id: &str,
    timestamp: Option<i64>,
    raw_event: Option<serde_json::Value>,
) -> (r: Event)
    ensures
        r matches Event::ReasoningEnd(e) && e.message_id@ == message_id@ && stamped(e.base, timestamp, raw_event),
{
    Event::ReasoningEnd(ReasoningEndEvent { message_id: owned(message_id), base: base_fields(timestamp, raw_event) })
}

/// Creates an encrypted value attached to a message or tool call.
pub fn create_reasoning_encrypted_value_event(
    subtype: ReasoningEncryptedValueSubtype,
    entity_id: &str,
    encrypted_value: &str,
    timestamp: Option<i64>,
    raw_event: Option<serde_json::Value>,
) -> (r: Event)
    ensures
        r matches Event::ReasoningEncryptedValue(e) && e.subtype == subtype && e.entity_id@ == entity_id@ && e.encrypted_value@ == encrypted_value@ && stamped(e.base, timestamp, raw_event),
{
    Event::ReasoningEncryptedValue(ReasoningEncryptedValueEvent { subtype, entity_id: owned(entity_id), encrypted_value: owned(encrypted_value), base: base_fields(timestamp, raw_event) })
}

/// Creates the end of a successful run.
pub fn create_run_finished_success_event(
    thread_id: &str,
    run_id: &str,
    result: Option<serde_json::Value>,
    timestamp: Option<i64>,
    raw_event: Option<serde_json::Value>,
) -> (r: Event)
    ensures
        r matches Event::RunFinished(e) && e.thread_id@ == thread_id@ && e.run_id@ == run_id@
            && e.result == result && e.outcome == Some(RunFinishedOutcome::Success) && stamped(
            e.base,
            timestamp,
            raw_event,
        ),
{
    create_run_finished_event(
        thread_id,
        run_id,
        result,
        Some(RunFinishedOutcome::Success),
        timestamp,
        raw_event,
    )
}

/// Creates the end of a run that stopped on interrupts.
pub fn create_run_finished_interrupt_event(
    thread_id: &str,
    run_id: &str,
    result: Option<serde_json::Value>,
    interrupts: Vec<Interrupt>,
    timestamp: Option<i64>,
    raw_event: Option<serde_json::Value>,
) -> (r: Event)
    ensures
        r matches Event::RunFinished(e) && e.thread_id@ == thread_id@ && e.run_id@ == run_id@
            && e.result == result && e.outcome == Some(RunFinishedOutcome::Interrupt { interrupts })
            && stamped(e.base, timestamp, raw_event),
{
    create_run_finished_event(
        thread_id,
        run_id,
        result,
        Some(RunFinishedOutcome::Interrupt { interrupts }),
        timestamp,
        raw_event,
    )
}

} // verus!

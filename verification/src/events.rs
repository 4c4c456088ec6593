//! The protocol's events.
use crate::types::{Interrupt, Message, RunAgentInput, State, TextMessageRole};
use vstd::prelude::*;

verus! {

/// The fields every event carries.
#[derive(Debug, Clone, PartialEq)]
pub struct BaseEventFields {
    pub timestamp: Option<i64>,
    pub raw_event: Option<serde_json::Value>,
}

impl BaseEventFields {
    /// No timestamp and no raw event.
    pub open spec fn spec_default() -> Self {
        BaseEventFields { timestamp: None, raw_event: None }
    }

    /// No timestamp and no raw event.
    pub fn empty() -> (r: Self)
        ensures
            r == Self::spec_default(),
    {
        BaseEventFields { timestamp: None, raw_event: None }
    }
}

/// The role of a reasoning message.
#[derive(Debug, Clone, Copy, PartialEq, Eq, Structural)]
pub enum ReasoningMessageRole {
    Reasoning,
}

/// The role of a tool result.
#[derive(Debug, Clone, Copy, PartialEq, Eq, Structural)]
pub enum ToolResultRole {
    Tool,
}

/// What an encrypted value is attached to.
#[derive(Debug, Clone, Copy, PartialEq, Eq, Structural)]
pub enum ReasoningEncryptedValueSubtype {
    ToolCall,
    Message,
}

/// How a run finished.
#[derive(Debug, Clone, PartialEq)]
pub enum RunFinishedOutcome {
    Success,
    Interrupt { interrupts: Vec<Interrupt> },
}

/// A text message begins.
#[derive(Debug, Clone, PartialEq)]
pub struct TextMessageStartEvent {
    pub message_id: String,
    pub role: TextMessageRole,
    pub name: Option<String>,
    pub base: BaseEventFields,
}

/// A piece of a text message's content.
#[derive(Debug, Clone, PartialEq)]
pub struct TextMessageContentEvent {
    pub message_id: String,
    pub delta: String,
    pub base: BaseEventFields,
}

/// A text message ends.
#[derive(Debug, Clone, PartialEq)]
pub struct TextMessageEndEvent {
    pub message_id: String,
    pub base: BaseEventFields,
}

/// A chunk of a text message, standing for its start, content and end.
#[derive(Debug, Clone, PartialEq)]
pub struct TextMessageChunkEvent {
    pub message_id: Option<String>,
    pub role: Option<TextMessageRole>,
    pub delta: Option<String>,
    pub name: Option<String>,
    pub base: BaseEventFields,
}

/// A legacy thinking message begins.
#[derive(Debug, Clone, PartialEq)]
pub struct ThinkingTextMessageStartEvent {
    pub base: BaseEventFields,
}

/// A piece of a legacy thinking message.
#[derive(Debug, Clone, PartialEq)]
pub struct ThinkingTextMessageContentEvent {
    pub delta: String,
    pub base: BaseEventFields,
}

/// A legacy thinking message ends.
#[derive(Debug, Clone, PartialEq)]
pub struct ThinkingTextMessageEndEvent {
    pub base: BaseEventFields,
}

/// A tool call begins.
#[derive(Debug, Clone, PartialEq)]
pub struct ToolCallStartEvent {
    pub tool_call_id: String,
    pub tool_call_name: String,
    pub parent_message_id: Option<String>,
    pub base: BaseEventFields,
}

/// A piece of a tool call's JSON arguments.
#[derive(Debug, Clone, PartialEq)]
pub struct ToolCallArgsEvent {
    pub tool_call_id: String,
    pub delta: String,
    pub base: BaseEventFields,
}

/// A tool call ends.
#[derive(Debug, Clone, PartialEq)]
pub struct ToolCallEndEvent {
    pub tool_call_id: String,
    pub base: BaseEventFields,
}

/// A chunk of a tool call, standing for its start, arguments and end.
#[derive(Debug, Clone, PartialEq)]
pub struct ToolCallChunkEvent {
    pub tool_call_id: Option<String>,
    pub tool_call_name: Option<String>,
    pub parent_message_id: Option<String>,
    pub delta: Option<String>,
    pub base: BaseEventFields,
}

/// The result of a tool call.
#[derive(Debug, Clone, PartialEq)]
pub struct ToolCallResultEvent {
    pub message_id: String,
    pub tool_call_id: String,
    pub content: String,
    pub role: Option<ToolResultRole>,
    pub base: BaseEventFields,
}

/// A legacy thinking step begins.
#[derive(Debug, Clone, PartialEq)]
pub struct ThinkingStartEvent {
    pub title: Option<String>,
    pub base: BaseEventFields,
}

/// A legacy thinking step ends.
#[derive(Debug, Clone, PartialEq)]
pub struct ThinkingEndEvent {
    pub base: BaseEventFields,
}

/// The whole state.
#[derive(Debug, Clone, PartialEq)]
pub struct StateSnapshotEvent {
    pub snapshot: State,
    pub base: BaseEventFields,
}

/// A JSON Patch to apply to the state.
#[derive(Debug, Clone, PartialEq)]
pub struct StateDeltaEvent {
    pub delta: Vec<serde_json::Value>,
    pub base: BaseEventFields,
}

/// The whole list of messages.
#[derive(Debug, Clone, PartialEq)]
pub struct MessagesSnapshotEvent {
    pub messages: Vec<Message>,
    pub base: BaseEventFields,
}

/// The content of an activity message.
#[derive(Debug, Clone, PartialEq)]
pub struct ActivitySnapshotEvent {
    pub message_id: String,
    pub activity_type: String,
    pub content: serde_json::Map<String, serde_json::Value>,
    pub replace: bool,
    pub base: BaseEventFields,
}

/// A JSON Patch to apply to an activity message's content.
#[derive(Debug, Clone, PartialEq)]
pub struct ActivityDeltaEvent {
    pub message_id: String,
    pub activity_type: String,
    pub patch: Vec<serde_json::Value>,
    pub base: BaseEventFields,
}

/// An event of another system, passed through.
#[derive(Debug, Clone, PartialEq)]
pub struct RawEvent {
    pub event: serde_json::Value,
    pub source: Option<String>,
    pub base: BaseEventFields,
}

/// An application-defined event.
#[derive(Debug, Clone, PartialEq)]
pub struct CustomEvent {
    pub name: String,
    pub value: serde_json::Value,
    pub base: BaseEventFields,
}

/// A run begins.
#[derive(Debug, Clone, PartialEq)]
pub struct RunStartedEvent {
    pub thread_id: String,
    pub run_id: String,
    pub parent_run_id: Option<String>,
    pub input: Option<RunAgentInput>,
    pub base: BaseEventFields,
}

/// A run ends.
#[derive(Debug, Clone, PartialEq)]
pub struct RunFinishedEvent {
    pub thread_id: String,
    pub run_id: String,
    pub result: Option<serde_json::Value>,
    pub outcome: Option<RunFinishedOutcome>,
    pub base: BaseEventFields,
}

/// A run fails.
#[derive(Debug, Clone, PartialEq)]
pub struct RunErrorEvent {
    pub message: String,
    pub code: Option<String>,
    pub base: BaseEventFields,
}

/// A named step begins.
#[derive(Debug, Clone, PartialEq)]
pub struct StepStartedEvent {
    pub step_name: String,
    pub base: BaseEventFields,
}

/// A named step ends.
#[derive(Debug, Clone, PartialEq)]
pub struct StepFinishedEvent {
    pub step_name: String,
    pub base: BaseEventFields,
}

/// A reasoning sequence begins.
#[derive(Debug, Clone, PartialEq)]
pub struct ReasoningStartEvent {
    pub message_id: String,
    pub base: BaseEventFields,
}

/// A reasoning message begins.
#[derive(Debug, Clone, PartialEq)]
pub struct ReasoningMessageStartEvent {
    pub message_id: String,
    pub role: ReasoningMessageRole,
    pub base: BaseEventFields,
}

/// A piece of a reasoning message.
#[derive(Debug, Clone, PartialEq)]
pub struct ReasoningMessageContentEvent {
    pub message_id: String,
    pub delta: String,
    pub base: BaseEventFields,
}

/// A reasoning message ends.
#[derive(Debug, Clone, PartialEq)]
pub struct ReasoningMessageEndEvent {
    pub message_id: String,
    pub base: BaseEventFields,
}

/// A chunk of a reasoning message.
#[derive(Debug, Clone, PartialEq)]
pub struct ReasoningMessageChunkEvent {
    pub message_id: Option<String>,
    pub delta: Option<String>,
    pub base: BaseEventFields,
}

/// A reasoning sequence ends.
#[derive(Debug, Clone, PartialEq)]
pub struct ReasoningEndEvent {
    pub message_id: String,
    pub base: BaseEventFields,
}

/// An encrypted value to attach to a message or a tool call.
#[derive(Debug, Clone, PartialEq)]
pub struct ReasoningEncryptedValueEvent {
    pub subtype: ReasoningEncryptedValueSubtype,
    pub entity_id: String,
    pub encrypted_value: String,
    pub base: BaseEventFields,
}

/// An event of the protocol.
#[derive(Debug, Clone, PartialEq)]
pub enum Event {
    TextMessageStart(TextMessageStartEvent),
    TextMessageContent(TextMessageContentEvent),
    TextMessageEnd(TextMessageEndEvent),
    TextMessageChunk(TextMessageChunkEvent),
    ThinkingTextMessageStart(ThinkingTextMessageStartEvent),
    ThinkingTextMessageContent(ThinkingTextMessageContentEvent),
    ThinkingTextMessageEnd(ThinkingTextMessageEndEvent),
    ToolCallStart(ToolCallStartEvent),
    ToolCallArgs(ToolCallArgsEvent),
    ToolCallEnd(ToolCallEndEvent),
    ToolCallChunk(ToolCallChunkEvent),
    ToolCallResult(ToolCallResultEvent),
    ThinkingStart(ThinkingStartEvent),
    ThinkingEnd(ThinkingEndEvent),
    StateSnapshot(StateSnapshotEvent),
    StateDelta(StateDeltaEvent),
    MessagesSnapshot(MessagesSnapshotEvent),
    ActivitySnapshot(ActivitySnapshotEvent),
    ActivityDelta(ActivityDeltaEvent),
    Raw(RawEvent),
    Custom(CustomEvent),
    RunStarted(RunStartedEvent),
    RunFinished(RunFinishedEvent),
    RunError(RunErrorEvent),
    StepStarted(StepStartedEvent),
    StepFinished(StepFinishedEvent),
    ReasoningStart(ReasoningStartEvent),
    ReasoningMessageStart(ReasoningMessageStartEvent),
    ReasoningMessageContent(ReasoningMessageContentEvent),
    ReasoningMessageEnd(ReasoningMessageEndEvent),
    ReasoningMessageChunk(ReasoningMessageChunkEvent),
    ReasoningEnd(ReasoningEndEvent),
    ReasoningEncryptedValue(ReasoningEncryptedValueEvent),
}

/// The type tag of each event.
#[derive(Debug, Clone, Copy, PartialEq, Eq, Structural)]
pub enum EventType {
    TextMessageStart,
    TextMessageContent,
    TextMessageEnd,
    TextMessageChunk,
    ThinkingTextMessageStart,
    ThinkingTextMessageContent,
    ThinkingTextMessageEnd,
    ToolCallStart,
    ToolCallArgs,
    ToolCallEnd,
    ToolCallChunk,
    ToolCallResult,
    ThinkingStart,
    ThinkingEnd,
    StateSnapshot,
    StateDelta,
    MessagesSnapshot,
    ActivitySnapshot,
    ActivityDelta,
    Raw,
    Custom,
    RunStarted,
    RunFinished,
    RunError,
    StepStarted,
    StepFinished,
    ReasoningStart,
    ReasoningMessageStart,
    ReasoningMessageContent,
    ReasoningMessageEnd,
    ReasoningMessageChunk,
    ReasoningEnd,
    ReasoningEncryptedValue,
}

/// The wire name of each event type.
pub open spec fn spec_event_type_name(t: EventType) -> Seq<char> {
    match t {
        EventType::TextMessageStart => "TEXT_MESSAGE_START"@,
        EventType::TextMessageContent => "TEXT_MESSAGE_CONTENT"@,
        EventType::TextMessageEnd => "TEXT_MESSAGE_END"@,
        EventType::TextMessageChunk => "TEXT_MESSAGE_CHUNK"@,
        EventType::ThinkingTextMessageStart => "THINKING_TEXT_MESSAGE_START"@,
        EventType::ThinkingTextMessageContent => "THINKING_TEXT_MESSAGE_CONTENT"@,
        EventType::ThinkingTextMessageEnd => "THINKING_TEXT_MESSAGE_END"@,
        EventType::ToolCallStart => "TOOL_CALL_START"@,
        EventType::ToolCallArgs => "TOOL_CALL_ARGS"@,
        EventType::ToolCallEnd => "TOOL_CALL_END"@,
        EventType::ToolCallChunk => "TOOL_CALL_CHUNK"@,
        EventType::ToolCallResult => "TOOL_CALL_RESULT"@,
        EventType::ThinkingStart => "THINKING_START"@,
        EventType::ThinkingEnd => "THINKING_END"@,
        EventType::StateSnapshot => "STATE_SNAPSHOT"@,
        EventType::StateDelta => "STATE_DELTA"@,
        EventType::MessagesSnapshot => "MESSAGES_SNAPSHOT"@,
        EventType::ActivitySnapshot => "ACTIVITY_SNAPSHOT"@,
        EventType::ActivityDelta => "ACTIVITY_DELTA"@,
        EventType::Raw => "RAW"@,
        EventType::Custom => "CUSTOM"@,
        EventType::RunStarted => "RUN_STARTED"@,
        EventType::RunFinished => "RUN_FINISHED"@,
        EventType::RunError => "RUN_ERROR"@,
        EventType::StepStarted => "STEP_STARTED"@,
        EventType::StepFinished => "STEP_FINISHED"@,
        EventType::ReasoningStart => "REASONING_START"@,
        EventType::ReasoningMessageStart => "REASONING_MESSAGE_START"@,
        EventType::ReasoningMessageContent => "REASONING_MESSAGE_CONTENT"@,
        EventType::ReasoningMessageEnd => "REASONING_MESSAGE_END"@,
        EventType::ReasoningMessageChunk => "REASONING_MESSAGE_CHUNK"@,
        EventType::ReasoningEnd => "REASONING_END"@,
        EventType::ReasoningEncryptedValue => "REASONING_ENCRYPTED_VALUE"@,
    }
}

impl EventType {
    /// The wire name of the event type, such as `RUN_STARTED`.
    pub fn name(&self) -> (r: &'static str)
        ensures
            r@ == spec_event_type_name(*self),
    {
        match self {
            EventType::TextMessageStart => "TEXT_MESSAGE_START",
            EventType::TextMessageContent => "TEXT_MESSAGE_CONTENT",
            EventType::TextMessageEnd => "TEXT_MESSAGE_END",
            EventType::TextMessageChunk => "TEXT_MESSAGE_CHUNK",
            EventType::ThinkingTextMessageStart => "THINKING_TEXT_MESSAGE_START",
            EventType::ThinkingTextMessageContent => "THINKING_TEXT_MESSAGE_CONTENT",
            EventType::ThinkingTextMessageEnd => "THINKING_TEXT_MESSAGE_END",
            EventType::ToolCallStart => "TOOL_CALL_START",
            EventType::ToolCallArgs => "TOOL_CALL_ARGS",
            EventType::ToolCallEnd => "TOOL_CALL_END",
            EventType::ToolCallChunk => "TOOL_CALL_CHUNK",
            EventType::ToolCallResult => "TOOL_CALL_RESULT",
            EventType::ThinkingStart => "THINKING_START",
            EventType::ThinkingEnd => "THINKING_END",
            EventType::StateSnapshot => "STATE_SNAPSHOT",
            EventType::StateDelta => "STATE_DELTA",
            EventType::MessagesSnapshot => "MESSAGES_SNAPSHOT",
            EventType::ActivitySnapshot => "ACTIVITY_SNAPSHOT",
            EventType::ActivityDelta => "ACTIVITY_DELTA",
            EventType::Raw => "RAW",
            EventType::Custom => "CUSTOM",
            EventType::RunStarted => "RUN_STARTED",
            EventType::RunFinished => "RUN_FINISHED",
            EventType::RunError => "RUN_ERROR",
            EventType::StepStarted => "STEP_STARTED",
            EventType::StepFinished => "STEP_FINISHED",
            EventType::ReasoningStart => "REASONING_START",
            EventType::ReasoningMessageStart => "REASONING_MESSAGE_START",
            EventType::ReasoningMessageContent => "REASONING_MESSAGE_CONTENT",
            EventType::ReasoningMessageEnd => "REASONING_MESSAGE_END",
            EventType::ReasoningMessageChunk => "REASONING_MESSAGE_CHUNK",
            EventType::ReasoningEnd => "REASONING_END",
            EventType::ReasoningEncryptedValue => "REASONING_ENCRYPTED_VALUE",
        }
    }
}

impl Event {
    /// The type tag of the event.
    pub open spec fn spec_event_type(&self) -> EventType {
        match self {
            Event::TextMessageStart(_) => EventType::TextMessageStart,
            Event::TextMessageContent(_) => EventType::TextMessageContent,
            Event::TextMessageEnd(_) => EventType::TextMessageEnd,
            Event::TextMessageChunk(_) => EventType::TextMessageChunk,
            Event::ThinkingTextMessageStart(_) => EventType::ThinkingTextMessageStart,
            Event::ThinkingTextMessageContent(_) => EventType::ThinkingTextMessageContent,
            Event::ThinkingTextMessageEnd(_) => EventType::ThinkingTextMessageEnd,
            Event::ToolCallStart(_) => EventType::ToolCallStart,
            Event::ToolCallArgs(_) => EventType::ToolCallArgs,
            Event::ToolCallEnd(_) => EventType::ToolCallEnd,
            Event::ToolCallChunk(_) => EventType::ToolCallChunk,
            Event::ToolCallResult(_) => EventType::ToolCallResult,
            Event::ThinkingStart(_) => EventType::ThinkingStart,
            Event::ThinkingEnd(_) => EventType::ThinkingEnd,
            Event::StateSnapshot(_) => EventType::StateSnapshot,
            Event::StateDelta(_) => EventType::StateDelta,
            Event::MessagesSnapshot(_) => EventType::MessagesSnapshot,
            Event::ActivitySnapshot(_) => EventType::ActivitySnapshot,
            Event::ActivityDelta(_) => EventType::ActivityDelta,
            Event::Raw(_) => EventType::Raw,
            Event::Custom(_) => EventType::Custom,
            Event::RunStarted(_) => EventType::RunStarted,
            Event::RunFinished(_) => EventType::RunFinished,
            Event::RunError(_) => EventType::RunError,
            Event::StepStarted(_) => EventType::StepStarted,
            Event::StepFinished(_) => EventType::StepFinished,
            Event::ReasoningStart(_) => EventType::ReasoningStart,
            Event::ReasoningMessageStart(_) => EventType::ReasoningMessageStart,
            Event::ReasoningMessageContent(_) => EventType::ReasoningMessageContent,
            Event::ReasoningMessageEnd(_) => EventType::ReasoningMessageEnd,
            Event::ReasoningMessageChunk(_) => EventType::ReasoningMessageChunk,
            Event::ReasoningEnd(_) => EventType::ReasoningEnd,
            Event::ReasoningEncryptedValue(_) => EventType::ReasoningEncryptedValue,
        }
    }

    /// The type tag of the event.
    pub fn event_type(&self) -> (r: EventType)
        ensures
            r == self.spec_event_type(),
    {
        match self {
            Event::TextMessageStart(_) => EventType::TextMessageStart,
            Event::TextMessageContent(_) => EventType::TextMessageContent,
            Event::TextMessageEnd(_) => EventType::TextMessageEnd,
            Event::TextMessageChunk(_) => EventType::TextMessageChunk,
            Event::ThinkingTextMessageStart(_) => EventType::ThinkingTextMessageStart,
            Event::ThinkingTextMessageContent(_) => EventType::ThinkingTextMessageContent,
            Event::ThinkingTextMessageEnd(_) => EventType::ThinkingTextMessageEnd,
            Event::ToolCallStart(_) => EventType::ToolCallStart,
            Event::ToolCallArgs(_) => EventType::ToolCallArgs,
            Event::ToolCallEnd(_) => EventType::ToolCallEnd,
            Event::ToolCallChunk(_) => EventType::ToolCallChunk,
            Event::ToolCallResult(_) => EventType::ToolCallResult,
            Event::ThinkingStart(_) => EventType::ThinkingStart,
            Event::ThinkingEnd(_) => EventType::ThinkingEnd,
            Event::StateSnapshot(_) => EventType::StateSnapshot,
            Event::StateDelta(_) => EventType::StateDelta,
            Event::MessagesSnapshot(_) => EventType::MessagesSnapshot,
            Event::ActivitySnapshot(_) => EventType::ActivitySnapshot,
            Event::ActivityDelta(_) => EventType::ActivityDelta,
            Event::Raw(_) => EventType::Raw,
            Event::Custom(_) => EventType::Custom,
            Event::RunStarted(_) => EventType::RunStarted,
            Event::RunFinished(_) => EventType::RunFinished,
            Event::RunError(_) => EventType::RunError,
            Event::StepStarted(_) => EventType::StepStarted,
            Event::StepFinished(_) => EventType::StepFinished,
            Event::ReasoningStart(_) => EventType::ReasoningStart,
            Event::ReasoningMessageStart(_) => EventType::ReasoningMessageStart,
            Event::ReasoningMessageContent(_) => EventType::ReasoningMessageContent,
            Event::ReasoningMessageEnd(_) => EventType::ReasoningMessageEnd,
            Event::ReasoningMessageChunk(_) => EventType::ReasoningMessageChunk,
            Event::ReasoningEnd(_) => EventType::ReasoningEnd,
            Event::ReasoningEncryptedValue(_) => EventType::ReasoningEncryptedValue,
        }
    }

    /// The fields common to every event.
    pub open spec fn spec_base(&self) -> BaseEventFields {
        match self {
            Event::TextMessageStart(e) => e.base,
            Event::TextMessageContent(e) => e.base,
            Event::TextMessageEnd(e) => e.base,
            Event::TextMessageChunk(e) => e.base,
            Event::ThinkingTextMessageStart(e) => e.base,
            Event::ThinkingTextMessageContent(e) => e.base,
            Event::ThinkingTextMessageEnd(e) => e.base,
            Event::ToolCallStart(e) => e.base,
            Event::ToolCallArgs(e) => e.base,
            Event::ToolCallEnd(e) => e.base,
            Event::ToolCallChunk(e) => e.base,
            Event::ToolCallResult(e) => e.base,
            Event::ThinkingStart(e) => e.base,
            Event::ThinkingEnd(e) => e.base,
            Event::StateSnapshot(e) => e.base,
            Event::StateDelta(e) => e.base,
            Event::MessagesSnapshot(e) => e.base,
            Event::ActivitySnapshot(e) => e.base,
            Event::ActivityDelta(e) => e.base,
            Event::Raw(e) => e.base,
            Event::Custom(e) => e.base,
            Event::RunStarted(e) => e.base,
            Event::RunFinished(e) => e.base,
            Event::RunError(e) => e.base,
            Event::StepStarted(e) => e.base,
            Event::StepFinished(e) => e.base,
            Event::ReasoningStart(e) => e.base,
            Event::ReasoningMessageStart(e) => e.base,
            Event::ReasoningMessageContent(e) => e.base,
            Event::ReasoningMessageEnd(e) => e.base,
            Event::ReasoningMessageChunk(e) => e.base,
            Event::ReasoningEnd(e) => e.base,
            Event::ReasoningEncryptedValue(e) => e.base,
        }
    }

    /// The fields common to every event.
    pub fn base(&self) -> (r: &BaseEventFields)
        ensures
            *r == self.spec_base(),
    {
        match self {
            Event::TextMessageStart(e) => &e.base,
            Event::TextMessageContent(e) => &e.base,
            Event::TextMessageEnd(e) => &e.base,
            Event::TextMessageChunk(e) => &e.base,
            Event::ThinkingTextMessageStart(e) => &e.base,
            Event::ThinkingTextMessageContent(e) => &e.base,
            Event::ThinkingTextMessageEnd(e) => &e.base,
            Event::ToolCallStart(e) => &e.base,
            Event::ToolCallArgs(e) => &e.base,
            Event::ToolCallEnd(e) => &e.base,
            Event::ToolCallChunk(e) => &e.base,
            Event::ToolCallResult(e) => &e.base,
            Event::ThinkingStart(e) => &e.base,
            Event::ThinkingEnd(e) => &e.base,
            Event::StateSnapshot(e) => &e.base,
            Event::StateDelta(e) => &e.base,
            Event::MessagesSnapshot(e) => &e.base,
            Event::ActivitySnapshot(e) => &e.base,
            Event::ActivityDelta(e) => &e.base,
            Event::Raw(e) => &e.base,
            Event::Custom(e) => &e.base,
            Event::RunStarted(e) => &e.base,
            Event::RunFinished(e) => &e.base,
            Event::RunError(e) => &e.base,
            Event::StepStarted(e) => &e.base,
            Event::StepFinished(e) => &e.base,
            Event::ReasoningStart(e) => &e.base,
            Event::ReasoningMessageStart(e) => &e.base,
            Event::ReasoningMessageContent(e) => &e.base,
            Event::ReasoningMessageEnd(e) => &e.base,
            Event::ReasoningMessageChunk(e) => &e.base,
            Event::ReasoningEnd(e) => &e.base,
            Event::ReasoningEncryptedValue(e) => &e.base,
        }
    }
}

/// The wire name of an event's type, such as `TEXT_MESSAGE_START`.
pub open spec fn spec_event_name(e: &Event) -> Seq<char> {
    spec_event_type_name(e.spec_event_type())
}

/// The wire name of an event's type, such as `TEXT_MESSAGE_START`.
pub fn event_name(event: &Event) -> (r: &'static str)
    ensures
        r@ == spec_event_name(event),
{
    event.event_type().name()
}

} // verus!

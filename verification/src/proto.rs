//! The protobuf schema of AG-UI events (`events.proto`, `types.proto`, `patch.proto`), as plain
//! data. A `google.protobuf.Value` field is held in its JSON form; the wire encoding, and the
//! conversion of JSON numbers to the protobuf's doubles, belong to the caller.
use vstd::prelude::*;

verus! {

/// The kind of a JSON Patch operation.
#[derive(Debug, Clone, Copy, PartialEq, Eq, Structural)]
pub enum JsonPatchOperationType {
    Add,
    Remove,
    Replace,
    Move,
    Copy,
    Test,
}

/// One JSON Patch operation; `op` is the wire number of its kind.
#[derive(Debug, Clone, PartialEq)]
pub struct JsonPatchOperation {
    pub op: i32,
    pub path: String,
    pub from: Option<String>,
    pub value: Option<serde_json::Value>,
}

/// The function of a tool call.
#[derive(Debug, Clone, PartialEq, Default)]
pub struct ToolCallFunction {
    pub name: String,
    pub arguments: String,
}

/// A tool call; `kind` is the schema's `type` field.
#[derive(Debug, Clone, PartialEq)]
pub struct ToolCall {
    pub id: String,
    pub kind: String,
    pub function: Option<ToolCallFunction>,
}

/// Inline content of an input part.
#[derive(Debug, Clone, PartialEq)]
pub struct InputContentDataSource {
    pub value: String,
    pub mime_type: String,
}

/// Content of an input part at a URL.
#[derive(Debug, Clone, PartialEq)]
pub struct InputContentUrlSource {
    pub value: String,
    pub mime_type: Option<String>,
}

/// Where an input part's content is.
#[derive(Debug, Clone, PartialEq)]
pub struct InputContentSource {
    pub source: Option<Source>,
}

/// The two places an input part's content can be.
#[derive(Debug, Clone, PartialEq)]
pub enum Source {
    Data(InputContentDataSource),
    Url(InputContentUrlSource),
}

/// A text input part.
#[derive(Debug, Clone, PartialEq)]
pub struct TextInputPart {
    pub text: String,
}

/// A media input part.
#[derive(Debug, Clone, PartialEq)]
pub struct MediaInputPart {
    pub source: Option<InputContentSource>,
    pub metadata: Option<serde_json::Value>,
}

/// One part of multimodal user input.
#[derive(Debug, Clone, PartialEq)]
pub struct InputContent {
    pub part: Option<Part>,
}

/// The kinds of input part.
#[derive(Debug, Clone, PartialEq)]
pub enum Part {
    Text(TextInputPart),
    Image(MediaInputPart),
    Audio(MediaInputPart),
    Video(MediaInputPart),
    Document(MediaInputPart),
}

/// A message, whatever its role.
#[derive(Debug, Clone, PartialEq)]
pub struct ProtoMessage {
    pub id: String,
    pub role: String,
    pub content: Option<String>,
    pub name: Option<String>,
    pub tool_calls: Vec<ToolCall>,
    pub tool_call_id: Option<String>,
    pub error: Option<String>,
    pub content_parts: Vec<InputContent>,
}

/// An interrupt.
#[derive(Debug, Clone, PartialEq)]
pub struct Interrupt {
    pub id: String,
    pub reason: String,
    pub message: Option<String>,
    pub tool_call_id: Option<String>,
    pub response_schema: Option<serde_json::Value>,
    pub expires_at: Option<String>,
    pub metadata: Option<serde_json::Value>,
}

/// The event types of the schema.
#[derive(Debug, Clone, Copy, PartialEq, Eq, Structural)]
pub enum EventType {
    TextMessageStart,
    TextMessageContent,
    TextMessageEnd,
    ToolCallStart,
    ToolCallArgs,
    ToolCallEnd,
    StateSnapshot,
    StateDelta,
    MessagesSnapshot,
    Raw,
    Custom,
    RunStarted,
    RunFinished,
    RunError,
    StepStarted,
    StepFinished,
}

/// The fields every event has; `kind` is the wire number of its type.
#[derive(Debug, Clone, PartialEq)]
pub struct BaseEvent {
    pub kind: i32,
    pub timestamp: Option<i64>,
    pub raw_event: Option<serde_json::Value>,
}

/// The `TextMessageStartEvent` message.
#[derive(Debug, Clone, PartialEq)]
pub struct TextMessageStartEvent {
    pub base_event: Option<BaseEvent>,
    pub message_id: String,
    pub role: Option<String>,
    pub name: Option<String>,
}

/// The `TextMessageContentEvent` message.
#[derive(Debug, Clone, PartialEq)]
pub struct TextMessageContentEvent {
    pub base_event: Option<BaseEvent>,
    pub message_id: String,
    pub delta: String,
}

/// The `TextMessageEndEvent` message.
#[derive(Debug, Clone, PartialEq)]
pub struct TextMessageEndEvent {
    pub base_event: Option<BaseEvent>,
    pub message_id: String,
}

/// The `ToolCallStartEvent` message.
#[derive(Debug, Clone, PartialEq)]
pub struct ToolCallStartEvent {
    pub base_event: Option<BaseEvent>,
    pub tool_call_id: String,
    pub tool_call_name: String,
    pub parent_message_id: Option<String>,
}

/// The `ToolCallArgsEvent` message.
#[derive(Debug, Clone, PartialEq)]
pub struct ToolCallArgsEvent {
    pub base_event: Option<BaseEvent>,
    pub tool_call_id: String,
    pub delta: String,
}

/// The `ToolCallEndEvent` message.
#[derive(Debug, Clone, PartialEq)]
pub struct ToolCallEndEvent {
    pub base_event: Option<BaseEvent>,
    pub tool_call_id: String,
}

/// The `StateSnapshotEvent` message.
#[derive(Debug, Clone, PartialEq)]
pub struct StateSnapshotEvent {
    pub base_event: Option<BaseEvent>,
    pub snapshot: Option<serde_json::Value>,
}

/// The `StateDeltaEvent` message.
#[derive(Debug, Clone, PartialEq)]
pub struct StateDeltaEvent {
    pub base_event: Option<BaseEvent>,
    pub delta: Vec<JsonPatchOperation>,
}

/// The `MessagesSnapshotEvent` message.
#[derive(Debug, Clone, PartialEq)]
pub struct MessagesSnapshotEvent {
    pub base_event: Option<BaseEvent>,
    pub messages: Vec<ProtoMessage>,
}

/// The `RawEvent` message.
#[derive(Debug, Clone, PartialEq)]
pub struct RawEvent {
    pub base_event: Option<BaseEvent>,
    pub event: Option<serde_json::Value>,
    pub source: Option<String>,
}

/// The `CustomEvent` message.
#[derive(Debug, Clone, PartialEq)]
pub struct CustomEvent {
    pub base_event: Option<BaseEvent>,
    pub name: String,
    pub value: Option<serde_json::Value>,
}

/// The `RunStartedEvent` message.
#[derive(Debug, Clone, PartialEq)]
pub struct RunStartedEvent {
    pub base_event: Option<BaseEvent>,
    pub thread_id: String,
    pub run_id: String,
}

/// The `RunFinishedEvent` message.
#[derive(Debug, Clone, PartialEq)]
pub struct RunFinishedEvent {
    pub base_event: Option<BaseEvent>,
    pub thread_id: String,
    pub run_id: String,
    pub result: Option<serde_json::Value>,
    pub outcome: String,
    pub interrupts: Vec<Interrupt>,
}

/// The `RunErrorEvent` message.
#[derive(Debug, Clone, PartialEq)]
pub struct RunErrorEvent {
    pub base_event: Option<BaseEvent>,
    pub code: Option<String>,
    pub message: String,
}

/// The `StepStartedEvent` message.
#[derive(Debug, Clone, PartialEq)]
pub struct StepStartedEvent {
    pub base_event: Option<BaseEvent>,
    pub step_name: String,
}

/// The `StepFinishedEvent` message.
#[derive(Debug, Clone, PartialEq)]
pub struct StepFinishedEvent {
    pub base_event: Option<BaseEvent>,
    pub step_name: String,
}

/// The `TextMessageChunkEvent` message.
#[derive(Debug, Clone, PartialEq)]
pub struct TextMessageChunkEvent {
    pub base_event: Option<BaseEvent>,
    pub message_id: Option<String>,
    pub role: Option<String>,
    pub delta: Option<String>,
    pub name: Option<String>,
}

/// The `ToolCallChunkEvent` message.
#[derive(Debug, Clone, PartialEq)]
pub struct ToolCallChunkEvent {
    pub base_event: Option<BaseEvent>,
    pub tool_call_id: Option<String>,
    pub tool_call_name: Option<String>,
    pub parent_message_id: Option<String>,
    pub delta: Option<String>,
}

/// The event a message carries: one of the schema's event messages.
#[derive(Debug, Clone, PartialEq)]
pub enum EventBody {
    TextMessageStart(TextMessageStartEvent),
    TextMessageContent(TextMessageContentEvent),
    TextMessageEnd(TextMessageEndEvent),
    ToolCallStart(ToolCallStartEvent),
    ToolCallArgs(ToolCallArgsEvent),
    ToolCallEnd(ToolCallEndEvent),
    StateSnapshot(StateSnapshotEvent),
    StateDelta(StateDeltaEvent),
    MessagesSnapshot(MessagesSnapshotEvent),
    Raw(RawEvent),
    Custom(CustomEvent),
    RunStarted(RunStartedEvent),
    RunFinished(RunFinishedEvent),
    RunError(RunErrorEvent),
    StepStarted(StepStartedEvent),
    StepFinished(StepFinishedEvent),
    TextMessageChunk(TextMessageChunkEvent),
    ToolCallChunk(ToolCallChunkEvent),
}

/// An event message; a decoded one may carry no event.
#[derive(Debug, Clone, PartialEq)]
pub struct EventMessage {
    pub event: Option<EventBody>,
}

} // verus!

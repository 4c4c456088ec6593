//! Checks that a run's events come in an order the protocol allows.
//!
//! A run starts with `RUN_STARTED` (or fails at once with `RUN_ERROR`); text messages, tool
//! calls, reasoning, thinking and steps open and close in pairs; `RUN_FINISHED` is allowed only
//! when nothing is open; after `RUN_FINISHED` only `RUN_ERROR` or a new `RUN_STARTED` may come;
//! after `RUN_ERROR` nothing may come.
use crate::error::AgUiError;
use crate::events::{spec_event_type_name, Event, EventType};
use crate::text::{
    clone_strings, concat2, concat3, concat5, join, join_strings, lemma_str_lt_asym, lemma_str_lt_total,
    lemma_str_lt_trans, opt_str_eq, owned, str_eq, str_less, str_lt, strs_view,
};
use crate::types::opt_str;
use vstd::prelude::*;

verus! {

/// The view of the verifier's state.
pub struct VState {
    pub first_event_received: bool,
    pub run_started: bool,
    pub run_finished: bool,
    pub text: Option<Seq<char>>,
    pub tool: Option<Seq<char>>,
    pub tool_parent: Option<Seq<char>>,
    pub reasoning: Option<Seq<char>>,
    pub reasoning_open: bool,
    pub thinking: bool,
    pub thinking_message: bool,
    pub run_errored: bool,
    /// The names of the active steps, in increasing order.
    pub steps: Seq<Seq<char>>,
}

/// A rule of the protocol that an event breaks.
pub enum ViolationV {
    AfterRunError { event_type: EventType },
    AfterRunFinished { event_type: EventType },
    FirstEventNotRunStarted,
    RunStartedWhileActive,
    StepsStillActive { steps: Seq<Seq<char>> },
    TextMessageStillActive { id: Seq<char> },
    ToolCallStillActive { id: Seq<char> },
    ReasoningStillActive { id: Seq<char> },
    ThinkingMessageStillActive,
    ThinkingStillActive,
    TextStartWhileActive { active: Seq<char> },
    TextContentNoActive { id: Seq<char> },
    TextChunkIdMismatch { active: Seq<char> },
    TextChunkNoActiveWithId { id: Seq<char> },
    TextChunkNoActive,
    TextEndNoActive { id: Seq<char> },
    ToolStartWhileActive { active: Seq<char> },
    ToolStartParentMismatch { parent: Seq<char>, active: Seq<char> },
    ToolStartParentNotActive { parent: Seq<char> },
    ToolArgsNoActive { id: Seq<char> },
    ToolChunkNoActiveWithId { id: Seq<char> },
    ToolChunkNoActive,
    ToolChunkParentMismatch { parent: Seq<char>, active: Seq<char> },
    ToolChunkParentInvalid { parent: Seq<char> },
    ToolEndNoActive { id: Seq<char> },
    ReasoningStartWhileActive { active: Seq<char> },
    ReasoningMessageStartAlreadyOpen { id: Seq<char> },
    ReasoningMessageStartNoSequence { id: Seq<char> },
    ReasoningContentNoActive { id: Seq<char> },
    ReasoningChunkNoActiveWithId { id: Seq<char> },
    ReasoningChunkNoActive,
    ReasoningMessageEndNoActive { id: Seq<char> },
    ReasoningEndStillOpen { id: Seq<char> },
    ReasoningEndNoSequence { id: Seq<char> },
    ThinkingStartWhileActive,
    ThinkingMessageStartNoThinking,
    ThinkingMessageStartAlreadyActive,
    ThinkingContentNoMessage,
    ThinkingMessageEndNoMessage,
    ThinkingEndNoThinking,
    ThinkingEndMessageOpen,
    StepAlreadyActive { name: Seq<char> },
    StepNotStarted { name: Seq<char> },
}

/// A rule of the protocol that an event breaks, with the ids it concerns.
#[derive(Debug, Clone, PartialEq)]
pub enum Violation {
    AfterRunError { event_type: EventType },
    AfterRunFinished { event_type: EventType },
    FirstEventNotRunStarted,
    RunStartedWhileActive,
    StepsStillActive { steps: Vec<String> },
    TextMessageStillActive { id: String },
    ToolCallStillActive { id: String },
    ReasoningStillActive { id: String },
    ThinkingMessageStillActive,
    ThinkingStillActive,
    TextStartWhileActive { active: String },
    TextContentNoActive { id: String },
    TextChunkIdMismatch { active: String },
    TextChunkNoActiveWithId { id: String },
    TextChunkNoActive,
    TextEndNoActive { id: String },
    ToolStartWhileActive { active: String },
    ToolStartParentMismatch { parent: String, active: String },
    ToolStartParentNotActive { parent: String },
    ToolArgsNoActive { id: String },
    ToolChunkNoActiveWithId { id: String },
    ToolChunkNoActive,
    ToolChunkParentMismatch { parent: String, active: String },
    ToolChunkParentInvalid { parent: String },
    ToolEndNoActive { id: String },
    ReasoningStartWhileActive { active: String },
    ReasoningMessageStartAlreadyOpen { id: String },
    ReasoningMessageStartNoSequence { id: String },
    ReasoningContentNoActive { id: String },
    ReasoningChunkNoActiveWithId { id: String },
    ReasoningChunkNoActive,
    ReasoningMessageEndNoActive { id: String },
    ReasoningEndStillOpen { id: String },
    ReasoningEndNoSequence { id: String },
    ThinkingStartWhileActive,
    ThinkingMessageStartNoThinking,
    ThinkingMessageStartAlreadyActive,
    ThinkingContentNoMessage,
    ThinkingMessageEndNoMessage,
    ThinkingEndNoThinking,
    ThinkingEndMessageOpen,
    StepAlreadyActive { name: String },
    StepNotStarted { name: String },
}

impl View for Violation {
    type V = ViolationV;

    open spec fn view(&self) -> ViolationV {
        match self {
            Violation::AfterRunError { event_type } => ViolationV::AfterRunError {
                event_type: *event_type,
            },
            Violation::AfterRunFinished { event_type } => ViolationV::AfterRunFinished {
                event_type: *event_type,
            },
            Violation::FirstEventNotRunStarted => ViolationV::FirstEventNotRunStarted,
            Violation::RunStartedWhileActive => ViolationV::RunStartedWhileActive,
            Violation::StepsStillActive { steps } => ViolationV::StepsStillActive {
                steps: strs_view(steps@),
            },
            Violation::TextMessageStillActive { id } => ViolationV::TextMessageStillActive {
                id: id@,
            },
            Violation::ToolCallStillActive { id } => ViolationV::ToolCallStillActive { id: id@ },
            Violation::ReasoningStillActive { id } => ViolationV::ReasoningStillActive { id: id@ },
            Violation::ThinkingMessageStillActive => ViolationV::ThinkingMessageStillActive,
            Violation::ThinkingStillActive => ViolationV::ThinkingStillActive,
            Violation::TextStartWhileActive { active } => ViolationV::TextStartWhileActive {
                active: active@,
            },
            Violation::TextContentNoActive { id } => ViolationV::TextContentNoActive { id: id@ },
            Violation::TextChunkIdMismatch { active } => ViolationV::TextChunkIdMismatch {
                active: active@,
            },
            Violation::TextChunkNoActiveWithId { id } => ViolationV::TextChunkNoActiveWithId {
                id: id@,
            },
            Violation::TextChunkNoActive => ViolationV::TextChunkNoActive,
            Violation::TextEndNoActive { id } => ViolationV::TextEndNoActive { id: id@ },
            Violation::ToolStartWhileActive { active } => ViolationV::ToolStartWhileActive {
                active: active@,
            },
            Violation::ToolStartParentMismatch { parent, active } =>
                ViolationV::ToolStartParentMismatch { parent: parent@, active: active@ },
            Violation::ToolStartParentNotActive { parent } =>
                ViolationV::ToolStartParentNotActive { parent: parent@ },
            Violation::ToolArgsNoActive { id } => ViolationV::ToolArgsNoActive { id: id@ },
            Violation::ToolChunkNoActiveWithId { id } => ViolationV::ToolChunkNoActiveWithId {
                id: id@,
            },
            Violation::ToolChunkNoActive => ViolationV::ToolChunkNoActive,
            Violation::ToolChunkParentMismatch { parent, active } =>
                ViolationV::ToolChunkParentMismatch { parent: parent@, active: active@ },
            Violation::ToolChunkParentInvalid { parent } => ViolationV::ToolChunkParentInvalid {
                parent: parent@,
            },
            Violation::ToolEndNoActive { id } => ViolationV::ToolEndNoActive { id: id@ },
            Violation::ReasoningStartWhileActive { active } =>
                ViolationV::ReasoningStartWhileActive { active: active@ },
            Violation::ReasoningMessageStartAlreadyOpen { id } =>
                ViolationV::ReasoningMessageStartAlreadyOpen { id: id@ },
            Violation::ReasoningMessageStartNoSequence { id } =>
                ViolationV::ReasoningMessageStartNoSequence { id: id@ },
            Violation::ReasoningContentNoActive { id } => ViolationV::ReasoningContentNoActive {
                id: id@,
            },
            Violation::ReasoningChunkNoActiveWithId { id } =>
                ViolationV::ReasoningChunkNoActiveWithId { id: id@ },
            Violation::ReasoningChunkNoActive => ViolationV::ReasoningChunkNoActive,
            Violation::ReasoningMessageEndNoActive { id } =>
                ViolationV::ReasoningMessageEndNoActive { id: id@ },
            Violation::ReasoningEndStillOpen { id } => ViolationV::ReasoningEndStillOpen {
                id: id@,
            },
            Violation::ReasoningEndNoSequence { id } => ViolationV::ReasoningEndNoSequence {
                id: id@,
            },
            Violation::ThinkingStartWhileActive => ViolationV::ThinkingStartWhileActive,
            Violation::ThinkingMessageStartNoThinking => ViolationV::ThinkingMessageStartNoThinking,
            Violation::ThinkingMessageStartAlreadyActive =>
                ViolationV::ThinkingMessageStartAlreadyActive,
            Violation::ThinkingContentNoMessage => ViolationV::ThinkingContentNoMessage,
            Violation::ThinkingMessageEndNoMessage => ViolationV::ThinkingMessageEndNoMessage,
            Violation::ThinkingEndNoThinking => ViolationV::ThinkingEndNoThinking,
            Violation::ThinkingEndMessageOpen => ViolationV::ThinkingEndMessageOpen,
            Violation::StepAlreadyActive { name } => ViolationV::StepAlreadyActive { name: name@ },
            Violation::StepNotStarted { name } => ViolationV::StepNotStarted { name: name@ },
        }
    }
}

/// The message that reports a violation.
pub open spec fn violation_text(v: ViolationV) -> Seq<char> {
    match v {
        ViolationV::AfterRunError { event_type } => "Cannot send event type '"@
            + spec_event_type_name(event_type)
            + "': The run has already errored with 'RUN_ERROR'. No further events can be sent."@,
        ViolationV::AfterRunFinished { event_type } => "Cannot send event type '"@
            + spec_event_type_name(event_type)
            + "': The run has already finished with 'RUN_FINISHED'. Start a new run with 'RUN_STARTED'."@,
        ViolationV::FirstEventNotRunStarted => "First event must be 'RUN_STARTED'"@,
        ViolationV::RunStartedWhileActive => "Cannot send 'RUN_STARTED' while a run is still active. The previous run must be finished with 'RUN_FINISHED' before starting a new run."@,
        ViolationV::StepsStillActive { steps } =>
            "Cannot send 'RUN_FINISHED' while steps are still active: "@ + join(steps, ", "@),
        ViolationV::TextMessageStillActive { id } =>
            "Cannot send 'RUN_FINISHED' while text message '"@ + id + "' is still active"@,
        ViolationV::ToolCallStillActive { id } =>
            "Cannot send 'RUN_FINISHED' while tool call '"@ + id + "' is still active"@,
        ViolationV::ReasoningStillActive { id } =>
            "Cannot send 'RUN_FINISHED' while reasoning message '"@ + id + "' is still active"@,
        ViolationV::ThinkingMessageStillActive =>
            "Cannot send 'RUN_FINISHED' while a thinking message is still active"@,
        ViolationV::ThinkingStillActive =>
            "Cannot send 'RUN_FINISHED' while a thinking step is still active"@,
        ViolationV::TextStartWhileActive { active } =>
            "Cannot send 'TEXT_MESSAGE_START' event: A text message with ID '"@ + active
                + "' is already in progress. Complete it with 'TEXT_MESSAGE_END' first."@,
        ViolationV::TextContentNoActive { id } =>
            "Cannot send 'TEXT_MESSAGE_CONTENT' event: No active text message found with ID '"@
                + id + "'. Start a text message with 'TEXT_MESSAGE_START' first."@,
        ViolationV::TextChunkIdMismatch { active } =>
            "Cannot send 'TEXT_MESSAGE_CHUNK' event: The active text message ID is '"@ + active
                + "'."@,
        ViolationV::TextChunkNoActiveWithId { id } =>
            "Cannot send 'TEXT_MESSAGE_CHUNK' event: No active text message found with ID '"@ + id
                + "'. Start a text message with 'TEXT_MESSAGE_START' first."@,
        ViolationV::TextChunkNoActive =>
            "Cannot send 'TEXT_MESSAGE_CHUNK' event: No active text message found. Start a text message with 'TEXT_MESSAGE_START' first."@,
        ViolationV::TextEndNoActive { id } =>
            "Cannot send 'TEXT_MESSAGE_END' event: No active text message found with ID '"@ + id
                + "'. A 'TEXT_MESSAGE_START' event must be sent first."@,
        ViolationV::ToolStartWhileActive { active } =>
            "Cannot send 'TOOL_CALL_START' event: A tool call with ID '"@ + active
                + "' is already in progress. Complete it with 'TOOL_CALL_END' first."@,
        ViolationV::ToolStartParentMismatch { parent, active } =>
            "Cannot send 'TOOL_CALL_START' event: Parent message ID '"@ + parent
                + "' must match the active text message ID '"@ + active + "'."@,
        ViolationV::ToolStartParentNotActive { parent } =>
            "Cannot send 'TOOL_CALL_START' event: Parent message ID '"@ + parent
                + "' does not reference an active text message. Start a text message with 'TEXT_MESSAGE_START' first."@,
        ViolationV::ToolArgsNoActive { id } =>
            "Cannot send 'TOOL_CALL_ARGS' event: No active tool call found with ID '"@ + id
                + "'. Start a tool call with 'TOOL_CALL_START' first."@,
        ViolationV::ToolChunkNoActiveWithId { id } =>
            "Cannot send 'TOOL_CALL_CHUNK' event: No active tool call found with ID '"@ + id
                + "'. Start a tool call with 'TOOL_CALL_START' first."@,
        ViolationV::ToolChunkNoActive =>
            "Cannot send 'TOOL_CALL_CHUNK' event: No active tool call found. Start a tool call with 'TOOL_CALL_START' first."@,
        ViolationV::ToolChunkParentMismatch { parent, active } =>
            "Cannot send 'TOOL_CALL_CHUNK' event: Parent message ID '"@ + parent
                + "' must match the active tool call parent message ID '"@ + active + "'."@,
        ViolationV::ToolChunkParentInvalid { parent } =>
            "Cannot send 'TOOL_CALL_CHUNK' event: Parent message ID '"@ + parent
                + "' is not valid for the active tool call."@,
        ViolationV::ToolEndNoActive { id } =>
            "Cannot send 'TOOL_CALL_END' event: No active tool call found with ID '"@ + id
                + "'. A 'TOOL_CALL_START' event must be sent first."@,
        ViolationV::ReasoningStartWhileActive { active } =>
            "Cannot send 'REASONING_START' event: A reasoning message with ID '"@ + active
                + "' is already in progress. Complete it with 'REASONING_END' first."@,
        ViolationV::ReasoningMessageStartAlreadyOpen { id } =>
            "Cannot send 'REASONING_MESSAGE_START' event: Reasoning message '"@ + id
                + "' is already in progress. Complete it with 'REASONING_MESSAGE_END' first."@,
        ViolationV::ReasoningMessageStartNoSequence { id } =>
            "Cannot send 'REASONING_MESSAGE_START' event: No active reasoning sequence found with ID '"@
                + id + "'. Start reasoning with 'REASONING_START' first."@,
        ViolationV::ReasoningContentNoActive { id } =>
            "Cannot send 'REASONING_MESSAGE_CONTENT' event: No active reasoning message found with ID '"@
                + id + "'. Start a reasoning message with 'REASONING_MESSAGE_START' first."@,
        ViolationV::ReasoningChunkNoActiveWithId { id } =>
            "Cannot send 'REASONING_MESSAGE_CHUNK' event: No active reasoning message found with ID '"@
                + id + "'. Start a reasoning message with 'REASONING_MESSAGE_START' first."@,
        ViolationV::ReasoningChunkNoActive =>
            "Cannot send 'REASONING_MESSAGE_CHUNK' event: No active reasoning message found. Start a reasoning message with 'REASONING_MESSAGE_START' first."@,
        ViolationV::ReasoningMessageEndNoActive { id } =>
            "Cannot send 'REASONING_MESSAGE_END' event: No active reasoning message found with ID '"@
                + id + "'. A 'REASONING_MESSAGE_START' event must be sent first."@,
        ViolationV::ReasoningEndStillOpen { id } =>
            "Cannot send 'REASONING_END' event: Reasoning message '"@ + id
                + "' is still in progress. Complete it with 'REASONING_MESSAGE_END' first."@,
        ViolationV::ReasoningEndNoSequence { id } =>
            "Cannot send 'REASONING_END' event: No active reasoning sequence found with ID '"@ + id
                + "'. A 'REASONING_START' event must be sent first."@,
        ViolationV::ThinkingStartWhileActive =>
            "Cannot send 'THINKING_START' event: A thinking step is already in progress. End it with 'THINKING_END' first."@,
        ViolationV::ThinkingMessageStartNoThinking =>
            "Cannot send 'THINKING_TEXT_MESSAGE_START' event: A thinking step is not in progress. Create one with 'THINKING_START' first."@,
        ViolationV::ThinkingMessageStartAlreadyActive =>
            "Cannot send 'THINKING_TEXT_MESSAGE_START' event: A thinking message is already in progress. Complete it with 'THINKING_TEXT_MESSAGE_END' first."@,
        ViolationV::ThinkingContentNoMessage =>
            "Cannot send 'THINKING_TEXT_MESSAGE_CONTENT' event: No active thinking message found. Start a message with 'THINKING_TEXT_MESSAGE_START' first."@,
        ViolationV::ThinkingMessageEndNoMessage =>
            "Cannot send 'THINKING_TEXT_MESSAGE_END' event: No active thinking message found. A 'THINKING_TEXT_MESSAGE_START' event must be sent first."@,
        ViolationV::ThinkingEndNoThinking =>
            "Cannot send 'THINKING_END' event: No active thinking step found. A 'THINKING_START' event must be sent first."@,
        ViolationV::ThinkingEndMessageOpen =>
            "Cannot send 'THINKING_END' event: A thinking message is still in progress. Complete it with 'THINKING_TEXT_MESSAGE_END' first."@,
        ViolationV::StepAlreadyActive { name } =>
            "Step \""@ + name + "\" is already active for 'STEP_STARTED'"@,
        ViolationV::StepNotStarted { name } =>
            "Cannot send 'STEP_FINISHED' for step \""@ + name + "\" that was not started"@,
    }
}

impl Violation {
    /// The message that reports the violation.
    pub fn message(&self) -> (r: String)
        ensures
            r@ == violation_text(self@),
    {
        match self {
            Violation::AfterRunError { event_type } => concat3(
                "Cannot send event type '",
                event_type.name(),
                "': The run has already errored with 'RUN_ERROR'. No further events can be sent.",
            ),
            Violation::AfterRunFinished { event_type } => concat3(
                "Cannot send event type '",
                event_type.name(),
                "': The run has already finished with 'RUN_FINISHED'. Start a new run with 'RUN_STARTED'.",
            ),
            Violation::FirstEventNotRunStarted => owned("First event must be 'RUN_STARTED'"),
            Violation::RunStartedWhileActive => owned(
                "Cannot send 'RUN_STARTED' while a run is still active. The previous run must be finished with 'RUN_FINISHED' before starting a new run.",
            ),
            Violation::StepsStillActive { steps } => {
                let joined = join_strings(steps, ", ");
                concat2(
                    "Cannot send 'RUN_FINISHED' while steps are still active: ",
                    joined.as_str(),
                )
            },
            Violation::TextMessageStillActive { id } => concat3(
                "Cannot send 'RUN_FINISHED' while text message '",
                id.as_str(),
                "' is still active",
            ),
            Violation::ToolCallStillActive { id } => concat3(
                "Cannot send 'RUN_FINISHED' while tool call '",
                id.as_str(),
                "' is still active",
            ),
            Violation::ReasoningStillActive { id } => concat3(
                "Cannot send 'RUN_FINISHED' while reasoning message '",
                id.as_str(),
                "' is still active",
            ),
            Violation::ThinkingMessageStillActive => owned(
                "Cannot send 'RUN_FINISHED' while a thinking message is still active",
            ),
            Violation::ThinkingStillActive => owned(
                "Cannot send 'RUN_FINISHED' while a thinking step is still active",
            ),
            Violation::TextStartWhileActive { active } => concat3(
                "Cannot send 'TEXT_MESSAGE_START' event: A text message with ID '",
                active.as_str(),
                "' is already in progress. Complete it with 'TEXT_MESSAGE_END' first.",
            ),
            Violation::TextContentNoActive { id } => concat3(
                "Cannot send 'TEXT_MESSAGE_CONTENT' event: No active text message found with ID '",
                id.as_str(),
                "'. Start a text message with 'TEXT_MESSAGE_START' first.",
            ),
            Violation::TextChunkIdMismatch { active } => concat3(
                "Cannot send 'TEXT_MESSAGE_CHUNK' event: The active text message ID is '",
                active.as_str(),
                "'.",
            ),
            Violation::TextChunkNoActiveWithId { id } => concat3(
                "Cannot send 'TEXT_MESSAGE_CHUNK' event: No active text message found with ID '",
                id.as_str(),
                "'. Start a text message with 'TEXT_MESSAGE_START' first.",
            ),
            Violation::TextChunkNoActive => owned(
                "Cannot send 'TEXT_MESSAGE_CHUNK' event: No active text message found. Start a text message with 'TEXT_MESSAGE_START' first.",
            ),
            Violation::TextEndNoActive { id } => concat3(
                "Cannot send 'TEXT_MESSAGE_END' event: No active text message found with ID '",
                id.as_str(),
                "'. A 'TEXT_MESSAGE_START' event must be sent first.",
            ),
            Violation::ToolStartWhileActive { active } => concat3(
                "Cannot send 'TOOL_CALL_START' event: A tool call with ID '",
                active.as_str(),
                "' is already in progress. Complete it with 'TOOL_CALL_END' first.",
            ),
            Violation::ToolStartParentMismatch { parent, active } => concat5(
                "Cannot send 'TOOL_CALL_START' event: Parent message ID '",
                parent.as_str(),
                "' must match the active text message ID '",
                active.as_str(),
                "'.",
            ),
            Violation::ToolStartParentNotActive { parent } => concat3(
                "Cannot send 'TOOL_CALL_START' event: Parent message ID '",
                parent.as_str(),
                "' does not reference an active text message. Start a text message with 'TEXT_MESSAGE_START' first.",
            ),
            Violation::ToolArgsNoActive { id } => concat3(
                "Cannot send 'TOOL_CALL_ARGS' event: No active tool call found with ID '",
                id.as_str(),
                "'. Start a tool call with 'TOOL_CALL_START' first.",
            ),
            Violation::ToolChunkNoActiveWithId { id } => concat3(
                "Cannot send 'TOOL_CALL_CHUNK' event: No active tool call found with ID '",
                id.as_str(),
                "'. Start a tool call with 'TOOL_CALL_START' first.",
            ),
            Violation::ToolChunkNoActive => owned(
                "Cannot send 'TOOL_CALL_CHUNK' event: No active tool call found. Start a tool call with 'TOOL_CALL_START' first.",
            ),
            Violation::ToolChunkParentMismatch { parent, active } => concat5(
                "Cannot send 'TOOL_CALL_CHUNK' event: Parent message ID '",
                parent.as_str(),
                "' must match the active tool call parent message ID '",
                active.as_str(),
                "'.",
            ),
            Violation::ToolChunkParentInvalid { parent } => concat3(
                "Cannot send 'TOOL_CALL_CHUNK' event: Parent message ID '",
                parent.as_str(),
                "' is not valid for the active tool call.",
            ),
            Violation::ToolEndNoActive { id } => concat3(
                "Cannot send 'TOOL_CALL_END' event: No active tool call found with ID '",
                id.as_str(),
                "'. A 'TOOL_CALL_START' event must be sent first.",
            ),
            Violation::ReasoningStartWhileActive { active } => concat3(
                "Cannot send 'REASONING_START' event: A reasoning message with ID '",
                active.as_str(),
                "' is already in progress. Complete it with 'REASONING_END' first.",
            ),
            Violation::ReasoningMessageStartAlreadyOpen { id } => concat3(
                "Cannot send 'REASONING_MESSAGE_START' event: Reasoning message '",
                id.as_str(),
                "' is already in progress. Complete it with 'REASONING_MESSAGE_END' first.",
            ),
            Violation::ReasoningMessageStartNoSequence { id } => concat3(
                "Cannot send 'REASONING_MESSAGE_START' event: No active reasoning sequence found with ID '",
                id.as_str(),
                "'. Start reasoning with 'REASONING_START' first.",
            ),
            Violation::ReasoningContentNoActive { id } => concat3(
                "Cannot send 'REASONING_MESSAGE_CONTENT' event: No active reasoning message found with ID '",
                id.as_str(),
                "'. Start a reasoning message with 'REASONING_MESSAGE_START' first.",
            ),
            Violation::ReasoningChunkNoActiveWithId { id } => concat3(
                "Cannot send 'REASONING_MESSAGE_CHUNK' event: No active reasoning message found with ID '",
                id.as_str(),
                "'. Start a reasoning message with 'REASONING_MESSAGE_START' first.",
            ),
            Violation::ReasoningChunkNoActive => owned(
                "Cannot send 'REASONING_MESSAGE_CHUNK' event: No active reasoning message found. Start a reasoning message with 'REASONING_MESSAGE_START' first.",
            ),
            Violation::ReasoningMessageEndNoActive { id } => concat3(
                "Cannot send 'REASONING_MESSAGE_END' event: No active reasoning message found with ID '",
                id.as_str(),
                "'. A 'REASONING_MESSAGE_START' event must be sent first.",
            ),
            Violation::ReasoningEndStillOpen { id } => concat3(
                "Cannot send 'REASONING_END' event: Reasoning message '",
                id.as_str(),
                "' is still in progress. Complete it with 'REASONING_MESSAGE_END' first.",
            ),
            Violation::ReasoningEndNoSequence { id } => concat3(
                "Cannot send 'REASONING_END' event: No active reasoning sequence found with ID '",
                id.as_str(),
                "'. A 'REASONING_START' event must be sent first.",
            ),
            Violation::ThinkingStartWhileActive => owned(
                "Cannot send 'THINKING_START' event: A thinking step is already in progress. End it with 'THINKING_END' first.",
            ),
            Violation::ThinkingMessageStartNoThinking => owned(
                "Cannot send 'THINKING_TEXT_MESSAGE_START' event: A thinking step is not in progress. Create one with 'THINKING_START' first.",
            ),
            Violation::ThinkingMessageStartAlreadyActive => owned(
                "Cannot send 'THINKING_TEXT_MESSAGE_START' event: A thinking message is already in progress. Complete it with 'THINKING_TEXT_MESSAGE_END' first.",
            ),
            Violation::ThinkingContentNoMessage => owned(
                "Cannot send 'THINKING_TEXT_MESSAGE_CONTENT' event: No active thinking message found. Start a message with 'THINKING_TEXT_MESSAGE_START' first.",
            ),
            Violation::ThinkingMessageEndNoMessage => owned(
                "Cannot send 'THINKING_TEXT_MESSAGE_END' event: No active thinking message found. A 'THINKING_TEXT_MESSAGE_START' event must be sent first.",
            ),
            Violation::ThinkingEndNoThinking => owned(
                "Cannot send 'THINKING_END' event: No active thinking step found. A 'THINKING_START' event must be sent first.",
            ),
            Violation::ThinkingEndMessageOpen => owned(
                "Cannot send 'THINKING_END' event: A thinking message is still in progress. Complete it with 'THINKING_TEXT_MESSAGE_END' first.",
            ),
            Violation::StepAlreadyActive { name } => concat3(
                "Step \"",
                name.as_str(),
                "\" is already active for 'STEP_STARTED'",
            ),
            Violation::StepNotStarted { name } => concat3(
                "Cannot send 'STEP_FINISHED' for step \"",
                name.as_str(),
                "\" that was not started",
            ),
        }
    }
}


/// The names are in strictly increasing order.
pub open spec fn sorted_names(s: Seq<Seq<char>>) -> bool {
    forall|i: int, j: int| 0 <= i < j < s.len() ==> str_lt(#[trigger] s[i], #[trigger] s[j])
}

/// Where `x` goes in the sorted list `s`: after every name before it.
pub open spec fn insert_pos(s: Seq<Seq<char>>, x: Seq<char>) -> nat
    decreases s.len(),
{
    if s.len() == 0 {
        0
    } else if str_lt(s[0], x) {
        1 + insert_pos(s.drop_first(), x)
    } else {
        0
    }
}

/// The sorted list `s` with `x` added in its place.
pub open spec fn sorted_insert(s: Seq<Seq<char>>, x: Seq<char>) -> Seq<Seq<char>> {
    s.insert(insert_pos(s, x) as int, x)
}

/// The index of the first occurrence of `x` in `s`.
pub open spec fn name_index(s: Seq<Seq<char>>, x: Seq<char>) -> nat
    decreases s.len(),
{
    if s.len() == 0 {
        0
    } else if s[0] == x {
        0
    } else {
        1 + name_index(s.drop_first(), x)
    }
}

/// `s` without `x`.
pub open spec fn remove_name(s: Seq<Seq<char>>, x: Seq<char>) -> Seq<Seq<char>> {
    s.remove(name_index(s, x) as int)
}

proof fn lemma_insert_pos(s: Seq<Seq<char>>, x: Seq<char>, i: int)
    requires
        0 <= i <= s.len(),
        forall|k: int| 0 <= k < i ==> str_lt(#[trigger] s[k], x),
        i == s.len() || !str_lt(s[i], x),
    ensures
        insert_pos(s, x) == i,
    decreases i,
{
    if i > 0 {
        assert forall|k: int| 0 <= k < i - 1 implies str_lt(#[trigger] s.drop_first()[k], x) by {
            assert(s.drop_first()[k] == s[k + 1]);
        }
        lemma_insert_pos(s.drop_first(), x, i - 1);
    }
}

proof fn lemma_name_index(s: Seq<Seq<char>>, x: Seq<char>, i: int)
    requires
        0 <= i < s.len(),
        forall|k: int| 0 <= k < i ==> #[trigger] s[k] != x,
        s[i] == x,
    ensures
        name_index(s, x) == i,
    decreases i,
{
    if i > 0 {
        assert forall|k: int| 0 <= k < i - 1 implies #[trigger] s.drop_first()[k] != x by {
            assert(s.drop_first()[k] == s[k + 1]);
        }
        lemma_name_index(s.drop_first(), x, i - 1);
    }
}

/// The state with nothing open: no text message, tool call, reasoning, thinking or step.
pub open spec fn cleared(s: VState) -> VState {
    VState {
        text: None,
        tool: None,
        tool_parent: None,
        reasoning: None,
        reasoning_open: false,
        thinking: false,
        thinking_message: false,
        steps: Seq::empty(),
        ..s
    }
}

/// The state in which a new run begins after a finished one. `run_errored` is kept.
pub open spec fn reset_run(s: VState) -> VState {
    VState { run_finished: false, run_started: true, ..cleared(s) }
}

/// The state before any event.
pub open spec fn initial_vstate() -> VState {
    VState {
        first_event_received: false,
        run_started: false,
        run_finished: false,
        text: None,
        tool: None,
        tool_parent: None,
        reasoning: None,
        reasoning_open: false,
        thinking: false,
        thinking_message: false,
        run_errored: false,
        steps: Seq::empty(),
    }
}

/// Whether the event is `RUN_STARTED`.
pub open spec fn is_run_started(e: &Event) -> bool {
    e is RunStarted
}

/// Whether the event is `RUN_ERROR`.
pub open spec fn is_run_error(e: &Event) -> bool {
    e is RunError
}

/// The checks made before the event's own rule: errored, finished, first event, restart.
pub open spec fn pre_checks(s: VState, e: &Event) -> (VState, Option<ViolationV>) {
    if s.run_errored {
        (s, Some(ViolationV::AfterRunError { event_type: e.spec_event_type() }))
    } else if s.run_finished && !is_run_error(e) && !is_run_started(e) {
        (s, Some(ViolationV::AfterRunFinished { event_type: e.spec_event_type() }))
    } else if !s.first_event_received {
        let s1 = VState { first_event_received: true, ..s };
        if !is_run_started(e) && !is_run_error(e) {
            (s1, Some(ViolationV::FirstEventNotRunStarted))
        } else {
            (s1, None)
        }
    } else if is_run_started(e) {
        if s.run_started && !s.run_finished {
            (s, Some(ViolationV::RunStartedWhileActive))
        } else if s.run_finished {
            (reset_run(s), None)
        } else {
            (s, None)
        }
    } else {
        (s, None)
    }
}

/// `RUN_FINISHED`: allowed only when no step, text message, tool call, reasoning or thinking
/// is open.
pub open spec fn finish_run_step(s: VState) -> (VState, Option<ViolationV>) {
    if s.steps.len() > 0 {
        (s, Some(ViolationV::StepsStillActive { steps: s.steps }))
    } else if s.text is Some {
        (s, Some(ViolationV::TextMessageStillActive { id: s.text->0 }))
    } else if s.tool is Some {
        (s, Some(ViolationV::ToolCallStillActive { id: s.tool->0 }))
    } else if s.reasoning is Some {
        (s, Some(ViolationV::ReasoningStillActive { id: s.reasoning->0 }))
    } else if s.thinking_message {
        (s, Some(ViolationV::ThinkingMessageStillActive))
    } else if s.thinking {
        (s, Some(ViolationV::ThinkingStillActive))
    } else {
        (VState { run_finished: true, ..s }, None)
    }
}

/// `TEXT_MESSAGE_CHUNK`: continues the active text message.
pub open spec fn text_chunk_step(s: VState, id: Option<Seq<char>>) -> Option<ViolationV> {
    match (s.text, id) {
        (Some(a), Some(m)) => if a == m {
            None
        } else {
            Some(ViolationV::TextChunkIdMismatch { active: a })
        },
        (Some(_), None) => None,
        (None, Some(m)) => Some(ViolationV::TextChunkNoActiveWithId { id: m }),
        (None, None) => Some(ViolationV::TextChunkNoActive),
    }
}

/// `TOOL_CALL_START`: opens a tool call, whose parent must be the active text message.
pub open spec fn tool_start_step(s: VState, id: Seq<char>, parent: Option<Seq<char>>) -> (
    VState,
    Option<ViolationV>,
) {
    if s.tool is Some {
        (s, Some(ViolationV::ToolStartWhileActive { active: s.tool->0 }))
    } else {
        match parent {
            Some(p) => match s.text {
                Some(a) => if a == p {
                    (VState { tool: Some(id), tool_parent: parent, ..s }, None)
                } else {
                    (s, Some(ViolationV::ToolStartParentMismatch { parent: p, active: a }))
                },
                None => (s, Some(ViolationV::ToolStartParentNotActive { parent: p })),
            },
            None => (VState { tool: Some(id), tool_parent: None, ..s }, None),
        }
    }
}

/// `TOOL_CALL_CHUNK`: continues the active tool call, under the same parent.
pub open spec fn tool_chunk_step(s: VState, id: Option<Seq<char>>, parent: Option<Seq<char>>) -> Option<
    ViolationV,
> {
    match (s.tool, id) {
        (Some(a), Some(i)) if a != i => Some(ViolationV::ToolChunkNoActiveWithId { id: i }),
        (None, Some(i)) => Some(ViolationV::ToolChunkNoActiveWithId { id: i }),
        (None, None) => Some(ViolationV::ToolChunkNoActive),
        _ => match parent {
            Some(p) => match s.tool_parent {
                Some(a) => if a == p {
                    None
                } else {
                    Some(ViolationV::ToolChunkParentMismatch { parent: p, active: a })
                },
                None => Some(ViolationV::ToolChunkParentInvalid { parent: p }),
            },
            None => None,
        },
    }
}

/// `REASONING_MESSAGE_CHUNK`: continues the open reasoning message.
pub open spec fn reasoning_chunk_step(s: VState, id: Option<Seq<char>>) -> Option<ViolationV> {
    match (s.reasoning, id) {
        (Some(a), Some(m)) if a == m && s.reasoning_open => None,
        (Some(_), None) if s.reasoning_open => None,
        (_, Some(m)) => Some(ViolationV::ReasoningChunkNoActiveWithId { id: m }),
        _ => Some(ViolationV::ReasoningChunkNoActive),
    }
}

/// Keeps the state when there is a violation.
pub open spec fn check_only(s: VState, v: Option<ViolationV>) -> (VState, Option<ViolationV>) {
    (s, v)
}

/// The event's own rule, once the checks before it have passed.
pub open spec fn dispatch(s: VState, e: &Event) -> (VState, Option<ViolationV>) {
    match e {
        Event::RunStarted(_) => (VState { run_started: true, ..s }, None),
        Event::RunFinished(_) => finish_run_step(s),
        Event::RunError(_) => (VState { run_errored: true, ..cleared(s) }, None),
        Event::TextMessageStart(ev) => match s.text {
            Some(a) => (s, Some(ViolationV::TextStartWhileActive { active: a })),
            None => (VState { text: Some(ev.message_id@), ..s }, None),
        },
        Event::TextMessageContent(ev) => if s.text == Some(ev.message_id@) {
            (s, None)
        } else {
            (s, Some(ViolationV::TextContentNoActive { id: ev.message_id@ }))
        },
        Event::TextMessageChunk(ev) => check_only(s, text_chunk_step(s, opt_str(ev.message_id))),
        Event::TextMessageEnd(ev) => if s.text == Some(ev.message_id@) {
            (VState { text: None, ..s }, None)
        } else {
            (s, Some(ViolationV::TextEndNoActive { id: ev.message_id@ }))
        },
        Event::ToolCallStart(ev) => tool_start_step(
            s,
            ev.tool_call_id@,
            opt_str(ev.parent_message_id),
        ),
        Event::ToolCallArgs(ev) => if s.tool == Some(ev.tool_call_id@) {
            (s, None)
        } else {
            (s, Some(ViolationV::ToolArgsNoActive { id: ev.tool_call_id@ }))
        },
        Event::ToolCallChunk(ev) => check_only(
            s,
            tool_chunk_step(s, opt_str(ev.tool_call_id), opt_str(ev.parent_message_id)),
        ),
        Event::ToolCallEnd(ev) => if s.tool == Some(ev.tool_call_id@) {
            (VState { tool: None, tool_parent: None, ..s }, None)
        } else {
            (s, Some(ViolationV::ToolEndNoActive { id: ev.tool_call_id@ }))
        },
        Event::ReasoningStart(ev) => match s.reasoning {
            Some(a) => (s, Some(ViolationV::ReasoningStartWhileActive { active: a })),
            None => (VState { reasoning: Some(ev.message_id@), reasoning_open: false, ..s }, None),
        },
        Event::ReasoningMessageStart(ev) => if s.reasoning == Some(ev.message_id@) {
            if s.reasoning_open {
                (s, Some(ViolationV::ReasoningMessageStartAlreadyOpen { id: ev.message_id@ }))
            } else {
                (VState { reasoning_open: true, ..s }, None)
            }
        } else {
            (s, Some(ViolationV::ReasoningMessageStartNoSequence { id: ev.message_id@ }))
        },
        Event::ReasoningMessageContent(ev) => if s.reasoning == Some(ev.message_id@)
            && s.reasoning_open {
            (s, None)
        } else {
            (s, Some(ViolationV::ReasoningContentNoActive { id: ev.message_id@ }))
        },
        Event::ReasoningMessageChunk(ev) => check_only(
            s,
            reasoning_chunk_step(s, opt_str(ev.message_id)),
        ),
        Event::ReasoningMessageEnd(ev) => if s.reasoning == Some(ev.message_id@)
            && s.reasoning_open {
            (VState { reasoning_open: false, ..s }, None)
        } else {
            (s, Some(ViolationV::ReasoningMessageEndNoActive { id: ev.message_id@ }))
        },
        Event::ReasoningEnd(ev) => if s.reasoning == Some(ev.message_id@) {
            if s.reasoning_open {
                (s, Some(ViolationV::ReasoningEndStillOpen { id: ev.message_id@ }))
            } else {
                (VState { reasoning: None, ..s }, None)
            }
        } else {
            (s, Some(ViolationV::ReasoningEndNoSequence { id: ev.message_id@ }))
        },
        Event::ThinkingStart(_) => if s.thinking {
            (s, Some(ViolationV::ThinkingStartWhileActive))
        } else {
            (VState { thinking: true, ..s }, None)
        },
        Event::ThinkingTextMessageStart(_) => if !s.thinking {
            (s, Some(ViolationV::ThinkingMessageStartNoThinking))
        } else if s.thinking_message {
            (s, Some(ViolationV::ThinkingMessageStartAlreadyActive))
        } else {
            (VState { thinking_message: true, ..s }, None)
        },
        Event::ThinkingTextMessageContent(_) => if !s.thinking_message {
            (s, Some(ViolationV::ThinkingContentNoMessage))
        } else {
            (s, None)
        },
        Event::ThinkingTextMessageEnd(_) => if !s.thinking_message {
            (s, Some(ViolationV::ThinkingMessageEndNoMessage))
        } else {
            (VState { thinking_message: false, ..s }, None)
        },
        Event::ThinkingEnd(_) => if !s.thinking {
            (s, Some(ViolationV::ThinkingEndNoThinking))
        } else if s.thinking_message {
            (s, Some(ViolationV::ThinkingEndMessageOpen))
        } else {
            (VState { thinking: false, ..s }, None)
        },
        Event::StepStarted(ev) => if s.steps.contains(ev.step_name@) {
            (s, Some(ViolationV::StepAlreadyActive { name: ev.step_name@ }))
        } else {
            (VState { steps: sorted_insert(s.steps, ev.step_name@), ..s }, None)
        },
        Event::StepFinished(ev) => if !s.steps.contains(ev.step_name@) {
            (s, Some(ViolationV::StepNotStarted { name: ev.step_name@ }))
        } else {
            (VState { steps: remove_name(s.steps, ev.step_name@), ..s }, None)
        },
        _ => (s, None),
    }
}

/// What one event does to the verifier's state, and the rule it breaks, if any.
pub open spec fn validate_step(s: VState, e: &Event) -> (VState, Option<ViolationV>) {
    let (s1, v) = pre_checks(s, e);
    if v is Some {
        (s1, v)
    } else {
        dispatch(s1, e)
    }
}

/// The violation of a handler's result.
pub open spec fn err_view(r: Result<(), Violation>) -> Option<ViolationV> {
    match r {
        Ok(_) => None,
        Err(v) => Some(v@),
    }
}


/// The verifier's state between events.
#[derive(Debug)]
pub struct VerifierState {
    first_event_received: bool,
    run_started: bool,
    run_finished: bool,
    active_text_message_id: Option<String>,
    active_tool_call_id: Option<String>,
    active_tool_call_parent_message_id: Option<String>,
    active_reasoning_message_id: Option<String>,
    active_reasoning_message_open: bool,
    active_thinking: bool,
    active_thinking_message: bool,
    run_errored: bool,
    active_step_names: Vec<String>,
}

impl View for VerifierState {
    type V = VState;

    closed spec fn view(&self) -> VState {
        VState {
            first_event_received: self.first_event_received,
            run_started: self.run_started,
            run_finished: self.run_finished,
            text: opt_str(self.active_text_message_id),
            tool: opt_str(self.active_tool_call_id),
            tool_parent: opt_str(self.active_tool_call_parent_message_id),
            reasoning: opt_str(self.active_reasoning_message_id),
            reasoning_open: self.active_reasoning_message_open,
            thinking: self.active_thinking,
            thinking_message: self.active_thinking_message,
            run_errored: self.run_errored,
            steps: strs_view(self.active_step_names@),
        }
    }
}

/// Clones an optional string slice into an owned one.
fn owned_opt(o: Option<&str>) -> (r: Option<String>)
    ensures
        opt_str(r) == match o {
            Some(s) => Some(s@),
            None => None::<Seq<char>>,
        },
{
    match o {
        Some(s) => Some(owned(s)),
        None => None,
    }
}

/// The view of an optional string slice.
pub open spec fn opt_slice(o: Option<&str>) -> Option<Seq<char>> {
    match o {
        Some(s) => Some(s@),
        None => None,
    }
}

/// Borrows the content of an optional string.
fn as_deref(o: &Option<String>) -> (r: Option<&str>)
    ensures
        opt_slice(r) == opt_str(*o),
{
    match o {
        Some(s) => Some(s.as_str()),
        None => None,
    }
}

/// Clones the content of an optional string that is present.
fn clone_some(o: &Option<String>) -> (r: String)
    requires
        o is Some,
    ensures
        r@ == opt_str(*o)->0,
{
    match o {
        Some(s) => s.clone(),
        None => String::new(),
    }
}

impl VerifierState {
    /// Whether the state is well formed: the active step names are sorted.
    pub closed spec fn wf(&self) -> bool {
        sorted_names(self@.steps)
    }

    /// The state before any event.
    pub fn new() -> (r: Self)
        ensures
            r@ == initial_vstate(),
            r.wf(),
    {
        let r = VerifierState {
            first_event_received: false,
            run_started: false,
            run_finished: false,
            active_text_message_id: None,
            active_tool_call_id: None,
            active_tool_call_parent_message_id: None,
            active_reasoning_message_id: None,
            active_reasoning_message_open: false,
            active_thinking: false,
            active_thinking_message: false,
            run_errored: false,
            active_step_names: Vec::new(),
        };
        assert(r@.steps =~= Seq::<Seq<char>>::empty());
        r
    }

    /// Clears everything that is open: text message, tool call, reasoning, thinking, steps.
    pub fn clear_active_state(&mut self)
        ensures
            final(self)@ == cleared(old(self)@),
            final(self).wf(),
    {
        self.active_text_message_id = None;
        self.active_tool_call_id = None;
        self.active_tool_call_parent_message_id = None;
        self.active_reasoning_message_id = None;
        self.active_reasoning_message_open = false;
        self.active_thinking = false;
        self.active_thinking_message = false;
        self.active_step_names = Vec::new();
        assert(self@.steps =~= Seq::<Seq<char>>::empty());
    }

    /// Begins a new run after a finished one; `run_errored` is kept, since a run error ends the
    /// whole stream.
    pub fn reset_run_state(&mut self)
        ensures
            final(self)@ == reset_run(old(self)@),
            final(self).wf(),
    {
        self.run_finished = false;
        self.run_started = true;
        self.clear_active_state();
    }

    fn pre_check(&mut self, event: &Event) -> (r: Result<(), Violation>)
        requires
            old(self).wf(),
        ensures
            (final(self)@, err_view(r)) == pre_checks(old(self)@, event),
            final(self).wf(),
    {
        if self.run_errored {
            return Err(Violation::AfterRunError { event_type: event.event_type() });
        }
        let is_error = match event {
            Event::RunError(_) => true,
            _ => false,
        };
        let is_started = match event {
            Event::RunStarted(_) => true,
            _ => false,
        };
        if self.run_finished && !is_error && !is_started {
            return Err(Violation::AfterRunFinished { event_type: event.event_type() });
        }
        if !self.first_event_received {
            self.first_event_received = true;
            if !is_started && !is_error {
                return Err(Violation::FirstEventNotRunStarted);
            }
        } else if is_started {
            if self.run_started && !self.run_finished {
                return Err(Violation::RunStartedWhileActive);
            }
            if self.run_finished {
                self.reset_run_state();
            }
        }
        Ok(())
    }

    /// `RUN_FINISHED`.
    pub fn finish_run(&mut self) -> (r: Result<(), Violation>)
        requires
            old(self).wf(),
        ensures
            (final(self)@, err_view(r)) == finish_run_step(old(self)@),
            final(self).wf(),
            r matches Err(Violation::StepsStillActive { steps }) ==> sorted_names(
                strs_view(steps@),
            ),
    {
        if self.active_step_names.len() > 0 {
            let steps = clone_strings(&self.active_step_names);
            return Err(Violation::StepsStillActive { steps });
        }
        if self.active_text_message_id.is_some() {
            return Err(
                Violation::TextMessageStillActive { id: clone_some(&self.active_text_message_id) },
            );
        }
        if self.active_tool_call_id.is_some() {
            return Err(Violation::ToolCallStillActive { id: clone_some(&self.active_tool_call_id) });
        }
        if self.active_reasoning_message_id.is_some() {
            return Err(
                Violation::ReasoningStillActive {
                    id: clone_some(&self.active_reasoning_message_id),
                },
            );
        }
        if self.active_thinking_message {
            return Err(Violation::ThinkingMessageStillActive);
        }
        if self.active_thinking {
            return Err(Violation::ThinkingStillActive);
        }
        self.run_finished = true;
        Ok(())
    }

    /// `TEXT_MESSAGE_START`.
    pub fn start_text_message(&mut self, message_id: &str) -> (r: Result<(), Violation>)
        requires
            old(self).wf(),
        ensures
            (final(self)@, err_view(r)) == (match old(self)@.text {
                Some(a) => (old(self)@, Some(ViolationV::TextStartWhileActive { active: a })),
                None => (VState { text: Some(message_id@), ..old(self)@ }, None),
            }),
            final(self).wf(),
    {
        if self.active_text_message_id.is_some() {
            return Err(
                Violation::TextStartWhileActive { active: clone_some(&self.active_text_message_id) },
            );
        }
        self.active_text_message_id = Some(owned(message_id));
        Ok(())
    }

    /// `TEXT_MESSAGE_CONTENT`.
    pub fn text_message_content(&self, message_id: &str) -> (r: Result<(), Violation>)
        ensures
            err_view(r) == if self@.text == Some(message_id@) {
                None
            } else {
                Some(ViolationV::TextContentNoActive { id: message_id@ })
            },
    {
        if opt_str_eq(&self.active_text_message_id, message_id) {
            Ok(())
        } else {
            Err(Violation::TextContentNoActive { id: owned(message_id) })
        }
    }

    /// `TEXT_MESSAGE_CHUNK`.
    pub fn text_message_chunk(&self, message_id: Option<&str>) -> (r: Result<(), Violation>)
        ensures
            err_view(r) == text_chunk_step(self@, opt_slice(message_id)),
    {
        match (as_deref(&self.active_text_message_id), message_id) {
            (Some(active), Some(message_id)) => {
                if str_eq(active, message_id) {
                    Ok(())
                } else {
                    Err(Violation::TextChunkIdMismatch { active: owned(active) })
                }
            },
            (Some(_), None) => Ok(()),
            (None, Some(message_id)) => Err(
                Violation::TextChunkNoActiveWithId { id: owned(message_id) },
            ),
            (None, None) => Err(Violation::TextChunkNoActive),
        }
    }

    /// `TEXT_MESSAGE_END`.
    pub fn end_text_message(&mut self, message_id: &str) -> (r: Result<(), Violation>)
        requires
            old(self).wf(),
        ensures
            (final(self)@, err_view(r)) == (if old(self)@.text == Some(message_id@) {
                (VState { text: None, ..old(self)@ }, None)
            } else {
                (old(self)@, Some(ViolationV::TextEndNoActive { id: message_id@ }))
            }),
            final(self).wf(),
    {
        if opt_str_eq(&self.active_text_message_id, message_id) {
            self.active_text_message_id = None;
            Ok(())
        } else {
            Err(Violation::TextEndNoActive { id: owned(message_id) })
        }
    }

    /// `TOOL_CALL_START`.
    pub fn start_tool_call(&mut self, tool_call_id: &str, parent_message_id: Option<&str>) -> (r:
        Result<(), Violation>)
        requires
            old(self).wf(),
        ensures
            (final(self)@, err_view(r)) == tool_start_step(
                old(self)@,
                tool_call_id@,
                opt_slice(parent_message_id),
            ),
            final(self).wf(),
    {
        if self.active_tool_call_id.is_some() {
            return Err(
                Violation::ToolStartWhileActive { active: clone_some(&self.active_tool_call_id) },
            );
        }
        if let Some(parent) = parent_message_id {
            match as_deref(&self.active_text_message_id) {
                Some(active) => {
                    if !str_eq(active, parent) {
                        return Err(
                            Violation::ToolStartParentMismatch {
                                parent: owned(parent),
                                active: owned(active),
                            },
                        );
                    }
                },
                None => {
                    return Err(Violation::ToolStartParentNotActive { parent: owned(parent) });
                },
            }
        }
        self.active_tool_call_id = Some(owned(tool_call_id));
        self.active_tool_call_parent_message_id = owned_opt(parent_message_id);
        Ok(())
    }

    /// `TOOL_CALL_ARGS`.
    pub fn tool_call_args(&self, tool_call_id: &str) -> (r: Result<(), Violation>)
        ensures
            err_view(r) == if self@.tool == Some(tool_call_id@) {
                None
            } else {
                Some(ViolationV::ToolArgsNoActive { id: tool_call_id@ })
            },
    {
        if opt_str_eq(&self.active_tool_call_id, tool_call_id) {
            Ok(())
        } else {
            Err(Violation::ToolArgsNoActive { id: owned(tool_call_id) })
        }
    }

    /// `TOOL_CALL_CHUNK`.
    pub fn tool_call_chunk(&self, tool_call_id: Option<&str>, parent_message_id: Option<&str>) -> (r:
        Result<(), Violation>)
        ensures
            err_view(r) == tool_chunk_step(
                self@,
                opt_slice(tool_call_id),
                opt_slice(parent_message_id),
            ),
    {
        match (as_deref(&self.active_tool_call_id), tool_call_id) {
            (Some(active), Some(id)) => {
                if !str_eq(active, id) {
                    return Err(Violation::ToolChunkNoActiveWithId { id: owned(id) });
                }
            },
            (None, Some(id)) => {
                return Err(Violation::ToolChunkNoActiveWithId { id: owned(id) });
            },
            (None, None) => {
                return Err(Violation::ToolChunkNoActive);
            },
            _ => {},
        }
        if let Some(parent) = parent_message_id {
            match as_deref(&self.active_tool_call_parent_message_id) {
                Some(active) => {
                    if !str_eq(active, parent) {
                        return Err(
                            Violation::ToolChunkParentMismatch {
                                parent: owned(parent),
                                active: owned(active),
                            },
                        );
                    }
                },
                None => {
                    return Err(Violation::ToolChunkParentInvalid { parent: owned(parent) });
                },
            }
        }
        Ok(())
    }

    /// `TOOL_CALL_END`.
    pub fn end_tool_call(&mut self, tool_call_id: &str) -> (r: Result<(), Violation>)
        requires
            old(self).wf(),
        ensures
            (final(self)@, err_view(r)) == (if old(self)@.tool == Some(tool_call_id@) {
                (VState { tool: None, tool_parent: None, ..old(self)@ }, None)
            } else {
                (old(self)@, Some(ViolationV::ToolEndNoActive { id: tool_call_id@ }))
            }),
            final(self).wf(),
    {
        if opt_str_eq(&self.active_tool_call_id, tool_call_id) {
            self.active_tool_call_id = None;
            self.active_tool_call_parent_message_id = None;
            Ok(())
        } else {
            Err(Violation::ToolEndNoActive { id: owned(tool_call_id) })
        }
    }

    /// `REASONING_START`.
    pub fn start_reasoning(&mut self, message_id: &str) -> (r: Result<(), Violation>)
        requires
            old(self).wf(),
        ensures
            (final(self)@, err_view(r)) == (match old(self)@.reasoning {
                Some(a) => (old(self)@, Some(ViolationV::ReasoningStartWhileActive { active: a })),
                None => (
                    VState { reasoning: Some(message_id@), reasoning_open: false, ..old(self)@ },
                    None,
                ),
            }),
            final(self).wf(),
    {
        if self.active_reasoning_message_id.is_some() {
            return Err(
                Violation::ReasoningStartWhileActive {
                    active: clone_some(&self.active_reasoning_message_id),
                },
            );
        }
        self.active_reasoning_message_id = Some(owned(message_id));
        self.active_reasoning_message_open = false;
        Ok(())
    }

    /// `REASONING_MESSAGE_START`.
    pub fn start_reasoning_message(&mut self, message_id: &str) -> (r: Result<(), Violation>)
        requires
            old(self).wf(),
        ensures
            (final(self)@, err_view(r)) == (if old(self)@.reasoning == Some(message_id@) {
                if old(self)@.reasoning_open {
                    (
                        old(self)@,
                        Some(ViolationV::ReasoningMessageStartAlreadyOpen { id: message_id@ }),
                    )
                } else {
                    (VState { reasoning_open: true, ..old(self)@ }, None)
                }
            } else {
                (old(self)@, Some(ViolationV::ReasoningMessageStartNoSequence { id: message_id@ }))
            }),
            final(self).wf(),
    {
        if opt_str_eq(&self.active_reasoning_message_id, message_id) {
            if self.active_reasoning_message_open {
                return Err(Violation::ReasoningMessageStartAlreadyOpen { id: owned(message_id) });
            }
            self.active_reasoning_message_open = true;
            Ok(())
        } else {
            Err(Violation::ReasoningMessageStartNoSequence { id: owned(message_id) })
        }
    }

    /// `REASONING_MESSAGE_CONTENT`.
    pub fn reasoning_content(&self, message_id: &str) -> (r: Result<(), Violation>)
        ensures
            err_view(r) == if self@.reasoning == Some(message_id@) && self@.reasoning_open {
                None
            } else {
                Some(ViolationV::ReasoningContentNoActive { id: message_id@ })
            },
    {
        if opt_str_eq(&self.active_reasoning_message_id, message_id)
            && self.active_reasoning_message_open {
            Ok(())
        } else {
            Err(Violation::ReasoningContentNoActive { id: owned(message_id) })
        }
    }

    /// `REASONING_MESSAGE_CHUNK`.
    pub fn reasoning_chunk(&self, message_id: Option<&str>) -> (r: Result<(), Violation>)
        ensures
            err_view(r) == reasoning_chunk_step(self@, opt_slice(message_id)),
    {
        match (as_deref(&self.active_reasoning_message_id), message_id) {
            (Some(active), Some(id)) => {
                if str_eq(active, id) && self.active_reasoning_message_open {
                    Ok(())
                } else {
                    Err(Violation::ReasoningChunkNoActiveWithId { id: owned(id) })
                }
            },
            (Some(_), None) => {
                if self.active_reasoning_message_open {
                    Ok(())
                } else {
                    Err(Violation::ReasoningChunkNoActive)
                }
            },
            (None, Some(id)) => Err(Violation::ReasoningChunkNoActiveWithId { id: owned(id) }),
            (None, None) => Err(Violation::ReasoningChunkNoActive),
        }
    }

    /// `REASONING_MESSAGE_END`.
    pub fn end_reasoning_message(&mut self, message_id: &str) -> (r: Result<(), Violation>)
        requires
            old(self).wf(),
        ensures
            (final(self)@, err_view(r)) == (if old(self)@.reasoning == Some(message_id@)
                && old(self)@.reasoning_open {
                (VState { reasoning_open: false, ..old(self)@ }, None)
            } else {
                (old(self)@, Some(ViolationV::ReasoningMessageEndNoActive { id: message_id@ }))
            }),
            final(self).wf(),
    {
        if opt_str_eq(&self.active_reasoning_message_id, message_id)
            && self.active_reasoning_message_open {
            self.active_reasoning_message_open = false;
            Ok(())
        } else {
            Err(Violation::ReasoningMessageEndNoActive { id: owned(message_id) })
        }
    }

    /// `REASONING_END`.
    pub fn end_reasoning(&mut self, message_id: &str) -> (r: Result<(), Violation>)
        requires
            old(self).wf(),
        ensures
            (final(self)@, err_view(r)) == (if old(self)@.reasoning == Some(message_id@) {
                if old(self)@.reasoning_open {
                    (old(self)@, Some(ViolationV::ReasoningEndStillOpen { id: message_id@ }))
                } else {
                    (VState { reasoning: None, ..old(self)@ }, None)
                }
            } else {
                (old(self)@, Some(ViolationV::ReasoningEndNoSequence { id: message_id@ }))
            }),
            final(self).wf(),
    {
        if opt_str_eq(&self.active_reasoning_message_id, message_id) {
            if self.active_reasoning_message_open {
                return Err(Violation::ReasoningEndStillOpen { id: owned(message_id) });
            }
            self.active_reasoning_message_id = None;
            Ok(())
        } else {
            Err(Violation::ReasoningEndNoSequence { id: owned(message_id) })
        }
    }

    /// `THINKING_START`.
    pub fn start_thinking(&mut self) -> (r: Result<(), Violation>)
        requires
            old(self).wf(),
        ensures
            (final(self)@, err_view(r)) == (if old(self)@.thinking {
                (old(self)@, Some(ViolationV::ThinkingStartWhileActive))
            } else {
                (VState { thinking: true, ..old(self)@ }, None)
            }),
            final(self).wf(),
    {
        if self.active_thinking {
            return Err(Violation::ThinkingStartWhileActive);
        }
        self.active_thinking = true;
        Ok(())
    }

    /// `THINKING_TEXT_MESSAGE_START`.
    pub fn start_thinking_message(&mut self) -> (r: Result<(), Violation>)
        requires
            old(self).wf(),
        ensures
            (final(self)@, err_view(r)) == (if !old(self)@.thinking {
                (old(self)@, Some(ViolationV::ThinkingMessageStartNoThinking))
            } else if old(self)@.thinking_message {
                (old(self)@, Some(ViolationV::ThinkingMessageStartAlreadyActive))
            } else {
                (VState { thinking_message: true, ..old(self)@ }, None)
            }),
            final(self).wf(),
    {
        if !self.active_thinking {
            return Err(Violation::ThinkingMessageStartNoThinking);
        }
        if self.active_thinking_message {
            return Err(Violation::ThinkingMessageStartAlreadyActive);
        }
        self.active_thinking_message = true;
        Ok(())
    }

    /// `THINKING_TEXT_MESSAGE_CONTENT`.
    pub fn thinking_message_content(&self) -> (r: Result<(), Violation>)
        ensures
            err_view(r) == if !self@.thinking_message {
                Some(ViolationV::ThinkingContentNoMessage)
            } else {
                None
            },
    {
        if !self.active_thinking_message {
            return Err(Violation::ThinkingContentNoMessage);
        }
        Ok(())
    }

    /// `THINKING_TEXT_MESSAGE_END`.
    pub fn end_thinking_message(&mut self) -> (r: Result<(), Violation>)
        requires
            old(self).wf(),
        ensures
            (final(self)@, err_view(r)) == (if !old(self)@.thinking_message {
                (old(self)@, Some(ViolationV::ThinkingMessageEndNoMessage))
            } else {
                (VState { thinking_message: false, ..old(self)@ }, None)
            }),
            final(self).wf(),
    {
        if !self.active_thinking_message {
            return Err(Violation::ThinkingMessageEndNoMessage);
        }
        self.active_thinking_message = false;
        Ok(())
    }

    /// `THINKING_END`.
    pub fn end_thinking(&mut self) -> (r: Result<(), Violation>)
        requires
            old(self).wf(),
        ensures
            (final(self)@, err_view(r)) == (if !old(self)@.thinking {
                (old(self)@, Some(ViolationV::ThinkingEndNoThinking))
            } else if old(self)@.thinking_message {
                (old(self)@, Some(ViolationV::ThinkingEndMessageOpen))
            } else {
                (VState { thinking: false, ..old(self)@ }, None)
            }),
            final(self).wf(),
    {
        if !self.active_thinking {
            return Err(Violation::ThinkingEndNoThinking);
        }
        if self.active_thinking_message {
            return Err(Violation::ThinkingEndMessageOpen);
        }
        self.active_thinking = false;
        Ok(())
    }

    /// `STEP_STARTED`: a step name may be active once at a time.
    pub fn start_step(&mut self, step_name: &str) -> (r: Result<(), Violation>)
        requires
            old(self).wf(),
        ensures
            (final(self)@, err_view(r)) == (if old(self)@.steps.contains(step_name@) {
                (old(self)@, Some(ViolationV::StepAlreadyActive { name: step_name@ }))
            } else {
                (VState { steps: sorted_insert(old(self)@.steps, step_name@), ..old(self)@ }, None)
            }),
            final(self).wf(),
    {
        let ghost s = old(self)@.steps;
        let n = self.active_step_names.len();
        let mut i: usize = 0;
        let mut done = false;
        while i < n && !done
            invariant
                n == self.active_step_names@.len(),
                s == strs_view(self.active_step_names@),
                s == old(self)@.steps,
                self@ == old(self)@,
                sorted_names(s),
                i <= n,
                done ==> i < n && !str_lt(s[i as int], step_name@),
                forall|k: int| 0 <= k < i ==> str_lt(#[trigger] s[k], step_name@),
            decreases n - i + (if done { 0int } else { 1int }),
        {
            assert(s[i as int] == self.active_step_names@[i as int]@);
            if str_eq(self.active_step_names[i].as_str(), step_name) {
                proof {
                    assert(s[i as int] == step_name@);
                }
                return Err(Violation::StepAlreadyActive { name: owned(step_name) });
            }
            if str_less(self.active_step_names[i].as_str(), step_name) {
                i += 1;
            } else {
                done = true;
            }
        }
        proof {
            lemma_insert_pos(s, step_name@, i as int);
        }
        if i < n && str_eq(self.active_step_names[i].as_str(), step_name) {
            return Err(Violation::StepAlreadyActive { name: owned(step_name) });
        }
        proof {
            // The name is absent: smaller names come before `i`, larger ones from `i` on.
            assert forall|k: int| 0 <= k < s.len() implies s[k] != step_name@ by {
                if k < i {
                    lemma_str_lt_asym(s[k], step_name@);
                } else {
                    if k > i {
                        assert(str_lt(s[i as int], s[k]));
                        if s[k] == step_name@ {
                            lemma_str_lt_total(s[i as int], step_name@);
                            lemma_str_lt_asym(s[i as int], step_name@);
                        }
                    }
                }
            }
        }
        self.active_step_names.insert(i, owned(step_name));
        proof {
            let t = strs_view(self.active_step_names@);
            assert(t =~= s.insert(i as int, step_name@));
            if i < n {
                lemma_str_lt_total(s[i as int], step_name@);
            }
            assert forall|a: int, b: int| 0 <= a < b < t.len() implies str_lt(
                #[trigger] t[a],
                #[trigger] t[b],
            ) by {
                if b < i {
                } else if b == i {
                } else if a < i {
                    // t[a] < name < s[i] <= t[b]
                    if b - 1 > i {
                        lemma_str_lt_trans(step_name@, s[i as int], s[b - 1]);
                    }
                    lemma_str_lt_trans(s[a], step_name@, s[b - 1]);
                } else if a == i {
                    if b - 1 > i {
                        lemma_str_lt_trans(step_name@, s[i as int], s[b - 1]);
                    }
                } else {
                }
            }
            assert(!s.contains(step_name@));
        }
        Ok(())
    }

    /// `STEP_FINISHED`: the step must be active.
    pub fn finish_step(&mut self, step_name: &str) -> (r: Result<(), Violation>)
        requires
            old(self).wf(),
        ensures
            (final(self)@, err_view(r)) == (if !old(self)@.steps.contains(step_name@) {
                (old(self)@, Some(ViolationV::StepNotStarted { name: step_name@ }))
            } else {
                (VState { steps: remove_name(old(self)@.steps, step_name@), ..old(self)@ }, None)
            }),
            final(self).wf(),
    {
        let ghost s = old(self)@.steps;
        let n = self.active_step_names.len();
        let mut i: usize = 0;
        while i < n
            invariant
                n == self.active_step_names@.len(),
                s == strs_view(self.active_step_names@),
                s == old(self)@.steps,
                self@ == old(self)@,
                sorted_names(s),
                i <= n,
                forall|k: int| 0 <= k < i ==> #[trigger] s[k] != step_name@,
            decreases n - i,
        {
            assert(s[i as int] == self.active_step_names@[i as int]@);
            if str_eq(self.active_step_names[i].as_str(), step_name) {
                proof {
                    lemma_name_index(s, step_name@, i as int);
                }
                self.active_step_names.remove(i);
                proof {
                    let t = strs_view(self.active_step_names@);
                    assert(t =~= s.remove(i as int));
                    assert(s.contains(step_name@));
                    assert forall|a: int, b: int| 0 <= a < b < t.len() implies str_lt(
                        #[trigger] t[a],
                        #[trigger] t[b],
                    ) by {
                        if a >= i {
                            assert(str_lt(s[a + 1], s[b + 1]));
                        } else if b >= i {
                            assert(str_lt(s[a], s[b + 1]));
                        }
                    }
                }
                return Ok(());
            }
            i += 1;
        }
        proof {
            assert(!s.contains(step_name@));
        }
        Err(Violation::StepNotStarted { name: owned(step_name) })
    }

    /// Checks one event against the protocol's rules and records what it opens or closes.
    pub fn check_event(&mut self, event: &Event) -> (r: Result<(), Violation>)
        requires
            old(self).wf(),
        ensures
            (final(self)@, err_view(r)) == validate_step(old(self)@, event),
            final(self).wf(),
    {
        match self.pre_check(event) {
            Ok(()) => {},
            Err(v) => {
                return Err(v);
            },
        }
        match event {
            Event::RunStarted(_) => {
                self.run_started = true;
                Ok(())
            },
            Event::RunFinished(_) => self.finish_run(),
            Event::RunError(_) => {
                self.run_errored = true;
                self.clear_active_state();
                Ok(())
            },
            Event::TextMessageStart(ev) => self.start_text_message(ev.message_id.as_str()),
            Event::TextMessageContent(ev) => self.text_message_content(ev.message_id.as_str()),
            Event::TextMessageChunk(ev) => self.text_message_chunk(as_deref(&ev.message_id)),
            Event::TextMessageEnd(ev) => self.end_text_message(ev.message_id.as_str()),
            Event::ToolCallStart(ev) => self.start_tool_call(
                ev.tool_call_id.as_str(),
                as_deref(&ev.parent_message_id),
            ),
            Event::ToolCallArgs(ev) => self.tool_call_args(ev.tool_call_id.as_str()),
            Event::ToolCallChunk(ev) => self.tool_call_chunk(
                as_deref(&ev.tool_call_id),
                as_deref(&ev.parent_message_id),
            ),
            Event::ToolCallEnd(ev) => self.end_tool_call(ev.tool_call_id.as_str()),
            Event::ReasoningStart(ev) => self.start_reasoning(ev.message_id.as_str()),
            Event::ReasoningMessageStart(ev) => self.start_reasoning_message(
                ev.message_id.as_str(),
            ),
            Event::ReasoningMessageContent(ev) => self.reasoning_content(ev.message_id.as_str()),
            Event::ReasoningMessageChunk(ev) => self.reasoning_chunk(as_deref(&ev.message_id)),
            Event::ReasoningMessageEnd(ev) => self.end_reasoning_message(ev.message_id.as_str()),
            Event::ReasoningEnd(ev) => self.end_reasoning(ev.message_id.as_str()),
            Event::ThinkingStart(_) => self.start_thinking(),
            Event::ThinkingTextMessageStart(_) => self.start_thinking_message(),
            Event::ThinkingTextMessageContent(_) => self.thinking_message_content(),
            Event::ThinkingTextMessageEnd(_) => self.end_thinking_message(),
            Event::ThinkingEnd(_) => self.end_thinking(),
            Event::StepStarted(ev) => self.start_step(ev.step_name.as_str()),
            Event::StepFinished(ev) => self.finish_step(ev.step_name.as_str()),
            _ => Ok(()),
        }
    }

    /// Checks one event, reporting a broken rule as a validation error whose message
    /// `violation_text` gives.
    pub fn validate_event(&mut self, event: &Event) -> (r: Result<(), AgUiError>)
        requires
            old(self).wf(),
        ensures
            final(self)@ == validate_step(old(self)@, event).0,
            final(self).wf(),
            r is Ok <==> validate_step(old(self)@, event).1 is None,
            validate_step(old(self)@, event).1 matches Some(v) ==> r matches Err(
                AgUiError::Validation(m),
            ) && m@ == violation_text(v),
            validate_step(old(self)@, event).1 matches Some(ViolationV::StepsStillActive { steps })
                ==> sorted_names(steps),
    {
        match self.check_event(event) {
            Ok(()) => Ok(()),
            Err(v) => Err(AgUiError::Validation(v.message())),
        }
    }
}

/// How the verifier treats one item of the stream.
pub enum Verdict {
    /// The event keeps the rules and is passed on.
    Pass,
    /// The item is an upstream error, passed on; the stream ends.
    Upstream,
    /// The event breaks a rule, reported in its place; the stream ends.
    Broke(ViolationV),
}

/// What the verifier makes of each item of the stream, from state `s`: it stops after the
/// first error, its own or upstream.
pub open spec fn verdicts(s: VState, items: Seq<Result<Event, AgUiError>>) -> Seq<Verdict>
    decreases items.len(),
{
    if items.len() == 0 {
        Seq::empty()
    } else {
        match items[0] {
            Err(_) => seq![Verdict::Upstream],
            Ok(e) => {
                let (s1, v) = validate_step(s, &e);
                match v {
                    Some(v) => seq![Verdict::Broke(v)],
                    None => seq![Verdict::Pass] + verdicts(s1, items.drop_first()),
                }
            },
        }
    }
}

/// The verifier's state after the items that pass, from state `s`.
pub open spec fn state_after(s: VState, items: Seq<Result<Event, AgUiError>>) -> VState
    decreases items.len(),
{
    if items.len() == 0 {
        s
    } else {
        match items[0] {
            Err(_) => s,
            Ok(e) => {
                let (s1, v) = validate_step(s, &e);
                match v {
                    Some(_) => s1,
                    None => state_after(s1, items.drop_first()),
                }
            },
        }
    }
}

/// The item that stands at position `i` of the output, given the verdict on it.
pub open spec fn output_matches(
    out: Result<Event, AgUiError>,
    item: Result<Event, AgUiError>,
    v: Verdict,
) -> bool {
    match v {
        Verdict::Pass => out == item,
        Verdict::Upstream => out == item,
        Verdict::Broke(b) => out matches Err(AgUiError::Validation(m)) && m@ == violation_text(b),
    }
}

proof fn lemma_verdicts_step(s: VState, items: Seq<Result<Event, AgUiError>>, i: int)
    requires
        0 <= i < items.len(),
        verdicts(s, items).len() > i,
        forall|k: int| 0 <= k < i ==> #[trigger] verdicts(s, items)[k] is Pass,
    ensures
        items[i] is Ok ==> {
            let (s1, v) = validate_step(state_after(s, items.take(i)), &items[i]->Ok_0);
            &&& verdicts(s, items)[i] == match v {
                Some(b) => Verdict::Broke(b),
                None => Verdict::Pass,
            }
            &&& (v is None ==> state_after(s, items.take(i + 1)) == s1)
            &&& (v is Some ==> verdicts(s, items).len() == i + 1)
        },
        items[i] is Err ==> verdicts(s, items)[i] is Upstream && verdicts(s, items).len() == i + 1,
    decreases i,
{
    if i == 0 {
        assert(items.take(0) =~= Seq::<Result<Event, AgUiError>>::empty());
        assert(state_after(s, items.take(0)) == s);
        if items[0] is Ok {
            let e = items[0]->Ok_0;
            let (s1, v) = validate_step(s, &e);
            if v is None {
                let t = items.take(1);
                assert(t.drop_first() =~= Seq::<Result<Event, AgUiError>>::empty());
                assert(t[0] == items[0]);
                assert(state_after(s1, t.drop_first()) == s1);
                assert(state_after(s, t) == s1);
                assert(verdicts(s, items) == seq![Verdict::Pass] + verdicts(s1, items.drop_first()));
            } else {
                assert(verdicts(s, items) == seq![Verdict::Broke(v->0)]);
            }
        }
    } else {
        assert(verdicts(s, items)[0] is Pass);
        assert(items[0] is Ok);
        let e = items[0]->Ok_0;
        let (s1, v) = validate_step(s, &e);
        assert(v is None);
        let rest = items.drop_first();
        assert(verdicts(s, items) == seq![Verdict::Pass] + verdicts(s1, rest));
        assert forall|k: int| 0 <= k < i - 1 implies #[trigger] verdicts(s1, rest)[k] is Pass by {
            assert(verdicts(s, items)[k + 1] is Pass);
        }
        lemma_verdicts_step(s1, rest, i - 1);
        assert(items.take(i).drop_first() =~= rest.take(i - 1));
        assert(items.take(i + 1).drop_first() =~= rest.take(i));
        assert(items.take(i)[0] == items[0]);
        assert(items.take(i + 1)[0] == items[0]);
        assert(state_after(s, items.take(i)) == state_after(s1, rest.take(i - 1)));
        assert(state_after(s, items.take(i + 1)) == state_after(s1, rest.take(i)));
        assert(rest[i - 1] == items[i]);
        assert(verdicts(s, items)[i] == verdicts(s1, rest)[i - 1]);
    }
}

/// Checks a run's events in order. Each event that keeps the rules is passed on; the first
/// that breaks one is replaced by a validation error and ends the output; an upstream error is
/// passed on and ends the output.
pub fn verify_events(items: Vec<Result<Event, AgUiError>>) -> (r: Vec<Result<Event, AgUiError>>)
    ensures
        r@.len() == verdicts(initial_vstate(), items@).len(),
        forall|i: int|
            0 <= i < r@.len() ==> output_matches(
                #[trigger] r@[i],
                items@[i],
                verdicts(initial_vstate(), items@)[i],
            ),
{
    let ghost orig = items@;
    let ghost s0 = initial_vstate();
    let mut state = VerifierState::new();
    let mut out: Vec<Result<Event, AgUiError>> = Vec::new();
    for item in it: items.into_iter()
        invariant
            it.seq() == orig,
            orig == items@,
            s0 == initial_vstate(),
            state.wf(),
            out@.len() == it.index(),
            it.index() <= verdicts(s0, orig).len(),
            state@ == state_after(s0, orig.take(it.index() as int)),
            forall|k: int| 0 <= k < it.index() ==> #[trigger] verdicts(s0, orig)[k] is Pass,
            forall|k: int|
                0 <= k < out@.len() ==> output_matches(
                    #[trigger] out@[k],
                    orig[k],
                    verdicts(s0, orig)[k],
                ),
    {
        let ghost i = it.index() as int;
        proof {
            lemma_verdicts_len_ge(s0, orig, i);
            lemma_verdicts_step(s0, orig, i);
        }
        assert(item == orig[i]);
        match item {
            Err(e) => {
                out.push(Err(e));
                return out;
            },
            Ok(event) => {
                match state.validate_event(&event) {
                    Err(e) => {
                        out.push(Err(e));
                        return out;
                    },
                    Ok(()) => {
                        out.push(Ok(event));
                    },
                }
            },
        }
    }
    proof {
        lemma_verdicts_len_le(s0, orig);
    }
    out
}

proof fn lemma_verdicts_len_le(s: VState, items: Seq<Result<Event, AgUiError>>)
    ensures
        verdicts(s, items).len() <= items.len(),
    decreases items.len(),
{
    if items.len() > 0 {
        if let Ok(e) = items[0] {
            let (s1, v) = validate_step(s, &e);
            if v is None {
                lemma_verdicts_len_le(s1, items.drop_first());
            }
        }
    }
}

proof fn lemma_verdicts_len_ge(s: VState, items: Seq<Result<Event, AgUiError>>, i: int)
    requires
        0 <= i < items.len(),
        i <= verdicts(s, items).len(),
        forall|k: int| 0 <= k < i ==> #[trigger] verdicts(s, items)[k] is Pass,
    ensures
        verdicts(s, items).len() > i,
    decreases i,
{
    if i > 0 {
        if let Ok(e) = items[0] {
            let (s1, v) = validate_step(s, &e);
            assert(verdicts(s, items)[0] is Pass);
            if v is None {
                assert forall|k: int| 0 <= k < i - 1 implies #[trigger] verdicts(
                    s1,
                    items.drop_first(),
                )[k] is Pass by {
                    assert(verdicts(s, items)[k + 1] is Pass);
                }
                lemma_verdicts_len_ge(s1, items.drop_first(), i - 1);
            }
        }
    }
}


/// A run's stream must begin with `RUN_STARTED` or `RUN_ERROR`: the first event is rejected
/// exactly when it is neither.
pub proof fn law_first_event_starts_or_fails_run(e: Event)
    ensures
        (validate_step(initial_vstate(), &e).1 is Some) <==> !(e is RunStarted || e is RunError),
        !(e is RunStarted || e is RunError) ==> validate_step(initial_vstate(), &e).1 == Some(
            ViolationV::FirstEventNotRunStarted,
        ),
{
}

/// `RUN_ERROR` ends the stream for good: once a run has errored, every event is rejected.
pub proof fn law_run_error_is_terminal(s: VState, e: Event)
    requires
        s.run_errored,
    ensures
        validate_step(s, &e).1 == Some(ViolationV::AfterRunError { event_type: e.spec_event_type() }),
        validate_step(s, &e).0 == s,
{
}

/// After `RUN_FINISHED` only `RUN_STARTED` (a new run) or `RUN_ERROR` is accepted; anything
/// else is rejected.
pub proof fn law_after_run_finished(s: VState, e: Event)
    requires
        s.run_finished,
        !s.run_errored,
    ensures
        !(e is RunStarted || e is RunError) ==> validate_step(s, &e).1 == Some(
            ViolationV::AfterRunFinished { event_type: e.spec_event_type() },
        ),
        e is RunError && s.first_event_received ==> validate_step(s, &e).1 is None
            && validate_step(s, &e).0.run_errored,
        e is RunStarted && s.first_event_received ==> validate_step(s, &e).1 is None
            && !validate_step(s, &e).0.run_finished,
{
}

/// `RUN_FINISHED` is accepted only when no step, text message, tool call, reasoning or
/// thinking is open.
pub proof fn law_run_finished_needs_nothing_open(s: VState, e: Event)
    requires
        e is RunFinished,
        validate_step(s, &e).1 is None,
    ensures
        s.steps.len() == 0,
        s.text is None,
        s.tool is None,
        s.reasoning is None,
        !s.thinking,
        !s.thinking_message,
        validate_step(s, &e).0.run_finished,
{
}

/// The verifier's output stops at its first error: every verdict but the last passes.
pub proof fn law_verdicts_stop_at_first_error(s: VState, items: Seq<Result<Event, AgUiError>>)
    ensures
        forall|i: int| 0 <= i < verdicts(s, items).len() - 1 ==> #[trigger] verdicts(s, items)[i]
            == Verdict::Pass,
    decreases items.len(),
{
    if items.len() > 0 {
        match items[0] {
            Err(_) => {},
            Ok(e) => {
                let (s1, v) = validate_step(s, &e);
                if v is None {
                    law_verdicts_stop_at_first_error(s1, items.drop_first());
                    let rest = verdicts(s1, items.drop_first());
                    assert forall|i: int| 0 <= i < verdicts(s, items).len() - 1 implies #[trigger] verdicts(
                        s,
                        items,
                    )[i] == Verdict::Pass by {
                        if i > 0 {
                            assert(verdicts(s, items)[i] == rest[i - 1]);
                        }
                    }
                }
            },
        }
    }
}


/// `TEXT_MESSAGE_END` closes exactly the open text message: it is accepted only when it names
/// the open text message, which it then closes. Inside a run (the first event seen, no error,
/// not finished), an end that names anything else, or that comes when no text message is open,
/// is rejected as naming no active text message, and the state stays as it was.
pub proof fn law_text_end_needs_the_open_message(s: VState, ev: crate::events::TextMessageEndEvent)
    ensures
        validate_step(s, &Event::TextMessageEnd(ev)).1 is None ==> s.text == Some(ev.message_id@)
            && validate_step(s, &Event::TextMessageEnd(ev)).0.text is None,
        s.first_event_received && !s.run_errored && !s.run_finished && s.text != Some(
            ev.message_id@,
        ) ==> validate_step(s, &Event::TextMessageEnd(ev)) == (
            s,
            Some::<ViolationV>(ViolationV::TextEndNoActive { id: ev.message_id@ }),
        ),
        s.first_event_received && !s.run_errored && !s.run_finished && s.text == Some(
            ev.message_id@,
        ) ==> validate_step(s, &Event::TextMessageEnd(ev)) == (
            VState { text: None, ..s },
            None::<ViolationV>,
        ),
{
}


/// Content and end events must name what is open: a text message's content is accepted only for
/// the open text message; a tool call's arguments or end only for the open tool call, whose end
/// closes it; a reasoning message's content or end only for the open reasoning message. A text
/// message or a tool call starts only when none is open, and the one started is then open.
pub proof fn law_events_name_the_open_item(s: VState, e: Event)
    ensures
        e matches Event::TextMessageContent(ev) ==> (validate_step(s, &e).1 is None ==> s.text
            == Some(ev.message_id@)),
        e matches Event::TextMessageStart(ev) ==> (validate_step(s, &e).1 is None ==> s.text is None && validate_step(s, &e).0.text == Some(ev.message_id@)),
        e matches Event::ToolCallArgs(ev) ==> (validate_step(s, &e).1 is None ==> s.tool == Some(
            ev.tool_call_id@,
        )),
        e matches Event::ToolCallEnd(ev) ==> (validate_step(s, &e).1 is None ==> s.tool == Some(
            ev.tool_call_id@,
        ) && validate_step(s, &e).0.tool is None),
        e matches Event::ToolCallStart(ev) ==> (validate_step(s, &e).1 is None ==> s.tool is None && validate_step(s, &e).0.tool == Some(ev.tool_call_id@)),
        e matches Event::ReasoningMessageContent(ev) ==> (validate_step(s, &e).1 is None ==> s.reasoning
            == Some(ev.message_id@) && s.reasoning_open),
        e matches Event::ReasoningMessageEnd(ev) ==> (validate_step(s, &e).1 is None ==> s.reasoning
            == Some(ev.message_id@) && s.reasoning_open && !validate_step(s, &e).0.reasoning_open),
{
}

} // verus!

//! What an agent declares that it supports, by category. Every field is optional: an
//! agent declares only what it supports, and a missing field means "not declared", not
//! "unsupported".
use vstd::prelude::*;
use crate::types::Tool;

verus! {

/// A sub-agent that a multi-agent system can delegate to.
#[derive(Debug, Clone, Default, PartialEq)]
pub struct SubAgentInfo {
    pub name: String,
    pub description: Option<String>,
}

/// Who the agent is.
#[derive(Debug, Clone, Default, PartialEq)]
pub struct IdentityCapabilities {
    pub name: Option<String>,
    pub kind: Option<String>,
    pub description: Option<String>,
    pub version: Option<String>,
    pub provider: Option<String>,
    pub documentation_url: Option<String>,
    pub metadata: Option<serde_json::Map<String, serde_json::Value>>,
}

/// How the agent streams its events.
#[derive(Debug, Clone, Default, PartialEq)]
pub struct TransportCapabilities {
    pub streaming: Option<bool>,
    pub websocket: Option<bool>,
    pub http_binary: Option<bool>,
    pub push_notifications: Option<bool>,
    pub resumable: Option<bool>,
}

/// The agent's use of tools.
#[derive(Debug, Clone, Default, PartialEq)]
pub struct ToolsCapabilities {
    pub supported: Option<bool>,
    pub items: Option<Vec<Tool>>,
    pub parallel_calls: Option<bool>,
    pub client_provided: Option<bool>,
}

/// The output the agent can produce.
#[derive(Debug, Clone, Default, PartialEq)]
pub struct OutputCapabilities {
    pub structured_output: Option<bool>,
    pub supported_mime_types: Option<Vec<String>>,
}

/// How the agent handles shared state.
#[derive(Debug, Clone, Default, PartialEq)]
pub struct StateCapabilities {
    pub snapshots: Option<bool>,
    pub deltas: Option<bool>,
    pub memory: Option<bool>,
    pub persistent_state: Option<bool>,
}

/// Coordination with other agents.
#[derive(Debug, Clone, Default, PartialEq)]
pub struct MultiAgentCapabilities {
    pub supported: Option<bool>,
    pub delegation: Option<bool>,
    pub handoffs: Option<bool>,
    pub sub_agents: Option<Vec<SubAgentInfo>>,
}

/// Reasoning and thinking.
#[derive(Debug, Clone, Default, PartialEq)]
pub struct ReasoningCapabilities {
    pub supported: Option<bool>,
    pub streaming: Option<bool>,
    pub encrypted: Option<bool>,
}

/// The kinds of multimodal input the agent accepts.
#[derive(Debug, Clone, Default, PartialEq)]
pub struct MultimodalInputCapabilities {
    pub image: Option<bool>,
    pub audio: Option<bool>,
    pub video: Option<bool>,
    pub pdf: Option<bool>,
    pub file: Option<bool>,
}

/// The kinds of multimodal output the agent produces.
#[derive(Debug, Clone, Default, PartialEq)]
pub struct MultimodalOutputCapabilities {
    pub image: Option<bool>,
    pub audio: Option<bool>,
}

/// Multimodal input and output.
#[derive(Debug, Clone, Default, PartialEq)]
pub struct MultimodalCapabilities {
    pub input: Option<MultimodalInputCapabilities>,
    pub output: Option<MultimodalOutputCapabilities>,
}

/// Human-in-the-loop interaction.
#[derive(Debug, Clone, Default, PartialEq)]
pub struct HumanInTheLoopCapabilities {
    pub supported: Option<bool>,
    pub approvals: Option<bool>,
    pub interventions: Option<bool>,
    pub feedback: Option<bool>,
    pub interrupts: Option<bool>,
    pub approve_with_edits: Option<bool>,
}

} // verus!

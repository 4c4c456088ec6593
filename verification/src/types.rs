//! Domain types of the protocol: messages, tool calls, multimodal input, run input.
use vstd::prelude::*;

verus! {

/// A whole JSON document holding the agent's state.
pub type State = serde_json::Value;

/// The view of an optional string.
pub open spec fn opt_str(o: Option<String>) -> Option<Seq<char>> {
    match o {
        Some(s) => Some(s@),
        None => None,
    }
}

/// Clones an optional string.
pub fn clone_opt_string(o: &Option<String>) -> (r: Option<String>)
    ensures
        r == *o,
{
    match o {
        Some(s) => Some(s.clone()),
        None => None,
    }
}

/// Clones an optional JSON value.
pub fn clone_opt_value(o: &Option<serde_json::Value>) -> (r: Option<serde_json::Value>)
    ensures
        r == *o,
{
    match o {
        Some(v) => Some(v.clone()),
        None => None,
    }
}

/// Clones an optional JSON object.
pub fn clone_opt_map(o: &Option<serde_json::Map<String, serde_json::Value>>) -> (r: Option<
    serde_json::Map<String, serde_json::Value>,
>)
    ensures
        r == *o,
{
    match o {
        Some(m) => Some(m.clone()),
        None => None,
    }
}

/// The role of a text message.
#[derive(Debug, Clone, Copy, PartialEq, Eq, Structural)]
pub enum TextMessageRole {
    Developer,
    System,
    Assistant,
    User,
}

impl TextMessageRole {
    /// The role a text message has when none is given: `Assistant`.
    pub fn default_role() -> (r: Self)
        ensures
            r == TextMessageRole::Assistant,
    {
        TextMessageRole::Assistant
    }
}

/// The roles of the protocol's messages.
#[derive(Debug, Clone, Copy, PartialEq, Eq, Structural)]
pub enum Role {
    Developer,
    System,
    Assistant,
    User,
    Tool,
    Activity,
    Reasoning,
}

/// The kind of a tool call: always a function call.
#[derive(Debug, Clone, Copy, PartialEq, Eq, Structural)]
pub enum ToolCallKind {
    Function,
}

/// The function a tool call invokes, with its JSON-encoded arguments.
#[derive(Debug, PartialEq)]
pub struct FunctionCall {
    pub name: String,
    pub arguments: String,
}

/// A tool call made by an assistant message.
#[derive(Debug, PartialEq)]
pub struct ToolCall {
    pub id: String,
    pub kind: ToolCallKind,
    pub function: FunctionCall,
    pub encrypted_value: Option<String>,
}

impl Clone for FunctionCall {
    fn clone(&self) -> (r: Self)
        ensures
            r == *self,
    {
        FunctionCall { name: self.name.clone(), arguments: self.arguments.clone() }
    }
}

impl Clone for ToolCall {
    fn clone(&self) -> (r: Self)
        ensures
            r == *self,
    {
        ToolCall {
            id: self.id.clone(),
            kind: self.kind,
            function: self.function.clone(),
            encrypted_value: clone_opt_string(&self.encrypted_value),
        }
    }
}

/// Where the bytes of a multimodal input part come from.
#[derive(Debug, PartialEq)]
pub enum InputContentSource {
    Data { value: String, mime_type: String },
    Url { value: String, mime_type: Option<String> },
}

impl Clone for InputContentSource {
    fn clone(&self) -> (r: Self)
        ensures
            r == *self,
    {
        match self {
            InputContentSource::Data { value, mime_type } => InputContentSource::Data {
                value: value.clone(),
                mime_type: mime_type.clone(),
            },
            InputContentSource::Url { value, mime_type } => InputContentSource::Url {
                value: value.clone(),
                mime_type: clone_opt_string(mime_type),
            },
        }
    }
}

/// The legacy binary input part.
#[derive(Debug, PartialEq)]
pub struct BinaryInputContent {
    pub mime_type: String,
    pub id: Option<String>,
    pub url: Option<String>,
    pub data: Option<String>,
    pub filename: Option<String>,
}

impl Clone for BinaryInputContent {
    fn clone(&self) -> (r: Self)
        ensures
            r == *self,
    {
        BinaryInputContent {
            mime_type: self.mime_type.clone(),
            id: clone_opt_string(&self.id),
            url: clone_opt_string(&self.url),
            data: clone_opt_string(&self.data),
            filename: clone_opt_string(&self.filename),
        }
    }
}

/// One part of a multimodal user message.
#[derive(Debug, PartialEq)]
pub enum InputContent {
    Text { text: String },
    Image { source: InputContentSource, metadata: Option<serde_json::Value> },
    Audio { source: InputContentSource, metadata: Option<serde_json::Value> },
    Video { source: InputContentSource, metadata: Option<serde_json::Value> },
    Document { source: InputContentSource, metadata: Option<serde_json::Value> },
    Binary { content: BinaryInputContent },
}

impl Clone for InputContent {
    fn clone(&self) -> (r: Self)
        ensures
            r == *self,
    {
        match self {
            InputContent::Text { text } => InputContent::Text { text: text.clone() },
            InputContent::Image { source, metadata } => InputContent::Image {
                source: source.clone(),
                metadata: clone_opt_value(metadata),
            },
            InputContent::Audio { source, metadata } => InputContent::Audio {
                source: source.clone(),
                metadata: clone_opt_value(metadata),
            },
            InputContent::Video { source, metadata } => InputContent::Video {
                source: source.clone(),
                metadata: clone_opt_value(metadata),
            },
            InputContent::Document { source, metadata } => InputContent::Document {
                source: source.clone(),
                metadata: clone_opt_value(metadata),
            },
            InputContent::Binary { content } => InputContent::Binary { content: content.clone() },
        }
    }
}

/// The content of a user message: plain text or a list of parts.
#[derive(Debug, PartialEq)]
pub enum UserMessageContent {
    Text(String),
    Parts(Vec<InputContent>),
}

/// A developer message.
#[derive(Debug, PartialEq)]
pub struct DeveloperMessage {
    pub id: String,
    pub content: String,
    pub name: Option<String>,
    pub encrypted_value: Option<String>,
}

/// A system message.
#[derive(Debug, PartialEq)]
pub struct SystemMessage {
    pub id: String,
    pub content: String,
    pub name: Option<String>,
    pub encrypted_value: Option<String>,
}

/// An assistant message, possibly carrying tool calls.
#[derive(Debug, PartialEq)]
pub struct AssistantMessage {
    pub id: String,
    pub content: Option<String>,
    pub name: Option<String>,
    pub tool_calls: Option<Vec<ToolCall>>,
    pub encrypted_value: Option<String>,
}

/// A user message.
#[derive(Debug, PartialEq)]
pub struct UserMessage {
    pub id: String,
    pub content: UserMessageContent,
    pub name: Option<String>,
    pub encrypted_value: Option<String>,
}

/// The result of a tool call, as a message.
#[derive(Debug, PartialEq)]
pub struct ToolMessage {
    pub id: String,
    pub content: String,
    pub tool_call_id: String,
    pub error: Option<String>,
    pub encrypted_value: Option<String>,
}

/// A client-side activity message whose content is a JSON object.
#[derive(Debug, PartialEq)]
pub struct ActivityMessage {
    pub id: String,
    pub activity_type: String,
    pub content: serde_json::Map<String, serde_json::Value>,
}

/// A reasoning message.
#[derive(Debug, PartialEq)]
pub struct ReasoningMessage {
    pub id: String,
    pub content: String,
    pub encrypted_value: Option<String>,
}

/// A message of the conversation.
#[derive(Debug, PartialEq)]
pub enum Message {
    Developer(DeveloperMessage),
    System(SystemMessage),
    Assistant(AssistantMessage),
    User(UserMessage),
    Tool(ToolMessage),
    Activity(ActivityMessage),
    Reasoning(ReasoningMessage),
}

/// The view of a tool call: its strings as character sequences.
pub struct ToolCallV {
    pub id: Seq<char>,
    pub kind: ToolCallKind,
    pub name: Seq<char>,
    pub arguments: Seq<char>,
    pub encrypted_value: Option<Seq<char>>,
}

impl View for ToolCall {
    type V = ToolCallV;

    open spec fn view(&self) -> ToolCallV {
        ToolCallV {
            id: self.id@,
            kind: self.kind,
            name: self.function.name@,
            arguments: self.function.arguments@,
            encrypted_value: opt_str(self.encrypted_value),
        }
    }
}

/// The view of a user message's content.
pub enum UserContentV {
    Text(Seq<char>),
    Parts(Seq<InputContent>),
}

/// The view of a message: its strings as character sequences, its lists as sequences.
pub enum MessageV {
    Developer {
        id: Seq<char>,
        content: Seq<char>,
        name: Option<Seq<char>>,
        encrypted_value: Option<Seq<char>>,
    },
    System {
        id: Seq<char>,
        content: Seq<char>,
        name: Option<Seq<char>>,
        encrypted_value: Option<Seq<char>>,
    },
    Assistant {
        id: Seq<char>,
        content: Option<Seq<char>>,
        name: Option<Seq<char>>,
        tool_calls: Option<Seq<ToolCallV>>,
        encrypted_value: Option<Seq<char>>,
    },
    User {
        id: Seq<char>,
        content: UserContentV,
        name: Option<Seq<char>>,
        encrypted_value: Option<Seq<char>>,
    },
    Tool {
        id: Seq<char>,
        content: Seq<char>,
        tool_call_id: Seq<char>,
        error: Option<Seq<char>>,
        encrypted_value: Option<Seq<char>>,
    },
    Activity {
        id: Seq<char>,
        activity_type: Seq<char>,
        content: serde_json::Map<String, serde_json::Value>,
    },
    Reasoning { id: Seq<char>, content: Seq<char>, encrypted_value: Option<Seq<char>> },
}

/// The view of a list of tool calls.
pub open spec fn tool_calls_view(v: Seq<ToolCall>) -> Seq<ToolCallV> {
    v.map_values(|t: ToolCall| t@)
}

impl View for Message {
    type V = MessageV;

    open spec fn view(&self) -> MessageV {
        match self {
            Message::Developer(m) => MessageV::Developer {
                id: m.id@,
                content: m.content@,
                name: opt_str(m.name),
                encrypted_value: opt_str(m.encrypted_value),
            },
            Message::System(m) => MessageV::System {
                id: m.id@,
                content: m.content@,
                name: opt_str(m.name),
                encrypted_value: opt_str(m.encrypted_value),
            },
            Message::Assistant(m) => MessageV::Assistant {
                id: m.id@,
                content: opt_str(m.content),
                name: opt_str(m.name),
                tool_calls: match m.tool_calls {
                    Some(tcs) => Some(tool_calls_view(tcs@)),
                    None => None,
                },
                encrypted_value: opt_str(m.encrypted_value),
            },
            Message::User(m) => MessageV::User {
                id: m.id@,
                content: match m.content {
                    UserMessageContent::Text(t) => UserContentV::Text(t@),
                    UserMessageContent::Parts(p) => UserContentV::Parts(p@),
                },
                name: opt_str(m.name),
                encrypted_value: opt_str(m.encrypted_value),
            },
            Message::Tool(m) => MessageV::Tool {
                id: m.id@,
                content: m.content@,
                tool_call_id: m.tool_call_id@,
                error: opt_str(m.error),
                encrypted_value: opt_str(m.encrypted_value),
            },
            Message::Activity(m) => MessageV::Activity {
                id: m.id@,
                activity_type: m.activity_type@,
                content: m.content,
            },
            Message::Reasoning(m) => MessageV::Reasoning {
                id: m.id@,
                content: m.content@,
                encrypted_value: opt_str(m.encrypted_value),
            },
        }
    }
}

impl MessageV {
    /// The message's id.
    pub open spec fn id(self) -> Seq<char> {
        match self {
            MessageV::Developer { id, .. } => id,
            MessageV::System { id, .. } => id,
            MessageV::Assistant { id, .. } => id,
            MessageV::User { id, .. } => id,
            MessageV::Tool { id, .. } => id,
            MessageV::Activity { id, .. } => id,
            MessageV::Reasoning { id, .. } => id,
        }
    }
}

/// The view of a list of messages.
pub open spec fn messages_view(v: Seq<Message>) -> Seq<MessageV> {
    v.map_values(|m: Message| m@)
}

/// Clones a list of tool calls.
pub fn clone_tool_calls(v: &Vec<ToolCall>) -> (r: Vec<ToolCall>)
    ensures
        r@ == v@,
{
    let mut r: Vec<ToolCall> = Vec::new();
    let mut i: usize = 0;
    while i < v.len()
        invariant
            i <= v.len(),
            r@ == v@.take(i as int),
        decreases v.len() - i,
    {
        r.push(v[i].clone());
        i += 1;
    }
    assert(v@.take(v.len() as int) =~= v@);
    r
}

/// Clones a list of input parts.
pub fn clone_parts(v: &Vec<InputContent>) -> (r: Vec<InputContent>)
    ensures
        r@ == v@,
{
    let mut r: Vec<InputContent> = Vec::new();
    let mut i: usize = 0;
    while i < v.len()
        invariant
            i <= v.len(),
            r@ == v@.take(i as int),
        decreases v.len() - i,
    {
        r.push(v[i].clone());
        i += 1;
    }
    assert(v@.take(v.len() as int) =~= v@);
    r
}

impl Clone for UserMessageContent {
    fn clone(&self) -> (r: Self)
        ensures
            match (self, r) {
                (UserMessageContent::Text(a), UserMessageContent::Text(b)) => a == b,
                (UserMessageContent::Parts(a), UserMessageContent::Parts(b)) => a@ == b@,
                _ => false,
            },
    {
        match self {
            UserMessageContent::Text(t) => UserMessageContent::Text(t.clone()),
            UserMessageContent::Parts(p) => UserMessageContent::Parts(clone_parts(p)),
        }
    }
}

impl Clone for Message {
    fn clone(&self) -> (r: Self)
        ensures
            r@ == self@,
    {
        match self {
            Message::Developer(m) => Message::Developer(DeveloperMessage {
                id: m.id.clone(),
                content: m.content.clone(),
                name: clone_opt_string(&m.name),
                encrypted_value: clone_opt_string(&m.encrypted_value),
            }),
            Message::System(m) => Message::System(SystemMessage {
                id: m.id.clone(),
                content: m.content.clone(),
                name: clone_opt_string(&m.name),
                encrypted_value: clone_opt_string(&m.encrypted_value),
            }),
            Message::Assistant(m) => {
                let tool_calls = match &m.tool_calls {
                    Some(tcs) => Some(clone_tool_calls(tcs)),
                    None => None,
                };
                Message::Assistant(AssistantMessage {
                    id: m.id.clone(),
                    content: clone_opt_string(&m.content),
                    name: clone_opt_string(&m.name),
                    tool_calls,
                    encrypted_value: clone_opt_string(&m.encrypted_value),
                })
            },
            Message::User(m) => Message::User(UserMessage {
                id: m.id.clone(),
                content: m.content.clone(),
                name: clone_opt_string(&m.name),
                encrypted_value: clone_opt_string(&m.encrypted_value),
            }),
            Message::Tool(m) => Message::Tool(ToolMessage {
                id: m.id.clone(),
                content: m.content.clone(),
                tool_call_id: m.tool_call_id.clone(),
                error: clone_opt_string(&m.error),
                encrypted_value: clone_opt_string(&m.encrypted_value),
            }),
            Message::Activity(m) => Message::Activity(ActivityMessage {
                id: m.id.clone(),
                activity_type: m.activity_type.clone(),
                content: m.content.clone(),
            }),
            Message::Reasoning(m) => Message::Reasoning(ReasoningMessage {
                id: m.id.clone(),
                content: m.content.clone(),
                encrypted_value: clone_opt_string(&m.encrypted_value),
            }),
        }
    }
}

impl Message {
    /// The message's id.
    pub fn id(&self) -> (r: &str)
        ensures
            r@ == self@.id(),
    {
        match self {
            Message::Developer(m) => m.id.as_str(),
            Message::System(m) => m.id.as_str(),
            Message::Assistant(m) => m.id.as_str(),
            Message::User(m) => m.id.as_str(),
            Message::Tool(m) => m.id.as_str(),
            Message::Activity(m) => m.id.as_str(),
            Message::Reasoning(m) => m.id.as_str(),
        }
    }
}

/// Clones a list of messages.
pub fn clone_messages(v: &Vec<Message>) -> (r: Vec<Message>)
    ensures
        messages_view(r@) == messages_view(v@),
{
    let mut r: Vec<Message> = Vec::new();
    let mut i: usize = 0;
    while i < v.len()
        invariant
            i <= v.len(),
            r@.len() == i,
            forall|j: int| 0 <= j < i ==> (#[trigger] r@[j])@ == v@[j]@,
        decreases v.len() - i,
    {
        let m = v[i].clone();
        r.push(m);
        i += 1;
    }
    assert(messages_view(r@) =~= messages_view(v@));
    r
}

/// A tool the agent may call.
#[derive(Debug, Clone, PartialEq)]
pub struct Tool {
    pub name: String,
    pub description: String,
    pub parameters: serde_json::Value,
}

/// A piece of context handed to the agent.
#[derive(Debug, Clone, PartialEq)]
pub struct Context {
    pub description: String,
    pub value: String,
}

/// A request by the agent for human input before it goes on.
#[derive(Debug, PartialEq)]
pub struct Interrupt {
    pub id: String,
    pub reason: String,
    pub message: Option<String>,
    pub tool_call_id: Option<String>,
    pub response_schema: Option<serde_json::Map<String, serde_json::Value>>,
    pub expires_at: Option<String>,
    pub metadata: Option<serde_json::Map<String, serde_json::Value>>,
}

impl Clone for Interrupt {
    fn clone(&self) -> (r: Self)
        ensures
            r == *self,
    {
        Interrupt {
            id: self.id.clone(),
            reason: self.reason.clone(),
            message: clone_opt_string(&self.message),
            tool_call_id: clone_opt_string(&self.tool_call_id),
            response_schema: clone_opt_map(&self.response_schema),
            expires_at: clone_opt_string(&self.expires_at),
            metadata: clone_opt_map(&self.metadata),
        }
    }
}

/// How an interrupt was answered.
#[derive(Debug, Clone, Copy, PartialEq, Eq, Structural)]
pub enum ResumeStatus {
    Resolved,
    Cancelled,
}

/// The answer to one interrupt, sent with the next run.
#[derive(Debug, Clone, PartialEq)]
pub struct ResumeEntry {
    pub interrupt_id: String,
    pub status: ResumeStatus,
    pub payload: Option<serde_json::Value>,
}

/// The input of one agent run.
#[derive(Debug, Clone, PartialEq)]
pub struct RunAgentInput {
    pub thread_id: String,
    pub run_id: String,
    pub parent_run_id: Option<String>,
    pub state: State,
    pub messages: Vec<Message>,
    pub tools: Vec<Tool>,
    pub context: Vec<Context>,
    pub forwarded_props: serde_json::Value,
    pub resume: Option<Vec<ResumeEntry>>,
}

} // verus!

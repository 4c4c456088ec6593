//! Folds events into the list of messages and the state.
use crate::error::AgUiError;
use crate::events::{
    ActivityDeltaEvent, ActivitySnapshotEvent, Event, ReasoningEncryptedValueSubtype,
    ToolCallStartEvent,
};
use crate::json::{
    apply_json_patch, json_array, json_array_from_vec, json_object, json_object_from_map,
    parse_json_patch, patch_error_text,
};
use crate::text::{concat2, concat3, owned, str_eq};
use crate::types::{
    clone_messages, messages_view, opt_str, tool_calls_view, ActivityMessage, AssistantMessage,
    DeveloperMessage, FunctionCall, Message, MessageV, ReasoningMessage, State, SystemMessage,
    TextMessageRole, ToolCall, ToolCallKind, ToolCallV, ToolMessage, UserContentV, UserMessage,
    UserMessageContent,
};
use vstd::prelude::*;

verus! {

/// The messages and the state that events are folded into.
#[derive(Debug, Clone, PartialEq)]
pub struct ApplyState {
    pub messages: Vec<Message>,
    pub state: State,
}

/// The name of a message's role.
pub open spec fn role_text(m: MessageV) -> Seq<char> {
    match m {
        MessageV::Developer { .. } => "developer"@,
        MessageV::System { .. } => "system"@,
        MessageV::Assistant { .. } => "assistant"@,
        MessageV::User { .. } => "user"@,
        MessageV::Tool { .. } => "tool"@,
        MessageV::Activity { .. } => "activity"@,
        MessageV::Reasoning { .. } => "reasoning"@,
    }
}

/// The name of a message's role.
pub fn role_name(message: &Message) -> (r: &'static str)
    ensures
        r@ == role_text(message@),
{
    match message {
        Message::Developer(_) => "developer",
        Message::System(_) => "system",
        Message::Assistant(_) => "assistant",
        Message::User(_) => "user",
        Message::Tool(_) => "tool",
        Message::Activity(_) => "activity",
        Message::Reasoning(_) => "reasoning",
    }
}

/// Why an event cannot be folded into the messages.
pub enum ApplyFailure {
    MessageNotFound { id: Seq<char> },
    MultipartUser,
    CannotAppendText { role: Seq<char> },
    ReasoningNotFound { id: Seq<char> },
    CannotAppendReasoning { role: Seq<char> },
    ToolCallNotFound { id: Seq<char> },
    ActivityNoEncrypted,
}

/// The message of the error for an apply failure.
pub open spec fn failure_text(f: ApplyFailure) -> Seq<char> {
    match f {
        ApplyFailure::MessageNotFound { id } => "message '"@ + id + "' not found"@,
        ApplyFailure::MultipartUser => "cannot append text delta to multipart user message"@,
        ApplyFailure::CannotAppendText { role } => "cannot append text content to '"@ + role
            + "' message"@,
        ApplyFailure::ReasoningNotFound { id } => "reasoning message '"@ + id + "' not found"@,
        ApplyFailure::CannotAppendReasoning { role } => "cannot append reasoning content to '"@
            + role + "' message"@,
        ApplyFailure::ToolCallNotFound { id } => "tool call '"@ + id + "' not found"@,
        ApplyFailure::ActivityNoEncrypted => "activity messages do not support encrypted values"@,
    }
}

/// The error is the validation error that reports `f`.
pub open spec fn is_failure(e: AgUiError, f: ApplyFailure) -> bool {
    e matches AgUiError::Validation(m) && m@ == failure_text(f)
}

/// The index of the first message with id `id`, from index `k` on.
pub open spec fn find_from(ms: Seq<MessageV>, id: Seq<char>, k: int) -> Option<int>
    decreases ms.len() - k,
{
    if k < 0 || k >= ms.len() {
        None
    } else if ms[k].id() == id {
        Some(k)
    } else {
        find_from(ms, id, k + 1)
    }
}

/// The index of the first message with id `id`.
pub open spec fn find_msg(ms: Seq<MessageV>, id: Seq<char>) -> Option<int> {
    find_from(ms, id, 0)
}

proof fn lemma_find_from_bounds(ms: Seq<MessageV>, id: Seq<char>, k: int)
    ensures
        find_from(ms, id, k) matches Some(i) ==> k <= i < ms.len() && ms[i].id() == id,
    decreases ms.len() - k,
{
    if 0 <= k < ms.len() && ms[k].id() != id {
        lemma_find_from_bounds(ms, id, k + 1);
    }
}

/// The index of the first message with id `id`.
pub fn find_message_index(messages: &Vec<Message>, id: &str) -> (r: Option<usize>)
    ensures
        match r {
            Some(i) => find_msg(messages_view(messages@), id@) == Some(i as int),
            None => find_msg(messages_view(messages@), id@) is None,
        },
        r matches Some(i) ==> i < messages@.len() && messages@[i as int]@.id() == id@,
{
    let ghost ms = messages_view(messages@);
    let mut i: usize = 0;
    while i < messages.len()
        invariant
            ms == messages_view(messages@),
            i <= messages@.len(),
            find_msg(ms, id@) == find_from(ms, id@, i as int),
        decreases messages.len() - i,
    {
        assert(ms[i as int] == messages@[i as int]@);
        if str_eq(messages[i].id(), id) {
            return Some(i);
        }
        i += 1;
    }
    None
}

/// Whether some message has id `id`.
pub open spec fn has_msg(ms: Seq<MessageV>, id: Seq<char>) -> bool {
    find_msg(ms, id) is Some
}

/// The message a `TEXT_MESSAGE_START` creates: empty content of the given role.
pub open spec fn new_text_v(id: Seq<char>, role: TextMessageRole, name: Option<Seq<char>>) -> MessageV {
    match role {
        TextMessageRole::Developer => MessageV::Developer {
            id,
            content: Seq::empty(),
            name,
            encrypted_value: None,
        },
        TextMessageRole::System => MessageV::System {
            id,
            content: Seq::empty(),
            name,
            encrypted_value: None,
        },
        TextMessageRole::Assistant => MessageV::Assistant {
            id,
            content: Some(Seq::empty()),
            name,
            tool_calls: None,
            encrypted_value: None,
        },
        TextMessageRole::User => MessageV::User {
            id,
            content: UserContentV::Text(Seq::empty()),
            name,
            encrypted_value: None,
        },
    }
}

/// Builds the message a `TEXT_MESSAGE_START` creates.
pub fn new_text_message(message_id: &str, role: TextMessageRole, name: Option<String>) -> (r: Message)
    ensures
        r@ == new_text_v(message_id@, role, opt_str(name)),
{
    match role {
        TextMessageRole::Developer => Message::Developer(
            DeveloperMessage {
                id: owned(message_id),
                content: String::new(),
                name,
                encrypted_value: None,
            },
        ),
        TextMessageRole::System => Message::System(
            SystemMessage {
                id: owned(message_id),
                content: String::new(),
                name,
                encrypted_value: None,
            },
        ),
        TextMessageRole::Assistant => Message::Assistant(
            AssistantMessage {
                id: owned(message_id),
                content: Some(String::new()),
                name,
                tool_calls: None,
                encrypted_value: None,
            },
        ),
        TextMessageRole::User => Message::User(
            UserMessage {
                id: owned(message_id),
                content: UserMessageContent::Text(String::new()),
                name,
                encrypted_value: None,
            },
        ),
    }
}

/// A message with `d` appended to its text content.
pub open spec fn append_text_v(m: MessageV, d: Seq<char>) -> Result<MessageV, ApplyFailure> {
    match m {
        MessageV::Developer { id, content, name, encrypted_value } => Ok(
            MessageV::Developer { id, content: content + d, name, encrypted_value },
        ),
        MessageV::System { id, content, name, encrypted_value } => Ok(
            MessageV::System { id, content: content + d, name, encrypted_value },
        ),
        MessageV::Assistant { id, content, name, tool_calls, encrypted_value } => Ok(
            MessageV::Assistant {
                id,
                content: Some(
                    match content {
                        Some(c) => c,
                        None => Seq::empty(),
                    } + d,
                ),
                name,
                tool_calls,
                encrypted_value,
            },
        ),
        MessageV::User { id, content, name, encrypted_value } => match content {
            UserContentV::Text(t) => Ok(
                MessageV::User { id, content: UserContentV::Text(t + d), name, encrypted_value },
            ),
            UserContentV::Parts(_) => Err(ApplyFailure::MultipartUser),
        },
        _ => Err(ApplyFailure::CannotAppendText { role: role_text(m) }),
    }
}

/// Appends a text delta to a message, as `append_text_v` says; on failure the message is kept.
pub fn append_message_content(message: &mut Message, delta: &str) -> (r: Result<(), AgUiError>)
    ensures
        match append_text_v(old(message)@, delta@) {
            Ok(m) => r is Ok && final(message)@ == m,
            Err(f) => r matches Err(e) && is_failure(e, f) && final(message)@ == old(message)@,
        },
{
    match message {
        Message::Developer(m) => {
            m.content.append(delta);
            Ok(())
        },
        Message::System(m) => {
            m.content.append(delta);
            Ok(())
        },
        Message::Assistant(m) => {
            let mut content = match &m.content {
                Some(c) => c.clone(),
                None => String::new(),
            };
            content.append(delta);
            m.content = Some(content);
            Ok(())
        },
        Message::User(m) => match &mut m.content {
            UserMessageContent::Text(content) => {
                content.append(delta);
                Ok(())
            },
            UserMessageContent::Parts(_) => Err(
                AgUiError::validation("cannot append text delta to multipart user message"),
            ),
        },
        other => Err(
            AgUiError::Validation(
                concat3("cannot append text content to '", role_name(other), "' message"),
            ),
        ),
    }
}

/// A reasoning message with `d` appended to its content.
pub open spec fn append_reasoning_v(m: MessageV, d: Seq<char>) -> Result<MessageV, ApplyFailure> {
    match m {
        MessageV::Reasoning { id, content, encrypted_value } => Ok(
            MessageV::Reasoning { id, content: content + d, encrypted_value },
        ),
        _ => Err(ApplyFailure::CannotAppendReasoning { role: role_text(m) }),
    }
}

/// Appends a reasoning delta to a reasoning message; any other message is refused.
pub fn append_reasoning_content(message: &mut Message, delta: &str) -> (r: Result<(), AgUiError>)
    ensures
        match append_reasoning_v(old(message)@, delta@) {
            Ok(m) => r is Ok && final(message)@ == m,
            Err(f) => r matches Err(e) && is_failure(e, f) && final(message)@ == old(message)@,
        },
{
    match message {
        Message::Reasoning(m) => {
            m.content.append(delta);
            Ok(())
        },
        other => Err(
            AgUiError::Validation(
                concat3("cannot append reasoning content to '", role_name(other), "' message"),
            ),
        ),
    }
}

/// A message with its encrypted value set; activity messages have none.
pub open spec fn set_encrypted_v(m: MessageV, v: Seq<char>) -> Result<MessageV, ApplyFailure> {
    match m {
        MessageV::Developer { id, content, name, .. } => Ok(
            MessageV::Developer { id, content, name, encrypted_value: Some(v) },
        ),
        MessageV::System { id, content, name, .. } => Ok(
            MessageV::System { id, content, name, encrypted_value: Some(v) },
        ),
        MessageV::Assistant { id, content, name, tool_calls, .. } => Ok(
            MessageV::Assistant { id, content, name, tool_calls, encrypted_value: Some(v) },
        ),
        MessageV::User { id, content, name, .. } => Ok(
            MessageV::User { id, content, name, encrypted_value: Some(v) },
        ),
        MessageV::Tool { id, content, tool_call_id, error, .. } => Ok(
            MessageV::Tool { id, content, tool_call_id, error, encrypted_value: Some(v) },
        ),
        MessageV::Reasoning { id, content, .. } => Ok(
            MessageV::Reasoning { id, content, encrypted_value: Some(v) },
        ),
        MessageV::Activity { .. } => Err(ApplyFailure::ActivityNoEncrypted),
    }
}

/// Sets a message's encrypted value, as `set_encrypted_v` says.
pub fn set_message_encrypted_value(message: &mut Message, encrypted_value: &str) -> (r: Result<
    (),
    AgUiError,
>)
    ensures
        match set_encrypted_v(old(message)@, encrypted_value@) {
            Ok(m) => r is Ok && final(message)@ == m,
            Err(f) => r matches Err(e) && is_failure(e, f) && final(message)@ == old(message)@,
        },
{
    let v = Some(owned(encrypted_value));
    match message {
        Message::Developer(m) => {
            m.encrypted_value = v;
        },
        Message::System(m) => {
            m.encrypted_value = v;
        },
        Message::Assistant(m) => {
            m.encrypted_value = v;
        },
        Message::User(m) => {
            m.encrypted_value = v;
        },
        Message::Tool(m) => {
            m.encrypted_value = v;
        },
        Message::Reasoning(m) => {
            m.encrypted_value = v;
        },
        Message::Activity(_) => {
            return Err(AgUiError::validation("activity messages do not support encrypted values"));
        },
    }
    Ok(())
}

/// The tool calls of an assistant message that has a list of them.
pub open spec fn msg_tool_calls(m: MessageV) -> Option<Seq<ToolCallV>> {
    match m {
        MessageV::Assistant { tool_calls, .. } => tool_calls,
        _ => None,
    }
}

/// The index of the first tool call with id `id`, from index `k` on.
pub open spec fn tc_find_from(tcs: Seq<ToolCallV>, id: Seq<char>, k: int) -> Option<int>
    decreases tcs.len() - k,
{
    if k < 0 || k >= tcs.len() {
        None
    } else if tcs[k].id == id {
        Some(k)
    } else {
        tc_find_from(tcs, id, k + 1)
    }
}

/// The first tool call with id `id`, searching the assistant messages in order from index `k`:
/// the message's index and the tool call's index.
pub open spec fn find_tc_from(ms: Seq<MessageV>, id: Seq<char>, k: int) -> Option<(int, int)>
    decreases ms.len() - k,
{
    if k < 0 || k >= ms.len() {
        None
    } else {
        match msg_tool_calls(ms[k]) {
            Some(tcs) => match tc_find_from(tcs, id, 0) {
                Some(t) => Some((k, t)),
                None => find_tc_from(ms, id, k + 1),
            },
            None => find_tc_from(ms, id, k + 1),
        }
    }
}

/// The first tool call with id `id` among all messages.
pub open spec fn find_tc(ms: Seq<MessageV>, id: Seq<char>) -> Option<(int, int)> {
    find_tc_from(ms, id, 0)
}

proof fn lemma_tc_find_from(tcs: Seq<ToolCallV>, id: Seq<char>, k: int)
    ensures
        tc_find_from(tcs, id, k) matches Some(t) ==> k <= t < tcs.len() && tcs[t].id == id,
    decreases tcs.len() - k,
{
    if 0 <= k < tcs.len() && tcs[k].id != id {
        lemma_tc_find_from(tcs, id, k + 1);
    }
}

proof fn lemma_find_tc_from(ms: Seq<MessageV>, id: Seq<char>, k: int)
    ensures
        find_tc_from(ms, id, k) matches Some((mi, ti)) ==> k <= mi < ms.len() && msg_tool_calls(
            ms[mi],
        ) is Some && 0 <= ti < msg_tool_calls(ms[mi])->0.len() && msg_tool_calls(ms[mi])->0[ti].id
            == id,
    decreases ms.len() - k,
{
    if 0 <= k < ms.len() {
        match msg_tool_calls(ms[k]) {
            Some(tcs) => {
                lemma_tc_find_from(tcs, id, 0);
                if tc_find_from(tcs, id, 0) is None {
                    lemma_find_tc_from(ms, id, k + 1);
                }
            },
            None => lemma_find_tc_from(ms, id, k + 1),
        }
    }
}

/// The index of the first tool call with id `id` in a list of tool calls.
fn find_in_tool_calls(tcs: &Vec<ToolCall>, id: &str) -> (r: Option<usize>)
    ensures
        match r {
            Some(t) => tc_find_from(tool_calls_view(tcs@), id@, 0) == Some(t as int),
            None => tc_find_from(tool_calls_view(tcs@), id@, 0) is None,
        },
{
    let ghost v = tool_calls_view(tcs@);
    let mut i: usize = 0;
    while i < tcs.len()
        invariant
            v == tool_calls_view(tcs@),
            i <= tcs@.len(),
            tc_find_from(v, id@, 0) == tc_find_from(v, id@, i as int),
        decreases tcs.len() - i,
    {
        assert(v[i as int] == tcs@[i as int]@);
        if str_eq(tcs[i].id.as_str(), id) {
            return Some(i);
        }
        i += 1;
    }
    None
}

/// Where the first tool call with id `id` is: the message's index and the tool call's index.
pub fn find_tool_call(messages: &Vec<Message>, tool_call_id: &str) -> (r: Option<(usize, usize)>)
    ensures
        match r {
            Some((mi, ti)) => find_tc(messages_view(messages@), tool_call_id@) == Some(
                (mi as int, ti as int),
            ),
            None => find_tc(messages_view(messages@), tool_call_id@) is None,
        },
{
    let ghost ms = messages_view(messages@);
    let mut i: usize = 0;
    while i < messages.len()
        invariant
            ms == messages_view(messages@),
            i <= messages@.len(),
            find_tc(ms, tool_call_id@) == find_tc_from(ms, tool_call_id@, i as int),
        decreases messages.len() - i,
    {
        assert(ms[i as int] == messages@[i as int]@);
        match &messages[i] {
            Message::Assistant(a) => match &a.tool_calls {
                Some(tcs) => match find_in_tool_calls(tcs, tool_call_id) {
                    Some(t) => {
                        return Some((i, t));
                    },
                    None => {},
                },
                None => {},
            },
            _ => {},
        }
        i += 1;
    }
    None
}

/// An assistant message with its tool call at `ti` replaced.
pub open spec fn with_tool_call(m: MessageV, ti: int, tc: ToolCallV) -> MessageV {
    match m {
        MessageV::Assistant { id, content, name, tool_calls, encrypted_value } =>
            MessageV::Assistant {
                id,
                content,
                name,
                tool_calls: match tool_calls {
                    Some(tcs) => Some(tcs.update(ti, tc)),
                    None => None,
                },
                encrypted_value,
            },
        _ => m,
    }
}

/// Appends to the arguments of the tool call at `(mi, ti)`.
fn append_tool_call_args(messages: &mut Vec<Message>, mi: usize, ti: usize, delta: &str)
    requires
        mi < old(messages)@.len(),
        msg_tool_calls(old(messages)@[mi as int]@) is Some,
        ti < msg_tool_calls(old(messages)@[mi as int]@)->0.len(),
    ensures
        messages_view(final(messages)@) == messages_view(old(messages)@).update(
            mi as int,
            with_tool_call(
                old(messages)@[mi as int]@,
                ti as int,
                ToolCallV {
                    arguments: msg_tool_calls(old(messages)@[mi as int]@)->0[ti as int].arguments
                        + delta@,
                    ..msg_tool_calls(old(messages)@[mi as int]@)->0[ti as int]
                },
            ),
        ),
{
    match &mut messages[mi] {
        Message::Assistant(a) => match &mut a.tool_calls {
            Some(tcs) => {
                let ghost before = tool_calls_view(tcs@);
                tcs[ti].function.arguments.append(delta);
                proof {
                    assert(tool_calls_view(tcs@) =~= before.update(
                        ti as int,
                        ToolCallV { arguments: before[ti as int].arguments + delta@, ..before[ti as int] },
                    ));
                }
            },
            None => {},
        },
        _ => {},
    }
    proof {
        assert(messages_view(messages@) =~= messages_view(old(messages)@).update(
            mi as int,
            with_tool_call(
                old(messages)@[mi as int]@,
                ti as int,
                ToolCallV {
                    arguments: msg_tool_calls(old(messages)@[mi as int]@)->0[ti as int].arguments
                        + delta@,
                    ..msg_tool_calls(old(messages)@[mi as int]@)->0[ti as int]
                },
            ),
        ));
    }
}

/// Sets the encrypted value of the tool call at `(mi, ti)`.
fn set_tool_call_encrypted(messages: &mut Vec<Message>, mi: usize, ti: usize, value: &str)
    requires
        mi < old(messages)@.len(),
        msg_tool_calls(old(messages)@[mi as int]@) is Some,
        ti < msg_tool_calls(old(messages)@[mi as int]@)->0.len(),
    ensures
        messages_view(final(messages)@) == messages_view(old(messages)@).update(
            mi as int,
            with_tool_call(
                old(messages)@[mi as int]@,
                ti as int,
                ToolCallV {
                    encrypted_value: Some(value@),
                    ..msg_tool_calls(old(messages)@[mi as int]@)->0[ti as int]
                },
            ),
        ),
{
    match &mut messages[mi] {
        Message::Assistant(a) => match &mut a.tool_calls {
            Some(tcs) => {
                let ghost before = tool_calls_view(tcs@);
                tcs[ti].encrypted_value = Some(owned(value));
                proof {
                    assert(tool_calls_view(tcs@) =~= before.update(
                        ti as int,
                        ToolCallV { encrypted_value: Some(value@), ..before[ti as int] },
                    ));
                }
            },
            None => {},
        },
        _ => {},
    }
    proof {
        assert(messages_view(messages@) =~= messages_view(old(messages)@).update(
            mi as int,
            with_tool_call(
                old(messages)@[mi as int]@,
                ti as int,
                ToolCallV {
                    encrypted_value: Some(value@),
                    ..msg_tool_calls(old(messages)@[mi as int]@)->0[ti as int]
                },
            ),
        ));
    }
}

/// An assistant message holding only an empty list of tool calls.
pub open spec fn bare_assistant(id: Seq<char>) -> MessageV {
    MessageV::Assistant {
        id,
        content: None,
        name: None,
        tool_calls: Some(Seq::empty()),
        encrypted_value: None,
    }
}

fn new_bare_assistant(id: &str) -> (r: Message)
    ensures
        r@ == bare_assistant(id@),
{
    let r = Message::Assistant(
        AssistantMessage {
            id: owned(id),
            content: None,
            name: None,
            tool_calls: Some(Vec::new()),
            encrypted_value: None,
        },
    );
    assert(r@ == bare_assistant(id@)) by {
        assert(tool_calls_view(Seq::<ToolCall>::empty()) =~= Seq::<ToolCallV>::empty());
    }
    r
}

/// The index of the last assistant message among the first `k`.
pub open spec fn last_assistant_below(ms: Seq<MessageV>, k: int) -> Option<int>
    decreases k,
{
    if k <= 0 || k > ms.len() {
        None
    } else if ms[k - 1] is Assistant {
        Some(k - 1)
    } else {
        last_assistant_below(ms, k - 1)
    }
}

/// Where a tool call goes: the messages after any assistant message added for it, and the index
/// of the assistant message that receives it. With a parent id, the parent if it is an assistant
/// message; a new assistant message named after the tool call if the parent is another kind of
/// message; a new one named after the parent if there is no such message. Without a parent id,
/// the last assistant message, or a new one named after the tool call.
pub open spec fn resolve_v(ms: Seq<MessageV>, parent: Option<Seq<char>>, tool_call_id: Seq<char>) -> (
    Seq<MessageV>,
    int,
) {
    match parent {
        Some(p) => match find_msg(ms, p) {
            Some(i) => if ms[i] is Assistant {
                (ms, i)
            } else {
                (ms.push(bare_assistant(tool_call_id)), ms.len() as int)
            },
            None => (ms.push(bare_assistant(p)), ms.len() as int),
        },
        None => match last_assistant_below(ms, ms.len() as int) {
            Some(i) => (ms, i),
            None => (ms.push(bare_assistant(tool_call_id)), ms.len() as int),
        },
    }
}

/// Finds or creates the assistant message that receives a new tool call, as `resolve_v` says.
pub fn resolve_or_create_assistant_message(
    messages: &mut Vec<Message>,
    parent_message_id: Option<&str>,
    tool_call_id: &str,
) -> (r: usize)
    ensures
        (messages_view(final(messages)@), r as int) == resolve_v(
            messages_view(old(messages)@),
            match parent_message_id {
                Some(p) => Some(p@),
                None => None::<Seq<char>>,
            },
            tool_call_id@,
        ),
{
    let ghost ms = messages_view(messages@);
    if let Some(parent) = parent_message_id {
        match find_message_index(messages, parent) {
            Some(index) => {
                assert(ms[index as int] == messages@[index as int]@);
                if let Message::Assistant(_) = &messages[index] {
                    return index;
                }
                messages.push(new_bare_assistant(tool_call_id));
                assert(messages_view(messages@) =~= ms.push(bare_assistant(tool_call_id@)));
                return messages.len() - 1;
            },
            None => {
                messages.push(new_bare_assistant(parent));
                assert(messages_view(messages@) =~= ms.push(bare_assistant(parent@)));
                return messages.len() - 1;
            },
        }
    }
    let mut k: usize = messages.len();
    while k > 0
        invariant
            ms == messages_view(messages@),
            messages@ == old(messages)@,
            parent_message_id is None,
            k <= messages@.len(),
            last_assistant_below(ms, ms.len() as int) == last_assistant_below(ms, k as int),
        decreases k,
    {
        assert(ms[k - 1] == messages@[k - 1]@);
        if let Message::Assistant(_) = &messages[k - 1] {
            return k - 1;
        }
        k -= 1;
    }
    messages.push(new_bare_assistant(tool_call_id));
    assert(messages_view(messages@) =~= ms.push(bare_assistant(tool_call_id@)));
    messages.len() - 1
}

/// An assistant message with its list of tool calls replaced.
pub open spec fn set_tool_calls(m: MessageV, tcs: Seq<ToolCallV>) -> MessageV {
    match m {
        MessageV::Assistant { id, content, name, encrypted_value, .. } => MessageV::Assistant {
            id,
            content,
            name,
            tool_calls: Some(tcs),
            encrypted_value,
        },
        _ => m,
    }
}

/// What `TOOL_CALL_START` does to the messages: the receiving assistant message (see
/// `resolve_v`) gets the tool call, or, when it already has one with this id, the tool call's
/// name is updated.
pub open spec fn tool_call_start_v(ms: Seq<MessageV>, e: ToolCallStartEvent) -> Seq<MessageV> {
    let (ms1, idx) = resolve_v(ms, opt_str(e.parent_message_id), e.tool_call_id@);
    let tcs = match msg_tool_calls(ms1[idx]) {
        Some(t) => t,
        None => Seq::empty(),
    };
    let tcs2 = match tc_find_from(tcs, e.tool_call_id@, 0) {
        Some(t) => tcs.update(t, ToolCallV { name: e.tool_call_name@, ..tcs[t] }),
        None => tcs.push(
            ToolCallV {
                id: e.tool_call_id@,
                kind: ToolCallKind::Function,
                name: e.tool_call_name@,
                arguments: Seq::empty(),
                encrypted_value: None,
            },
        ),
    };
    ms1.update(idx, set_tool_calls(ms1[idx], tcs2))
}

proof fn lemma_resolve_assistant(ms: Seq<MessageV>, parent: Option<Seq<char>>, id: Seq<char>)
    ensures
        0 <= resolve_v(ms, parent, id).1 < resolve_v(ms, parent, id).0.len(),
        resolve_v(ms, parent, id).0[resolve_v(ms, parent, id).1] is Assistant,
{
    match parent {
        Some(p) => {
            lemma_find_from_bounds(ms, p, 0);
        },
        None => {
            lemma_last_assistant(ms, ms.len() as int);
        },
    }
}

proof fn lemma_last_assistant(ms: Seq<MessageV>, k: int)
    ensures
        last_assistant_below(ms, k) matches Some(i) ==> 0 <= i < k <= ms.len() && ms[i] is Assistant,
    decreases k,
{
    if 0 < k <= ms.len() && !(ms[k - 1] is Assistant) {
        lemma_last_assistant(ms, k - 1);
    }
}

/// Applies a `TOOL_CALL_START` to the messages, as `tool_call_start_v` says.
pub fn apply_tool_call_start(messages: &mut Vec<Message>, event: &ToolCallStartEvent) -> (r: Result<
    (),
    AgUiError,
>)
    ensures
        r is Ok,
        messages_view(final(messages)@) == tool_call_start_v(messages_view(old(messages)@), *event),
{
    let parent = match &event.parent_message_id {
        Some(p) => Some(p.as_str()),
        None => None,
    };
    let index = resolve_or_create_assistant_message(messages, parent, event.tool_call_id.as_str());
    proof {
        lemma_resolve_assistant(
            messages_view(old(messages)@),
            opt_str(event.parent_message_id),
            event.tool_call_id@,
        );
        assert(messages_view(messages@)[index as int] == messages@[index as int]@);
    }
    let ghost ms1 = messages_view(messages@);
    match &mut messages[index] {
        Message::Assistant(a) => {
            if a.tool_calls.is_none() {
                a.tool_calls = Some(Vec::new());
                assert(tool_calls_view(Seq::<ToolCall>::empty()) =~= Seq::<ToolCallV>::empty());
            }
            match &mut a.tool_calls {
                Some(tcs) => {
                    let ghost before = tool_calls_view(tcs@);
                    match find_in_tool_calls(tcs, event.tool_call_id.as_str()) {
                        Some(t) => {
                            proof {
                                lemma_tc_find_from(before, event.tool_call_id@, 0);
                            }
                            tcs[t].function.name = event.tool_call_name.clone();
                            assert(tool_calls_view(tcs@) =~= before.update(
                                t as int,
                                ToolCallV { name: event.tool_call_name@, ..before[t as int] },
                            ));
                        },
                        None => {
                            tcs.push(
                                ToolCall {
                                    id: event.tool_call_id.clone(),
                                    kind: ToolCallKind::Function,
                                    function: FunctionCall {
                                        name: event.tool_call_name.clone(),
                                        arguments: String::new(),
                                    },
                                    encrypted_value: None,
                                },
                            );
                            assert(tool_calls_view(tcs@) =~= before.push(
                                ToolCallV {
                                    id: event.tool_call_id@,
                                    kind: ToolCallKind::Function,
                                    name: event.tool_call_name@,
                                    arguments: Seq::empty(),
                                    encrypted_value: None,
                                },
                            ));
                        },
                    }
                },
                None => {},
            }
        },
        _ => {
            return Err(AgUiError::validation("expected assistant message"));
        },
    }
    assert(messages_view(messages@) =~= tool_call_start_v(
        messages_view(old(messages)@),
        *event,
    ));
    Ok(())
}

/// The index of the last message with id `id` among the first `k`.
pub open spec fn last_with_id(ms: Seq<MessageV>, id: Seq<char>, k: int) -> Option<int>
    decreases k,
{
    if k <= 0 || k > ms.len() {
        None
    } else if ms[k - 1].id() == id {
        Some(k - 1)
    } else {
        last_with_id(ms, id, k - 1)
    }
}

proof fn lemma_last_with_id(ms: Seq<MessageV>, id: Seq<char>, k: int)
    ensures
        last_with_id(ms, id, k) matches Some(i) ==> 0 <= i < k <= ms.len() && ms[i].id() == id,
        (0 <= k <= ms.len() && exists|j: int| 0 <= j < k && #[trigger] ms[j].id() == id)
            ==> last_with_id(ms, id, k) is Some,
    decreases k,
{
    if 0 < k <= ms.len() && ms[k - 1].id() != id {
        lemma_last_with_id(ms, id, k - 1);
        if exists|j: int| 0 <= j < k && #[trigger] ms[j].id() == id {
            let j = choose|j: int| 0 <= j < k && #[trigger] ms[j].id() == id;
            assert(j < k - 1);
        }
    }
}

/// The snapshot's message for an id: the last one with that id, as a map from ids keeps it.
pub open spec fn snapshot_for(snap: Seq<MessageV>, id: Seq<char>) -> Option<MessageV> {
    match last_with_id(snap, id, snap.len() as int) {
        Some(j) => Some(snap[j]),
        None => None,
    }
}

/// The first pass of a messages snapshot over the current messages, from index `k`: activity and
/// reasoning messages stay; any other message is replaced by the snapshot's message with its id,
/// the first time that id comes, and dropped otherwise.
pub open spec fn merge_existing(
    ms: Seq<MessageV>,
    snap: Seq<MessageV>,
    k: int,
    taken: Set<Seq<char>>,
    acc: Seq<MessageV>,
) -> (Seq<MessageV>, Set<Seq<char>>)
    decreases ms.len() - k,
{
    if k < 0 || k >= ms.len() {
        (acc, taken)
    } else {
        let m = ms[k];
        if m is Activity || m is Reasoning {
            merge_existing(ms, snap, k + 1, taken, acc.push(m))
        } else {
            match snapshot_for(snap, m.id()) {
                Some(sm) => if !taken.contains(m.id()) {
                    merge_existing(ms, snap, k + 1, taken.insert(m.id()), acc.push(sm))
                } else {
                    merge_existing(ms, snap, k + 1, taken, acc)
                },
                None => merge_existing(ms, snap, k + 1, taken, acc),
            }
        }
    }
}

/// The second pass: the snapshot's messages whose ids were not used yet, in snapshot order.
pub open spec fn merge_rest(
    snap: Seq<MessageV>,
    k: int,
    taken: Set<Seq<char>>,
    acc: Seq<MessageV>,
) -> Seq<MessageV>
    decreases snap.len() - k,
{
    if k < 0 || k >= snap.len() {
        acc
    } else {
        let id = snap[k].id();
        if !taken.contains(id) {
            merge_rest(snap, k + 1, taken.insert(id), acc.push(snapshot_for(snap, id)->0))
        } else {
            merge_rest(snap, k + 1, taken, acc)
        }
    }
}

/// What a `MESSAGES_SNAPSHOT` does to the messages.
pub open spec fn messages_snapshot_v(ms: Seq<MessageV>, snap: Seq<MessageV>) -> Seq<MessageV> {
    let (acc, taken) = merge_existing(ms, snap, 0, Set::empty(), Seq::empty());
    merge_rest(snap, 0, taken, acc)
}

/// Whether a list of strings holds `id`.
fn taken_contains(taken: &Vec<String>, id: &str) -> (r: bool)
    ensures
        r == taken@.map_values(|s: String| s@).contains(id@),
{
    let ghost v = taken@.map_values(|s: String| s@);
    let mut i: usize = 0;
    while i < taken.len()
        invariant
            v == taken@.map_values(|s: String| s@),
            i <= taken@.len(),
            forall|k: int| 0 <= k < i ==> v[k] != id@,
        decreases taken.len() - i,
    {
        assert(v[i as int] == taken@[i as int]@);
        if str_eq(taken[i].as_str(), id) {
            return true;
        }
        i += 1;
    }
    false
}

/// The snapshot's message for an id, cloned.
fn snapshot_message_for(snapshot: &Vec<Message>, id: &str) -> (r: Option<Message>)
    ensures
        match r {
            Some(m) => snapshot_for(messages_view(snapshot@), id@) == Some(m@),
            None => snapshot_for(messages_view(snapshot@), id@) is None,
        },
{
    let ghost sv = messages_view(snapshot@);
    let mut k: usize = snapshot.len();
    while k > 0
        invariant
            sv == messages_view(snapshot@),
            k <= snapshot@.len(),
            last_with_id(sv, id@, sv.len() as int) == last_with_id(sv, id@, k as int),
        decreases k,
    {
        assert(sv[k - 1] == snapshot@[k - 1]@);
        if str_eq(snapshot[k - 1].id(), id) {
            return Some(snapshot[k - 1].clone());
        }
        k -= 1;
    }
    None
}

/// Replaces the messages by a snapshot, keeping activity and reasoning messages where they are
/// and the order of the messages that stay; see `messages_snapshot_v`.
pub fn apply_messages_snapshot(messages: &mut Vec<Message>, snapshot: &Vec<Message>)
    ensures
        messages_view(final(messages)@) == messages_snapshot_v(
            messages_view(old(messages)@),
            messages_view(snapshot@),
        ),
{
    let ghost ms = messages_view(messages@);
    let ghost sv = messages_view(snapshot@);
    let mut merged: Vec<Message> = Vec::new();
    let mut taken: Vec<String> = Vec::new();
    let mut k: usize = 0;
    proof {
        assert(messages_view(merged@) =~= Seq::<MessageV>::empty());
        assert(taken@.map_values(|s: String| s@).to_set() =~= Set::<Seq<char>>::empty());
    }
    while k < messages.len()
        invariant
            ms == messages_view(messages@),
            sv == messages_view(snapshot@),
            k <= messages@.len(),
            merge_existing(ms, sv, 0, Set::empty(), Seq::empty()) == merge_existing(
                ms,
                sv,
                k as int,
                taken@.map_values(|s: String| s@).to_set(),
                messages_view(merged@),
            ),
        decreases messages.len() - k,
    {
        let ghost tv = taken@.map_values(|s: String| s@);
        assert(ms[k as int] == messages@[k as int]@);
        let is_kept = match &messages[k] {
            Message::Activity(_) => true,
            Message::Reasoning(_) => true,
            _ => false,
        };
        if is_kept {
            let ghost before = messages_view(merged@);
            merged.push(messages[k].clone());
            assert(messages_view(merged@) =~= before.push(messages@[k as int]@));
        } else {
            let id = messages[k].id();
            match snapshot_message_for(snapshot, id) {
                Some(sm) => {
                    if !taken_contains(&taken, id) {
                        let ghost before = messages_view(merged@);
                        merged.push(sm);
                        taken.push(owned(id));
                        proof {
                            assert(messages_view(merged@) =~= before.push(sm@));
                            assert(taken@.map_values(|s: String| s@) =~= tv.push(id@));
                            tv.lemma_push_to_set_commute(id@);
                            assert(tv.contains(id@) == tv.to_set().contains(id@));
                        }
                    } else {
                        assert(tv.contains(id@) == tv.to_set().contains(id@));
                    }
                },
                None => {},
            }
        }
        k += 1;
    }
    let mut j: usize = 0;
    while j < snapshot.len()
        invariant
            ms == messages_view(messages@),
            sv == messages_view(snapshot@),
            j <= snapshot@.len(),
            messages_snapshot_v(ms, sv) == merge_rest(
                sv,
                j as int,
                taken@.map_values(|s: String| s@).to_set(),
                messages_view(merged@),
            ),
        decreases snapshot.len() - j,
    {
        let ghost tv = taken@.map_values(|s: String| s@);
        assert(sv[j as int] == snapshot@[j as int]@);
        let id = snapshot[j].id();
        assert(tv.contains(id@) == tv.to_set().contains(id@));
        if !taken_contains(&taken, id) {
            proof {
                lemma_last_with_id(sv, id@, sv.len() as int);
                assert(sv[j as int].id() == id@);
            }
            match snapshot_message_for(snapshot, id) {
                Some(sm) => {
                    let ghost before = messages_view(merged@);
                    merged.push(sm);
                    taken.push(owned(id));
                    proof {
                        assert(messages_view(merged@) =~= before.push(sm@));
                        assert(taken@.map_values(|s: String| s@) =~= tv.push(id@));
                        tv.lemma_push_to_set_commute(id@);
                    }
                },
                None => {},
            }
        }
        j += 1;
    }
    *messages = merged;
}

/// The activity message an `ACTIVITY_SNAPSHOT` describes.
pub open spec fn activity_v(e: ActivitySnapshotEvent) -> MessageV {
    MessageV::Activity { id: e.message_id@, activity_type: e.activity_type@, content: e.content }
}

/// What an `ACTIVITY_SNAPSHOT` does: a new message is appended; a message with the same id is
/// replaced when `replace` is set and kept otherwise.
pub open spec fn activity_snapshot_v(ms: Seq<MessageV>, e: ActivitySnapshotEvent) -> Seq<MessageV> {
    match find_msg(ms, e.message_id@) {
        Some(i) => if e.replace {
            ms.update(i, activity_v(e))
        } else {
            ms
        },
        None => ms.push(activity_v(e)),
    }
}

/// Applies an `ACTIVITY_SNAPSHOT`, as `activity_snapshot_v` says.
pub fn apply_activity_snapshot(messages: &mut Vec<Message>, event: &ActivitySnapshotEvent)
    ensures
        messages_view(final(messages)@) == activity_snapshot_v(
            messages_view(old(messages)@),
            *event,
        ),
{
    let activity_message = Message::Activity(
        ActivityMessage {
            id: event.message_id.clone(),
            activity_type: event.activity_type.clone(),
            content: event.content.clone(),
        },
    );
    let ghost ms = messages_view(messages@);
    match find_message_index(messages, event.message_id.as_str()) {
        Some(index) => {
            if event.replace {
                messages.set(index, activity_message);
                assert(messages_view(messages@) =~= ms.update(index as int, activity_v(*event)));
            }
        },
        None => {
            messages.push(activity_message);
            assert(messages_view(messages@) =~= ms.push(activity_v(*event)));
        },
    }
}

/// Clones a list of JSON values.
fn clone_values(v: &Vec<serde_json::Value>) -> (r: Vec<serde_json::Value>)
    ensures
        r@ == v@,
{
    let mut r: Vec<serde_json::Value> = Vec::new();
    let mut i: usize = 0;
    while i < v.len()
        invariant
            i <= v.len(),
            r@ == v@.take(i as int),
        decreases v.len() - i,
    {
        r.push(v[i].clone());
        assert(v@.take(i + 1) =~= v@.take(i as int).push(v@[i as int]));
        i += 1;
    }
    assert(v@.take(v.len() as int) =~= v@);
    r
}

/// What a JSON Patch, given as a list of operations, makes of a document: `None` when the list
/// is not a JSON Patch document, `Some(None)` when an operation fails, and `Some(Some(d))` for
/// the patched document `d`.
pub open spec fn patch_outcome(doc: serde_json::Value, ops: Seq<serde_json::Value>) -> Option<
    Option<serde_json::Value>,
> {
    match crate::json::json_patch_of(json_array(ops)) {
        Some(p) => Some(crate::json::json_patched(doc, p)),
        None => None,
    }
}

/// Whether `r` and the document after are what a JSON Patch makes of `doc`: the patched
/// document; a JSON error when the operations do not form a patch, and a validation error
/// starting `failed to apply state delta: ` when one fails, either leaving the document as it
/// was.
pub open spec fn delta_ok(
    doc: serde_json::Value,
    ops: Seq<serde_json::Value>,
    after: serde_json::Value,
    r: Result<(), AgUiError>,
) -> bool {
    match patch_outcome(doc, ops) {
        None => (r matches Err(e) && e is Json) && after == doc,
        Some(None) => (r matches Err(AgUiError::Validation(m))
            && "failed to apply state delta: "@.is_prefix_of(m@)) && after == doc,
        Some(Some(d)) => r is Ok && after == d,
    }
}

/// Applies a JSON Patch, given as a list of operations, to a document. The operations are
/// applied to a copy, which takes the document's place only when all of them succeed, so on
/// failure the document is unchanged; a patch that does not parse is a JSON error, one that fails to apply a
/// validation error whose message starts with `failed to apply state delta: `.
pub fn apply_json_delta(delta: &Vec<serde_json::Value>, doc: &mut serde_json::Value) -> (r: Result<
    (),
    AgUiError,
>)
    ensures
        delta_ok(*old(doc), delta@, *final(doc), r),
{
    let patch_value = json_array_from_vec(clone_values(delta));
    let patch_ops = match parse_json_patch(patch_value) {
        Ok(p) => p,
        Err(e) => {
            return Err(AgUiError::Json(e));
        },
    };
    let mut patched = doc.clone();
    match apply_json_patch(&mut patched, &patch_ops) {
        Ok(()) => {
            *doc = patched;
            Ok(())
        },
        Err(e) => {
            let text = patch_error_text(&e);
            let m = concat2("failed to apply state delta: ", text.as_str());
            assert(m@.subrange(0, "failed to apply state delta: "@.len() as int)
                =~= "failed to apply state delta: "@);
            Err(AgUiError::Validation(m))
        },
    }
}

/// Applies a `STATE_DELTA` to the state with `json_patch`; see `apply_json_delta`.
pub fn apply_state_delta(event: &crate::events::StateDeltaEvent, state: &mut State) -> (r: Result<
    (),
    AgUiError,
>)
    ensures
        delta_ok(*old(state), event.delta@, *final(state), r),
{
    apply_json_delta(&event.delta, state)
}

/// The index of the activity message an `ACTIVITY_DELTA` patches: the first message with its
/// id, if that message is an activity message.
pub open spec fn activity_target(ms: Seq<MessageV>, id: Seq<char>) -> Option<int> {
    match find_msg(ms, id) {
        Some(i) => if ms[i] is Activity {
            Some(i)
        } else {
            None
        },
        None => None,
    }
}

/// Whether `r` and the messages after are what an `ACTIVITY_DELTA` makes of `ms0`: without an
/// activity message with the event's id nothing changes; otherwise its content is patched as
/// `delta_ok` says and must stay a JSON object, and it takes the event's activity type; on
/// any failure nothing changes.
pub open spec fn activity_delta_ok(
    ms0: Seq<MessageV>,
    ev: ActivityDeltaEvent,
    ms1: Seq<MessageV>,
    r: Result<(), AgUiError>,
) -> bool {
    match activity_target(ms0, ev.message_id@) {
        None => r is Ok && ms1 == ms0,
        Some(i) => match patch_outcome(json_object(ms0[i]->Activity_content), ev.patch@) {
            None => (r matches Err(e) && e is Json) && ms1 == ms0,
            Some(None) => (r matches Err(AgUiError::Validation(m))
                && "failed to apply state delta: "@.is_prefix_of(m@)) && ms1 == ms0,
            Some(Some(d)) => match crate::json::json_object_members(d) {
                Some(c) => r is Ok && ms1 == ms0.update(
                    i,
                    MessageV::Activity {
                        id: ev.message_id@,
                        activity_type: ev.activity_type@,
                        content: c,
                    },
                ),
                None => (r matches Err(AgUiError::Validation(m)) && m@ == "activity '"@
                    + ev.message_id@ + "' content patch must produce an object"@) && ms1 == ms0,
            },
        },
    }
}

/// Applies an `ACTIVITY_DELTA`: the content of the activity message with the event's id is
/// patched, and the message takes the event's activity type. Without such a message nothing
/// changes. On failure nothing changes.
pub fn apply_activity_delta(messages: &mut Vec<Message>, event: &ActivityDeltaEvent) -> (r: Result<
    (),
    AgUiError,
>)
    ensures
        activity_delta_ok(
            messages_view(old(messages)@),
            *event,
            messages_view(final(messages)@),
            r,
        ),
{
    let ghost ms = messages_view(messages@);
    let index = match find_message_index(messages, event.message_id.as_str()) {
        Some(i) => i,
        None => {
            return Ok(());
        },
    };
    assert(ms[index as int] == messages@[index as int]@);
    let existing = match &messages[index] {
        Message::Activity(a) => a.content.clone(),
        _ => {
            return Ok(());
        },
    };
    let mut content = json_object_from_map(existing);
    match apply_json_delta(&event.patch, &mut content) {
        Ok(()) => {},
        Err(e) => {
            return Err(e);
        },
    }
    let map = match crate::json::json_as_object(&content) {
        Some(m) => m,
        None => {
            return Err(
                AgUiError::Validation(
                    concat3(
                        "activity '",
                        event.message_id.as_str(),
                        "' content patch must produce an object",
                    ),
                ),
            );
        },
    };
    let m = Message::Activity(
        ActivityMessage {
            id: event.message_id.clone(),
            activity_type: event.activity_type.clone(),
            content: map,
        },
    );
    messages.set(index, m);
    assert(messages_view(messages@) =~= ms.update(index as int, m@));
    Ok(())
}

/// What an event does to the messages, for every event but `ACTIVITY_DELTA` (see
/// `apply_activity_delta`); state events leave the messages as they are.
pub open spec fn apply_messages_v(ms: Seq<MessageV>, e: Event) -> Result<Seq<MessageV>, ApplyFailure> {
    match e {
        Event::TextMessageStart(ev) => if has_msg(ms, ev.message_id@) {
            Ok(ms)
        } else {
            Ok(ms.push(new_text_v(ev.message_id@, ev.role, opt_str(ev.name))))
        },
        Event::TextMessageContent(ev) => match find_msg(ms, ev.message_id@) {
            None => Err(ApplyFailure::MessageNotFound { id: ev.message_id@ }),
            Some(i) => match append_text_v(ms[i], ev.delta@) {
                Ok(m) => Ok(ms.update(i, m)),
                Err(f) => Err(f),
            },
        },
        Event::ToolCallStart(ev) => Ok(tool_call_start_v(ms, ev)),
        Event::ToolCallArgs(ev) => match find_tc(ms, ev.tool_call_id@) {
            None => Err(ApplyFailure::ToolCallNotFound { id: ev.tool_call_id@ }),
            Some((mi, ti)) => Ok(
                ms.update(
                    mi,
                    with_tool_call(
                        ms[mi],
                        ti,
                        ToolCallV {
                            arguments: msg_tool_calls(ms[mi])->0[ti].arguments + ev.delta@,
                            ..msg_tool_calls(ms[mi])->0[ti]
                        },
                    ),
                ),
            ),
        },
        Event::ToolCallResult(ev) => Ok(
            ms.push(
                MessageV::Tool {
                    id: ev.message_id@,
                    content: ev.content@,
                    tool_call_id: ev.tool_call_id@,
                    error: None,
                    encrypted_value: None,
                },
            ),
        ),
        Event::MessagesSnapshot(ev) => Ok(messages_snapshot_v(ms, messages_view(ev.messages@))),
        Event::ActivitySnapshot(ev) => Ok(activity_snapshot_v(ms, ev)),
        Event::ReasoningMessageStart(ev) => if has_msg(ms, ev.message_id@) {
            Ok(ms)
        } else {
            Ok(
                ms.push(
                    MessageV::Reasoning {
                        id: ev.message_id@,
                        content: Seq::empty(),
                        encrypted_value: None,
                    },
                ),
            )
        },
        Event::ReasoningMessageContent(ev) => match find_msg(ms, ev.message_id@) {
            None => Err(ApplyFailure::ReasoningNotFound { id: ev.message_id@ }),
            Some(i) => match append_reasoning_v(ms[i], ev.delta@) {
                Ok(m) => Ok(ms.update(i, m)),
                Err(f) => Err(f),
            },
        },
        Event::ReasoningEncryptedValue(ev) => match ev.subtype {
            ReasoningEncryptedValueSubtype::ToolCall => match find_tc(ms, ev.entity_id@) {
                Some((mi, ti)) => Ok(
                    ms.update(
                        mi,
                        with_tool_call(
                            ms[mi],
                            ti,
                            ToolCallV {
                                encrypted_value: Some(ev.encrypted_value@),
                                ..msg_tool_calls(ms[mi])->0[ti]
                            },
                        ),
                    ),
                ),
                None => Ok(ms),
            },
            ReasoningEncryptedValueSubtype::Message => match find_msg(ms, ev.entity_id@) {
                Some(i) => match set_encrypted_v(ms[i], ev.encrypted_value@) {
                    Ok(m) => Ok(ms.update(i, m)),
                    Err(f) => Err(f),
                },
                None => Ok(ms),
            },
        },
        _ => Ok(ms),
    }
}

/// Applies an encrypted value to the message or tool call it names; an unknown id changes
/// nothing.
pub fn apply_reasoning_encrypted_value(
    messages: &mut Vec<Message>,
    subtype: ReasoningEncryptedValueSubtype,
    entity_id: &str,
    encrypted_value: &str,
) -> (r: Result<(), AgUiError>)
    ensures
        ({
            let ms = messages_view(old(messages)@);
            let res = match subtype {
                ReasoningEncryptedValueSubtype::ToolCall => match find_tc(ms, entity_id@) {
                    Some((mi, ti)) => Ok(
                        ms.update(
                            mi,
                            with_tool_call(
                                ms[mi],
                                ti,
                                ToolCallV {
                                    encrypted_value: Some(encrypted_value@),
                                    ..msg_tool_calls(ms[mi])->0[ti]
                                },
                            ),
                        ),
                    ),
                    None => Ok(ms),
                },
                ReasoningEncryptedValueSubtype::Message => match find_msg(ms, entity_id@) {
                    Some(i) => match set_encrypted_v(ms[i], encrypted_value@) {
                        Ok(m) => Ok(ms.update(i, m)),
                        Err(f) => Err(f),
                    },
                    None => Ok(ms),
                },
            };
            match res {
                Ok(ms2) => r is Ok && messages_view(final(messages)@) == ms2,
                Err(f) => r matches Err(e) && is_failure(e, f) && messages_view(final(messages)@)
                    == ms,
            }
        }),
{
    let ghost ms = messages_view(messages@);
    match subtype {
        ReasoningEncryptedValueSubtype::ToolCall => {
            if let Some((mi, ti)) = find_tool_call(messages, entity_id) {
                proof {
                    lemma_find_tc_from(ms, entity_id@, 0);
                    assert(ms[mi as int] == messages@[mi as int]@);
                }
                set_tool_call_encrypted(messages, mi, ti, encrypted_value);
            }
            Ok(())
        },
        ReasoningEncryptedValueSubtype::Message => {
            if let Some(i) = find_message_index(messages, entity_id) {
                assert(ms[i as int] == messages@[i as int]@);
                let r = set_message_encrypted_value(&mut messages[i], encrypted_value);
                assert(messages_view(messages@) =~= ms.update(i as int, messages@[i as int]@));
                if r.is_err() {
                    assert(messages_view(messages@) =~= ms);
                }
                r
            } else {
                Ok(())
            }
        },
    }
}

/// How folding event `e` into messages `ms0` and state `st0` may end in messages `ms1`, state
/// `st1` and result `r`.
///
/// `STATE_SNAPSHOT` replaces the state; `STATE_DELTA` patches it with `json_patch` and leaves it
/// as it was when that fails; `ACTIVITY_DELTA` patches the content of the activity message with
/// its id, if there is one; every other event changes the messages as `apply_messages_v` says
/// and leaves the state. On failure the messages are unchanged.
pub open spec fn apply_post(
    ms0: Seq<MessageV>,
    st0: State,
    e: Event,
    ms1: Seq<MessageV>,
    st1: State,
    r: Result<(), AgUiError>,
) -> bool {
    &&& e is StateSnapshot ==> r is Ok && st1 == e->StateSnapshot_0.snapshot
    &&& e matches Event::StateDelta(ev) ==> delta_ok(st0, ev.delta@, st1, r)
    &&& !(e is StateSnapshot) && !(e is StateDelta) ==> st1 == st0
    &&& e is StateSnapshot || e is StateDelta ==> ms1 == ms0
    &&& !(e is ActivityDelta) && !(e is StateDelta) ==> match apply_messages_v(ms0, e) {
        Ok(ms) => r is Ok && ms1 == ms,
        Err(f) => r matches Err(err) && is_failure(err, f) && ms1 == ms0,
    }
    &&& e matches Event::ActivityDelta(ev) ==> activity_delta_ok(ms0, ev, ms1, r)
}

/// Folds one event into the messages and the state, as `apply_post` says.
pub fn apply_event(state: &mut ApplyState, event: &Event) -> (r: Result<(), AgUiError>)
    ensures
        apply_post(
            messages_view(old(state).messages@),
            old(state).state,
            *event,
            messages_view(final(state).messages@),
            final(state).state,
            r,
        ),
{
    let ghost ms = messages_view(state.messages@);
    match event {
        Event::TextMessageStart(ev) => {
            if find_message_index(&state.messages, ev.message_id.as_str()).is_none() {
                let m = new_text_message(
                    ev.message_id.as_str(),
                    ev.role,
                    crate::types::clone_opt_string(&ev.name),
                );
                state.messages.push(m);
                assert(messages_view(state.messages@) =~= ms.push(m@));
                assert(apply_messages_v(ms, *event) == Ok::<Seq<MessageV>, ApplyFailure>(
                    ms.push(m@),
                ));
            }
            Ok(())
        },
        Event::TextMessageContent(ev) => {
            match find_message_index(&state.messages, ev.message_id.as_str()) {
                None => Err(
                    AgUiError::Validation(
                        concat3("message '", ev.message_id.as_str(), "' not found"),
                    ),
                ),
                Some(i) => {
                    assert(ms[i as int] == state.messages@[i as int]@);
                    let r = append_message_content(&mut state.messages[i], ev.delta.as_str());
                    assert(messages_view(state.messages@) =~= ms.update(
                        i as int,
                        state.messages@[i as int]@,
                    ));
                    if r.is_err() {
                        assert(messages_view(state.messages@) =~= ms);
                    }
                    r
                },
            }
        },
        Event::ToolCallStart(ev) => apply_tool_call_start(&mut state.messages, ev),
        Event::ToolCallArgs(ev) => {
            match find_tool_call(&state.messages, ev.tool_call_id.as_str()) {
                None => Err(
                    AgUiError::Validation(
                        concat3("tool call '", ev.tool_call_id.as_str(), "' not found"),
                    ),
                ),
                Some((mi, ti)) => {
                    proof {
                        lemma_find_tc_from(ms, ev.tool_call_id@, 0);
                        assert(ms[mi as int] == state.messages@[mi as int]@);
                    }
                    append_tool_call_args(&mut state.messages, mi, ti, ev.delta.as_str());
                    Ok(())
                },
            }
        },
        Event::ToolCallResult(ev) => {
            let m = Message::Tool(
                ToolMessage {
                    id: ev.message_id.clone(),
                    content: ev.content.clone(),
                    tool_call_id: ev.tool_call_id.clone(),
                    error: None,
                    encrypted_value: None,
                },
            );
            state.messages.push(m);
            assert(messages_view(state.messages@) =~= ms.push(m@));
            Ok(())
        },
        Event::MessagesSnapshot(ev) => {
            apply_messages_snapshot(&mut state.messages, &ev.messages);
            Ok(())
        },
        Event::StateSnapshot(ev) => {
            state.state = ev.snapshot.clone();
            Ok(())
        },
        Event::StateDelta(ev) => apply_state_delta(ev, &mut state.state),
        Event::ActivitySnapshot(ev) => {
            apply_activity_snapshot(&mut state.messages, ev);
            Ok(())
        },
        Event::ActivityDelta(ev) => apply_activity_delta(&mut state.messages, ev),
        Event::ReasoningMessageStart(ev) => {
            if find_message_index(&state.messages, ev.message_id.as_str()).is_none() {
                let m = Message::Reasoning(
                    ReasoningMessage {
                        id: ev.message_id.clone(),
                        content: String::new(),
                        encrypted_value: None,
                    },
                );
                state.messages.push(m);
                assert(messages_view(state.messages@) =~= ms.push(m@));
            }
            Ok(())
        },
        Event::ReasoningMessageContent(ev) => {
            match find_message_index(&state.messages, ev.message_id.as_str()) {
                None => Err(
                    AgUiError::Validation(
                        concat3("reasoning message '", ev.message_id.as_str(), "' not found"),
                    ),
                ),
                Some(i) => {
                    assert(ms[i as int] == state.messages@[i as int]@);
                    let r = append_reasoning_content(&mut state.messages[i], ev.delta.as_str());
                    assert(messages_view(state.messages@) =~= ms.update(
                        i as int,
                        state.messages@[i as int]@,
                    ));
                    if r.is_err() {
                        assert(messages_view(state.messages@) =~= ms);
                    }
                    r
                },
            }
        },
        Event::ReasoningEncryptedValue(ev) => apply_reasoning_encrypted_value(
            &mut state.messages,
            ev.subtype,
            ev.entity_id.as_str(),
            ev.encrypted_value.as_str(),
        ),
        _ => Ok(()),
    }
}

/// An event together with the messages and the state after it.
#[derive(Debug, Clone, PartialEq)]
pub struct AppliedEvent {
    pub event: Event,
    pub messages: Vec<Message>,
    pub state: State,
}

/// The messages before output item `i`: the initial ones, or those after item `i - 1`.
pub open spec fn messages_before(
    r: Seq<Result<AppliedEvent, AgUiError>>,
    initial: Seq<MessageV>,
    i: int,
) -> Seq<MessageV> {
    if i == 0 {
        initial
    } else {
        messages_view(r[i - 1]->Ok_0.messages@)
    }
}

/// The state before output item `i`: the initial one, or the one after item `i - 1`.
pub open spec fn state_before(r: Seq<Result<AppliedEvent, AgUiError>>, initial: State, i: int) -> State {
    if i == 0 {
        initial
    } else {
        r[i - 1]->Ok_0.state
    }
}

/// Folds a run's events, in order, into messages and state, starting from the given ones. Each
/// event comes out with the messages and the state after it (as `apply_post` relates them to
/// those before); an upstream error is passed on, and an event that cannot be applied is
/// replaced by its error; either ends the output.
pub fn default_apply_events(
    items: Vec<Result<Event, AgUiError>>,
    initial_messages: Vec<Message>,
    initial_state: State,
) -> (r: Vec<Result<AppliedEvent, AgUiError>>)
    ensures
        r@.len() <= items@.len(),
        r@.len() < items@.len() ==> r@.len() > 0 && r@[r@.len() - 1] is Err,
        forall|i: int|
            0 <= i < r@.len() ==> match items@[i] {
                Err(e) => r@[i] == Err::<AppliedEvent, AgUiError>(e) && r@.len() == i + 1,
                Ok(ev) => match #[trigger] r@[i] {
                    Ok(a) => a.event == ev && apply_post(
                        messages_before(r@, messages_view(initial_messages@), i),
                        state_before(r@, initial_state, i),
                        ev,
                        messages_view(a.messages@),
                        a.state,
                        Ok(()),
                    ),
                    Err(e) => r@.len() == i + 1 && exists|ms1: Seq<MessageV>, st1: State|
                        apply_post(
                            messages_before(r@, messages_view(initial_messages@), i),
                            state_before(r@, initial_state, i),
                            ev,
                            ms1,
                            st1,
                            Err::<(), AgUiError>(e),
                        ),
                },
            },
{
    let ghost orig = items@;
    let ghost init_ms = messages_view(initial_messages@);
    let ghost init_st = initial_state;
    let mut st = ApplyState { messages: initial_messages, state: initial_state };
    let mut out: Vec<Result<AppliedEvent, AgUiError>> = Vec::new();
    for item in it: items.into_iter()
        invariant
            it.seq() == orig,
            orig == items@,
            init_ms == messages_view(initial_messages@),
            init_st == initial_state,
            out@.len() == it.index(),
            messages_view(st.messages@) == messages_before(out@, init_ms, out@.len() as int),
            st.state == state_before(out@, init_st, out@.len() as int),
            forall|k: int| 0 <= k < out@.len() ==> (#[trigger] out@[k]) is Ok,
            forall|k: int|
                0 <= k < out@.len() ==> (orig[k] matches Ok(ev) && #[trigger] out@[k] matches Ok(a) && a.event
                    == ev && apply_post(
                    messages_before(out@, init_ms, k),
                    state_before(out@, init_st, k),
                    ev,
                    messages_view(a.messages@),
                    a.state,
                    Ok(()),
                )),
    {
        let ghost i = it.index() as int;
        let ghost prev = out@;
        assert(item == orig[i]);
        match item {
            Err(e) => {
                out.push(Err(e));
                proof {
                    assert forall|k: int| 0 <= k < i implies messages_before(out@, init_ms, k)
                        == messages_before(prev, init_ms, k) && state_before(out@, init_st, k)
                        == state_before(prev, init_st, k) by {}
                }
                return out;
            },
            Ok(event) => {
                let ghost ms0 = messages_view(st.messages@);
                let ghost st0 = st.state;
                match apply_event(&mut st, &event) {
                    Err(e) => {
                        let ghost ms1 = messages_view(st.messages@);
                        let ghost st1 = st.state;
                        out.push(Err(e));
                        proof {
                            assert(messages_before(out@, init_ms, i) == ms0);
                            assert(state_before(out@, init_st, i) == st0);
                            assert(apply_post(ms0, st0, event, ms1, st1, Err::<(), AgUiError>(e)));
                            assert forall|k: int| 0 <= k < i implies messages_before(
                                out@,
                                init_ms,
                                k,
                            ) == messages_before(prev, init_ms, k) && state_before(
                                out@,
                                init_st,
                                k,
                            ) == state_before(prev, init_st, k) by {}
                        }
                        return out;
                    },
                    Ok(()) => {
                        let applied = AppliedEvent {
                            event,
                            messages: clone_messages(&st.messages),
                            state: st.state.clone(),
                        };
                        out.push(Ok(applied));
                        proof {
                            assert(messages_before(out@, init_ms, i) == ms0);
                            assert(state_before(out@, init_st, i) == st0);
                            assert forall|k: int| 0 <= k < i implies messages_before(
                                out@,
                                init_ms,
                                k,
                            ) == messages_before(prev, init_ms, k) && state_before(
                                out@,
                                init_st,
                                k,
                            ) == state_before(prev, init_st, k) by {}
                        }
                    },
                }
            },
        }
    }
    out
}

/// An event that cannot be applied changes nothing: the messages and the state stay as they
/// were.
pub proof fn law_failed_event_changes_nothing(
    ms0: Seq<MessageV>,
    st0: State,
    e: Event,
    ms1: Seq<MessageV>,
    st1: State,
    r: Result<(), AgUiError>,
)
    requires
        apply_post(ms0, st0, e, ms1, st1, r),
        r is Err,
    ensures
        ms1 == ms0,
        st1 == st0,
{
}

/// A state snapshot replaces the state and leaves the messages; no event but a snapshot or a
/// delta of the state changes the state.
pub proof fn law_only_state_events_change_state(
    ms0: Seq<MessageV>,
    st0: State,
    e: Event,
    ms1: Seq<MessageV>,
    st1: State,
    r: Result<(), AgUiError>,
)
    requires
        apply_post(ms0, st0, e, ms1, st1, r),
    ensures
        e matches Event::StateSnapshot(ev) ==> r is Ok && st1 == ev.snapshot && ms1 == ms0,
        !(e is StateSnapshot) && !(e is StateDelta) ==> st1 == st0,
{
}

/// The assistant message behind a message, to change in place; a validation error when the
/// message is of another kind.
pub fn assistant_message_mut(message: &mut Message) -> (r: Result<&mut AssistantMessage, AgUiError>)
    ensures
        match *old(message) {
            Message::Assistant(a) => r matches Ok(x) && *x == a && *final(message)
                == Message::Assistant(*final(x)),
            _ => r matches Err(AgUiError::Validation(m)) && m@ == "expected assistant message"@
                && *final(message) == *old(message),
        },
{
    match message {
        Message::Assistant(m) => Ok(m),
        _ => Err(AgUiError::validation("expected assistant message")),
    }
}

/// The tool call at `ti` of a list, to change in place.
fn tool_call_slot(tcs: &mut Vec<ToolCall>, ti: usize) -> (t: &mut ToolCall)
    requires
        ti < old(tcs)@.len(),
    ensures
        *t == old(tcs)@[ti as int],
        crate::types::tool_calls_view(final(tcs)@) == crate::types::tool_calls_view(old(tcs)@).update(
            ti as int,
            (*final(t))@,
        ),
{
    &mut tcs[ti]
}

/// The tool call at `ti` of an assistant message, to change in place.
fn assistant_tool_call_slot(m: &mut Message, ti: usize) -> (t: &mut ToolCall)
    requires
        old(m)@ matches MessageV::Assistant { tool_calls: Some(tcs), .. } && ti < tcs.len(),
    ensures
        (*t)@ == old(m)@->Assistant_tool_calls->0[ti as int],
        (*final(m))@ == with_tool_call(old(m)@, ti as int, (*final(t))@),
{
    match m {
        Message::Assistant(a) => match &mut a.tool_calls {
            Some(tcs) => tool_call_slot(tcs, ti),
            None => vstd::pervasive::unreached(),
        },
        _ => vstd::pervasive::unreached(),
    }
}

/// The first tool call with the given id, to change in place; a validation error
/// `tool call '<id>' not found` when no assistant message has one.
pub fn find_tool_call_mut<'a>(messages: &'a mut Vec<Message>, tool_call_id: &str) -> (r: Result<
    &'a mut ToolCall,
    AgUiError,
>)
    ensures
        match find_tc(messages_view(old(messages)@), tool_call_id@) {
            Some((mi, ti)) => r matches Ok(t) && (*t)@ == messages_view(
                old(messages)@,
            )[mi]->Assistant_tool_calls->0[ti] && messages_view(final(messages)@) == messages_view(
                old(messages)@,
            ).update(mi, with_tool_call(messages_view(old(messages)@)[mi], ti, (*final(t))@)),
            None => r matches Err(AgUiError::Validation(m)) && m@ == "tool call '"@
                + tool_call_id@ + "' not found"@ && final(messages)@ == old(messages)@,
        },
{
    let ghost ms = messages_view(messages@);
    match find_tool_call(messages, tool_call_id) {
        Some((mi, ti)) => {
            proof {
                lemma_find_tc_from(ms, tool_call_id@, 0);
            }
            assert(ms[mi as int] == messages@[mi as int]@);
            let m = &mut messages[mi];
            Ok(assistant_tool_call_slot(m, ti))
        },
        None => Err(AgUiError::Validation(crate::text::concat3("tool call '", tool_call_id, "' not found"))),
    }
}


/// The tool calls a message holds: those of an assistant message with a list, none otherwise.
pub open spec fn held_tool_calls(m: MessageV) -> Seq<ToolCallV> {
    match msg_tool_calls(m) {
        Some(t) => t,
        None => Seq::empty(),
    }
}

proof fn lemma_last_assistant_is(ms: Seq<MessageV>, k: int, i: int)
    requires
        0 <= i < k <= ms.len(),
        ms[i] is Assistant,
        forall|j: int| i < j < ms.len() ==> !(#[trigger] ms[j] is Assistant),
    ensures
        last_assistant_below(ms, k) == Some(i),
    decreases k,
{
    if k - 1 > i {
        lemma_last_assistant_is(ms, k - 1, i);
    }
}

proof fn lemma_no_assistant(ms: Seq<MessageV>, k: int)
    requires
        0 <= k <= ms.len(),
        forall|j: int| 0 <= j < ms.len() ==> !(#[trigger] ms[j] is Assistant),
    ensures
        last_assistant_below(ms, k) is None,
    decreases k,
{
    if k > 0 {
        lemma_no_assistant(ms, k - 1);
    }
}

proof fn lemma_tc_absent(tcs: Seq<ToolCallV>, id: Seq<char>, k: int)
    requires
        0 <= k,
        forall|t: int| 0 <= t < tcs.len() ==> (#[trigger] tcs[t]).id != id,
    ensures
        tc_find_from(tcs, id, k) is None,
    decreases tcs.len() - k,
{
    if k < tcs.len() {
        lemma_tc_absent(tcs, id, k + 1);
    }
}

/// A `TOOL_CALL_START` without a parent id goes to the last assistant message: when there is
/// one (at index `i`), no message is added or removed, every other message stays as it was,
/// and message `i` keeps its id, content and name and gains the tool call (appended when it had
/// none with that id, renamed in place when it had one). When there is no assistant message at
/// all, one new assistant message named after the tool call is appended, holding just that
/// tool call.
pub proof fn law_tool_call_without_parent_joins_last_assistant(
    ms0: Seq<MessageV>,
    st0: State,
    ev: ToolCallStartEvent,
    ms1: Seq<MessageV>,
    st1: State,
    r: Result<(), AgUiError>,
    i: int,
)
    requires
        apply_post(ms0, st0, Event::ToolCallStart(ev), ms1, st1, r),
        ev.parent_message_id is None,
    ensures
        r is Ok,
        (0 <= i < ms0.len() && ms0[i] is Assistant && forall|j: int|
            i < j < ms0.len() ==> !(#[trigger] ms0[j] is Assistant)) ==> {
            &&& ms1.len() == ms0.len()
            &&& forall|j: int| 0 <= j < ms0.len() && j != i ==> ms1[j] == ms0[j]
            &&& ms1[i] matches MessageV::Assistant { id, content, name, tool_calls: Some(tcs), .. }
            &&& id == ms0[i]->Assistant_id && content == ms0[i]->Assistant_content
                && name == ms0[i]->Assistant_name
            &&& exists|t: int|
                0 <= t < tcs.len() && (#[trigger] tcs[t]).id == ev.tool_call_id@ && tcs[t].name
                    == ev.tool_call_name@
            &&& (forall|t: int|
                0 <= t < held_tool_calls(ms0[i]).len() ==> (#[trigger] held_tool_calls(ms0[i])[t]).id
                    != ev.tool_call_id@) ==> tcs == held_tool_calls(ms0[i]).push(
                ToolCallV {
                    id: ev.tool_call_id@,
                    kind: ToolCallKind::Function,
                    name: ev.tool_call_name@,
                    arguments: Seq::empty(),
                    encrypted_value: None,
                },
            )
            &&& tcs.len() >= held_tool_calls(ms0[i]).len()
        },
        (forall|j: int| 0 <= j < ms0.len() ==> !(#[trigger] ms0[j] is Assistant)) ==> {
            &&& ms1.len() == ms0.len() + 1
            &&& forall|j: int| 0 <= j < ms0.len() ==> ms1[j] == ms0[j]
            &&& ms1[ms0.len() as int] == MessageV::Assistant {
                id: ev.tool_call_id@,
                content: None,
                name: None,
                tool_calls: Some(
                    seq![
                        ToolCallV {
                            id: ev.tool_call_id@,
                            kind: ToolCallKind::Function,
                            name: ev.tool_call_name@,
                            arguments: Seq::empty(),
                            encrypted_value: None,
                        },
                    ],
                ),
                encrypted_value: None,
            }
        },
{
    let newtc = ToolCallV {
        id: ev.tool_call_id@,
        kind: ToolCallKind::Function,
        name: ev.tool_call_name@,
        arguments: Seq::empty(),
        encrypted_value: None,
    };
    if 0 <= i < ms0.len() && ms0[i] is Assistant && forall|j: int|
        i < j < ms0.len() ==> !(#[trigger] ms0[j] is Assistant) {
        lemma_last_assistant_is(ms0, ms0.len() as int, i);
        let tcs0 = held_tool_calls(ms0[i]);
        lemma_tc_find_from(tcs0, ev.tool_call_id@, 0);
        match tc_find_from(tcs0, ev.tool_call_id@, 0) {
            Some(t) => {
                let tcs = tcs0.update(t, ToolCallV { name: ev.tool_call_name@, ..tcs0[t] });
                assert(tcs[t].id == ev.tool_call_id@);
                if forall|u: int| 0 <= u < tcs0.len() ==> (#[trigger] tcs0[u]).id != ev.tool_call_id@ {
                    assert(tcs0[t].id != ev.tool_call_id@);
                }
            },
            None => {
                let tcs = tcs0.push(newtc);
                assert(tcs[tcs0.len() as int] == newtc);
            },
        }
    }
    if forall|j: int| 0 <= j < ms0.len() ==> !(#[trigger] ms0[j] is Assistant) {
        lemma_no_assistant(ms0, ms0.len() as int);
        let ms = ms0.push(bare_assistant(ev.tool_call_id@));
        assert(msg_tool_calls(ms[ms0.len() as int]) == Some(Seq::<ToolCallV>::empty()));
        assert(Seq::<ToolCallV>::empty().push(newtc) =~= seq![newtc]);
    }
}


proof fn lemma_find_first(ms: Seq<MessageV>, id: Seq<char>, k: int, i: int)
    requires
        0 <= k <= i < ms.len(),
        ms[i].id() == id,
        forall|j: int| 0 <= j < i ==> (#[trigger] ms[j]).id() != id,
    ensures
        find_from(ms, id, k) == Some(i),
    decreases i - k,
{
    if k < i {
        lemma_find_first(ms, id, k + 1, i);
    }
}

proof fn lemma_find_none(ms: Seq<MessageV>, id: Seq<char>, k: int)
    requires
        0 <= k,
        forall|j: int| 0 <= j < ms.len() ==> (#[trigger] ms[j]).id() != id,
    ensures
        find_from(ms, id, k) is None,
    decreases ms.len() - k,
{
    if k < ms.len() {
        lemma_find_none(ms, id, k + 1);
    }
}

/// A `TOOL_CALL_START` whose parent id names an assistant message (the first message with that
/// id, at index `i`) adds the tool call to that message: no message is added or removed, every
/// other message stays, and message `i` keeps its id and content and holds the tool call. When
/// no message has the parent id, one new assistant message named after the parent is appended,
/// holding just the tool call.
pub proof fn law_tool_call_with_parent_joins_the_parent(
    ms0: Seq<MessageV>,
    st0: State,
    ev: ToolCallStartEvent,
    ms1: Seq<MessageV>,
    st1: State,
    r: Result<(), AgUiError>,
    i: int,
)
    requires
        apply_post(ms0, st0, Event::ToolCallStart(ev), ms1, st1, r),
        ev.parent_message_id is Some,
    ensures
        r is Ok,
        (0 <= i < ms0.len() && ms0[i] is Assistant && ms0[i].id() == ev.parent_message_id->0@
            && forall|j: int| 0 <= j < i ==> (#[trigger] ms0[j]).id() != ev.parent_message_id->0@)
            ==> {
            &&& ms1.len() == ms0.len()
            &&& forall|j: int| 0 <= j < ms0.len() && j != i ==> ms1[j] == ms0[j]
            &&& ms1[i] matches MessageV::Assistant { id, content, tool_calls: Some(tcs), .. }
            &&& id == ms0[i]->Assistant_id && content == ms0[i]->Assistant_content
            &&& exists|t: int|
                0 <= t < tcs.len() && (#[trigger] tcs[t]).id == ev.tool_call_id@ && tcs[t].name
                    == ev.tool_call_name@
        },
        (forall|j: int| 0 <= j < ms0.len() ==> (#[trigger] ms0[j]).id() != ev.parent_message_id->0@)
            ==> {
            &&& ms1.len() == ms0.len() + 1
            &&& forall|j: int| 0 <= j < ms0.len() ==> ms1[j] == ms0[j]
            &&& ms1[ms0.len() as int] matches MessageV::Assistant { id, tool_calls: Some(tcs), .. }
            &&& id == ev.parent_message_id->0@
            &&& tcs.len() == 1 && tcs[0].id == ev.tool_call_id@ && tcs[0].name == ev.tool_call_name@
        },
{
    let p = ev.parent_message_id->0@;
    if 0 <= i < ms0.len() && ms0[i] is Assistant && ms0[i].id() == p && forall|j: int|
        0 <= j < i ==> (#[trigger] ms0[j]).id() != p {
        lemma_find_first(ms0, p, 0, i);
        assert(opt_str(ev.parent_message_id) == Some(p));
        assert(resolve_v(ms0, Some(p), ev.tool_call_id@) == (ms0, i));
        let tcs0 = held_tool_calls(ms0[i]);
        lemma_tc_find_from(tcs0, ev.tool_call_id@, 0);
        match tc_find_from(tcs0, ev.tool_call_id@, 0) {
            Some(t) => {
                let tcs = tcs0.update(t, ToolCallV { name: ev.tool_call_name@, ..tcs0[t] });
                assert(tcs[t].id == ev.tool_call_id@);
                assert(ms1 == ms0.update(i, set_tool_calls(ms0[i], tcs)));
                assert(ms1.len() == ms0.len());
                assert(ms1[i] matches MessageV::Assistant { tool_calls: Some(x), .. } && x == tcs);
            },
            None => {
                let newtc = ToolCallV {
                    id: ev.tool_call_id@,
                    kind: ToolCallKind::Function,
                    name: ev.tool_call_name@,
                    arguments: Seq::empty(),
                    encrypted_value: None,
                };
                let tcs = tcs0.push(newtc);
                assert(tcs[tcs0.len() as int] == newtc);
                assert(ms1 == ms0.update(i, set_tool_calls(ms0[i], tcs)));
                assert(ms1[i] matches MessageV::Assistant { tool_calls: Some(x), .. } && x == tcs);
                assert(ms1[i]->Assistant_content == ms0[i]->Assistant_content);
                assert(ms1[i]->Assistant_id == ms0[i]->Assistant_id);
            },
        }
    }
    if forall|j: int| 0 <= j < ms0.len() ==> (#[trigger] ms0[j]).id() != p {
        lemma_find_none(ms0, p, 0);
        let ms = ms0.push(bare_assistant(p));
        assert(msg_tool_calls(ms[ms0.len() as int]) == Some(Seq::<ToolCallV>::empty()));
    }
}

} // verus!

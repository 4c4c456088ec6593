//! The bookkeeping of an agent runner: what it keeps between runs, the input it hands the
//! agent, how each event that comes back updates the run, and what a run returns. Calling
//! the agent, the middleware and the subscriber's hooks is left to the caller, which hands
//! their results to the functions here.
use vstd::prelude::*;
use crate::apply::{find_message_index, find_msg, AppliedEvent};
use crate::clock::{generate_id, numbered_id};
use crate::events::{Event, RunFinishedOutcome};
use crate::id_map::IdMap;
use crate::text::{owned, str_eq};
use crate::types::{
    clone_messages, clone_opt_string, messages_view, ActivityMessage, AssistantMessage, Context,
    Interrupt, Message, MessageV, ResumeEntry, RunAgentInput, State, Tool, ToolCall, ToolCallV,
};

verus! {

/// How a runner is set up.
#[derive(Debug, Clone, Default)]
pub struct AgentConfig {
    pub agent_id: Option<String>,
    pub description: Option<String>,
    pub thread_id: Option<String>,
    pub initial_messages: Vec<Message>,
    pub initial_state: State,
}

/// What one run is asked to do.
#[derive(Debug, Clone, Default)]
pub struct RunAgentParameters {
    pub run_id: Option<String>,
    pub tools: Vec<Tool>,
    pub context: Vec<Context>,
    pub forwarded_props: Option<serde_json::Value>,
    pub resume: Vec<ResumeEntry>,
}

/// What a run gives back: its ids, the messages it added, the state it left, and how it
/// finished.
#[derive(Debug, Clone, PartialEq)]
pub struct RunAgentResult {
    pub run_id: String,
    pub thread_id: String,
    pub new_messages: Vec<Message>,
    pub new_state: State,
    pub outcome: Option<RunFinishedOutcome>,
}

/// The time that a runner without a clock reads: the empty string, which sorts before every
/// real timestamp, so that nothing ever counts as expired.
pub fn default_now() -> (r: String)
    ensures
        r@ == Seq::<char>::empty(),
{
    String::new()
}

/// A message after the replacements: the replacement stored under its id, or itself.
pub open spec fn replaced_message(m: MessageV, reps: IdMap<Message>) -> MessageV {
    match reps.get(m.id()) {
        Some(r) => r@,
        None => m,
    }
}

/// Replaces every message whose id has a replacement, as `replaced_message` says.
pub fn apply_message_replacements(messages: &mut Vec<Message>, replacements: &IdMap<Message>)
    ensures
        messages_view(final(messages)@) == messages_view(old(messages)@).map_values(
            |m: MessageV| replaced_message(m, *replacements),
        ),
{
    let ghost before = messages_view(messages@);
    let mut i: usize = 0;
    while i < messages.len()
        invariant
            before.len() == messages@.len(),
            i <= messages@.len(),
            forall|k: int|
                0 <= k < i ==> (#[trigger] messages@[k])@ == replaced_message(
                    before[k],
                    *replacements,
                ),
            forall|k: int| i <= k < messages@.len() ==> (#[trigger] messages@[k])@ == before[k],
        decreases messages.len() - i,
    {
        let found = replacements.lookup(messages[i].id());
        match found {
            Some(r) => {
                let m = r.clone();
                messages.set(i, m);
            },
            None => {},
        }
        i += 1;
    }
    assert(messages_view(messages@) =~= before.map_values(
        |m: MessageV| replaced_message(m, *replacements),
    ));
}

/// A tool call after the replacements: the replacement stored under its id, or itself.
pub open spec fn replaced_tool_call(t: ToolCallV, reps: IdMap<ToolCall>) -> ToolCallV {
    match reps.get(t.id) {
        Some(r) => r@,
        None => t,
    }
}

/// A message with the replacements applied to its tool calls: only an assistant message with
/// tool calls changes.
pub open spec fn with_replaced_tool_calls(m: MessageV, reps: IdMap<ToolCall>) -> MessageV {
    match m {
        MessageV::Assistant { id, content, name, tool_calls: Some(tcs), encrypted_value } =>
            MessageV::Assistant {
            id,
            content,
            name,
            tool_calls: Some(tcs.map_values(|t: ToolCallV| replaced_tool_call(t, reps))),
            encrypted_value,
        },
        _ => m,
    }
}

/// The tool calls with their replacements.
fn replace_in_tool_calls(tcs: &Vec<ToolCall>, replacements: &IdMap<ToolCall>) -> (r: Vec<
    ToolCall,
>)
    ensures
        crate::types::tool_calls_view(r@) == crate::types::tool_calls_view(tcs@).map_values(
            |t: ToolCallV| replaced_tool_call(t, *replacements),
        ),
{
    let mut r: Vec<ToolCall> = Vec::new();
    let mut i: usize = 0;
    while i < tcs.len()
        invariant
            i <= tcs@.len(),
            r@.len() == i,
            forall|k: int|
                0 <= k < i ==> (#[trigger] r@[k])@ == replaced_tool_call(tcs@[k]@, *replacements),
        decreases tcs.len() - i,
    {
        let found = replacements.lookup(tcs[i].id.as_str());
        let t = match found {
            Some(x) => x.clone(),
            None => tcs[i].clone(),
        };
        r.push(t);
        i += 1;
    }
    assert(crate::types::tool_calls_view(r@) =~= crate::types::tool_calls_view(tcs@).map_values(
        |t: ToolCallV| replaced_tool_call(t, *replacements),
    ));
    r
}

/// Replaces every tool call of an assistant message whose id has a replacement, as
/// `with_replaced_tool_calls` says.
pub fn apply_tool_call_replacements(messages: &mut Vec<Message>, replacements: &IdMap<ToolCall>)
    ensures
        messages_view(final(messages)@) == messages_view(old(messages)@).map_values(
            |m: MessageV| with_replaced_tool_calls(m, *replacements),
        ),
{
    let ghost before = messages_view(messages@);
    let mut i: usize = 0;
    while i < messages.len()
        invariant
            before.len() == messages@.len(),
            i <= messages@.len(),
            forall|k: int|
                0 <= k < i ==> (#[trigger] messages@[k])@ == with_replaced_tool_calls(
                    before[k],
                    *replacements,
                ),
            forall|k: int| i <= k < messages@.len() ==> (#[trigger] messages@[k])@ == before[k],
        decreases messages.len() - i,
    {
        let updated: Option<Message> = match &messages[i] {
            Message::Assistant(a) => match &a.tool_calls {
                Some(tcs) => {
                    let new_tcs = replace_in_tool_calls(tcs, replacements);
                    Some(
                        Message::Assistant(
                            AssistantMessage {
                                id: a.id.clone(),
                                content: clone_opt_string(&a.content),
                                name: clone_opt_string(&a.name),
                                tool_calls: Some(new_tcs),
                                encrypted_value: clone_opt_string(&a.encrypted_value),
                            },
                        ),
                    )
                },
                None => None,
            },
            _ => None,
        };
        match updated {
            Some(m) => {
                messages.set(i, m);
            },
            None => {},
        }
        i += 1;
    }
    assert(messages_view(messages@) =~= before.map_values(
        |m: MessageV| with_replaced_tool_calls(m, *replacements),
    ));
}

/// The first message with the given id.
pub fn find_message<'a>(messages: &'a Vec<Message>, message_id: &str) -> (r: Option<&'a Message>)
    ensures
        match find_msg(messages_view(messages@), message_id@) {
            Some(i) => r matches Some(m) && m@ == messages@[i]@,
            None => r is None,
        },
{
    match find_message_index(messages, message_id) {
        Some(i) => Some(&messages[i]),
        None => None,
    }
}

/// The index, from `k` on, of the first activity message with id `id`.
pub open spec fn find_activity_from(ms: Seq<MessageV>, id: Seq<char>, k: int) -> Option<int>
    decreases ms.len() - k,
{
    if k < 0 || k >= ms.len() {
        None
    } else if ms[k] is Activity && ms[k].id() == id {
        Some(k)
    } else {
        find_activity_from(ms, id, k + 1)
    }
}

/// The first activity message with the given id; messages of other kinds with that id are
/// passed over.
pub fn find_activity_message<'a>(messages: &'a Vec<Message>, message_id: &str) -> (r: Option<
    &'a ActivityMessage,
>)
    ensures
        match find_activity_from(messages_view(messages@), message_id@, 0) {
            Some(i) => r matches Some(a) && messages@[i] == Message::Activity(*a),
            None => r is None,
        },
{
    let ghost ms = messages_view(messages@);
    let mut i: usize = 0;
    while i < messages.len()
        invariant
            ms == messages_view(messages@),
            i <= messages@.len(),
            find_activity_from(ms, message_id@, 0) == find_activity_from(ms, message_id@, i as int),
        decreases messages.len() - i,
    {
        assert(ms[i as int] == messages@[i as int]@);
        match &messages[i] {
            Message::Activity(a) => {
                if str_eq(a.id.as_str(), message_id) {
                    return Some(a);
                }
            },
            _ => {},
        }
        i += 1;
    }
    None
}

/// The view of a run's outcome: `None` when not known, `Some(None)` for success, and
/// `Some(Some(interrupts))` when it stopped on interrupts.
pub open spec fn outcome_view(o: Option<RunFinishedOutcome>) -> Option<Option<Seq<Interrupt>>> {
    match o {
        None => None,
        Some(RunFinishedOutcome::Success) => Some(None),
        Some(RunFinishedOutcome::Interrupt { interrupts }) => Some(Some(interrupts@)),
    }
}

/// Clones a list of interrupts.
pub fn clone_interrupts(v: &Vec<Interrupt>) -> (r: Vec<Interrupt>)
    ensures
        r@ == v@,
{
    let mut r: Vec<Interrupt> = Vec::new();
    let mut i: usize = 0;
    while i < v.len()
        invariant
            i <= v@.len(),
            r@ == v@.take(i as int),
        decreases v.len() - i,
    {
        r.push(v[i].clone());
        assert(v@.take(i + 1) =~= v@.take(i as int).push(v@[i as int]));
        i += 1;
    }
    assert(v@.take(v.len() as int) =~= v@);
    r
}

/// Clones a run's outcome.
pub fn clone_outcome(o: &Option<RunFinishedOutcome>) -> (r: Option<RunFinishedOutcome>)
    ensures
        outcome_view(r) == outcome_view(*o),
{
    match o {
        None => None,
        Some(RunFinishedOutcome::Success) => Some(RunFinishedOutcome::Success),
        Some(RunFinishedOutcome::Interrupt { interrupts }) => Some(
            RunFinishedOutcome::Interrupt { interrupts: clone_interrupts(interrupts) },
        ),
    }
}

/// The run as the runner sees it while events come in: its ids, messages and state.
#[derive(Debug)]
pub struct RunContext {
    pub run_id: String,
    pub thread_id: String,
    pub messages: Vec<Message>,
    pub state: State,
}

/// What a runner keeps between runs: the thread's messages and state, the thread id, and the
/// interrupts that the last run stopped on.
#[derive(Debug)]
pub struct RunnerState {
    pub messages: Vec<Message>,
    pub state: State,
    pub thread_id: String,
    pub pending_interrupts: Vec<Interrupt>,
}

/// The run id to use: the one asked for, or a fresh `run-<micros>`.
pub fn resolve_run_id(run_id: Option<String>) -> (r: String)
    ensures
        match run_id {
            Some(id) => r == id,
            None => exists|n: u128| r@ == numbered_id("run"@, n as nat),
        },
{
    match run_id {
        Some(id) => id,
        None => generate_id("run"),
    }
}

impl RunnerState {
    /// A runner's state before its first run: the configured messages and state, the
    /// configured thread id or a fresh `thread-<micros>`, and no pending interrupts.
    pub fn new(config: AgentConfig) -> (r: Self)
        ensures
            r.messages == config.initial_messages,
            r.state == config.initial_state,
            r.pending_interrupts@.len() == 0,
            match config.thread_id {
                Some(t) => r.thread_id == t,
                None => exists|n: u128| r.thread_id@ == numbered_id("thread"@, n as nat),
            },
    {
        let thread_id = match config.thread_id {
            Some(t) => t,
            None => generate_id("thread"),
        };
        RunnerState {
            messages: config.initial_messages,
            state: config.initial_state,
            thread_id,
            pending_interrupts: Vec::new(),
        }
    }

    /// The input of a run: the thread's id, messages and state, the run id, and what the run
    /// was asked for; forwarded properties default to `null`, and the resume entries are sent
    /// only when there are any.
    pub fn run_input(&self, run_id: &str, params: RunAgentParameters) -> (r: RunAgentInput)
        ensures
            r.thread_id@ == self.thread_id@,
            r.run_id@ == run_id@,
            r.parent_run_id is None,
            r.state == self.state,
            messages_view(r.messages@) == messages_view(self.messages@),
            r.tools == params.tools,
            r.context == params.context,
            r.forwarded_props == match params.forwarded_props {
                Some(v) => v,
                None => crate::json::json_or_null(None),
            },
            r.resume == if params.resume@.len() == 0 {
                None
            } else {
                Some(params.resume)
            },
    {
        let forwarded_props = crate::json::json_from_option(params.forwarded_props);
        let resume = if params.resume.len() == 0 {
            None
        } else {
            Some(params.resume)
        };
        RunAgentInput {
            thread_id: self.thread_id.clone(),
            run_id: owned(run_id),
            parent_run_id: None,
            state: self.state.clone(),
            messages: clone_messages(&self.messages),
            tools: params.tools,
            context: params.context,
            forwarded_props,
            resume,
        }
    }

    /// The run as it stands before its first event: the run id, and the thread's id,
    /// messages and state.
    pub fn start_context(&self, run_id: &str) -> (r: RunContext)
        ensures
            r.run_id@ == run_id@,
            r.thread_id@ == self.thread_id@,
            messages_view(r.messages@) == messages_view(self.messages@),
            r.state == self.state,
    {
        RunContext {
            run_id: owned(run_id),
            thread_id: self.thread_id.clone(),
            messages: clone_messages(&self.messages),
            state: self.state.clone(),
        }
    }
}

/// The messages after the replacements of messages, then of tool calls.
pub open spec fn with_replacements(
    ms: Seq<MessageV>,
    message_reps: IdMap<Message>,
    tool_call_reps: IdMap<ToolCall>,
) -> Seq<MessageV> {
    ms.map_values(|m: MessageV| replaced_message(m, message_reps)).map_values(
        |m: MessageV| with_replaced_tool_calls(m, tool_call_reps),
    )
}

/// The bookkeeping of one run: the run as it stands, how it finished, and the replacements
/// that the subscriber asked for, which later events keep applying.
pub struct RunTracker {
    pub context: RunContext,
    pub outcome: Option<RunFinishedOutcome>,
    pub message_replacements: IdMap<Message>,
    pub tool_call_replacements: IdMap<ToolCall>,
    pub announced_tool_call_ids: IdMap<bool>,
}

impl RunTracker {
    /// The bookkeeping of a run that has seen no event yet.
    pub fn new(context: RunContext) -> (r: Self)
        ensures
            r.context == context,
            r.outcome is None,
            forall|k: Seq<char>| #[trigger] r.message_replacements.get(k) is None,
            forall|k: Seq<char>| #[trigger] r.tool_call_replacements.get(k) is None,
            forall|k: Seq<char>| #[trigger] r.announced_tool_call_ids.get(k) is None,
    {
        RunTracker {
            context,
            outcome: None,
            message_replacements: IdMap::new(),
            tool_call_replacements: IdMap::new(),
            announced_tool_call_ids: IdMap::new(),
        }
    }

    /// Takes in an applied event: the run's messages and state become those after the event,
    /// with the replacements applied; `RUN_STARTED` sets the run's ids (and the runner's
    /// thread id), and `RUN_FINISHED` how the run finished.
    pub fn observe(&mut self, runner: &mut RunnerState, applied: AppliedEvent)
        ensures
            messages_view(final(self).context.messages@) == with_replacements(
                messages_view(applied.messages@),
                old(self).message_replacements,
                old(self).tool_call_replacements,
            ),
            final(self).context.state == applied.state,
            final(self).message_replacements == old(self).message_replacements,
            final(self).tool_call_replacements == old(self).tool_call_replacements,
            final(self).announced_tool_call_ids == old(self).announced_tool_call_ids,
            final(runner).messages == old(runner).messages,
            final(runner).state == old(runner).state,
            final(runner).pending_interrupts == old(runner).pending_interrupts,
            match applied.event {
                Event::RunStarted(e) => final(self).context.run_id@ == e.run_id@
                    && final(self).context.thread_id@ == e.thread_id@ && final(runner).thread_id@
                    == e.thread_id@,
                _ => final(self).context.run_id == old(self).context.run_id
                    && final(self).context.thread_id == old(self).context.thread_id
                    && final(runner).thread_id == old(runner).thread_id,
            },
            match applied.event {
                Event::RunFinished(e) => outcome_view(final(self).outcome) == outcome_view(
                    e.outcome,
                ),
                _ => final(self).outcome == old(self).outcome,
            },
    {
        let AppliedEvent { event, messages, state } = applied;
        let mut messages = messages;
        apply_message_replacements(&mut messages, &self.message_replacements);
        apply_tool_call_replacements(&mut messages, &self.tool_call_replacements);
        self.context.messages = messages;
        self.context.state = state;
        match &event {
            Event::RunStarted(e) => {
                self.context.run_id = e.run_id.clone();
                self.context.thread_id = e.thread_id.clone();
                runner.thread_id = e.thread_id.clone();
            },
            Event::RunFinished(e) => {
                self.outcome = clone_outcome(&e.outcome);
            },
            _ => {},
        }
    }

    /// Takes in the subscriber's replacement of the message at `idx`: the message is
    /// replaced, and so is every later message with its original id.
    pub fn replace_message(&mut self, idx: usize, replacement: Message)
        requires
            idx < old(self).context.messages@.len(),
        ensures
            messages_view(final(self).context.messages@) == messages_view(
                old(self).context.messages@,
            ).update(idx as int, replacement@),
            forall|k: Seq<char>| #[trigger]
                final(self).message_replacements.get(k) == if k
                    == old(self).context.messages@[idx as int]@.id() {
                    Some(replacement)
                } else {
                    old(self).message_replacements.get(k)
                },
            final(self).context.run_id == old(self).context.run_id,
            final(self).context.thread_id == old(self).context.thread_id,
            final(self).context.state == old(self).context.state,
            final(self).outcome == old(self).outcome,
            final(self).tool_call_replacements == old(self).tool_call_replacements,
            final(self).announced_tool_call_ids == old(self).announced_tool_call_ids,
    {
        let original_id = owned(self.context.messages[idx].id());
        let copy = replacement.clone();
        let ghost rep = replacement;
        self.message_replacements.insert(original_id, replacement);
        let ghost before = messages_view(self.context.messages@);
        self.context.messages.set(idx, copy);
        assert(messages_view(self.context.messages@) =~= before.update(idx as int, rep@));
    }

    /// Whether the subscriber has been told of the tool call with this id.
    pub fn is_announced(&self, tool_call_id: &str) -> (r: bool)
        ensures
            r == self.announced_tool_call_ids.get(tool_call_id@) is Some,
    {
        self.announced_tool_call_ids.lookup(tool_call_id).is_some()
    }

    /// Records that the subscriber has been told of the tool call with this id.
    pub fn announce(&mut self, tool_call_id: String)
        ensures
            forall|k: Seq<char>| #[trigger]
                (final(self).announced_tool_call_ids.get(k) is Some) == (k == tool_call_id@
                    || old(self).announced_tool_call_ids.get(k) is Some),
            final(self).context == old(self).context,
            final(self).outcome == old(self).outcome,
            final(self).message_replacements == old(self).message_replacements,
            final(self).tool_call_replacements == old(self).tool_call_replacements,
    {
        self.announced_tool_call_ids.insert(tool_call_id, true);
    }
}

/// Whether message `mi` is an assistant message with a tool call at `ti`.
pub open spec fn has_tool_call(ms: Seq<MessageV>, mi: int, ti: int) -> bool {
    &&& 0 <= mi < ms.len()
    &&& ms[mi] matches MessageV::Assistant { tool_calls: Some(tcs), .. } && 0 <= ti < tcs.len()
}

/// The tool call `ti` of message `mi`.
pub open spec fn tool_call_at(ms: Seq<MessageV>, mi: int, ti: int) -> ToolCallV {
    ms[mi]->Assistant_tool_calls->0[ti]
}

/// Message `mi` with its tool call `ti` replaced.
pub open spec fn set_tool_call_at(ms: Seq<MessageV>, mi: int, ti: int, t: ToolCallV) -> Seq<
    MessageV,
> {
    match ms[mi] {
        MessageV::Assistant { id, content, name, tool_calls: Some(tcs), encrypted_value } =>
            ms.update(
            mi,
            MessageV::Assistant {
                id,
                content,
                name,
                tool_calls: Some(tcs.update(ti, t)),
                encrypted_value,
            },
        ),
        _ => ms,
    }
}

impl RunTracker {
    /// Takes in the subscriber's replacement of tool call `ti` of message `mi`: the tool call
    /// is replaced, and so is every later tool call with its original id; both its original
    /// id and the replacement's count as announced.
    pub fn replace_tool_call(&mut self, mi: usize, ti: usize, replacement: ToolCall)
        requires
            has_tool_call(messages_view(old(self).context.messages@), mi as int, ti as int),
        ensures
            messages_view(final(self).context.messages@) == set_tool_call_at(
                messages_view(old(self).context.messages@),
                mi as int,
                ti as int,
                replacement@,
            ),
            forall|k: Seq<char>| #[trigger]
                final(self).tool_call_replacements.get(k) == if k == tool_call_at(
                    messages_view(old(self).context.messages@),
                    mi as int,
                    ti as int,
                ).id {
                    Some(replacement)
                } else {
                    old(self).tool_call_replacements.get(k)
                },
            forall|k: Seq<char>| #[trigger]
                (final(self).announced_tool_call_ids.get(k) is Some) == (k == tool_call_at(
                    messages_view(old(self).context.messages@),
                    mi as int,
                    ti as int,
                ).id || k == replacement.id@ || old(self).announced_tool_call_ids.get(k) is Some),
            final(self).context.run_id == old(self).context.run_id,
            final(self).context.thread_id == old(self).context.thread_id,
            final(self).context.state == old(self).context.state,
            final(self).outcome == old(self).outcome,
            final(self).message_replacements == old(self).message_replacements,
    {
        let ghost ms = messages_view(self.context.messages@);
        assert(ms[mi as int] == self.context.messages@[mi as int]@);
        let updated: Option<(String, Message)> = match &self.context.messages[mi] {
            Message::Assistant(a) => match &a.tool_calls {
                Some(tcs) => {
                    let original_id = tcs[ti].id.clone();
                    let mut new_tcs = crate::types::clone_tool_calls(tcs);
                    let ghost cloned = new_tcs@;
                    assert(crate::types::tool_calls_view(cloned)[ti as int] == cloned[ti as int]@);
                    new_tcs.set(ti, replacement.clone());
                    assert(crate::types::tool_calls_view(new_tcs@) =~= crate::types::tool_calls_view(
                        tcs@,
                    ).update(ti as int, replacement@));
                    Some(
                        (
                            original_id,
                            Message::Assistant(
                                AssistantMessage {
                                    id: a.id.clone(),
                                    content: clone_opt_string(&a.content),
                                    name: clone_opt_string(&a.name),
                                    tool_calls: Some(new_tcs),
                                    encrypted_value: clone_opt_string(&a.encrypted_value),
                                },
                            ),
                        ),
                    )
                },
                None => None,
            },
            _ => None,
        };
        match updated {
            Some((original_id, m)) => {
                let ghost new_m = m@;
                self.context.messages.set(mi, m);
                assert(messages_view(self.context.messages@) =~= set_tool_call_at(
                    ms,
                    mi as int,
                    ti as int,
                    replacement@,
                ));
                let key = original_id.clone();
                self.tool_call_replacements.insert(key, replacement.clone());
                self.announced_tool_call_ids.insert(original_id, true);
                self.announced_tool_call_ids.insert(replacement.id.clone(), true);
            },
            None => {},
        }
    }
}

impl RunnerState {
    /// Ends a run: the runner keeps the run's messages and state; it keeps the interrupts the
    /// run stopped on, or none when it finished otherwise; and the result holds the run's ids,
    /// the messages from `starting_len` on, the state, and the outcome.
    pub fn finish_run(&mut self, tracker: RunTracker, starting_len: usize) -> (r: RunAgentResult)
        requires
            starting_len <= tracker.context.messages@.len(),
        ensures
            final(self).messages == tracker.context.messages,
            final(self).state == tracker.context.state,
            final(self).thread_id == old(self).thread_id,
            final(self).pending_interrupts@ == match tracker.outcome {
                Some(RunFinishedOutcome::Interrupt { interrupts }) => interrupts@,
                _ => Seq::empty(),
            },
            r.run_id == tracker.context.run_id,
            r.thread_id == tracker.context.thread_id,
            messages_view(r.new_messages@) == messages_view(tracker.context.messages@).skip(
                starting_len as int,
            ),
            r.new_state == tracker.context.state,
            outcome_view(r.outcome) == outcome_view(tracker.outcome),
    {
        let RunTracker { context, outcome, .. } = tracker;
        let RunContext { run_id, thread_id, messages, state } = context;
        self.pending_interrupts = match &outcome {
            Some(RunFinishedOutcome::Interrupt { interrupts }) => clone_interrupts(interrupts),
            _ => Vec::new(),
        };
        let mut new_messages: Vec<Message> = Vec::new();
        let mut i: usize = starting_len;
        while i < messages.len()
            invariant
                starting_len <= i <= messages@.len(),
                messages_view(new_messages@) == messages_view(messages@).subrange(
                    starting_len as int,
                    i as int,
                ),
            decreases messages.len() - i,
        {
            let m = messages[i].clone();
            let ghost prev = new_messages@;
            new_messages.push(m);
            assert(new_messages@ == prev.push(m));
            assert(messages_view(new_messages@) =~= messages_view(prev).push(m@));
            assert(messages_view(messages@)[i as int] == messages@[i as int]@);
            assert(messages_view(new_messages@) =~= messages_view(messages@).subrange(
                starting_len as int,
                i + 1,
            ));
            i += 1;
        }
        let new_state = state.clone();
        self.messages = messages;
        self.state = state;
        RunAgentResult { run_id, thread_id, new_messages, new_state, outcome }
    }
}

} // verus!

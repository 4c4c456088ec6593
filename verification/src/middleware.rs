//! The event-stream middlewares that compute: filtering tool calls by name, and the
//! backward-compatibility conversions of older protocol versions.
use crate::error::AgUiError;
use crate::events::{
    BaseEventFields, Event, ReasoningEndEvent, ReasoningMessageContentEvent,
    ReasoningMessageEndEvent, ReasoningMessageRole, ReasoningMessageStartEvent,
    ReasoningStartEvent, ThinkingEndEvent, ThinkingStartEvent, ThinkingTextMessageContentEvent,
    ThinkingTextMessageEndEvent, ThinkingTextMessageStartEvent,
};
use crate::text::{decimal, owned, starts_with, str_eq, strs_view, u128_decimal, u64_decimal};
use crate::types::{
    messages_view, opt_str, BinaryInputContent, InputContent, InputContentSource, Message, MessageV,
    RunAgentInput, UserContentV, UserMessage, UserMessageContent,
};
use vstd::prelude::*;

verus! {

/// The allow or deny list of a tool-call filter: exactly one of the two is given.
#[derive(Debug, Clone, PartialEq, Eq)]
pub struct FilterToolCallsConfig {
    allowed_tool_calls: Option<Vec<String>>,
    disallowed_tool_calls: Option<Vec<String>>,
}

/// The view of an optional list of names.
pub open spec fn opt_names(o: Option<Vec<String>>) -> Option<Seq<Seq<char>>> {
    match o {
        Some(v) => Some(strs_view(v@)),
        None => None,
    }
}

/// The message of the error for a filter configuration with both lists.
pub open spec fn both_lists_text() -> Seq<char> {
    "Cannot specify both allowedToolCalls and disallowedToolCalls"@
}

/// The message of the error for a filter configuration with neither list.
pub open spec fn neither_list_text() -> Seq<char> {
    "Must specify either allowedToolCalls or disallowedToolCalls"@
}

impl FilterToolCallsConfig {
    /// The allow list, if given.
    pub closed spec fn spec_allowed(&self) -> Option<Seq<Seq<char>>> {
        opt_names(self.allowed_tool_calls)
    }

    /// The deny list, if given.
    pub closed spec fn spec_disallowed(&self) -> Option<Seq<Seq<char>>> {
        opt_names(self.disallowed_tool_calls)
    }

    /// A filter configuration; exactly one of the two lists must be given.
    pub fn new(
        allowed_tool_calls: Option<Vec<String>>,
        disallowed_tool_calls: Option<Vec<String>>,
    ) -> (r: Result<Self, AgUiError>)
        ensures
            allowed_tool_calls is Some && disallowed_tool_calls is Some ==> (r matches Err(
                AgUiError::Validation(m),
            ) && m@ == both_lists_text()),
            allowed_tool_calls is None && disallowed_tool_calls is None ==> (r matches Err(
                AgUiError::Validation(m),
            ) && m@ == neither_list_text()),
            (allowed_tool_calls is Some) != (disallowed_tool_calls is Some) ==> (r matches Ok(c)
                && c.spec_allowed() == opt_names(allowed_tool_calls) && c.spec_disallowed()
                == opt_names(disallowed_tool_calls)),
    {
        if allowed_tool_calls.is_some() && disallowed_tool_calls.is_some() {
            return Err(
                AgUiError::validation(
                    "Cannot specify both allowedToolCalls and disallowedToolCalls",
                ),
            );
        }
        if allowed_tool_calls.is_none() && disallowed_tool_calls.is_none() {
            return Err(
                AgUiError::validation("Must specify either allowedToolCalls or disallowedToolCalls"),
            );
        }
        Ok(FilterToolCallsConfig { allowed_tool_calls, disallowed_tool_calls })
    }

    /// A filter that lets only the named tools through.
    pub fn allowed(tool_calls: Vec<String>) -> (r: Self)
        ensures
            r.spec_allowed() == Some(strs_view(tool_calls@)),
            r.spec_disallowed() is None,
    {
        FilterToolCallsConfig { allowed_tool_calls: Some(tool_calls), disallowed_tool_calls: None }
    }

    /// A filter that blocks the named tools.
    pub fn disallowed(tool_calls: Vec<String>) -> (r: Self)
        ensures
            r.spec_allowed() is None,
            r.spec_disallowed() == Some(strs_view(tool_calls@)),
    {
        FilterToolCallsConfig { allowed_tool_calls: None, disallowed_tool_calls: Some(tool_calls) }
    }
}

/// Drops the events of tool calls whose names the configuration blocks: their start, args and
/// end, and the first result for each blocked call.
#[derive(Debug, Clone)]
pub struct FilterToolCallsMiddleware {
    allowed_tools: Option<Vec<String>>,
    disallowed_tools: Option<Vec<String>>,
}

/// Whether a tool name is blocked: not on the allow list when there is one, else on the deny
/// list.
pub open spec fn name_blocked(
    allowed: Option<Seq<Seq<char>>>,
    disallowed: Option<Seq<Seq<char>>>,
    name: Seq<char>,
) -> bool {
    match allowed {
        Some(a) => !a.contains(name),
        None => match disallowed {
            Some(d) => d.contains(name),
            None => false,
        },
    }
}

/// What the filter does with one event, given the ids of the blocked tool calls: the new set of
/// blocked ids and the event it passes on, if any.
pub open spec fn filter_step(
    allowed: Option<Seq<Seq<char>>>,
    disallowed: Option<Seq<Seq<char>>>,
    blocked: Set<Seq<char>>,
    e: Event,
) -> (Set<Seq<char>>, Option<Event>) {
    match e {
        Event::ToolCallStart(ev) => if name_blocked(allowed, disallowed, ev.tool_call_name@) {
            (blocked.insert(ev.tool_call_id@), None)
        } else {
            (blocked, Some(e))
        },
        Event::ToolCallArgs(ev) => if blocked.contains(ev.tool_call_id@) {
            (blocked, None)
        } else {
            (blocked, Some(e))
        },
        Event::ToolCallEnd(ev) => if blocked.contains(ev.tool_call_id@) {
            (blocked, None)
        } else {
            (blocked, Some(e))
        },
        Event::ToolCallResult(ev) => if blocked.contains(ev.tool_call_id@) {
            (blocked.remove(ev.tool_call_id@), None)
        } else {
            (blocked, Some(e))
        },
        _ => (blocked, Some(e)),
    }
}

/// The filtered stream: an upstream error is passed on and ends it.
pub open spec fn filter_trace(
    allowed: Option<Seq<Seq<char>>>,
    disallowed: Option<Seq<Seq<char>>>,
    blocked: Set<Seq<char>>,
    items: Seq<Result<Event, AgUiError>>,
) -> Seq<Result<Event, AgUiError>>
    decreases items.len(),
{
    if items.len() == 0 {
        Seq::empty()
    } else {
        match items[0] {
            Err(e) => seq![Err(e)],
            Ok(ev) => {
                let (b1, out) = filter_step(allowed, disallowed, blocked, ev);
                let head: Seq<Result<Event, AgUiError>> = match out {
                    Some(x) => seq![Ok(x)],
                    None => Seq::empty(),
                };
                head + filter_trace(allowed, disallowed, b1, items.drop_first())
            },
        }
    }
}

/// Whether a list of names holds `name`.
fn names_contain(names: &Vec<String>, name: &str) -> (r: bool)
    ensures
        r == strs_view(names@).contains(name@),
{
    let ghost v = strs_view(names@);
    let mut i: usize = 0;
    while i < names.len()
        invariant
            v == strs_view(names@),
            i <= names@.len(),
            forall|k: int| 0 <= k < i ==> v[k] != name@,
        decreases names.len() - i,
    {
        assert(v[i as int] == names@[i as int]@);
        if str_eq(names[i].as_str(), name) {
            return true;
        }
        i += 1;
    }
    false
}

/// The ids of the blocked tool calls, as a set.
pub struct BlockedIds {
    ids: Vec<String>,
}

impl BlockedIds {
    /// The set of blocked ids.
    pub closed spec fn view_set(&self) -> Set<Seq<char>> {
        strs_view(self.ids@).to_set()
    }

    /// No tool call blocked.
    pub fn new() -> (r: Self)
        ensures
            r.view_set() == Set::<Seq<char>>::empty(),
    {
        let r = BlockedIds { ids: Vec::new() };
        assert(strs_view(r.ids@) =~= Seq::<Seq<char>>::empty());
        assert(strs_view(r.ids@).to_set() =~= Set::<Seq<char>>::empty());
        r
    }

    fn contains(&self, id: &str) -> (r: bool)
        ensures
            r == self.view_set().contains(id@),
    {
        names_contain(&self.ids, id)
    }

    fn insert(&mut self, id: &str)
        ensures
            final(self).view_set() == old(self).view_set().insert(id@),
    {
        let ghost before = strs_view(self.ids@);
        self.ids.push(owned(id));
        assert(strs_view(self.ids@) =~= before.push(id@));
        proof { before.lemma_push_to_set_commute(id@); }
    }

    /// Removes every copy of `id`.
    fn remove(&mut self, id: &str)
        ensures
            final(self).view_set() == old(self).view_set().remove(id@),
    {
        let ghost target = old(self).view_set().remove(id@);
        let mut kept: Vec<String> = Vec::new();
        let mut i: usize = 0;
        while i < self.ids.len()
            invariant
                self.ids@ == old(self).ids@,
                target == old(self).view_set().remove(id@),
                i <= self.ids@.len(),
                forall|x: Seq<char>|
                    strs_view(kept@).contains(x) <==> (x != id@ && exists|k: int|
                        0 <= k < i && #[trigger] strs_view(self.ids@)[k] == x),
            decreases self.ids.len() - i,
        {
            let ghost before = strs_view(kept@);
            let ghost sv = strs_view(self.ids@);
            assert(sv[i as int] == self.ids@[i as int]@);
            let keep = !str_eq(self.ids[i].as_str(), id);
            if keep {
                kept.push(self.ids[i].clone());
            }
            proof {
                let now = strs_view(kept@);
                if keep {
                    assert(now =~= before.push(sv[i as int]));
                } else {
                    assert(now =~= before);
                }
                assert forall|x: Seq<char>|
                    now.contains(x) <==> (x != id@ && exists|k: int|
                        0 <= k < i + 1 && #[trigger] sv[k] == x) by {
                    if now.contains(x) {
                        let j = choose|j: int| 0 <= j < now.len() && now[j] == x;
                        if j < before.len() {
                            assert(before[j] == x);
                            assert(before.contains(x));
                            let k = choose|k: int| 0 <= k < i && #[trigger] sv[k] == x;
                            assert(0 <= k < i + 1 && sv[k] == x);
                        } else {
                            assert(x == sv[i as int]);
                            assert(0 <= i < i + 1 && sv[i as int] == x);
                        }
                    }
                    if x != id@ && exists|k: int| 0 <= k < i + 1 && #[trigger] sv[k] == x {
                        let k = choose|k: int| 0 <= k < i + 1 && #[trigger] sv[k] == x;
                        if k < i {
                            assert(exists|k2: int| 0 <= k2 < i && #[trigger] sv[k2] == x);
                            assert(before.contains(x));
                            let j = choose|j: int| 0 <= j < before.len() && before[j] == x;
                            assert(now[j] == x);
                        } else {
                            assert(keep);
                            assert(now[now.len() - 1] == x);
                        }
                    }
                }
            }
            i += 1;
        }
        self.ids = kept;
        proof {
            assert forall|x: Seq<char>|
                self.view_set().contains(x) <==> target.contains(x) by {
                if strs_view(old(self).ids@).contains(x) {
                    let k = choose|k: int|
                        0 <= k < strs_view(old(self).ids@).len() && strs_view(old(self).ids@)[k]
                            == x;
                    assert(strs_view(old(self).ids@)[k] == x);
                }
            }
            assert(self.view_set() =~= target);
        }
    }
}

impl FilterToolCallsMiddleware {
    /// The allow list, if any.
    pub closed spec fn spec_allowed(&self) -> Option<Seq<Seq<char>>> {
        opt_names(self.allowed_tools)
    }

    /// The deny list, if any.
    pub closed spec fn spec_disallowed(&self) -> Option<Seq<Seq<char>>> {
        opt_names(self.disallowed_tools)
    }

    /// A filter with the configuration's lists.
    pub fn new(config: FilterToolCallsConfig) -> (r: Self)
        ensures
            r.spec_allowed() == config.spec_allowed(),
            r.spec_disallowed() == config.spec_disallowed(),
    {
        FilterToolCallsMiddleware {
            allowed_tools: config.allowed_tool_calls,
            disallowed_tools: config.disallowed_tool_calls,
        }
    }

    /// Whether a tool name is blocked.
    pub fn is_blocked(&self, name: &str) -> (r: bool)
        ensures
            r == name_blocked(self.spec_allowed(), self.spec_disallowed(), name@),
    {
        match &self.allowed_tools {
            Some(a) => !names_contain(a, name),
            None => match &self.disallowed_tools {
                Some(d) => names_contain(d, name),
                None => false,
            },
        }
    }

    /// Filters one event, as `filter_step` says: the event passes unless it belongs to a blocked
    /// tool call, and the blocked ids are updated.
    pub fn filter_event(&self, blocked: &mut BlockedIds, event: Event) -> (r: Option<Event>)
        ensures
            (final(blocked).view_set(), r) == filter_step(
                self.spec_allowed(),
                self.spec_disallowed(),
                old(blocked).view_set(),
                event,
            ),
    {
        let pass = match &event {
            Event::ToolCallStart(e) => {
                if self.is_blocked(e.tool_call_name.as_str()) {
                    blocked.insert(e.tool_call_id.as_str());
                    false
                } else {
                    true
                }
            },
            Event::ToolCallArgs(e) => !blocked.contains(e.tool_call_id.as_str()),
            Event::ToolCallEnd(e) => !blocked.contains(e.tool_call_id.as_str()),
            Event::ToolCallResult(e) => {
                if blocked.contains(e.tool_call_id.as_str()) {
                    blocked.remove(e.tool_call_id.as_str());
                    false
                } else {
                    true
                }
            },
            _ => true,
        };
        if pass {
            Some(event)
        } else {
            None
        }
    }

    /// Filters a stream of events, as `filter_trace` says, with no tool call blocked at first.
    pub fn filter_events(&self, items: Vec<Result<Event, AgUiError>>) -> (r: Vec<
        Result<Event, AgUiError>,
    >)
        ensures
            r@ == filter_trace(
                self.spec_allowed(),
                self.spec_disallowed(),
                Set::empty(),
                items@,
            ),
    {
        let ghost orig = items@;
        let ghost al = self.spec_allowed();
        let ghost dl = self.spec_disallowed();
        let mut blocked = BlockedIds::new();
        let mut out: Vec<Result<Event, AgUiError>> = Vec::new();
        assert(orig.skip(0) =~= orig);
        assert(out@ + filter_trace(al, dl, Set::empty(), orig) =~= filter_trace(
            al,
            dl,
            Set::empty(),
            orig,
        ));
        for item in it: items.into_iter()
            invariant
                it.seq() == orig,
                orig == items@,
                al == self.spec_allowed(),
                dl == self.spec_disallowed(),
                filter_trace(al, dl, Set::empty(), orig) == out@ + filter_trace(
                    al,
                    dl,
                    blocked.view_set(),
                    orig.skip(it.index() as int),
                ),
        {
            let ghost i = it.index() as int;
            let ghost rest = orig.skip(i);
            let ghost b0 = blocked.view_set();
            assert(item == orig[i]);
            assert(rest[0] == orig[i]);
            assert(rest.drop_first() =~= orig.skip(i + 1));
            match item {
                Err(e) => {
                    let ghost before = out@;
                    out.push(Err(e));
                    assert(filter_trace(al, dl, b0, rest) == seq![Err::<Event, AgUiError>(e)]);
                    assert(out@ =~= before + seq![Err::<Event, AgUiError>(e)]);
                    return out;
                },
                Ok(event) => {
                    let ghost ev = event;
                    let ghost before = out@;
                    match self.filter_event(&mut blocked, event) {
                        Some(x) => {
                            out.push(Ok(x));
                            assert(out@ =~= before + seq![Ok::<Event, AgUiError>(ev)]);
                        },
                        None => {
                            assert(out@ =~= before + Seq::<Result<Event, AgUiError>>::empty());
                        },
                    }
                },
            }
        }
        assert(orig.skip(orig.len() as int) =~= Seq::<Result<Event, AgUiError>>::empty());
        assert(out@ =~= out@ + Seq::<Result<Event, AgUiError>>::empty());
        out
    }
}

/// Which kind of id a converted thinking event needs.
#[derive(Debug, Clone, Copy, PartialEq, Eq, Structural)]
pub enum FreshIdKind {
    Reasoning,
    ReasoningMessage,
}

/// The prefix of an id of the given kind.
pub open spec fn fresh_prefix_text(k: FreshIdKind) -> Seq<char> {
    match k {
        FreshIdKind::Reasoning => "reasoning"@,
        FreshIdKind::ReasoningMessage => "reasoning-message"@,
    }
}

impl FreshIdKind {
    /// The prefix of an id of this kind.
    pub fn prefix(&self) -> (r: &'static str)
        ensures
            r@ == fresh_prefix_text(*self),
    {
        match self {
            FreshIdKind::Reasoning => "reasoning",
            FreshIdKind::ReasoningMessage => "reasoning-message",
        }
    }
}

/// The id `<prefix>-<nanos>-<counter>` that a conversion gives an event.
pub open spec fn transformation_id_text(prefix: Seq<char>, nanos: u128, counter: u64) -> Seq<char> {
    prefix + "-"@ + decimal(nanos as nat) + "-"@ + decimal(counter as nat)
}

/// Formats the id `<prefix>-<nanos>-<counter>`; the caller supplies the clock reading and the
/// counter.
pub fn generate_transformation_id(prefix: &str, nanos: u128, counter: u64) -> (r: String)
    ensures
        r@ == transformation_id_text(prefix@, nanos, counter),
{
    let mut r = owned(prefix);
    r.append("-");
    let n = u128_decimal(nanos);
    r.append(n.as_str());
    r.append("-");
    let c = u64_decimal(counter);
    r.append(c.as_str());
    r
}

/// Converts the legacy thinking events into reasoning events, remembering the ids it made up so
/// that a sequence's later events carry the same ids.
#[derive(Debug, Clone, PartialEq)]
pub struct ThinkingUpgrade {
    pub current_reasoning_id: Option<String>,
    pub current_message_id: Option<String>,
}

/// The kind of new id a thinking event needs: a start always needs one; a content, message end
/// or end needs one when no id was made for its sequence yet.
pub open spec fn needs_fresh(s: ThinkingUpgrade, e: Event) -> Option<FreshIdKind> {
    match e {
        Event::ThinkingStart(_) => Some(FreshIdKind::Reasoning),
        Event::ThinkingTextMessageStart(_) => Some(FreshIdKind::ReasoningMessage),
        Event::ThinkingTextMessageContent(_) => if s.current_message_id is None {
            Some(FreshIdKind::ReasoningMessage)
        } else {
            None
        },
        Event::ThinkingTextMessageEnd(_) => if s.current_message_id is None {
            Some(FreshIdKind::ReasoningMessage)
        } else {
            None
        },
        Event::ThinkingEnd(_) => if s.current_reasoning_id is None {
            Some(FreshIdKind::Reasoning)
        } else {
            None
        },
        _ => None,
    }
}

/// The id an event gets: the remembered one, or the fresh one when none is remembered.
pub open spec fn pick_id(current: Option<String>, fresh: Option<String>) -> String {
    match current {
        Some(c) => c,
        None => fresh->0,
    }
}

/// What the conversion does with one event, given the fresh id it needs: the state afterwards
/// and the converted event. Non-thinking events pass unchanged.
pub open spec fn upgrade_step(s: ThinkingUpgrade, e: Event, fresh: Option<String>) -> (
    ThinkingUpgrade,
    Event,
) {
    match e {
        Event::ThinkingStart(ev) => (
            ThinkingUpgrade { current_reasoning_id: fresh, ..s },
            Event::ReasoningStart(ReasoningStartEvent { message_id: fresh->0, base: ev.base }),
        ),
        Event::ThinkingTextMessageStart(ev) => (
            ThinkingUpgrade { current_message_id: fresh, ..s },
            Event::ReasoningMessageStart(
                ReasoningMessageStartEvent {
                    message_id: fresh->0,
                    role: ReasoningMessageRole::Reasoning,
                    base: ev.base,
                },
            ),
        ),
        Event::ThinkingTextMessageContent(ev) => (
            s,
            Event::ReasoningMessageContent(
                ReasoningMessageContentEvent {
                    message_id: pick_id(s.current_message_id, fresh),
                    delta: ev.delta,
                    base: ev.base,
                },
            ),
        ),
        Event::ThinkingTextMessageEnd(ev) => (
            s,
            Event::ReasoningMessageEnd(
                ReasoningMessageEndEvent {
                    message_id: pick_id(s.current_message_id, fresh),
                    base: ev.base,
                },
            ),
        ),
        Event::ThinkingEnd(ev) => (
            s,
            Event::ReasoningEnd(
                ReasoningEndEvent { message_id: pick_id(s.current_reasoning_id, fresh), base: ev.base },
            ),
        ),
        _ => (s, e),
    }
}

fn pick(current: &Option<String>, fresh: Option<String>) -> (r: String)
    requires
        current is Some || fresh is Some,
    ensures
        r == pick_id(*current, fresh),
{
    match current {
        Some(c) => c.clone(),
        None => match fresh {
            Some(f) => f,
            None => String::new(),
        },
    }
}

impl ThinkingUpgrade {
    /// Nothing remembered yet.
    pub fn new() -> (r: Self)
        ensures
            r.current_reasoning_id is None,
            r.current_message_id is None,
    {
        ThinkingUpgrade { current_reasoning_id: None, current_message_id: None }
    }

    /// The kind of new id the event needs, if any; see `needs_fresh`.
    pub fn fresh_id_kind(&self, event: &Event) -> (r: Option<FreshIdKind>)
        ensures
            r == needs_fresh(*self, *event),
    {
        match event {
            Event::ThinkingStart(_) => Some(FreshIdKind::Reasoning),
            Event::ThinkingTextMessageStart(_) => Some(FreshIdKind::ReasoningMessage),
            Event::ThinkingTextMessageContent(_) | Event::ThinkingTextMessageEnd(_) => {
                if self.current_message_id.is_none() {
                    Some(FreshIdKind::ReasoningMessage)
                } else {
                    None
                }
            },
            Event::ThinkingEnd(_) => {
                if self.current_reasoning_id.is_none() {
                    Some(FreshIdKind::Reasoning)
                } else {
                    None
                }
            },
            _ => None,
        }
    }

    /// Converts one event as `upgrade_step` says; `fresh` is the new id the event needs (see
    /// `fresh_id_kind`).
    pub fn upgrade_event(&mut self, event: Event, fresh: Option<String>) -> (r: Event)
        requires
            needs_fresh(*old(self), event) is Some ==> fresh is Some,
        ensures
            (*final(self), r) == upgrade_step(*old(self), event, fresh),
    {
        match event {
            Event::ThinkingStart(ThinkingStartEvent { base, .. }) => {
                let id = pick(&None, fresh);
                self.current_reasoning_id = Some(id.clone());
                Event::ReasoningStart(ReasoningStartEvent { message_id: id, base })
            },
            Event::ThinkingTextMessageStart(ThinkingTextMessageStartEvent { base }) => {
                let id = pick(&None, fresh);
                self.current_message_id = Some(id.clone());
                Event::ReasoningMessageStart(
                    ReasoningMessageStartEvent {
                        message_id: id,
                        role: ReasoningMessageRole::Reasoning,
                        base,
                    },
                )
            },
            Event::ThinkingTextMessageContent(ThinkingTextMessageContentEvent { delta, base }) => {
                let id = pick(&self.current_message_id, fresh);
                Event::ReasoningMessageContent(
                    ReasoningMessageContentEvent { message_id: id, delta, base },
                )
            },
            Event::ThinkingTextMessageEnd(ThinkingTextMessageEndEvent { base }) => {
                let id = pick(&self.current_message_id, fresh);
                Event::ReasoningMessageEnd(ReasoningMessageEndEvent { message_id: id, base })
            },
            Event::ThinkingEnd(ThinkingEndEvent { base }) => {
                let id = pick(&self.current_reasoning_id, fresh);
                Event::ReasoningEnd(ReasoningEndEvent { message_id: id, base })
            },
            other => other,
        }
    }
}

/// The text of a user message's text parts, concatenated in order.
pub open spec fn text_of_parts(parts: Seq<InputContent>) -> Seq<char>
    decreases parts.len(),
{
    if parts.len() == 0 {
        Seq::empty()
    } else {
        text_of_parts(parts.drop_last()) + match parts.last() {
            InputContent::Text { text } => text@,
            _ => Seq::empty(),
        }
    }
}

/// A message as protocol 0.0.39 accepts it: a multipart user message becomes a text message
/// holding its text parts; any other message is unchanged.
pub open spec fn sanitize_message_v(m: MessageV) -> MessageV {
    match m {
        MessageV::User { id, content, name, encrypted_value } => match content {
            UserContentV::Parts(parts) => MessageV::User {
                id,
                content: UserContentV::Text(text_of_parts(parts)),
                name,
                encrypted_value,
            },
            _ => m,
        },
        _ => m,
    }
}

/// Converts a message for protocol 0.0.39, as `sanitize_message_v` says.
pub fn sanitize_message_content_0_0_39(message: Message) -> (r: Message)
    ensures
        r@ == sanitize_message_v(message@),
{
    match message {
        Message::User(UserMessage { id, content, name, encrypted_value }) => match content {
            UserMessageContent::Parts(parts) => {
                let mut text = String::new();
                let mut i: usize = 0;
                while i < parts.len()
                    invariant
                        i <= parts@.len(),
                        text@ == text_of_parts(parts@.take(i as int)),
                    decreases parts.len() - i,
                {
                    proof {
                        assert(parts@.take(i + 1).drop_last() =~= parts@.take(i as int));
                    }
                    match &parts[i] {
                        InputContent::Text { text: t } => {
                            text.append(t.as_str());
                        },
                        _ => {},
                    }
                    i += 1;
                }
                assert(parts@.take(parts.len() as int) =~= parts@);
                Message::User(
                    UserMessage {
                        id,
                        content: UserMessageContent::Text(text),
                        name,
                        encrypted_value,
                    },
                )
            },
            UserMessageContent::Text(t) => Message::User(
                UserMessage { id, content: UserMessageContent::Text(t), name, encrypted_value },
            ),
        },
        other => other,
    }
}

/// Maps each message of a list through `f`'s view-level counterpart, moving the messages.
pub open spec fn map_messages(ms: Seq<MessageV>, f: spec_fn(MessageV) -> MessageV) -> Seq<MessageV> {
    ms.map_values(f)
}

/// The run input as protocol 0.0.39 accepts it: no parent run id, and every message converted by
/// `sanitize_message_content_0_0_39`.
pub fn sanitize_run_agent_input_0_0_39(input: RunAgentInput) -> (r: RunAgentInput)
    ensures
        r.parent_run_id is None,
        messages_view(r.messages@) == map_messages(
            messages_view(input.messages@),
            |m: MessageV| sanitize_message_v(m),
        ),
        r.thread_id == input.thread_id,
        r.run_id == input.run_id,
        r.state == input.state,
        r.tools == input.tools,
        r.context == input.context,
        r.forwarded_props == input.forwarded_props,
        r.resume == input.resume,
{
    let RunAgentInput {
        thread_id,
        run_id,
        parent_run_id: _,
        state,
        messages,
        tools,
        context,
        forwarded_props,
        resume,
    } = input;
    let ghost orig = messages@;
    let mut out: Vec<Message> = Vec::new();
    for m in it: messages.into_iter()
        invariant
            it.seq() == orig,
            out@.len() == it.index(),
            forall|k: int| 0 <= k < out@.len() ==> (#[trigger] out@[k])@ == sanitize_message_v(
                orig[k]@,
            ),
    {
        assert(m == orig[it.index() as int]);
        out.push(sanitize_message_content_0_0_39(m));
    }
    assert(messages_view(out@) =~= map_messages(
        messages_view(orig),
        |m: MessageV| sanitize_message_v(m),
    ));
    RunAgentInput {
        thread_id,
        run_id,
        parent_run_id: None,
        state,
        messages: out,
        tools,
        context,
        forwarded_props,
        resume,
    }
}

/// The metadata a converted part carries: its file name, if it has one.
pub open spec fn filename_meta(filename: Option<String>) -> Option<serde_json::Value> {
    match filename {
        Some(f) => Some(crate::json::json_filename_object(f@)),
        None => None,
    }
}

/// The part of the kind its mime type names: image, audio, video, or else document.
pub open spec fn part_for_mime(
    mime: Seq<char>,
    source: InputContentSource,
    metadata: Option<serde_json::Value>,
) -> InputContent {
    if "image/"@.is_prefix_of(mime) {
        InputContent::Image { source, metadata }
    } else if "audio/"@.is_prefix_of(mime) {
        InputContent::Audio { source, metadata }
    } else if "video/"@.is_prefix_of(mime) {
        InputContent::Video { source, metadata }
    } else {
        InputContent::Document { source, metadata }
    }
}

/// A legacy binary part in the format of protocol 0.0.47: embedded data becomes a data source,
/// else a url becomes a url source, else the part stays binary without either. Other parts are
/// unchanged.
pub open spec fn convert_binary_v(part: InputContent) -> InputContent {
    match part {
        InputContent::Binary { content } => match content.data {
            Some(d) => part_for_mime(
                content.mime_type@,
                InputContentSource::Data { value: d, mime_type: content.mime_type },
                filename_meta(content.filename),
            ),
            None => match content.url {
                Some(u) => part_for_mime(
                    content.mime_type@,
                    InputContentSource::Url { value: u, mime_type: Some(content.mime_type) },
                    filename_meta(content.filename),
                ),
                None => InputContent::Binary {
                    content: BinaryInputContent {
                        mime_type: content.mime_type,
                        id: content.id,
                        url: None,
                        data: None,
                        filename: content.filename,
                    },
                },
            },
        },
        _ => part,
    }
}

/// Builds the part of the kind the mime type names.
pub fn convert_new_content_part_0_0_47(
    mime_type: String,
    source: InputContentSource,
    filename: Option<String>,
) -> (r: InputContent)
    ensures
        r == part_for_mime(mime_type@, source, filename_meta(filename)),
{
    let metadata = match filename {
        Some(f) => Some(crate::json::filename_metadata(f)),
        None => None,
    };
    if starts_with(mime_type.as_str(), "image/") {
        InputContent::Image { source, metadata }
    } else if starts_with(mime_type.as_str(), "audio/") {
        InputContent::Audio { source, metadata }
    } else if starts_with(mime_type.as_str(), "video/") {
        InputContent::Video { source, metadata }
    } else {
        InputContent::Document { source, metadata }
    }
}

/// Converts a legacy binary part, as `convert_binary_v` says.
pub fn convert_legacy_binary_to_new_format_0_0_47(part: InputContent) -> (r: InputContent)
    ensures
        r == convert_binary_v(part),
{
    match part {
        InputContent::Binary { content: BinaryInputContent { mime_type, id, url, data, filename } } => {
            if let Some(data) = data {
                let m = mime_type.clone();
                return convert_new_content_part_0_0_47(
                    mime_type,
                    InputContentSource::Data { value: data, mime_type: m },
                    filename,
                );
            }
            if let Some(url) = url {
                let m = mime_type.clone();
                return convert_new_content_part_0_0_47(
                    mime_type,
                    InputContentSource::Url { value: url, mime_type: Some(m) },
                    filename,
                );
            }
            InputContent::Binary {
                content: BinaryInputContent { mime_type, id, url: None, data: None, filename },
            }
        },
        other => other,
    }
}

/// A message in the format of protocol 0.0.47: a multipart user message has its legacy binary
/// parts converted; any other message is unchanged.
pub open spec fn upgrade_message_v(m: MessageV) -> MessageV {
    match m {
        MessageV::User { id, content, name, encrypted_value } => match content {
            UserContentV::Parts(parts) => MessageV::User {
                id,
                content: UserContentV::Parts(parts.map_values(|p: InputContent| convert_binary_v(p))),
                name,
                encrypted_value,
            },
            _ => m,
        },
        _ => m,
    }
}

/// Converts a message for protocol 0.0.47, as `upgrade_message_v` says.
pub fn upgrade_message_content_0_0_47(message: Message) -> (r: Message)
    ensures
        r@ == upgrade_message_v(message@),
{
    match message {
        Message::User(UserMessage { id, content, name, encrypted_value }) => match content {
            UserMessageContent::Parts(parts) => {
                let ghost orig = parts@;
                let mut out: Vec<InputContent> = Vec::new();
                for p in it: parts.into_iter()
                    invariant
                        it.seq() == orig,
                        out@.len() == it.index(),
                        forall|k: int|
                            0 <= k < out@.len() ==> #[trigger] out@[k] == convert_binary_v(orig[k]),
                {
                    assert(p == orig[it.index() as int]);
                    out.push(convert_legacy_binary_to_new_format_0_0_47(p));
                }
                assert(out@ =~= orig.map_values(|p: InputContent| convert_binary_v(p)));
                Message::User(
                    UserMessage {
                        id,
                        content: UserMessageContent::Parts(out),
                        name,
                        encrypted_value,
                    },
                )
            },
            UserMessageContent::Text(t) => Message::User(
                UserMessage { id, content: UserMessageContent::Text(t), name, encrypted_value },
            ),
        },
        other => other,
    }
}

/// The run input in the format of protocol 0.0.47: every message converted by
/// `upgrade_message_content_0_0_47`; everything else unchanged.
pub fn upgrade_run_agent_input_0_0_47(input: RunAgentInput) -> (r: RunAgentInput)
    ensures
        messages_view(r.messages@) == map_messages(
            messages_view(input.messages@),
            |m: MessageV| upgrade_message_v(m),
        ),
        r.thread_id == input.thread_id,
        r.run_id == input.run_id,
        r.parent_run_id == input.parent_run_id,
        r.state == input.state,
        r.tools == input.tools,
        r.context == input.context,
        r.forwarded_props == input.forwarded_props,
        r.resume == input.resume,
{
    let RunAgentInput {
        thread_id,
        run_id,
        parent_run_id,
        state,
        messages,
        tools,
        context,
        forwarded_props,
        resume,
    } = input;
    let ghost orig = messages@;
    let mut out: Vec<Message> = Vec::new();
    for m in it: messages.into_iter()
        invariant
            it.seq() == orig,
            out@.len() == it.index(),
            forall|k: int| 0 <= k < out@.len() ==> (#[trigger] out@[k])@ == upgrade_message_v(
                orig[k]@,
            ),
    {
        assert(m == orig[it.index() as int]);
        out.push(upgrade_message_content_0_0_47(m));
    }
    assert(messages_view(out@) =~= map_messages(
        messages_view(orig),
        |m: MessageV| upgrade_message_v(m),
    ));
    RunAgentInput {
        thread_id,
        run_id,
        parent_run_id,
        state,
        messages: out,
        tools,
        context,
        forwarded_props,
        resume,
    }
}

/// The middleware that lets an agent of protocol 0.0.39 take today's run input: it hands the
/// agent the input as `sanitize_run_agent_input_0_0_39` makes it.
#[derive(Debug, Clone, Copy, Default)]
pub struct BackwardCompat0_0_39;

impl BackwardCompat0_0_39 {
    /// The run input handed to the agent, as `sanitize_run_agent_input_0_0_39` says.
    pub fn transform_input(&self, input: RunAgentInput) -> (r: RunAgentInput)
        ensures
            r.parent_run_id is None,
            messages_view(r.messages@) == map_messages(
                messages_view(input.messages@),
                |m: MessageV| sanitize_message_v(m),
            ),
            r.thread_id == input.thread_id,
            r.run_id == input.run_id,
            r.state == input.state,
            r.tools == input.tools,
            r.context == input.context,
            r.forwarded_props == input.forwarded_props,
            r.resume == input.resume,
    {
        sanitize_run_agent_input_0_0_39(input)
    }
}

/// The middleware that turns the thinking events of an agent of protocol 0.0.45 into reasoning
/// events, with a `ThinkingUpgrade` per run.
#[derive(Debug, Clone, Copy, Default)]
pub struct BackwardCompat0_0_45;

impl BackwardCompat0_0_45 {
    /// The upgrade state a run starts with: nothing remembered.
    pub fn start_run(&self) -> (r: ThinkingUpgrade)
        ensures
            r.current_reasoning_id is None,
            r.current_message_id is None,
    {
        ThinkingUpgrade::new()
    }
}

/// The middleware that lets an agent of protocol 0.0.47 take today's run input: it hands the
/// agent the input as `upgrade_run_agent_input_0_0_47` makes it.
#[derive(Debug, Clone, Copy, Default)]
pub struct BackwardCompat0_0_47;

impl BackwardCompat0_0_47 {
    /// The run input handed to the agent, as `upgrade_run_agent_input_0_0_47` says.
    pub fn transform_input(&self, input: RunAgentInput) -> (r: RunAgentInput)
        ensures
            messages_view(r.messages@) == map_messages(
                messages_view(input.messages@),
                |m: MessageV| upgrade_message_v(m),
            ),
            r.thread_id == input.thread_id,
            r.run_id == input.run_id,
            r.parent_run_id == input.parent_run_id,
            r.state == input.state,
            r.tools == input.tools,
            r.context == input.context,
            r.forwarded_props == input.forwarded_props,
            r.resume == input.resume,
    {
        upgrade_run_agent_input_0_0_47(input)
    }
}

/// What a middleware is handed: the run input and extra JSON data.
#[derive(Debug, Clone, PartialEq)]
pub struct MiddlewareInput {
    pub run_agent_input: RunAgentInput,
    pub extras: serde_json::Value,
}

impl MiddlewareInput {
    /// The run input with the given extras.
    pub fn new(run_agent_input: RunAgentInput, extras: serde_json::Value) -> (r: Self)
        ensures
            r.run_agent_input == run_agent_input,
            r.extras == extras,
    {
        MiddlewareInput { run_agent_input, extras }
    }

    /// The run input with no extras: an empty JSON object.
    pub fn from_run_input(run_agent_input: RunAgentInput) -> (r: Self)
        ensures
            r.run_agent_input == run_agent_input,
            r.extras == crate::json::json_object(crate::json::json_map_from(Seq::empty())),
    {
        let extras = crate::json::json_object_from_map(crate::json::empty_json_map());
        MiddlewareInput { run_agent_input, extras }
    }
}

/// The filter never passes the start of a tool call whose name it blocks.
pub proof fn law_filter_drops_blocked_starts(
    allowed: Option<Seq<Seq<char>>>,
    disallowed: Option<Seq<Seq<char>>>,
    blocked: Set<Seq<char>>,
    items: Seq<Result<Event, AgUiError>>,
)
    ensures
        forall|i: int|
            0 <= i < filter_trace(allowed, disallowed, blocked, items).len() ==> (
            #[trigger] filter_trace(allowed, disallowed, blocked, items)[i] matches Ok(
                Event::ToolCallStart(ev),
            ) ==> !name_blocked(allowed, disallowed, ev.tool_call_name@)),
    decreases items.len(),
{
    let t = filter_trace(allowed, disallowed, blocked, items);
    if items.len() > 0 {
        match items[0] {
            Err(_) => {},
            Ok(ev) => {
                let (b1, out) = filter_step(allowed, disallowed, blocked, ev);
                let head: Seq<Result<Event, AgUiError>> = match out {
                    Some(x) => seq![Ok(x)],
                    None => Seq::empty(),
                };
                let rest = filter_trace(allowed, disallowed, b1, items.drop_first());
                law_filter_drops_blocked_starts(allowed, disallowed, b1, items.drop_first());
                assert forall|i: int| 0 <= i < t.len() implies (#[trigger] t[i] matches Ok(
                    Event::ToolCallStart(e),
                ) ==> !name_blocked(allowed, disallowed, e.tool_call_name@)) by {
                    if i < head.len() {
                        assert(t[i] == head[i]);
                    } else {
                        assert(t[i] == rest[i - head.len()]);
                    }
                }
            },
        }
    }
}

/// With neither an allow list nor a deny list, and nothing blocked yet, the filter passes the
/// stream unchanged.
pub proof fn law_filter_without_lists_passes_all(items: Seq<Result<Event, AgUiError>>)
    ensures
        filter_trace(None, None, Set::empty(), items) == {
            match first_error(items, 0) {
                Some(k) => items.take(k + 1),
                None => items,
            }
        },
    decreases items.len(),
{
    if items.len() > 0 {
        law_filter_without_lists_passes_all(items.drop_first());
        lemma_first_error_shift(items);
        match items[0] {
            Err(e) => {
                assert(items.take(1) =~= seq![Err(e)]);
            },
            Ok(ev) => {
                let rest = filter_trace(None, None, Set::empty(), items.drop_first());
                match first_error(items.drop_first(), 0) {
                    Some(k) => {
                        lemma_first_error_bounds(items.drop_first(), 0);
                        assert(seq![Ok(ev)] + items.drop_first().take(k + 1) =~= items.take(k + 2));
                    },
                    None => {
                        assert(seq![Ok(ev)] + items.drop_first() =~= items);
                    },
                }
            },
        }
    }
}

/// The position of the first error in `items` from `k` on.
pub open spec fn first_error(items: Seq<Result<Event, AgUiError>>, k: int) -> Option<int>
    decreases items.len() - k,
{
    if k < 0 || k >= items.len() {
        None
    } else if items[k] is Err {
        Some(k)
    } else {
        first_error(items, k + 1)
    }
}

proof fn lemma_first_error_bounds(items: Seq<Result<Event, AgUiError>>, k: int)
    ensures
        first_error(items, k) matches Some(j) ==> k <= j < items.len() && items[j] is Err,
    decreases items.len() - k,
{
    if 0 <= k < items.len() && items[k] is Ok {
        lemma_first_error_bounds(items, k + 1);
    }
}

proof fn lemma_first_error_from(items: Seq<Result<Event, AgUiError>>, k: int)
    requires
        0 < k <= items.len(),
    ensures
        first_error(items, k) == match first_error(items.drop_first(), k - 1) {
            Some(j) => Some(j + 1),
            None => None,
        },
    decreases items.len() - k,
{
    if k < items.len() {
        assert(items.drop_first()[k - 1] == items[k]);
        lemma_first_error_from(items, k + 1);
    }
}

proof fn lemma_first_error_shift(items: Seq<Result<Event, AgUiError>>)
    requires
        items.len() > 0,
    ensures
        items[0] is Err ==> first_error(items, 0) == Some(0int),
        items[0] is Ok ==> first_error(items, 0) == match first_error(items.drop_first(), 0) {
            Some(j) => Some(j + 1),
            None => None,
        },
{
    lemma_first_error_from(items, 1);
}

/// Converting a message for protocol 0.0.39 leaves no multipart user message, and converting
/// again changes nothing.
pub proof fn law_sanitize_0_0_39_is_final(m: MessageV)
    ensures
        !(sanitize_message_v(m) matches MessageV::User { content: UserContentV::Parts(_), .. }),
        sanitize_message_v(sanitize_message_v(m)) == sanitize_message_v(m),
{
}

/// Converting a message for protocol 0.0.47 leaves no legacy binary part with data or a url,
/// and converting again changes nothing.
pub proof fn law_upgrade_0_0_47_is_final(m: MessageV)
    ensures
        upgrade_message_v(m) matches MessageV::User { content: UserContentV::Parts(ps), .. }
            ==> forall|i: int|
            0 <= i < ps.len() ==> (#[trigger] ps[i] matches InputContent::Binary { content }
                ==> content.data is None && content.url is None),
        upgrade_message_v(upgrade_message_v(m)) == upgrade_message_v(m),
{
    match m {
        MessageV::User { id, content: UserContentV::Parts(parts), name, encrypted_value } => {
            let once = parts.map_values(|p: InputContent| convert_binary_v(p));
            let twice = once.map_values(|p: InputContent| convert_binary_v(p));
            assert forall|i: int| 0 <= i < once.len() implies #[trigger] twice[i] == once[i] by {
                assert(once[i] == convert_binary_v(parts[i]));
            }
            assert(twice =~= once);
        },
        _ => {},
    }
}

/// The reasoning message made from a thinking text message keeps one id: the start gets the
/// fresh id, and a later content or end event, with nothing in between that starts another
/// message, gets the same id whatever fresh id is offered for it.
pub proof fn law_thinking_message_keeps_its_id(
    s: ThinkingUpgrade,
    start: ThinkingTextMessageStartEvent,
    fresh: String,
    next: Event,
    offered: Option<String>,
)
    requires
        next is ThinkingTextMessageContent || next is ThinkingTextMessageEnd,
    ensures
        ({
            let (s1, e1) = upgrade_step(s, Event::ThinkingTextMessageStart(start), Some(fresh));
            let (s2, e2) = upgrade_step(s1, next, offered);
            &&& e1 matches Event::ReasoningMessageStart(r) && r.message_id == fresh
            &&& match e2 {
                Event::ReasoningMessageContent(r) => r.message_id == fresh,
                Event::ReasoningMessageEnd(r) => r.message_id == fresh,
                _ => false,
            }
        }),
{
}

/// Reasoning made from thinking keeps one id: the start gets the fresh id, and the end, with
/// no other thinking start in between, gets the same id.
pub proof fn law_thinking_keeps_its_id(
    s: ThinkingUpgrade,
    start: ThinkingStartEvent,
    fresh: String,
    middle: Seq<Event>,
    end: ThinkingEndEvent,
    offered: Option<String>,
)
    requires
        forall|i: int| 0 <= i < middle.len() ==> !(#[trigger] middle[i] is ThinkingStart),
    ensures
        ({
            let (s1, e1) = upgrade_step(s, Event::ThinkingStart(start), Some(fresh));
            let sm = upgrade_all(s1, middle, offered);
            let (s2, e2) = upgrade_step(sm, Event::ThinkingEnd(end), offered);
            &&& e1 matches Event::ReasoningStart(r) && r.message_id == fresh
            &&& e2 matches Event::ReasoningEnd(r) && r.message_id == fresh
        }),
{
    let (s1, e1) = upgrade_step(s, Event::ThinkingStart(start), Some(fresh));
    lemma_upgrade_all_keeps_reasoning_id(s1, middle, offered);
}

/// The upgrade state after a sequence of events, each offered the same fresh id.
pub open spec fn upgrade_all(s: ThinkingUpgrade, events: Seq<Event>, offered: Option<String>) -> ThinkingUpgrade
    decreases events.len(),
{
    if events.len() == 0 {
        s
    } else {
        upgrade_all(upgrade_step(s, events[0], offered).0, events.drop_first(), offered)
    }
}

proof fn lemma_upgrade_all_keeps_reasoning_id(s: ThinkingUpgrade, events: Seq<Event>, offered: Option<String>)
    requires
        forall|i: int| 0 <= i < events.len() ==> !(#[trigger] events[i] is ThinkingStart),
    ensures
        upgrade_all(s, events, offered).current_reasoning_id == s.current_reasoning_id,
    decreases events.len(),
{
    if events.len() > 0 {
        let s1 = upgrade_step(s, events[0], offered).0;
        assert(!(events[0] is ThinkingStart));
        assert(s1.current_reasoning_id == s.current_reasoning_id);
        assert forall|i: int| 0 <= i < events.drop_first().len() implies !(#[trigger] events.drop_first()[i] is ThinkingStart) by {
            assert(events.drop_first()[i] == events[i + 1]);
        }
        lemma_upgrade_all_keeps_reasoning_id(s1, events.drop_first(), offered);
    }
}


/// A legacy binary part with embedded data or a url becomes the part of the kind its mime type
/// names, with the data (else the url) as its source: `image/...` an image, `audio/...` an
/// audio part, `video/...` a video, anything else a document. Its metadata is present exactly
/// when it has a file name.
pub proof fn law_binary_part_kind_follows_mime(content: BinaryInputContent)
    ensures
        ({
            let r = convert_binary_v(InputContent::Binary { content });
            let mime = content.mime_type@;
            let source = match content.data {
                Some(d) => InputContentSource::Data { value: d, mime_type: content.mime_type },
                None => InputContentSource::Url {
                    value: content.url->0,
                    mime_type: Some(content.mime_type),
                },
            };
            (content.data is Some || content.url is Some) ==> {
                &&& "image/"@.is_prefix_of(mime) ==> (r matches InputContent::Image { source: s, .. }
                    && s == source)
                &&& "audio/"@.is_prefix_of(mime) ==> (r matches InputContent::Audio { source: s, .. }
                    && s == source)
                &&& "video/"@.is_prefix_of(mime) ==> (r matches InputContent::Video { source: s, .. }
                    && s == source)
                &&& !"image/"@.is_prefix_of(mime) && !"audio/"@.is_prefix_of(mime)
                    && !"video/"@.is_prefix_of(mime) ==> (r matches InputContent::Document {
                    source: s,
                    ..
                } && s == source)
                &&& match r {
                    InputContent::Image { metadata, .. } | InputContent::Audio { metadata, .. }
                    | InputContent::Video { metadata, .. } | InputContent::Document {
                        metadata,
                        ..
                    } => metadata is Some <==> content.filename is Some,
                    _ => false,
                }
            }
        }),
{
    reveal_strlit("image/");
    reveal_strlit("audio/");
    reveal_strlit("video/");
    let mime = content.mime_type@;
    if "audio/"@.is_prefix_of(mime) {
        assert(mime[0] == "audio/"@[0]);
        assert(!"image/"@.is_prefix_of(mime)) by {
            if "image/"@.is_prefix_of(mime) {
                assert(mime[0] == "image/"@[0]);
            }
        }
    }
    if "video/"@.is_prefix_of(mime) {
        assert(mime[0] == "video/"@[0]);
        assert(!"image/"@.is_prefix_of(mime)) by {
            if "image/"@.is_prefix_of(mime) {
                assert(mime[0] == "image/"@[0]);
            }
        }
        assert(!"audio/"@.is_prefix_of(mime)) by {
            if "audio/"@.is_prefix_of(mime) {
                assert(mime[0] == "audio/"@[0]);
            }
        }
    }
}

} // verus!

//! Expands chunk events into the start / content / end events they stand for.
//!
//! At most one of a text message, a tool call or a reasoning message is open at a time. A chunk
//! for the open one continues it; a chunk for another one, or any other structured event, closes
//! the open one first. `RAW`, `ACTIVITY_SNAPSHOT`, `ACTIVITY_DELTA` and
//! `REASONING_ENCRYPTED_VALUE` pass through without closing anything. At the end of the stream
//! the open one is closed.
use crate::error::AgUiError;
use crate::events::{
    BaseEventFields, Event, ReasoningMessageChunkEvent, ReasoningMessageContentEvent,
    ReasoningMessageEndEvent, ReasoningMessageRole, ReasoningMessageStartEvent,
    TextMessageChunkEvent, TextMessageContentEvent, TextMessageEndEvent, TextMessageStartEvent,
    ToolCallArgsEvent, ToolCallChunkEvent, ToolCallEndEvent, ToolCallStartEvent,
};
use crate::types::TextMessageRole;
use vstd::prelude::*;

verus! {

/// The chunk stream that is open.
#[derive(Debug, Clone, PartialEq)]
pub enum OpenChunk {
    Text { message_id: String },
    Tool { tool_call_id: String },
    Reasoning { message_id: String },
}

/// The `*_END` event that closes an open chunk stream.
pub open spec fn close_event(c: OpenChunk) -> Event {
    match c {
        OpenChunk::Text { message_id } => Event::TextMessageEnd(
            TextMessageEndEvent { message_id, base: BaseEventFields::spec_default() },
        ),
        OpenChunk::Tool { tool_call_id } => Event::ToolCallEnd(
            ToolCallEndEvent { tool_call_id, base: BaseEventFields::spec_default() },
        ),
        OpenChunk::Reasoning { message_id } => Event::ReasoningMessageEnd(
            ReasoningMessageEndEvent { message_id, base: BaseEventFields::spec_default() },
        ),
    }
}

impl OpenChunk {
    /// The `*_END` event that closes this open chunk stream.
    pub fn close(self) -> (r: Event)
        ensures
            r == close_event(self),
    {
        match self {
            OpenChunk::Text { message_id } => Event::TextMessageEnd(
                TextMessageEndEvent { message_id, base: BaseEventFields::empty() },
            ),
            OpenChunk::Tool { tool_call_id } => Event::ToolCallEnd(
                ToolCallEndEvent { tool_call_id, base: BaseEventFields::empty() },
            ),
            OpenChunk::Reasoning { message_id } => Event::ReasoningMessageEnd(
                ReasoningMessageEndEvent { message_id, base: BaseEventFields::empty() },
            ),
        }
    }
}

/// The events that close what is open: one `*_END` event, or none.
pub open spec fn closing(open: Option<OpenChunk>) -> Seq<Event> {
    match open {
        Some(c) => seq![close_event(c)],
        None => Seq::empty(),
    }
}

/// A field that the first chunk of a stream must carry.
#[derive(Debug, Clone, Copy, PartialEq, Eq, Structural)]
pub enum MissingField {
    TextMessageId,
    ToolCallId,
    ToolCallName,
    ReasoningMessageId,
}

/// The message of the error for a missing field.
pub open spec fn missing_text(f: MissingField) -> Seq<char> {
    match f {
        MissingField::TextMessageId => "first TEXT_MESSAGE_CHUNK must include message_id"@,
        MissingField::ToolCallId => "first TOOL_CALL_CHUNK must include tool_call_id"@,
        MissingField::ToolCallName => "first TOOL_CALL_CHUNK must include tool_call_name"@,
        MissingField::ReasoningMessageId =>
            "first REASONING_MESSAGE_CHUNK must include message_id"@,
    }
}

impl MissingField {
    /// The validation error for the missing field.
    pub fn to_error(self) -> (r: AgUiError)
        ensures
            r matches AgUiError::Validation(m) && m@ == missing_text(self),
    {
        match self {
            MissingField::TextMessageId => AgUiError::validation(
                "first TEXT_MESSAGE_CHUNK must include message_id",
            ),
            MissingField::ToolCallId => AgUiError::validation(
                "first TOOL_CALL_CHUNK must include tool_call_id",
            ),
            MissingField::ToolCallName => AgUiError::validation(
                "first TOOL_CALL_CHUNK must include tool_call_name",
            ),
            MissingField::ReasoningMessageId => AgUiError::validation(
                "first REASONING_MESSAGE_CHUNK must include message_id",
            ),
        }
    }
}

/// The outcome of one step: the open stream afterwards, the events produced, and the missing
/// field when the step fails.
pub struct ChunkStep {
    pub open: Option<OpenChunk>,
    pub events: Seq<Event>,
    pub missing: Option<MissingField>,
}

/// The content event for a text chunk's delta, if it has one.
pub open spec fn text_delta(mid: String, delta: Option<String>) -> Seq<Event> {
    match delta {
        Some(d) => seq![
            Event::TextMessageContent(
                TextMessageContentEvent {
                    message_id: mid,
                    delta: d,
                    base: BaseEventFields::spec_default(),
                },
            ),
        ],
        None => Seq::empty(),
    }
}

/// The args event for a tool chunk's delta, if it has one.
pub open spec fn tool_delta(id: String, delta: Option<String>) -> Seq<Event> {
    match delta {
        Some(d) => seq![
            Event::ToolCallArgs(
                ToolCallArgsEvent { tool_call_id: id, delta: d, base: BaseEventFields::spec_default() },
            ),
        ],
        None => Seq::empty(),
    }
}

/// The content event for a reasoning chunk's delta, if it has one.
pub open spec fn reasoning_delta(mid: String, delta: Option<String>) -> Seq<Event> {
    match delta {
        Some(d) => seq![
            Event::ReasoningMessageContent(
                ReasoningMessageContentEvent {
                    message_id: mid,
                    delta: d,
                    base: BaseEventFields::spec_default(),
                },
            ),
        ],
        None => Seq::empty(),
    }
}

/// A text chunk continues the open text message when it names no id or the same id.
pub open spec fn continues_text(open: Option<OpenChunk>, id: Option<String>) -> bool {
    match open {
        Some(OpenChunk::Text { message_id }) => match id {
            Some(inc) => message_id@ == inc@,
            None => true,
        },
        _ => false,
    }
}

/// A tool chunk continues the open tool call when it names no id or the same id.
pub open spec fn continues_tool(open: Option<OpenChunk>, id: Option<String>) -> bool {
    match open {
        Some(OpenChunk::Tool { tool_call_id }) => match id {
            Some(inc) => tool_call_id@ == inc@,
            None => true,
        },
        _ => false,
    }
}

/// A reasoning chunk continues the open reasoning message when it names no id or the same id.
pub open spec fn continues_reasoning(open: Option<OpenChunk>, id: Option<String>) -> bool {
    match open {
        Some(OpenChunk::Reasoning { message_id }) => match id {
            Some(inc) => message_id@ == inc@,
            None => true,
        },
        _ => false,
    }
}

/// `TEXT_MESSAGE_CHUNK`: continues the open text message, or closes what is open and starts a
/// new one (whose id the chunk must give), then emits the delta as content.
pub open spec fn text_chunk_step(open: Option<OpenChunk>, c: TextMessageChunkEvent) -> ChunkStep {
    if continues_text(open, c.message_id) {
        let mid = open->0->Text_message_id;
        ChunkStep { open, events: text_delta(mid, c.delta), missing: None }
    } else {
        match c.message_id {
            None => ChunkStep {
                open: None,
                events: Seq::empty(),
                missing: Some(MissingField::TextMessageId),
            },
            Some(mid) => ChunkStep {
                open: Some(OpenChunk::Text { message_id: mid }),
                events: closing(open) + seq![
                    Event::TextMessageStart(
                        TextMessageStartEvent {
                            message_id: mid,
                            role: match c.role {
                                Some(r) => r,
                                None => TextMessageRole::Assistant,
                            },
                            name: c.name,
                            base: BaseEventFields::spec_default(),
                        },
                    ),
                ] + text_delta(mid, c.delta),
                missing: None,
            },
        }
    }
}

/// `TOOL_CALL_CHUNK`: continues the open tool call, or closes what is open and starts a new one
/// (whose id and name the chunk must give), then emits the delta as arguments.
pub open spec fn tool_chunk_step(open: Option<OpenChunk>, c: ToolCallChunkEvent) -> ChunkStep {
    if continues_tool(open, c.tool_call_id) {
        let id = open->0->Tool_tool_call_id;
        ChunkStep { open, events: tool_delta(id, c.delta), missing: None }
    } else {
        match c.tool_call_id {
            None => ChunkStep {
                open: None,
                events: Seq::empty(),
                missing: Some(MissingField::ToolCallId),
            },
            Some(id) => match c.tool_call_name {
                None => ChunkStep {
                    open: None,
                    events: Seq::empty(),
                    missing: Some(MissingField::ToolCallName),
                },
                Some(name) => ChunkStep {
                    open: Some(OpenChunk::Tool { tool_call_id: id }),
                    events: closing(open) + seq![
                        Event::ToolCallStart(
                            ToolCallStartEvent {
                                tool_call_id: id,
                                tool_call_name: name,
                                parent_message_id: c.parent_message_id,
                                base: BaseEventFields::spec_default(),
                            },
                        ),
                    ] + tool_delta(id, c.delta),
                    missing: None,
                },
            },
        }
    }
}

/// `REASONING_MESSAGE_CHUNK`: continues the open reasoning message, or closes what is open and
/// starts a new one (whose id the chunk must give), then emits the delta as content.
pub open spec fn reasoning_chunk_step(
    open: Option<OpenChunk>,
    c: ReasoningMessageChunkEvent,
) -> ChunkStep {
    if continues_reasoning(open, c.message_id) {
        let mid = open->0->Reasoning_message_id;
        ChunkStep { open, events: reasoning_delta(mid, c.delta), missing: None }
    } else {
        match c.message_id {
            None => ChunkStep {
                open: None,
                events: Seq::empty(),
                missing: Some(MissingField::ReasoningMessageId),
            },
            Some(mid) => ChunkStep {
                open: Some(OpenChunk::Reasoning { message_id: mid }),
                events: closing(open) + seq![
                    Event::ReasoningMessageStart(
                        ReasoningMessageStartEvent {
                            message_id: mid,
                            role: ReasoningMessageRole::Reasoning,
                            base: BaseEventFields::spec_default(),
                        },
                    ),
                ] + reasoning_delta(mid, c.delta),
                missing: None,
            },
        }
    }
}

/// Whether the event passes through without closing the open chunk stream.
pub open spec fn passes_through(e: Event) -> bool {
    e is Raw || e is ActivitySnapshot || e is ActivityDelta || e is ReasoningEncryptedValue
}

/// What one event of the stream does.
pub open spec fn expand_step(open: Option<OpenChunk>, e: Event) -> ChunkStep {
    match e {
        Event::TextMessageChunk(c) => text_chunk_step(open, c),
        Event::ToolCallChunk(c) => tool_chunk_step(open, c),
        Event::ReasoningMessageChunk(c) => reasoning_chunk_step(open, c),
        _ => if passes_through(e) {
            ChunkStep { open, events: seq![e], missing: None }
        } else {
            ChunkStep { open: None, events: closing(open) + seq![e], missing: None }
        },
    }
}

fn push_text_delta(events: &mut Vec<Event>, mid: &String, delta: Option<String>)
    ensures
        final(events)@ == old(events)@ + text_delta(*mid, delta),
{
    if let Some(d) = delta {
        events.push(
            Event::TextMessageContent(
                TextMessageContentEvent {
                    message_id: mid.clone(),
                    delta: d,
                    base: BaseEventFields::empty(),
                },
            ),
        );
    }
}

fn push_tool_delta(events: &mut Vec<Event>, id: &String, delta: Option<String>)
    ensures
        final(events)@ == old(events)@ + tool_delta(*id, delta),
{
    if let Some(d) = delta {
        events.push(
            Event::ToolCallArgs(
                ToolCallArgsEvent { tool_call_id: id.clone(), delta: d, base: BaseEventFields::empty() },
            ),
        );
    }
}

fn push_reasoning_delta(events: &mut Vec<Event>, mid: &String, delta: Option<String>)
    ensures
        final(events)@ == old(events)@ + reasoning_delta(*mid, delta),
{
    if let Some(d) = delta {
        events.push(
            Event::ReasoningMessageContent(
                ReasoningMessageContentEvent {
                    message_id: mid.clone(),
                    delta: d,
                    base: BaseEventFields::empty(),
                },
            ),
        );
    }
}

/// Closes what is open, appending its `*_END` event.
fn close_open(open: &mut Option<OpenChunk>, events: &mut Vec<Event>)
    ensures
        *final(open) == None::<OpenChunk>,
        final(events)@ == old(events)@ + closing(*old(open)),
{
    if let Some(pending) = open.take() {
        events.push(pending.close());
    }
}

/// Expands a text chunk as `text_chunk_step` says.
pub fn expand_text_chunk(open: &mut Option<OpenChunk>, chunk: TextMessageChunkEvent) -> (r: Result<
    Vec<Event>,
    AgUiError,
>)
    ensures
        ({
            let st = text_chunk_step(*old(open), chunk);
            &&& *final(open) == st.open
            &&& match st.missing {
                None => r matches Ok(evs) && evs@ == st.events,
                Some(f) => r matches Err(AgUiError::Validation(m)) && m@ == missing_text(f),
            }
        }),
{
    let mut events: Vec<Event> = Vec::new();
    let continues = match (&*open, &chunk.message_id) {
        (Some(OpenChunk::Text { message_id }), Some(incoming)) => *message_id == *incoming,
        (Some(OpenChunk::Text { .. }), None) => true,
        _ => false,
    };
    if continues {
        match &*open {
            Some(OpenChunk::Text { message_id }) => {
                push_text_delta(&mut events, message_id, chunk.delta);
            },
            _ => {},
        }
        return Ok(events);
    }
    close_open(open, &mut events);
    match chunk.message_id {
        None => Err(MissingField::TextMessageId.to_error()),
        Some(mid) => {
            *open = Some(OpenChunk::Text { message_id: mid.clone() });
            let role = match chunk.role {
                Some(r) => r,
                None => TextMessageRole::default_role(),
            };
            let start_id = mid.clone();
            events.push(
                Event::TextMessageStart(
                    TextMessageStartEvent {
                        message_id: start_id,
                        role,
                        name: chunk.name,
                        base: BaseEventFields::empty(),
                    },
                ),
            );
            push_text_delta(&mut events, &mid, chunk.delta);
            Ok(events)
        },
    }
}

/// Expands a tool call chunk as `tool_chunk_step` says.
pub fn expand_tool_chunk(open: &mut Option<OpenChunk>, chunk: ToolCallChunkEvent) -> (r: Result<
    Vec<Event>,
    AgUiError,
>)
    ensures
        ({
            let st = tool_chunk_step(*old(open), chunk);
            &&& *final(open) == st.open
            &&& match st.missing {
                None => r matches Ok(evs) && evs@ == st.events,
                Some(f) => r matches Err(AgUiError::Validation(m)) && m@ == missing_text(f),
            }
        }),
{
    let mut events: Vec<Event> = Vec::new();
    let continues = match (&*open, &chunk.tool_call_id) {
        (Some(OpenChunk::Tool { tool_call_id }), Some(incoming)) => *tool_call_id == *incoming,
        (Some(OpenChunk::Tool { .. }), None) => true,
        _ => false,
    };
    if continues {
        match &*open {
            Some(OpenChunk::Tool { tool_call_id }) => {
                push_tool_delta(&mut events, tool_call_id, chunk.delta);
            },
            _ => {},
        }
        return Ok(events);
    }
    close_open(open, &mut events);
    match chunk.tool_call_id {
        None => Err(MissingField::ToolCallId.to_error()),
        Some(id) => match chunk.tool_call_name {
            None => Err(MissingField::ToolCallName.to_error()),
            Some(name) => {
                *open = Some(OpenChunk::Tool { tool_call_id: id.clone() });
                let start_id = id.clone();
                events.push(
                    Event::ToolCallStart(
                        ToolCallStartEvent {
                            tool_call_id: start_id,
                            tool_call_name: name,
                            parent_message_id: chunk.parent_message_id,
                            base: BaseEventFields::empty(),
                        },
                    ),
                );
                push_tool_delta(&mut events, &id, chunk.delta);
                Ok(events)
            },
        },
    }
}

/// Expands a reasoning chunk as `reasoning_chunk_step` says.
pub fn expand_reasoning_chunk(
    open: &mut Option<OpenChunk>,
    chunk: ReasoningMessageChunkEvent,
) -> (r: Result<Vec<Event>, AgUiError>)
    ensures
        ({
            let st = reasoning_chunk_step(*old(open), chunk);
            &&& *final(open) == st.open
            &&& match st.missing {
                None => r matches Ok(evs) && evs@ == st.events,
                Some(f) => r matches Err(AgUiError::Validation(m)) && m@ == missing_text(f),
            }
        }),
{
    let mut events: Vec<Event> = Vec::new();
    let continues = match (&*open, &chunk.message_id) {
        (Some(OpenChunk::Reasoning { message_id }), Some(incoming)) => *message_id == *incoming,
        (Some(OpenChunk::Reasoning { .. }), None) => true,
        _ => false,
    };
    if continues {
        match &*open {
            Some(OpenChunk::Reasoning { message_id }) => {
                push_reasoning_delta(&mut events, message_id, chunk.delta);
            },
            _ => {},
        }
        return Ok(events);
    }
    close_open(open, &mut events);
    match chunk.message_id {
        None => Err(MissingField::ReasoningMessageId.to_error()),
        Some(mid) => {
            *open = Some(OpenChunk::Reasoning { message_id: mid.clone() });
            let start_id = mid.clone();
            events.push(
                Event::ReasoningMessageStart(
                    ReasoningMessageStartEvent {
                        message_id: start_id,
                        role: ReasoningMessageRole::Reasoning,
                        base: BaseEventFields::empty(),
                    },
                ),
            );
            push_reasoning_delta(&mut events, &mid, chunk.delta);
            Ok(events)
        },
    }
}

/// Expands one event of the stream as `expand_step` says.
pub fn expand_event(open: &mut Option<OpenChunk>, event: Event) -> (r: Result<Vec<Event>, AgUiError>)
    ensures
        ({
            let st = expand_step(*old(open), event);
            &&& *final(open) == st.open
            &&& match st.missing {
                None => r matches Ok(evs) && evs@ == st.events,
                Some(f) => r matches Err(AgUiError::Validation(m)) && m@ == missing_text(f),
            }
        }),
{
    match event {
        Event::TextMessageChunk(chunk) => expand_text_chunk(open, chunk),
        Event::ToolCallChunk(chunk) => expand_tool_chunk(open, chunk),
        Event::ReasoningMessageChunk(chunk) => expand_reasoning_chunk(open, chunk),
        Event::Raw(e) => Ok(vec![Event::Raw(e)]),
        Event::ActivitySnapshot(e) => Ok(vec![Event::ActivitySnapshot(e)]),
        Event::ActivityDelta(e) => Ok(vec![Event::ActivityDelta(e)]),
        Event::ReasoningEncryptedValue(e) => Ok(vec![Event::ReasoningEncryptedValue(e)]),
        other => {
            let mut events: Vec<Event> = Vec::new();
            close_open(open, &mut events);
            events.push(other);
            Ok(events)
        },
    }
}

/// One item of the expanded stream.
pub enum Expanded {
    /// An event to pass on.
    Emit(Event),
    /// An upstream error, passed on; the stream ends.
    Upstream(AgUiError),
    /// A chunk that lacks a field it must carry; the stream ends.
    Missing(MissingField),
}

/// The items of the expanded stream, given what is open: upstream errors and missing fields end
/// it; at the end of the input the open stream is closed.
pub open spec fn expand_trace(open: Option<OpenChunk>, items: Seq<Result<Event, AgUiError>>) -> Seq<
    Expanded,
>
    decreases items.len(),
{
    if items.len() == 0 {
        closing(open).map_values(|e: Event| Expanded::Emit(e))
    } else {
        match items[0] {
            Err(e) => seq![Expanded::Upstream(e)],
            Ok(e) => {
                let st = expand_step(open, e);
                match st.missing {
                    Some(f) => seq![Expanded::Missing(f)],
                    None => st.events.map_values(|e: Event| Expanded::Emit(e)) + expand_trace(
                        st.open,
                        items.drop_first(),
                    ),
                }
            },
        }
    }
}

/// The output item that stands for an expanded item.
pub open spec fn expanded_matches(out: Result<Event, AgUiError>, x: Expanded) -> bool {
    match x {
        Expanded::Emit(e) => out == Ok::<Event, AgUiError>(e),
        Expanded::Upstream(e) => out == Err::<Event, AgUiError>(e),
        Expanded::Missing(f) => out matches Err(AgUiError::Validation(m)) && m@ == missing_text(f),
    }
}

/// Expands the chunk events of a stream into start / content / end events, as `expand_trace`
/// says, starting with nothing open.
pub fn expand_chunks(items: Vec<Result<Event, AgUiError>>) -> (r: Vec<Result<Event, AgUiError>>)
    ensures
        r@.len() == expand_trace(None, items@).len(),
        forall|i: int|
            0 <= i < r@.len() ==> expanded_matches(
                #[trigger] r@[i],
                expand_trace(None, items@)[i],
            ),
{
    let ghost orig = items@;
    let ghost total = expand_trace(None, orig);
    let ghost mut done: Seq<Expanded> = Seq::empty();
    let mut open: Option<OpenChunk> = None;
    let mut out: Vec<Result<Event, AgUiError>> = Vec::new();
    assert(orig.skip(0) =~= orig);
    assert(done + expand_trace(None, orig) =~= expand_trace(None, orig));
    for item in it: items.into_iter()
        invariant
            it.seq() == orig,
            orig == items@,
            total == expand_trace(None, orig),
            total == done + expand_trace(open, orig.skip(it.index() as int)),
            out@.len() == done.len(),
            forall|k: int| 0 <= k < out@.len() ==> expanded_matches(#[trigger] out@[k], done[k]),
    {
        let ghost i = it.index() as int;
        let ghost rest = orig.skip(i);
        assert(item == orig[i]);
        assert(rest[0] == orig[i]);
        assert(rest.drop_first() =~= orig.skip(i + 1));
        match item {
            Err(e) => {
                proof {
                    assert(expand_trace(open, rest) == seq![Expanded::Upstream(e)]);
                }
                out.push(Err(e));
                proof {
                    done = done.push(Expanded::Upstream(e));
                    assert(total =~= done);
                }
                return out;
            },
            Ok(event) => {
                let ghost before = open;
                let ghost st = expand_step(open, event);
                match expand_event(&mut open, event) {
                    Err(e) => {
                        proof {
                            assert(expand_trace(before, rest) == seq![
                                Expanded::Missing(st.missing->0),
                            ]);
                        }
                        out.push(Err(e));
                        proof {
                            done = done.push(Expanded::Missing(st.missing->0));
                            assert(total =~= done);
                        }
                        return out;
                    },
                    Ok(events) => {
                        let ghost emitted = events@.map_values(|e: Event| Expanded::Emit(e));
                        proof {
                            assert(expand_trace(before, rest) == emitted + expand_trace(
                                open,
                                orig.skip(i + 1),
                            ));
                        }
                        let ghost base = done;
                        let ghost base_len = out@.len();
                        for ev in jt: events.into_iter()
                            invariant
                                jt.seq() == st.events,
                                out@.len() == base_len + jt.index(),
                                base_len == base.len(),
                                forall|k: int|
                                    0 <= k < base_len ==> expanded_matches(
                                        #[trigger] out@[k],
                                        base[k],
                                    ),
                                forall|k: int|
                                    0 <= k < jt.index() ==> #[trigger] out@[base_len + k]
                                        == Ok::<Event, AgUiError>(st.events[k]),
                        {
                            assert(ev == st.events[jt.index() as int]);
                            out.push(Ok(ev));
                        }
                        proof {
                            done = base + emitted;
                            assert forall|k: int| 0 <= k < out@.len() implies expanded_matches(
                                #[trigger] out@[k],
                                done[k],
                            ) by {
                                if k >= base_len {
                                    assert(out@[base_len + (k - base_len)] == Ok::<
                                        Event,
                                        AgUiError,
                                    >(st.events[k - base_len]));
                                }
                            }
                            assert(total =~= done + expand_trace(open, orig.skip(i + 1)));
                        }
                    },
                }
            },
        }
    }
    proof {
        assert(orig.skip(orig.len() as int) =~= Seq::<Result<Event, AgUiError>>::empty());
    }
    let ghost tail = closing(open).map_values(|e: Event| Expanded::Emit(e));
    if let Some(pending) = open {
        let ghost c = pending;
        out.push(Ok(pending.close()));
        proof {
            done = done + tail;
            assert forall|k: int| 0 <= k < out@.len() implies expanded_matches(
                #[trigger] out@[k],
                done[k],
            ) by {}
        }
    }
    proof {
        assert(total =~= done);
    }
    out
}

/// Whether the event is one of the chunk events.
pub open spec fn is_chunk(e: Event) -> bool {
    e is TextMessageChunk || e is ToolCallChunk || e is ReasoningMessageChunk
}

proof fn lemma_step_emits_no_chunk(open: Option<OpenChunk>, e: Event)
    ensures
        forall|i: int|
            0 <= i < expand_step(open, e).events.len() ==> !is_chunk(
                #[trigger] expand_step(open, e).events[i],
            ),
{
    let st = expand_step(open, e);
    assert forall|i: int| 0 <= i < st.events.len() implies !is_chunk(#[trigger] st.events[i]) by {
        match e {
            Event::TextMessageChunk(c) => {
                if !continues_text(open, c.message_id) && c.message_id is Some {
                    let mid = c.message_id->0;
                    let a = closing(open);
                    let b = seq![
                        Event::TextMessageStart(
                            TextMessageStartEvent {
                                message_id: mid,
                                role: match c.role {
                                    Some(r) => r,
                                    None => TextMessageRole::Assistant,
                                },
                                name: c.name,
                                base: BaseEventFields::spec_default(),
                            },
                        ),
                    ];
                    if i >= a.len() + b.len() {
                        assert(st.events[i] == text_delta(mid, c.delta)[i - a.len() - b.len()]);
                    } else if i >= a.len() {
                        assert(st.events[i] == b[i - a.len()]);
                    } else {
                        assert(st.events[i] == a[i]);
                    }
                }
            },
            Event::ToolCallChunk(c) => {
                if !continues_tool(open, c.tool_call_id) && c.tool_call_id is Some
                    && c.tool_call_name is Some {
                    let id = c.tool_call_id->0;
                    let a = closing(open);
                    let b = seq![
                        Event::ToolCallStart(
                            ToolCallStartEvent {
                                tool_call_id: id,
                                tool_call_name: c.tool_call_name->0,
                                parent_message_id: c.parent_message_id,
                                base: BaseEventFields::spec_default(),
                            },
                        ),
                    ];
                    if i >= a.len() + b.len() {
                        assert(st.events[i] == tool_delta(id, c.delta)[i - a.len() - b.len()]);
                    } else if i >= a.len() {
                        assert(st.events[i] == b[i - a.len()]);
                    } else {
                        assert(st.events[i] == a[i]);
                    }
                }
            },
            Event::ReasoningMessageChunk(c) => {
                if !continues_reasoning(open, c.message_id) && c.message_id is Some {
                    let mid = c.message_id->0;
                    let a = closing(open);
                    let b = seq![
                        Event::ReasoningMessageStart(
                            ReasoningMessageStartEvent {
                                message_id: mid,
                                role: ReasoningMessageRole::Reasoning,
                                base: BaseEventFields::spec_default(),
                            },
                        ),
                    ];
                    if i >= a.len() + b.len() {
                        assert(st.events[i] == reasoning_delta(mid, c.delta)[i - a.len() - b.len()]);
                    } else if i >= a.len() {
                        assert(st.events[i] == b[i - a.len()]);
                    } else {
                        assert(st.events[i] == a[i]);
                    }
                }
            },
            _ => {
                if !passes_through(e) {
                    let a = closing(open);
                    if i >= a.len() {
                        assert(st.events[i] == e);
                    } else {
                        assert(st.events[i] == a[i]);
                    }
                }
            },
        }
    }
}

/// Chunk expansion leaves no chunk event in the stream: every event it emits is a start,
/// content, end or other event.
pub proof fn law_expansion_emits_no_chunks(open: Option<OpenChunk>, items: Seq<Result<Event, AgUiError>>)
    ensures
        forall|i: int|
            0 <= i < expand_trace(open, items).len() ==> (#[trigger] expand_trace(open, items)[i] matches Expanded::Emit(e)
                ==> !is_chunk(e)),
    decreases items.len(),
{
    let t = expand_trace(open, items);
    if items.len() == 0 {
        assert forall|i: int| 0 <= i < t.len() implies (#[trigger] t[i] matches Expanded::Emit(e)
            ==> !is_chunk(e)) by {
            assert(t[i] == Expanded::Emit(closing(open)[i]));
        }
    } else {
        match items[0] {
            Err(_) => {},
            Ok(e) => {
                let st = expand_step(open, e);
                if st.missing is None {
                    lemma_step_emits_no_chunk(open, e);
                    law_expansion_emits_no_chunks(st.open, items.drop_first());
                    let head = st.events.map_values(|x: Event| Expanded::Emit(x));
                    let rest = expand_trace(st.open, items.drop_first());
                    assert forall|i: int| 0 <= i < t.len() implies (#[trigger] t[i] matches Expanded::Emit(x)
                        ==> !is_chunk(x)) by {
                        if i < head.len() {
                            assert(t[i] == head[i]);
                            assert(head[i] == Expanded::Emit(st.events[i]));
                        } else {
                            assert(t[i] == rest[i - head.len()]);
                        }
                    }
                }
            },
        }
    }
}


/// A tool call chunk that names another tool call than the open one switches tool calls: the
/// open tool call is ended, the named one is started with the chunk's name and parent, its
/// delta (if any) follows as arguments, and the named one is open afterwards. A chunk that
/// names the open tool call, or names none, only adds its delta to the open tool call.
pub proof fn law_tool_chunk_switches_on_a_new_id(open_id: String, incoming: String, c: ToolCallChunkEvent)
    ensures
        c.tool_call_id == Some(incoming) && incoming@ != open_id@ && c.tool_call_name is Some ==> {
            let step = expand_step(
                Some(OpenChunk::Tool { tool_call_id: open_id }),
                Event::ToolCallChunk(c),
            );
            &&& step.missing is None
            &&& step.open == Some(OpenChunk::Tool { tool_call_id: incoming })
            &&& step.events.len() >= 2
            &&& step.events[0] == Event::ToolCallEnd(
                ToolCallEndEvent { tool_call_id: open_id, base: BaseEventFields::spec_default() },
            )
            &&& step.events[1] == Event::ToolCallStart(
                ToolCallStartEvent {
                    tool_call_id: incoming,
                    tool_call_name: c.tool_call_name->0,
                    parent_message_id: c.parent_message_id,
                    base: BaseEventFields::spec_default(),
                },
            )
            &&& step.events.len() == 2 + if c.delta is Some { 1int } else { 0int }
            &&& c.delta matches Some(d) ==> step.events[2] == Event::ToolCallArgs(
                ToolCallArgsEvent { tool_call_id: incoming, delta: d, base: BaseEventFields::spec_default() },
            )
        },
        (c.tool_call_id is None || c.tool_call_id->0@ == open_id@) ==> {
            let step = expand_step(
                Some(OpenChunk::Tool { tool_call_id: open_id }),
                Event::ToolCallChunk(c),
            );
            &&& step.missing is None
            &&& step.open == Some(OpenChunk::Tool { tool_call_id: open_id })
            &&& step.events.len() == if c.delta is Some { 1int } else { 0int }
            &&& c.delta matches Some(d) ==> step.events[0] == Event::ToolCallArgs(
                ToolCallArgsEvent { tool_call_id: open_id, delta: d, base: BaseEventFields::spec_default() },
            )
        },
{
}


/// A text chunk that names another message than the open text message ends the open one and
/// starts the named one (with the chunk's role, or assistant), which is open afterwards; a text
/// chunk that names the open message, or none, only adds its delta to it.
pub proof fn law_text_chunk_switches_on_a_new_id(open_id: String, incoming: String, c: TextMessageChunkEvent)
    ensures
        c.message_id == Some(incoming) && incoming@ != open_id@ ==> {
            let step = expand_step(
                Some(OpenChunk::Text { message_id: open_id }),
                Event::TextMessageChunk(c),
            );
            &&& step.missing is None
            &&& step.open == Some(OpenChunk::Text { message_id: incoming })
            &&& step.events.len() == 2 + if c.delta is Some { 1int } else { 0int }
            &&& step.events[0] == Event::TextMessageEnd(
                TextMessageEndEvent { message_id: open_id, base: BaseEventFields::spec_default() },
            )
            &&& step.events[1] == Event::TextMessageStart(
                TextMessageStartEvent {
                    message_id: incoming,
                    role: match c.role {
                        Some(r) => r,
                        None => TextMessageRole::Assistant,
                    },
                    name: c.name,
                    base: BaseEventFields::spec_default(),
                },
            )
        },
        (c.message_id is None || c.message_id->0@ == open_id@) ==> {
            let step = expand_step(
                Some(OpenChunk::Text { message_id: open_id }),
                Event::TextMessageChunk(c),
            );
            &&& step.missing is None
            &&& step.open == Some(OpenChunk::Text { message_id: open_id })
            &&& step.events.len() == if c.delta is Some { 1int } else { 0int }
        },
{
}

/// A reasoning chunk that names another message than the open reasoning message ends the open
/// one and starts the named one, which is open afterwards; a reasoning chunk that names the
/// open message, or none, only adds its delta to it.
pub proof fn law_reasoning_chunk_switches_on_a_new_id(
    open_id: String,
    incoming: String,
    c: ReasoningMessageChunkEvent,
)
    ensures
        c.message_id == Some(incoming) && incoming@ != open_id@ ==> {
            let step = expand_step(
                Some(OpenChunk::Reasoning { message_id: open_id }),
                Event::ReasoningMessageChunk(c),
            );
            &&& step.missing is None
            &&& step.open == Some(OpenChunk::Reasoning { message_id: incoming })
            &&& step.events.len() == 2 + if c.delta is Some { 1int } else { 0int }
            &&& step.events[0] == Event::ReasoningMessageEnd(
                ReasoningMessageEndEvent { message_id: open_id, base: BaseEventFields::spec_default() },
            )
            &&& step.events[1] == Event::ReasoningMessageStart(
                ReasoningMessageStartEvent {
                    message_id: incoming,
                    role: ReasoningMessageRole::Reasoning,
                    base: BaseEventFields::spec_default(),
                },
            )
        },
        (c.message_id is None || c.message_id->0@ == open_id@) ==> {
            let step = expand_step(
                Some(OpenChunk::Reasoning { message_id: open_id }),
                Event::ReasoningMessageChunk(c),
            );
            &&& step.missing is None
            &&& step.open == Some(OpenChunk::Reasoning { message_id: open_id })
            &&& step.events.len() == if c.delta is Some { 1int } else { 0int }
        },
{
}

} // verus!

//! The text that a run's streaming hooks are shown: per text message, tool call and
//! reasoning message, what has streamed in so far, and, for a tool call, its name and its
//! arguments read as JSON.
use vstd::prelude::*;
use crate::events::Event;
use crate::id_map::IdMap;
use crate::json::{json_from_option, json_or_null, json_parsed, parse_json_text};
use crate::text::{concat2, owned};

verus! {

/// What a map of buffers holds under `key`, as characters.
pub open spec fn buffer_at(m: IdMap<String>, key: Seq<char>) -> Option<Seq<char>> {
    match m.get(key) {
        Some(s) => Some(s@),
        None => None,
    }
}

/// The characters of a buffer, empty where there is none.
pub open spec fn or_empty(b: Option<Seq<char>>) -> Seq<char> {
    match b {
        Some(s) => s,
        None => Seq::empty(),
    }
}

/// The arguments of a tool call as a hook sees them: the parsed JSON, or `null` where the
/// text was not JSON.
pub open spec fn args_value(parsed: Option<serde_json::Value>) -> serde_json::Value {
    match parsed {
        Some(v) => v,
        None => json_or_null(None),
    }
}

/// The arguments of a tool call from what parsing its text gave: the value, or `null`.
pub fn args_or_null(parsed: Option<serde_json::Value>) -> (r: serde_json::Value)
    ensures
        r == args_value(parsed),
{
    json_from_option(parsed)
}

/// What the hook of one event is shown besides the event.
#[derive(Debug)]
pub enum BufferedHook {
    /// The event's hook is shown no buffer.
    Unbuffered,
    /// A text message's content so far, this event's delta included.
    TextContent { buffer: String },
    /// A text message's whole content, as it ends.
    TextEnd { buffer: String },
    /// A tool call's arguments so far, this delta included, its name, and those arguments
    /// read as JSON (`null` while they are not yet JSON).
    ToolCallArgs { buffer: String, tool_call_name: String, partial_args: serde_json::Value },
    /// A tool call's name and its arguments read as JSON (`null` where they are not JSON),
    /// as it ends.
    ToolCallEnd { tool_call_name: String, tool_call_args: serde_json::Value },
    /// A reasoning message's content so far, this event's delta included.
    ReasoningContent { buffer: String },
    /// A reasoning message's whole content, as it ends.
    ReasoningEnd { buffer: String },
}

/// The buffers of one run: text per text message, argument text and name per tool call,
/// and text per reasoning message.
pub struct HookBuffers {
    text: IdMap<String>,
    tool_args: IdMap<String>,
    tool_names: IdMap<String>,
    reasoning: IdMap<String>,
}

impl HookBuffers {
    /// The text streamed so far for a text message.
    pub closed spec fn text(self, id: Seq<char>) -> Option<Seq<char>> {
        buffer_at(self.text, id)
    }

    /// The argument text streamed so far for a tool call.
    pub closed spec fn tool_args(self, id: Seq<char>) -> Option<Seq<char>> {
        buffer_at(self.tool_args, id)
    }

    /// The name of a started tool call.
    pub closed spec fn tool_name(self, id: Seq<char>) -> Option<Seq<char>> {
        buffer_at(self.tool_names, id)
    }

    /// The text streamed so far for a reasoning message.
    pub closed spec fn reasoning(self, id: Seq<char>) -> Option<Seq<char>> {
        buffer_at(self.reasoning, id)
    }

    /// Whether two sets of buffers hold the same text everywhere.
    pub open spec fn same_as(self, other: HookBuffers) -> bool {
        &&& forall|k: Seq<char>| #[trigger] self.text(k) == other.text(k)
        &&& forall|k: Seq<char>| #[trigger] self.tool_args(k) == other.tool_args(k)
        &&& forall|k: Seq<char>| #[trigger] self.tool_name(k) == other.tool_name(k)
        &&& forall|k: Seq<char>| #[trigger] self.reasoning(k) == other.reasoning(k)
    }

    /// Empty buffers, as a run starts.
    pub fn new() -> (r: Self)
        ensures
            forall|k: Seq<char>| #[trigger] r.text(k) is None,
            forall|k: Seq<char>| #[trigger] r.tool_args(k) is None,
            forall|k: Seq<char>| #[trigger] r.tool_name(k) is None,
            forall|k: Seq<char>| #[trigger] r.reasoning(k) is None,
    {
        HookBuffers {
            text: IdMap::new(),
            tool_args: IdMap::new(),
            tool_names: IdMap::new(),
            reasoning: IdMap::new(),
        }
    }

    /// Appends `delta` to the buffer under `id` in `m` (an absent buffer counts as empty)
    /// and returns the new content.
    fn append_to(m: &mut IdMap<String>, id: &str, delta: &str) -> (r: String)
        ensures
            r@ == or_empty(buffer_at(*old(m), id@)) + delta@,
            forall|k: Seq<char>| #[trigger]
                buffer_at(*final(m), k) == if k == id@ {
                    Some(r@)
                } else {
                    buffer_at(*old(m), k)
                },
    {
        let content = match m.lookup(id) {
            Some(b) => concat2(b.as_str(), delta),
            None => owned(delta),
        };
        m.insert(owned(id), content.clone());
        content
    }

    /// The buffer under `id` in `m`, empty where there is none.
    fn read(m: &IdMap<String>, id: &str) -> (r: String)
        ensures
            r@ == or_empty(buffer_at(*m, id@)),
    {
        match m.lookup(id) {
            Some(b) => b.clone(),
            None => String::new(),
        }
    }

    /// Takes in one event of the run, in the order in which it was applied, and returns
    /// what its hook is shown. A start event opens an empty buffer (and, for a tool call,
    /// records its name); a content or arguments event appends its delta; an end event shows
    /// the whole buffer and drops it. Every other event leaves the buffers as they are.
    pub fn observe(&mut self, event: &Event) -> (r: BufferedHook)
        ensures
            match event {
                Event::TextMessageStart(e) => {
                    &&& r is Unbuffered
                    &&& forall|k: Seq<char>| #[trigger]
                        final(self).text(k) == if k == e.message_id@ {
                            Some(Seq::<char>::empty())
                        } else {
                            old(self).text(k)
                        }
                    &&& forall|k: Seq<char>| #[trigger] final(self).tool_args(k) == old(self).tool_args(k)
                    &&& forall|k: Seq<char>| #[trigger] final(self).tool_name(k) == old(self).tool_name(k)
                    &&& forall|k: Seq<char>| #[trigger] final(self).reasoning(k) == old(self).reasoning(k)
                },
                Event::TextMessageContent(e) => {
                    let b = or_empty(old(self).text(e.message_id@)) + e.delta@;
                    &&& r matches BufferedHook::TextContent { buffer } && buffer@ == b
                    &&& forall|k: Seq<char>| #[trigger]
                        final(self).text(k) == if k == e.message_id@ {
                            Some(b)
                        } else {
                            old(self).text(k)
                        }
                    &&& forall|k: Seq<char>| #[trigger] final(self).tool_args(k) == old(self).tool_args(k)
                    &&& forall|k: Seq<char>| #[trigger] final(self).tool_name(k) == old(self).tool_name(k)
                    &&& forall|k: Seq<char>| #[trigger] final(self).reasoning(k) == old(self).reasoning(k)
                },
                Event::TextMessageEnd(e) => {
                    &&& r matches BufferedHook::TextEnd { buffer } && buffer@ == or_empty(
                        old(self).text(e.message_id@),
                    )
                    &&& forall|k: Seq<char>| #[trigger]
                        final(self).text(k) == if k == e.message_id@ {
                            None
                        } else {
                            old(self).text(k)
                        }
                    &&& forall|k: Seq<char>| #[trigger] final(self).tool_args(k) == old(self).tool_args(k)
                    &&& forall|k: Seq<char>| #[trigger] final(self).tool_name(k) == old(self).tool_name(k)
                    &&& forall|k: Seq<char>| #[trigger] final(self).reasoning(k) == old(self).reasoning(k)
                },
                Event::ToolCallStart(e) => {
                    &&& r is Unbuffered
                    &&& forall|k: Seq<char>| #[trigger]
                        final(self).tool_args(k) == if k == e.tool_call_id@ {
                            Some(Seq::<char>::empty())
                        } else {
                            old(self).tool_args(k)
                        }
                    &&& forall|k: Seq<char>| #[trigger]
                        final(self).tool_name(k) == if k == e.tool_call_id@ {
                            Some(e.tool_call_name@)
                        } else {
                            old(self).tool_name(k)
                        }
                    &&& forall|k: Seq<char>| #[trigger] final(self).text(k) == old(self).text(k)
                    &&& forall|k: Seq<char>| #[trigger] final(self).reasoning(k) == old(self).reasoning(k)
                },
                Event::ToolCallArgs(e) => {
                    let b = or_empty(old(self).tool_args(e.tool_call_id@)) + e.delta@;
                    &&& r matches BufferedHook::ToolCallArgs { buffer, tool_call_name, partial_args }
                        && buffer@ == b && tool_call_name@ == or_empty(
                        old(self).tool_name(e.tool_call_id@),
                    ) && partial_args == args_value(json_parsed(b))
                    &&& forall|k: Seq<char>| #[trigger]
                        final(self).tool_args(k) == if k == e.tool_call_id@ {
                            Some(b)
                        } else {
                            old(self).tool_args(k)
                        }
                    &&& forall|k: Seq<char>| #[trigger] final(self).tool_name(k) == old(self).tool_name(k)
                    &&& forall|k: Seq<char>| #[trigger] final(self).text(k) == old(self).text(k)
                    &&& forall|k: Seq<char>| #[trigger] final(self).reasoning(k) == old(self).reasoning(k)
                },
                Event::ToolCallEnd(e) => {
                    &&& r matches BufferedHook::ToolCallEnd { tool_call_name, tool_call_args }
                        && tool_call_name@ == or_empty(old(self).tool_name(e.tool_call_id@))
                        && tool_call_args == match old(self).tool_args(e.tool_call_id@) {
                        Some(b) => args_value(json_parsed(b)),
                        None => json_or_null(None),
                    }
                    &&& forall|k: Seq<char>| #[trigger]
                        final(self).tool_args(k) == if k == e.tool_call_id@ {
                            None
                        } else {
                            old(self).tool_args(k)
                        }
                    &&& forall|k: Seq<char>| #[trigger]
                        final(self).tool_name(k) == if k == e.tool_call_id@ {
                            None
                        } else {
                            old(self).tool_name(k)
                        }
                    &&& forall|k: Seq<char>| #[trigger] final(self).text(k) == old(self).text(k)
                    &&& forall|k: Seq<char>| #[trigger] final(self).reasoning(k) == old(self).reasoning(k)
                },
                Event::ReasoningMessageStart(e) => {
                    &&& r is Unbuffered
                    &&& forall|k: Seq<char>| #[trigger]
                        final(self).reasoning(k) == if k == e.message_id@ {
                            Some(Seq::<char>::empty())
                        } else {
                            old(self).reasoning(k)
                        }
                    &&& forall|k: Seq<char>| #[trigger] final(self).text(k) == old(self).text(k)
                    &&& forall|k: Seq<char>| #[trigger] final(self).tool_args(k) == old(self).tool_args(k)
                    &&& forall|k: Seq<char>| #[trigger] final(self).tool_name(k) == old(self).tool_name(k)
                },
                Event::ReasoningMessageContent(e) => {
                    let b = or_empty(old(self).reasoning(e.message_id@)) + e.delta@;
                    &&& r matches BufferedHook::ReasoningContent { buffer } && buffer@ == b
                    &&& forall|k: Seq<char>| #[trigger]
                        final(self).reasoning(k) == if k == e.message_id@ {
                            Some(b)
                        } else {
                            old(self).reasoning(k)
                        }
                    &&& forall|k: Seq<char>| #[trigger] final(self).text(k) == old(self).text(k)
                    &&& forall|k: Seq<char>| #[trigger] final(self).tool_args(k) == old(self).tool_args(k)
                    &&& forall|k: Seq<char>| #[trigger] final(self).tool_name(k) == old(self).tool_name(k)
                },
                Event::ReasoningMessageEnd(e) => {
                    &&& r matches BufferedHook::ReasoningEnd { buffer } && buffer@ == or_empty(
                        old(self).reasoning(e.message_id@),
                    )
                    &&& forall|k: Seq<char>| #[trigger]
                        final(self).reasoning(k) == if k == e.message_id@ {
                            None
                        } else {
                            old(self).reasoning(k)
                        }
                    &&& forall|k: Seq<char>| #[trigger] final(self).text(k) == old(self).text(k)
                    &&& forall|k: Seq<char>| #[trigger] final(self).tool_args(k) == old(self).tool_args(k)
                    &&& forall|k: Seq<char>| #[trigger] final(self).tool_name(k) == old(self).tool_name(k)
                },
                _ => r is Unbuffered && final(self).same_as(*old(self)),
            },
    {
        match event {
            Event::TextMessageStart(e) => {
                self.text.insert(e.message_id.clone(), String::new());
                BufferedHook::Unbuffered
            },
            Event::TextMessageContent(e) => {
                let buffer = Self::append_to(&mut self.text, e.message_id.as_str(), e.delta.as_str());
                BufferedHook::TextContent { buffer }
            },
            Event::TextMessageEnd(e) => {
                let buffer = Self::read(&self.text, e.message_id.as_str());
                self.text.remove(e.message_id.as_str());
                BufferedHook::TextEnd { buffer }
            },
            Event::ToolCallStart(e) => {
                self.tool_args.insert(e.tool_call_id.clone(), String::new());
                self.tool_names.insert(e.tool_call_id.clone(), e.tool_call_name.clone());
                BufferedHook::Unbuffered
            },
            Event::ToolCallArgs(e) => {
                let tool_call_name = Self::read(&self.tool_names, e.tool_call_id.as_str());
                let buffer = Self::append_to(
                    &mut self.tool_args,
                    e.tool_call_id.as_str(),
                    e.delta.as_str(),
                );
                let partial_args = args_or_null(parse_json_text(buffer.as_str()));
                BufferedHook::ToolCallArgs { buffer, tool_call_name, partial_args }
            },
            Event::ToolCallEnd(e) => {
                let tool_call_name = Self::read(&self.tool_names, e.tool_call_id.as_str());
                let tool_call_args = match self.tool_args.lookup(e.tool_call_id.as_str()) {
                    Some(b) => args_or_null(parse_json_text(b.as_str())),
                    None => json_from_option(None),
                };
                self.tool_args.remove(e.tool_call_id.as_str());
                self.tool_names.remove(e.tool_call_id.as_str());
                BufferedHook::ToolCallEnd { tool_call_name, tool_call_args }
            },
            Event::ReasoningMessageStart(e) => {
                self.reasoning.insert(e.message_id.clone(), String::new());
                BufferedHook::Unbuffered
            },
            Event::ReasoningMessageContent(e) => {
                let buffer = Self::append_to(
                    &mut self.reasoning,
                    e.message_id.as_str(),
                    e.delta.as_str(),
                );
                BufferedHook::ReasoningContent { buffer }
            },
            Event::ReasoningMessageEnd(e) => {
                let buffer = Self::read(&self.reasoning, e.message_id.as_str());
                self.reasoning.remove(e.message_id.as_str());
                BufferedHook::ReasoningEnd { buffer }
            },
            _ => BufferedHook::Unbuffered,
        }
    }
}

} // verus!

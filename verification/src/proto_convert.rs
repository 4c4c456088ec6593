//! The mapping between the library's events and the protobuf schema's messages. Events that
//! the schema lacks (reasoning, activity, thinking, tool call results) cannot be encoded.
use vstd::prelude::*;
use crate::error::AgUiError;
use crate::events::{BaseEventFields, Event, RunFinishedOutcome};
use crate::json::{
    json_bool, json_bool_value, json_map_from, json_map_insert, json_map_inserted, empty_json_map,
    json_object, json_object_from_map, json_object_members, json_string, json_string_value,
};
use crate::proto;
use crate::text::owned;
use crate::types::{
    clone_opt_string, clone_opt_value, BinaryInputContent, InputContent, InputContentSource,
    TextMessageRole,
};

verus! {

/// The wire number of a schema event type.
pub open spec fn event_type_code(t: proto::EventType) -> i32 {
    match t {
        proto::EventType::TextMessageStart => 0,
        proto::EventType::TextMessageContent => 1,
        proto::EventType::TextMessageEnd => 2,
        proto::EventType::ToolCallStart => 3,
        proto::EventType::ToolCallArgs => 4,
        proto::EventType::ToolCallEnd => 5,
        proto::EventType::StateSnapshot => 6,
        proto::EventType::StateDelta => 7,
        proto::EventType::MessagesSnapshot => 8,
        proto::EventType::Raw => 9,
        proto::EventType::Custom => 10,
        proto::EventType::RunStarted => 11,
        proto::EventType::RunFinished => 12,
        proto::EventType::RunError => 13,
        proto::EventType::StepStarted => 14,
        proto::EventType::StepFinished => 15,
    }
}

/// The wire number of a schema event type, as `event_type_code` says.
pub fn event_type_number(t: proto::EventType) -> (r: i32)
    ensures
        r == event_type_code(t),
{
    match t {
        proto::EventType::TextMessageStart => 0,
        proto::EventType::TextMessageContent => 1,
        proto::EventType::TextMessageEnd => 2,
        proto::EventType::ToolCallStart => 3,
        proto::EventType::ToolCallArgs => 4,
        proto::EventType::ToolCallEnd => 5,
        proto::EventType::StateSnapshot => 6,
        proto::EventType::StateDelta => 7,
        proto::EventType::MessagesSnapshot => 8,
        proto::EventType::Raw => 9,
        proto::EventType::Custom => 10,
        proto::EventType::RunStarted => 11,
        proto::EventType::RunFinished => 12,
        proto::EventType::RunError => 13,
        proto::EventType::StepStarted => 14,
        proto::EventType::StepFinished => 15,
    }
}

/// The schema's common fields of an event of type `t`.
pub open spec fn base_to(base: BaseEventFields, t: proto::EventType) -> proto::BaseEvent {
    proto::BaseEvent {
        kind: event_type_code(t),
        timestamp: base.timestamp,
        raw_event: base.raw_event,
    }
}

/// The schema's common fields of an event of type `t`, as `base_to` says.
pub fn base_to_proto(base: &BaseEventFields, t: proto::EventType) -> (r: proto::BaseEvent)
    ensures
        r == base_to(*base, t),
{
    proto::BaseEvent {
        kind: event_type_number(t),
        timestamp: base.timestamp,
        raw_event: clone_opt_value(&base.raw_event),
    }
}

/// The library's common fields of a decoded event: none when the message had none.
pub open spec fn base_from(base: Option<proto::BaseEvent>) -> BaseEventFields {
    match base {
        Some(b) => BaseEventFields { timestamp: b.timestamp, raw_event: b.raw_event },
        None => BaseEventFields::spec_default(),
    }
}

/// The library's common fields of a decoded event, as `base_from` says.
pub fn base_from_proto(base: Option<proto::BaseEvent>) -> (r: BaseEventFields)
    ensures
        r == base_from(base),
{
    match base {
        Some(b) => BaseEventFields { timestamp: b.timestamp, raw_event: b.raw_event },
        None => BaseEventFields::empty(),
    }
}

/// A tool call in the schema: its id, the kind `function`, and its function.
pub open spec fn tool_call_to_ok(t: crate::types::ToolCall, p: proto::ToolCall) -> bool {
    &&& p.id == t.id
    &&& p.kind@ == "function"@
    &&& p.function == Some(
        proto::ToolCallFunction { name: t.function.name, arguments: t.function.arguments },
    )
}

/// A tool call in the schema, as `tool_call_to_ok` says.
pub fn tool_call_to_proto(t: &crate::types::ToolCall) -> (r: proto::ToolCall)
    ensures
        tool_call_to_ok(*t, r),
{
    proto::ToolCall {
        id: t.id.clone(),
        kind: owned("function"),
        function: Some(
            proto::ToolCallFunction {
                name: t.function.name.clone(),
                arguments: t.function.arguments.clone(),
            },
        ),
    }
}

/// The library's tool call for a decoded one: a function call, with empty name and
/// arguments when the message had no function, and no encrypted value.
pub open spec fn tool_call_from_ok(p: proto::ToolCall, t: crate::types::ToolCall) -> bool {
    &&& t.id == p.id
    &&& t.kind == crate::types::ToolCallKind::Function
    &&& match p.function {
        Some(f) => t.function.name == f.name && t.function.arguments == f.arguments,
        None => t.function.name@ == Seq::<char>::empty() && t.function.arguments@
            == Seq::<char>::empty(),
    }
    &&& t.encrypted_value is None
}

/// The library's tool call for a decoded one, as `tool_call_from_ok` says.
pub fn tool_call_from_proto(p: proto::ToolCall) -> (r: crate::types::ToolCall)
    ensures
        tool_call_from_ok(p, r),
{
    let (name, arguments) = match p.function {
        Some(f) => (f.name, f.arguments),
        None => (String::new(), String::new()),
    };
    crate::types::ToolCall {
        id: p.id,
        kind: crate::types::ToolCallKind::Function,
        function: crate::types::FunctionCall { name, arguments },
        encrypted_value: None,
    }
}

/// Where an input part's content is, in the schema.
pub open spec fn source_to(s: InputContentSource) -> proto::InputContentSource {
    match s {
        InputContentSource::Data { value, mime_type } => proto::InputContentSource {
            source: Some(proto::Source::Data(proto::InputContentDataSource { value, mime_type })),
        },
        InputContentSource::Url { value, mime_type } => proto::InputContentSource {
            source: Some(proto::Source::Url(proto::InputContentUrlSource { value, mime_type })),
        },
    }
}

/// Where an input part's content is, in the schema, as `source_to` says.
pub fn source_to_proto(s: &InputContentSource) -> (r: proto::InputContentSource)
    ensures
        r == source_to(*s),
{
    match s {
        InputContentSource::Data { value, mime_type } => proto::InputContentSource {
            source: Some(
                proto::Source::Data(
                    proto::InputContentDataSource { value: value.clone(), mime_type: mime_type.clone() },
                ),
            ),
        },
        InputContentSource::Url { value, mime_type } => proto::InputContentSource {
            source: Some(
                proto::Source::Url(
                    proto::InputContentUrlSource {
                        value: value.clone(),
                        mime_type: clone_opt_string(mime_type),
                    },
                ),
            ),
        },
    }
}

/// Where a decoded input part's content is: nothing when the message says nothing.
pub open spec fn source_from(s: Option<proto::InputContentSource>) -> Option<InputContentSource> {
    match s {
        Some(proto::InputContentSource { source: Some(proto::Source::Data(d)) }) => Some(
            InputContentSource::Data { value: d.value, mime_type: d.mime_type },
        ),
        Some(proto::InputContentSource { source: Some(proto::Source::Url(u)) }) => Some(
            InputContentSource::Url { value: u.value, mime_type: u.mime_type },
        ),
        _ => None,
    }
}

/// Where a decoded input part's content is, as `source_from` says.
pub fn source_from_proto(s: Option<proto::InputContentSource>) -> (r: Option<InputContentSource>)
    ensures
        r == source_from(s),
{
    match s {
        Some(proto::InputContentSource { source: Some(proto::Source::Data(d)) }) => Some(
            InputContentSource::Data { value: d.value, mime_type: d.mime_type },
        ),
        Some(proto::InputContentSource { source: Some(proto::Source::Url(u)) }) => Some(
            InputContentSource::Url { value: u.value, mime_type: u.mime_type },
        ),
        _ => None,
    }
}

/// A media part in the schema.
pub open spec fn media_to(s: InputContentSource, metadata: Option<serde_json::Value>) -> proto::MediaInputPart {
    proto::MediaInputPart { source: Some(source_to(s)), metadata }
}

/// A media part in the schema, as `media_to` says.
pub fn media(s: &InputContentSource, metadata: &Option<serde_json::Value>) -> (r: proto::MediaInputPart)
    ensures
        r == media_to(*s, *metadata),
{
    proto::MediaInputPart { source: Some(source_to_proto(s)), metadata: clone_opt_value(metadata) }
}

/// The metadata that marks a legacy binary part: `legacyBinary: true`, then its file name and
/// its id when it has them.
pub open spec fn legacy_metadata(filename: Option<String>, id: Option<String>) -> serde_json::Value {
    let m0 = json_map_inserted(json_map_from(Seq::empty()), "legacyBinary"@, json_bool_value(true));
    let m1 = match filename {
        Some(f) => json_map_inserted(m0, "filename"@, json_string_value(f@)),
        None => m0,
    };
    let m2 = match id {
        Some(i) => json_map_inserted(m1, "id"@, json_string_value(i@)),
        None => m1,
    };
    json_object(m2)
}

/// The metadata that marks a legacy binary part, as `legacy_metadata` says.
pub fn legacy_binary_metadata(filename: &Option<String>, id: &Option<String>) -> (r: serde_json::Value)
    ensures
        r == legacy_metadata(*filename, *id),
{
    let mut m = empty_json_map();
    json_map_insert(&mut m, owned("legacyBinary"), json_bool(true));
    match filename {
        Some(f) => json_map_insert(&mut m, owned("filename"), json_string(f.clone())),
        None => {},
    }
    match id {
        Some(i) => json_map_insert(&mut m, owned("id"), json_string(i.clone())),
        None => {},
    }
    json_object_from_map(m)
}

/// Where a legacy binary part's content is in the schema: its inline data, else its URL, else
/// its id taken as a URL; none when it has none of them.
pub open spec fn binary_source_to(c: BinaryInputContent) -> Option<proto::InputContentSource> {
    match c.data {
        Some(d) => Some(
            proto::InputContentSource {
                source: Some(
                    proto::Source::Data(
                        proto::InputContentDataSource { value: d, mime_type: c.mime_type },
                    ),
                ),
            },
        ),
        None => match (if c.url is Some { c.url } else { c.id }) {
            Some(u) => Some(
                proto::InputContentSource {
                    source: Some(
                        proto::Source::Url(
                            proto::InputContentUrlSource { value: u, mime_type: Some(c.mime_type) },
                        ),
                    ),
                },
            ),
            None => None,
        },
    }
}

/// An input part in the schema: a legacy binary part becomes a document marked by its
/// metadata, and is dropped when it has no content.
pub open spec fn content_part_to(part: InputContent) -> Option<proto::InputContent> {
    match part {
        InputContent::Text { text } => Some(
            proto::InputContent { part: Some(proto::Part::Text(proto::TextInputPart { text })) },
        ),
        InputContent::Image { source, metadata } => Some(
            proto::InputContent { part: Some(proto::Part::Image(media_to(source, metadata))) },
        ),
        InputContent::Audio { source, metadata } => Some(
            proto::InputContent { part: Some(proto::Part::Audio(media_to(source, metadata))) },
        ),
        InputContent::Video { source, metadata } => Some(
            proto::InputContent { part: Some(proto::Part::Video(media_to(source, metadata))) },
        ),
        InputContent::Document { source, metadata } => Some(
            proto::InputContent { part: Some(proto::Part::Document(media_to(source, metadata))) },
        ),
        InputContent::Binary { content } => match binary_source_to(content) {
            Some(s) => Some(
                proto::InputContent {
                    part: Some(
                        proto::Part::Document(
                            proto::MediaInputPart {
                                source: Some(s),
                                metadata: Some(legacy_metadata(content.filename, content.id)),
                            },
                        ),
                    ),
                },
            ),
            None => None,
        },
    }
}

/// An input part in the schema, as `content_part_to` says.
pub fn content_part_to_proto(part: &InputContent) -> (r: Option<proto::InputContent>)
    ensures
        r == content_part_to(*part),
{
    let inner = match part {
        InputContent::Text { text } => proto::Part::Text(proto::TextInputPart { text: text.clone() }),
        InputContent::Image { source, metadata } => proto::Part::Image(media(source, metadata)),
        InputContent::Audio { source, metadata } => proto::Part::Audio(media(source, metadata)),
        InputContent::Video { source, metadata } => proto::Part::Video(media(source, metadata)),
        InputContent::Document { source, metadata } => proto::Part::Document(media(source, metadata)),
        InputContent::Binary { content } => {
            let source = match &content.data {
                Some(data) => proto::InputContentSource {
                    source: Some(
                        proto::Source::Data(
                            proto::InputContentDataSource {
                                value: data.clone(),
                                mime_type: content.mime_type.clone(),
                            },
                        ),
                    ),
                },
                None => {
                    let url = match &content.url {
                        Some(u) => Some(u),
                        None => match &content.id {
                            Some(i) => Some(i),
                            None => None,
                        },
                    };
                    match url {
                        Some(u) => proto::InputContentSource {
                            source: Some(
                                proto::Source::Url(
                                    proto::InputContentUrlSource {
                                        value: u.clone(),
                                        mime_type: Some(content.mime_type.clone()),
                                    },
                                ),
                            ),
                        },
                        None => {
                            return None;
                        },
                    }
                },
            };
            let meta = legacy_binary_metadata(&content.filename, &content.id);
            proto::Part::Document(proto::MediaInputPart { source: Some(source), metadata: Some(meta) })
        },
    };
    Some(proto::InputContent { part: Some(inner) })
}

/// The library's input part for a decoded one: none when the message has no part, or a media
/// part without a source.
pub open spec fn content_part_from(p: proto::InputContent) -> Option<InputContent> {
    match p.part {
        None => None,
        Some(proto::Part::Text(t)) => Some(InputContent::Text { text: t.text }),
        Some(proto::Part::Image(m)) => match source_from(m.source) {
            Some(s) => Some(InputContent::Image { source: s, metadata: m.metadata }),
            None => None,
        },
        Some(proto::Part::Audio(m)) => match source_from(m.source) {
            Some(s) => Some(InputContent::Audio { source: s, metadata: m.metadata }),
            None => None,
        },
        Some(proto::Part::Video(m)) => match source_from(m.source) {
            Some(s) => Some(InputContent::Video { source: s, metadata: m.metadata }),
            None => None,
        },
        Some(proto::Part::Document(m)) => match source_from(m.source) {
            Some(s) => Some(InputContent::Document { source: s, metadata: m.metadata }),
            None => None,
        },
    }
}

/// The library's input part for a decoded one, as `content_part_from` says.
pub fn content_part_from_proto(p: proto::InputContent) -> (r: Option<InputContent>)
    ensures
        r == content_part_from(p),
{
    match p.part {
        None => None,
        Some(proto::Part::Text(t)) => Some(InputContent::Text { text: t.text }),
        Some(proto::Part::Image(m)) => match source_from_proto(m.source) {
            Some(s) => Some(InputContent::Image { source: s, metadata: m.metadata }),
            None => None,
        },
        Some(proto::Part::Audio(m)) => match source_from_proto(m.source) {
            Some(s) => Some(InputContent::Audio { source: s, metadata: m.metadata }),
            None => None,
        },
        Some(proto::Part::Video(m)) => match source_from_proto(m.source) {
            Some(s) => Some(InputContent::Video { source: s, metadata: m.metadata }),
            None => None,
        },
        Some(proto::Part::Document(m)) => match source_from_proto(m.source) {
            Some(s) => Some(InputContent::Document { source: s, metadata: m.metadata }),
            None => None,
        },
    }
}

/// An interrupt in the schema: its schema and metadata as JSON objects.
pub open spec fn interrupt_to(i: crate::types::Interrupt) -> proto::Interrupt {
    proto::Interrupt {
        id: i.id,
        reason: i.reason,
        message: i.message,
        tool_call_id: i.tool_call_id,
        response_schema: match i.response_schema {
            Some(m) => Some(json_object(m)),
            None => None,
        },
        expires_at: i.expires_at,
        metadata: match i.metadata {
            Some(m) => Some(json_object(m)),
            None => None,
        },
    }
}

/// An optional JSON object as an optional JSON value.
fn object_value(m: &Option<serde_json::Map<String, serde_json::Value>>) -> (r: Option<serde_json::Value>)
    ensures
        r == match *m {
            Some(x) => Some(json_object(x)),
            None => None,
        },
        members_of(r) == *m,
{
    match m {
        Some(x) => Some(json_object_from_map(x.clone())),
        None => None,
    }
}

/// Whether the JSON objects of an interrupt read back as themselves from the values that
/// encode them.
pub open spec fn objects_read_back(i: crate::types::Interrupt) -> bool {
    &&& members_of(interrupt_to(i).response_schema) == i.response_schema
    &&& members_of(interrupt_to(i).metadata) == i.metadata
}

/// An interrupt in the schema, as `interrupt_to` says; its JSON objects read back from it.
pub fn interrupt_to_proto(i: &crate::types::Interrupt) -> (r: proto::Interrupt)
    ensures
        r == interrupt_to(*i),
        objects_read_back(*i),
{
    proto::Interrupt {
        id: i.id.clone(),
        reason: i.reason.clone(),
        message: clone_opt_string(&i.message),
        tool_call_id: clone_opt_string(&i.tool_call_id),
        response_schema: object_value(&i.response_schema),
        expires_at: clone_opt_string(&i.expires_at),
        metadata: object_value(&i.metadata),
    }
}

/// The members of an optional JSON value that is an object; none otherwise.
pub open spec fn members_of(v: Option<serde_json::Value>) -> Option<serde_json::Map<String, serde_json::Value>> {
    match v {
        Some(x) => json_object_members(x),
        None => None,
    }
}

/// The members of an optional JSON value, as `members_of` says.
fn as_object(v: &Option<serde_json::Value>) -> (r: Option<serde_json::Map<String, serde_json::Value>>)
    ensures
        r == members_of(*v),
{
    match v {
        Some(x) => crate::json::json_as_object(x),
        None => None,
    }
}

/// The library's interrupt for a decoded one: a schema or metadata that is not a JSON object
/// is dropped.
pub open spec fn interrupt_from(p: proto::Interrupt) -> crate::types::Interrupt {
    crate::types::Interrupt {
        id: p.id,
        reason: p.reason,
        message: p.message,
        tool_call_id: p.tool_call_id,
        response_schema: members_of(p.response_schema),
        expires_at: p.expires_at,
        metadata: members_of(p.metadata),
    }
}

/// The library's interrupt for a decoded one, as `interrupt_from` says.
pub fn interrupt_from_proto(p: proto::Interrupt) -> (r: crate::types::Interrupt)
    ensures
        r == interrupt_from(p),
{
    let response_schema = as_object(&p.response_schema);
    let metadata = as_object(&p.metadata);
    crate::types::Interrupt {
        id: p.id,
        reason: p.reason,
        message: p.message,
        tool_call_id: p.tool_call_id,
        response_schema,
        expires_at: p.expires_at,
        metadata,
    }
}

/// The schema's role name of a message.
pub open spec fn role_text(m: crate::types::Message) -> Seq<char> {
    match m {
        crate::types::Message::Developer(_) => "developer"@,
        crate::types::Message::System(_) => "system"@,
        crate::types::Message::Assistant(_) => "assistant"@,
        crate::types::Message::User(_) => "user"@,
        crate::types::Message::Tool(_) => "tool"@,
        crate::types::Message::Reasoning(_) => "reasoning"@,
        crate::types::Message::Activity(_) => "activity"@,
    }
}

/// The schema's role name of a message, as `role_text` says.
pub fn role_str(m: &crate::types::Message) -> (r: &'static str)
    ensures
        r@ == role_text(*m),
{
    match m {
        crate::types::Message::Developer(_) => "developer",
        crate::types::Message::System(_) => "system",
        crate::types::Message::Assistant(_) => "assistant",
        crate::types::Message::User(_) => "user",
        crate::types::Message::Tool(_) => "tool",
        crate::types::Message::Reasoning(_) => "reasoning",
        crate::types::Message::Activity(_) => "activity",
    }
}

/// The input parts in the schema: each as `content_part_to` says, those without content
/// dropped.
pub open spec fn parts_to(ps: Seq<InputContent>) -> Seq<proto::InputContent>
    decreases ps.len(),
{
    if ps.len() == 0 {
        Seq::empty()
    } else {
        let rest = parts_to(ps.drop_last());
        match content_part_to(ps.last()) {
            Some(x) => rest.push(x),
            None => rest,
        }
    }
}

/// The library's input parts for decoded ones: each as `content_part_from` says, those it
/// gives nothing for dropped.
pub open spec fn parts_from(ps: Seq<proto::InputContent>) -> Seq<InputContent>
    decreases ps.len(),
{
    if ps.len() == 0 {
        Seq::empty()
    } else {
        let rest = parts_from(ps.drop_last());
        match content_part_from(ps.last()) {
            Some(x) => rest.push(x),
            None => rest,
        }
    }
}

/// The text of an optional string, or the empty string.
pub open spec fn text_or_empty(o: Option<String>) -> Seq<char> {
    match o {
        Some(s) => s@,
        None => Seq::empty(),
    }
}

/// Whether a schema message carries nothing but its id and role.
pub open spec fn bare(p: proto::ProtoMessage) -> bool {
    &&& p.content is None
    &&& p.name is None
    &&& p.tool_calls@.len() == 0
    &&& p.tool_call_id is None
    &&& p.error is None
    &&& p.content_parts@.len() == 0
}

/// A message in the schema: its id and role, and the fields of its kind; an activity message
/// carries nothing else.
pub open spec fn message_to_ok(m: crate::types::Message, p: proto::ProtoMessage) -> bool {
    &&& p.id@ == m@.id()
    &&& p.role@ == role_text(m)
    &&& match m {
        crate::types::Message::Developer(d) => bare(
            proto::ProtoMessage { content: None, ..p },
        ) && p.content == Some(d.content),
        crate::types::Message::System(d) => bare(proto::ProtoMessage { content: None, ..p })
            && p.content == Some(d.content),
        crate::types::Message::Assistant(a) => {
            &&& p.content == a.content
            &&& p.name == a.name
            &&& p.tool_call_id is None
            &&& p.error is None
            &&& p.content_parts@.len() == 0
            &&& match a.tool_calls {
                Some(tcs) => p.tool_calls@.len() == tcs@.len() && forall|i: int|
                    0 <= i < tcs@.len() ==> tool_call_to_ok(tcs@[i], #[trigger] p.tool_calls@[i]),
                None => p.tool_calls@.len() == 0,
            }
        },
        crate::types::Message::User(u) => match u.content {
            crate::types::UserMessageContent::Text(t) => bare(
                proto::ProtoMessage { content: None, ..p },
            ) && p.content == Some(t),
            crate::types::UserMessageContent::Parts(ps) => {
                &&& p.content is None
                &&& p.name is None
                &&& p.tool_calls@.len() == 0
                &&& p.tool_call_id is None
                &&& p.error is None
                &&& p.content_parts@ == parts_to(ps@)
            },
        },
        crate::types::Message::Tool(t) => {
            &&& p.content == Some(t.content)
            &&& p.tool_call_id == Some(t.tool_call_id)
            &&& p.error == t.error
            &&& p.name is None
            &&& p.tool_calls@.len() == 0
            &&& p.content_parts@.len() == 0
        },
        crate::types::Message::Reasoning(r) => bare(proto::ProtoMessage { content: None, ..p })
            && p.content == Some(r.content),
        crate::types::Message::Activity(_) => bare(p),
    }
}

/// The input parts in the schema, as `parts_to` says.
fn parts_to_proto(ps: &Vec<InputContent>) -> (r: Vec<proto::InputContent>)
    ensures
        r@ == parts_to(ps@),
{
    let mut r: Vec<proto::InputContent> = Vec::new();
    let mut i: usize = 0;
    while i < ps.len()
        invariant
            i <= ps@.len(),
            r@ == parts_to(ps@.take(i as int)),
        decreases ps.len() - i,
    {
        assert(ps@.take(i + 1).drop_last() =~= ps@.take(i as int));
        match content_part_to_proto(&ps[i]) {
            Some(x) => r.push(x),
            None => {},
        }
        i += 1;
    }
    assert(ps@.take(ps.len() as int) =~= ps@);
    r
}

/// A message in the schema, as `message_to_ok` says.
pub fn message_to_proto(m: &crate::types::Message) -> (r: proto::ProtoMessage)
    ensures
        message_to_ok(*m, r),
{
    let id = owned(m.id());
    let role = owned(role_str(m));
    let mut content: Option<String> = None;
    let mut name: Option<String> = None;
    let mut tool_calls: Vec<proto::ToolCall> = Vec::new();
    let mut tool_call_id: Option<String> = None;
    let mut error: Option<String> = None;
    let mut content_parts: Vec<proto::InputContent> = Vec::new();
    match m {
        crate::types::Message::Developer(d) => {
            content = Some(d.content.clone());
        },
        crate::types::Message::System(d) => {
            content = Some(d.content.clone());
        },
        crate::types::Message::Assistant(a) => {
            content = clone_opt_string(&a.content);
            name = clone_opt_string(&a.name);
            match &a.tool_calls {
                Some(tcs) => {
                    let mut i: usize = 0;
                    while i < tcs.len()
                        invariant
                            i <= tcs@.len(),
                            tool_calls@.len() == i,
                            forall|k: int|
                                0 <= k < i ==> tool_call_to_ok(tcs@[k], #[trigger] tool_calls@[k]),
                        decreases tcs.len() - i,
                    {
                        tool_calls.push(tool_call_to_proto(&tcs[i]));
                        i += 1;
                    }
                },
                None => {},
            }
        },
        crate::types::Message::User(u) => match &u.content {
            crate::types::UserMessageContent::Text(t) => {
                content = Some(t.clone());
            },
            crate::types::UserMessageContent::Parts(ps) => {
                content_parts = parts_to_proto(ps);
            },
        },
        crate::types::Message::Tool(t) => {
            content = Some(t.content.clone());
            tool_call_id = Some(t.tool_call_id.clone());
            error = clone_opt_string(&t.error);
        },
        crate::types::Message::Reasoning(r) => {
            content = Some(r.content.clone());
        },
        crate::types::Message::Activity(_) => {},
    }
    proto::ProtoMessage { id, role, content, name, tool_calls, tool_call_id, error, content_parts }
}

/// The library's message for a decoded one, by its role; an unknown role is a protocol
/// error that names it.
pub open spec fn message_from_ok(p: proto::ProtoMessage, r: Result<crate::types::Message, crate::error::AgUiError>) -> bool {
    if p.role@ == "developer"@ {
        r matches Ok(crate::types::Message::Developer(d)) && d.id == p.id && d.content@
            == text_or_empty(p.content) && d.name == p.name && d.encrypted_value is None
    } else if p.role@ == "system"@ {
        r matches Ok(crate::types::Message::System(d)) && d.id == p.id && d.content@
            == text_or_empty(p.content) && d.name == p.name && d.encrypted_value is None
    } else if p.role@ == "assistant"@ {
        r matches Ok(crate::types::Message::Assistant(a)) && a.id == p.id && a.content
            == p.content && a.name == p.name && a.encrypted_value is None && if p.tool_calls@.len()
            == 0 {
            a.tool_calls is None
        } else {
            a.tool_calls matches Some(tcs) && tcs@.len() == p.tool_calls@.len() && forall|i: int|
                0 <= i < tcs@.len() ==> tool_call_from_ok(p.tool_calls@[i], #[trigger] tcs@[i])
        }
    } else if p.role@ == "user"@ {
        r matches Ok(crate::types::Message::User(u)) && u.id == p.id && u.name == p.name
            && u.encrypted_value is None && if p.content_parts@.len() > 0 {
            u.content matches crate::types::UserMessageContent::Parts(ps) && ps@ == parts_from(
                p.content_parts@,
            )
        } else {
            u.content matches crate::types::UserMessageContent::Text(t) && t@ == text_or_empty(
                p.content,
            )
        }
    } else if p.role@ == "tool"@ {
        r matches Ok(crate::types::Message::Tool(t)) && t.id == p.id && t.content@
            == text_or_empty(p.content) && t.tool_call_id@ == text_or_empty(p.tool_call_id)
            && t.error == p.error && t.encrypted_value is None
    } else if p.role@ == "reasoning"@ {
        r matches Ok(crate::types::Message::Reasoning(m)) && m.id == p.id && m.content@
            == text_or_empty(p.content) && m.encrypted_value is None
    } else {
        r matches Err(crate::error::AgUiError::Protocol(msg)) && msg@
            == "protobuf message has unknown role '"@ + p.role@ + "'"@
    }
}

/// The string, or the empty string.
fn string_or_empty(o: Option<String>) -> (r: String)
    ensures
        r@ == text_or_empty(o),
{
    match o {
        Some(s) => s,
        None => String::new(),
    }
}

/// The library's input parts for decoded ones, as `parts_from` says.
fn parts_from_proto(ps: Vec<proto::InputContent>) -> (r: Vec<InputContent>)
    ensures
        r@ == parts_from(ps@),
{
    let ghost orig = ps@;
    let mut r: Vec<InputContent> = Vec::new();
    for x in it: ps.into_iter()
        invariant
            it.seq() == orig,
            r@ == parts_from(orig.take(it.index() as int)),
    {
        let ghost idx = it.index();
        assert(x == orig[idx as int]);
        assert(orig.take(idx + 1).drop_last() =~= orig.take(idx as int));
        match content_part_from_proto(x) {
            Some(c) => r.push(c),
            None => {},
        }
    }
    assert(orig.take(orig.len() as int) =~= orig);
    r
}

/// The library's tool calls for decoded ones, each as `tool_call_from_ok` says.
fn tool_calls_from_proto(ps: Vec<proto::ToolCall>) -> (r: Vec<crate::types::ToolCall>)
    ensures
        r@.len() == ps@.len(),
        forall|i: int| 0 <= i < ps@.len() ==> tool_call_from_ok(ps@[i], #[trigger] r@[i]),
{
    let ghost orig = ps@;
    let mut r: Vec<crate::types::ToolCall> = Vec::new();
    for x in it: ps.into_iter()
        invariant
            it.seq() == orig,
            r@.len() == it.index(),
            forall|i: int| 0 <= i < r@.len() ==> tool_call_from_ok(orig[i], #[trigger] r@[i]),
    {
        assert(x == orig[it.index() as int]);
        r.push(tool_call_from_proto(x));
    }
    r
}

/// The library's message for a decoded one, as `message_from_ok` says.
pub fn message_from_proto(p: proto::ProtoMessage) -> (r: Result<crate::types::Message, crate::error::AgUiError>)
    ensures
        message_from_ok(p, r),
{
    let ghost p0 = p;
    let role = p.role.as_str();
    if crate::text::str_eq(role, "developer") {
        Ok(crate::types::Message::Developer(crate::types::DeveloperMessage {
            id: p.id,
            content: string_or_empty(p.content),
            name: p.name,
            encrypted_value: None,
        }))
    } else if crate::text::str_eq(role, "system") {
        Ok(crate::types::Message::System(crate::types::SystemMessage {
            id: p.id,
            content: string_or_empty(p.content),
            name: p.name,
            encrypted_value: None,
        }))
    } else if crate::text::str_eq(role, "assistant") {
        let tool_calls = if p.tool_calls.len() == 0 {
            None
        } else {
            Some(tool_calls_from_proto(p.tool_calls))
        };
        Ok(crate::types::Message::Assistant(crate::types::AssistantMessage {
            id: p.id,
            content: p.content,
            name: p.name,
            tool_calls,
            encrypted_value: None,
        }))
    } else if crate::text::str_eq(role, "user") {
        let content = if p.content_parts.len() > 0 {
            crate::types::UserMessageContent::Parts(parts_from_proto(p.content_parts))
        } else {
            crate::types::UserMessageContent::Text(string_or_empty(p.content))
        };
        Ok(crate::types::Message::User(crate::types::UserMessage {
            id: p.id,
            content,
            name: p.name,
            encrypted_value: None,
        }))
    } else if crate::text::str_eq(role, "tool") {
        Ok(crate::types::Message::Tool(crate::types::ToolMessage {
            id: p.id,
            content: string_or_empty(p.content),
            tool_call_id: string_or_empty(p.tool_call_id),
            error: p.error,
            encrypted_value: None,
        }))
    } else if crate::text::str_eq(role, "reasoning") {
        Ok(crate::types::Message::Reasoning(crate::types::ReasoningMessage {
            id: p.id,
            content: string_or_empty(p.content),
            encrypted_value: None,
        }))
    } else {
        let msg = crate::text::concat3("protobuf message has unknown role '", role, "'");
        Err(crate::error::AgUiError::Protocol(msg))
    }
}

/// The wire number of a JSON Patch operation's name; none for an unknown name.
pub open spec fn patch_kind_code(op: Seq<char>) -> Option<i32> {
    if op == "add"@ {
        Some(0)
    } else if op == "remove"@ {
        Some(1)
    } else if op == "replace"@ {
        Some(2)
    } else if op == "move"@ {
        Some(3)
    } else if op == "copy"@ {
        Some(4)
    } else if op == "test"@ {
        Some(5)
    } else {
        None
    }
}

/// Whether `r` is the schema's JSON Patch operation with the given name, path, source path and
/// value: the name must be known, and a missing path is empty.
pub open spec fn patch_members_ok(
    op: Seq<char>,
    path: Option<Seq<char>>,
    from: Option<Seq<char>>,
    value: Option<serde_json::Value>,
    r: Result<proto::JsonPatchOperation, crate::error::AgUiError>,
) -> bool {
    match patch_kind_code(op) {
        None => r matches Err(crate::error::AgUiError::Protocol(msg)) && msg@
            == "unknown JSON patch op '"@ + op + "'"@,
        Some(c) => r matches Ok(p) && p.op == c && p.path@ == match path {
            Some(x) => x,
            None => Seq::<char>::empty(),
        } && crate::types::opt_str(p.from) == from && p.value == value,
    }
}

/// The schema's JSON Patch operation with the given name, path, source path and value, as
/// `patch_members_ok` says.
pub fn patch_op_from_members(
    op: &str,
    path: Option<String>,
    from: Option<String>,
    value: Option<serde_json::Value>,
) -> (r: Result<proto::JsonPatchOperation, crate::error::AgUiError>)
    ensures
        patch_members_ok(op@, crate::types::opt_str(path), crate::types::opt_str(from), value, r),
{
    let code: i32 = if crate::text::str_eq(op, "add") {
        0
    } else if crate::text::str_eq(op, "remove") {
        1
    } else if crate::text::str_eq(op, "replace") {
        2
    } else if crate::text::str_eq(op, "move") {
        3
    } else if crate::text::str_eq(op, "copy") {
        4
    } else if crate::text::str_eq(op, "test") {
        5
    } else {
        let msg = crate::text::concat3("unknown JSON patch op '", op, "'");
        return Err(crate::error::AgUiError::Protocol(msg));
    };
    let path = match path {
        Some(p) => p,
        None => String::new(),
    };
    Ok(proto::JsonPatchOperation { op: code, path, from, value })
}

/// The text of member `key` of an object, when it is a string.
pub open spec fn member_text(m: serde_json::Map<String, serde_json::Value>, key: Seq<char>) -> Option<
    Seq<char>,
> {
    match crate::json::json_member(m, key) {
        Some(v) => crate::json::json_str_of(v),
        None => None,
    }
}

/// The text of member `key` of an object, as `member_text` says.
fn member_str(m: &serde_json::Map<String, serde_json::Value>, key: &str) -> (r: Option<String>)
    ensures
        crate::types::opt_str(r) == member_text(*m, key@),
{
    match crate::json::json_map_get(m, key) {
        Some(v) => crate::json::json_as_str(&v),
        None => None,
    }
}

/// Whether `r` is the schema's form of a JSON Patch operation given as JSON: the value must be
/// an object with a string `op`; its `path`, `from` and `value` members are carried over.
pub open spec fn patch_op_to_ok(v: serde_json::Value, r: Result<proto::JsonPatchOperation, crate::error::AgUiError>) -> bool {
    match json_object_members(v) {
        None => r matches Err(crate::error::AgUiError::Protocol(msg)) && msg@
            == "state delta op is not an object"@,
        Some(m) => match member_text(m, "op"@) {
            None => r matches Err(crate::error::AgUiError::Protocol(msg)) && msg@
                == "state delta op missing 'op'"@,
            Some(op) => patch_members_ok(
                op,
                member_text(m, "path"@),
                member_text(m, "from"@),
                crate::json::json_member(m, "value"@),
                r,
            ),
        },
    }
}

/// The schema's form of a JSON Patch operation given as JSON, as `patch_op_to_ok` says.
pub fn patch_op_to_proto(v: &serde_json::Value) -> (r: Result<proto::JsonPatchOperation, crate::error::AgUiError>)
    ensures
        patch_op_to_ok(*v, r),
{
    let m = match crate::json::json_as_object(v) {
        Some(m) => m,
        None => {
            return Err(crate::error::AgUiError::Protocol(owned("state delta op is not an object")));
        },
    };
    let op = match member_str(&m, "op") {
        Some(op) => op,
        None => {
            return Err(crate::error::AgUiError::Protocol(owned("state delta op missing 'op'")));
        },
    };
    let path = member_str(&m, "path");
    let from = member_str(&m, "from");
    let value = crate::json::json_map_get(&m, "value");
    patch_op_from_members(op.as_str(), path, from, value)
}

/// The name of a JSON Patch operation's wire number: an unknown number reads as `add`.
pub open spec fn patch_kind_name(code: i32) -> Seq<char> {
    if code == 1 {
        "remove"@
    } else if code == 2 {
        "replace"@
    } else if code == 3 {
        "move"@
    } else if code == 4 {
        "copy"@
    } else if code == 5 {
        "test"@
    } else {
        "add"@
    }
}

/// The JSON form of a schema JSON Patch operation: `op` and `path`, then `from` and `value`
/// when it has them.
pub open spec fn patch_op_json(p: proto::JsonPatchOperation) -> serde_json::Value {
    let m0 = json_map_inserted(json_map_from(Seq::empty()), "op"@, json_string_value(patch_kind_name(p.op)));
    let m1 = json_map_inserted(m0, "path"@, json_string_value(p.path@));
    let m2 = match p.from {
        Some(f) => json_map_inserted(m1, "from"@, json_string_value(f@)),
        None => m1,
    };
    let m3 = match p.value {
        Some(v) => json_map_inserted(m2, "value"@, v),
        None => m2,
    };
    json_object(m3)
}

/// The JSON form of a schema JSON Patch operation, as `patch_op_json` says.
pub fn patch_op_from_proto(p: proto::JsonPatchOperation) -> (r: serde_json::Value)
    ensures
        r == patch_op_json(p),
{
    let name: &str = if p.op == 1 {
        "remove"
    } else if p.op == 2 {
        "replace"
    } else if p.op == 3 {
        "move"
    } else if p.op == 4 {
        "copy"
    } else if p.op == 5 {
        "test"
    } else {
        "add"
    };
    let mut m = empty_json_map();
    json_map_insert(&mut m, owned("op"), json_string(owned(name)));
    json_map_insert(&mut m, owned("path"), json_string(p.path));
    match p.from {
        Some(f) => json_map_insert(&mut m, owned("from"), json_string(f)),
        None => {},
    }
    match p.value {
        Some(v) => json_map_insert(&mut m, owned("value"), v),
        None => {},
    }
    json_object_from_map(m)
}

/// The schema's name of a text message's role: its name in lower case.
pub open spec fn text_role_text(r: TextMessageRole) -> Seq<char> {
    match r {
        TextMessageRole::Developer => "developer"@,
        TextMessageRole::System => "system"@,
        TextMessageRole::Assistant => "assistant"@,
        TextMessageRole::User => "user"@,
    }
}

/// The schema's name of a text message's role, as `text_role_text` says.
pub fn text_role_name(r: TextMessageRole) -> (s: String)
    ensures
        s@ == text_role_text(r),
{
    match r {
        TextMessageRole::Developer => owned("developer"),
        TextMessageRole::System => owned("system"),
        TextMessageRole::Assistant => owned("assistant"),
        TextMessageRole::User => owned("user"),
    }
}

/// The role a decoded text message has: the one named, or `Assistant` for a missing or
/// unknown name.
pub open spec fn text_role_of(role: Option<Seq<char>>) -> TextMessageRole {
    match role {
        Some(r) => if r == "developer"@ {
            TextMessageRole::Developer
        } else if r == "system"@ {
            TextMessageRole::System
        } else if r == "user"@ {
            TextMessageRole::User
        } else {
            TextMessageRole::Assistant
        },
        None => TextMessageRole::Assistant,
    }
}

/// The role a decoded text message has, as `text_role_of` says.
pub fn parse_text_role(role: Option<&str>) -> (r: TextMessageRole)
    ensures
        r == text_role_of(
            match role {
                Some(x) => Some(x@),
                None => None,
            },
        ),
{
    match role {
        Some(x) => if crate::text::str_eq(x, "developer") {
            TextMessageRole::Developer
        } else if crate::text::str_eq(x, "system") {
            TextMessageRole::System
        } else if crate::text::str_eq(x, "user") {
            TextMessageRole::User
        } else {
            TextMessageRole::Assistant
        },
        None => TextMessageRole::Assistant,
    }
}

/// Whether converting a JSON Patch operation given as JSON fails.
pub open spec fn patch_op_fails(v: serde_json::Value) -> bool {
    match json_object_members(v) {
        None => true,
        Some(m) => match member_text(m, "op"@) {
            None => true,
            Some(op) => patch_kind_code(op) is None,
        },
    }
}

/// The first operation, from `k` on, whose conversion fails.
pub open spec fn first_failing_op(vs: Seq<serde_json::Value>, k: int) -> Option<int>
    decreases vs.len() - k,
{
    if k < 0 || k >= vs.len() {
        None
    } else if patch_op_fails(vs[k]) {
        Some(k)
    } else {
        first_failing_op(vs, k + 1)
    }
}

/// The name that the `Debug` rendering gives the type of an event that the schema lacks.
pub open spec fn schema_absent_name(e: Event) -> Seq<char> {
    match e {
        Event::ActivitySnapshot(_) => "ActivitySnapshot"@,
        Event::ActivityDelta(_) => "ActivityDelta"@,
        Event::ToolCallResult(_) => "ToolCallResult"@,
        Event::ReasoningStart(_) => "ReasoningStart"@,
        Event::ReasoningMessageStart(_) => "ReasoningMessageStart"@,
        Event::ReasoningMessageContent(_) => "ReasoningMessageContent"@,
        Event::ReasoningMessageEnd(_) => "ReasoningMessageEnd"@,
        Event::ReasoningMessageChunk(_) => "ReasoningMessageChunk"@,
        Event::ReasoningEnd(_) => "ReasoningEnd"@,
        Event::ReasoningEncryptedValue(_) => "ReasoningEncryptedValue"@,
        Event::ThinkingStart(_) => "ThinkingStart"@,
        Event::ThinkingEnd(_) => "ThinkingEnd"@,
        Event::ThinkingTextMessageStart(_) => "ThinkingTextMessageStart"@,
        Event::ThinkingTextMessageContent(_) => "ThinkingTextMessageContent"@,
        _ => "ThinkingTextMessageEnd"@,
    }
}

/// Whether the schema lacks the event's type.
pub open spec fn schema_lacks(e: Event) -> bool {
    match e {
        Event::ActivitySnapshot(_) | Event::ActivityDelta(_) | Event::ToolCallResult(_)
        | Event::ReasoningStart(_) | Event::ReasoningMessageStart(_)
        | Event::ReasoningMessageContent(_) | Event::ReasoningMessageEnd(_)
        | Event::ReasoningMessageChunk(_) | Event::ReasoningEnd(_)
        | Event::ReasoningEncryptedValue(_) | Event::ThinkingStart(_) | Event::ThinkingEnd(_)
        | Event::ThinkingTextMessageStart(_) | Event::ThinkingTextMessageContent(_)
        | Event::ThinkingTextMessageEnd(_) => true,
        _ => false,
    }
}

/// The name of the type of an event that the schema lacks, as `schema_absent_name` says.
fn schema_absent_type_name(e: &Event) -> (r: &'static str)
    requires
        schema_lacks(*e),
    ensures
        r@ == schema_absent_name(*e),
{
    match e {
        Event::ActivitySnapshot(_) => "ActivitySnapshot",
        Event::ActivityDelta(_) => "ActivityDelta",
        Event::ToolCallResult(_) => "ToolCallResult",
        Event::ReasoningStart(_) => "ReasoningStart",
        Event::ReasoningMessageStart(_) => "ReasoningMessageStart",
        Event::ReasoningMessageContent(_) => "ReasoningMessageContent",
        Event::ReasoningMessageEnd(_) => "ReasoningMessageEnd",
        Event::ReasoningMessageChunk(_) => "ReasoningMessageChunk",
        Event::ReasoningEnd(_) => "ReasoningEnd",
        Event::ReasoningEncryptedValue(_) => "ReasoningEncryptedValue",
        Event::ThinkingStart(_) => "ThinkingStart",
        Event::ThinkingEnd(_) => "ThinkingEnd",
        Event::ThinkingTextMessageStart(_) => "ThinkingTextMessageStart",
        Event::ThinkingTextMessageContent(_) => "ThinkingTextMessageContent",
        _ => "ThinkingTextMessageEnd",
    }
}

/// Whether `r` is the schema's form of an event: each field carried over, the common fields
/// stamped with the event's schema type (a chunk with that of the start it stands for); an
/// error for a state delta with an operation that cannot be converted (the first such), and
/// for an event type the schema lacks.
pub open spec fn event_to_ok(e: Event, r: Result<proto::EventBody, AgUiError>) -> bool {
    match e {
        Event::TextMessageStart(ev) => r matches Ok(proto::EventBody::TextMessageStart(p))
            && p.base_event == Some(base_to(ev.base, proto::EventType::TextMessageStart))
            && p.message_id == ev.message_id && crate::types::opt_str(p.role) == Some(
            text_role_text(ev.role),
        ) && p.name == ev.name,
        Event::TextMessageContent(ev) => r matches Ok(proto::EventBody::TextMessageContent(p))
            && p.base_event == Some(base_to(ev.base, proto::EventType::TextMessageContent))
            && p.message_id == ev.message_id && p.delta == ev.delta,
        Event::TextMessageEnd(ev) => r matches Ok(proto::EventBody::TextMessageEnd(p))
            && p.base_event == Some(base_to(ev.base, proto::EventType::TextMessageEnd))
            && p.message_id == ev.message_id,
        Event::TextMessageChunk(ev) => r matches Ok(proto::EventBody::TextMessageChunk(p))
            && p.base_event == Some(base_to(ev.base, proto::EventType::TextMessageStart))
            && p.message_id == ev.message_id && crate::types::opt_str(p.role) == match ev.role {
            Some(x) => Some(text_role_text(x)),
            None => None,
        } && p.delta == ev.delta && p.name == ev.name,
        Event::ToolCallStart(ev) => r matches Ok(proto::EventBody::ToolCallStart(p))
            && p.base_event == Some(base_to(ev.base, proto::EventType::ToolCallStart))
            && p.tool_call_id == ev.tool_call_id && p.tool_call_name == ev.tool_call_name
            && p.parent_message_id == ev.parent_message_id,
        Event::ToolCallArgs(ev) => r matches Ok(proto::EventBody::ToolCallArgs(p))
            && p.base_event == Some(base_to(ev.base, proto::EventType::ToolCallArgs))
            && p.tool_call_id == ev.tool_call_id && p.delta == ev.delta,
        Event::ToolCallEnd(ev) => r matches Ok(proto::EventBody::ToolCallEnd(p))
            && p.base_event == Some(base_to(ev.base, proto::EventType::ToolCallEnd))
            && p.tool_call_id == ev.tool_call_id,
        Event::ToolCallChunk(ev) => r matches Ok(proto::EventBody::ToolCallChunk(p))
            && p.base_event == Some(base_to(ev.base, proto::EventType::ToolCallStart))
            && p.tool_call_id == ev.tool_call_id && p.tool_call_name == ev.tool_call_name
            && p.parent_message_id == ev.parent_message_id && p.delta == ev.delta,
        Event::StateSnapshot(ev) => r matches Ok(proto::EventBody::StateSnapshot(p))
            && p.base_event == Some(base_to(ev.base, proto::EventType::StateSnapshot))
            && p.snapshot == Some(ev.snapshot),
        Event::StateDelta(ev) => match first_failing_op(ev.delta@, 0) {
            Some(i) => r matches Err(x) && patch_op_to_ok(ev.delta@[i], Err(x)),
            None => r matches Ok(proto::EventBody::StateDelta(p)) && p.base_event == Some(
                base_to(ev.base, proto::EventType::StateDelta),
            ) && p.delta@.len() == ev.delta@.len() && forall|k: int|
                0 <= k < ev.delta@.len() ==> patch_op_to_ok(ev.delta@[k], Ok(#[trigger] p.delta@[k])),
        },
        Event::MessagesSnapshot(ev) => r matches Ok(proto::EventBody::MessagesSnapshot(p))
            && p.base_event == Some(base_to(ev.base, proto::EventType::MessagesSnapshot))
            && p.messages@.len() == ev.messages@.len() && forall|k: int|
            0 <= k < ev.messages@.len() ==> message_to_ok(ev.messages@[k], #[trigger] p.messages@[k]),
        Event::Raw(ev) => r matches Ok(proto::EventBody::Raw(p)) && p.base_event == Some(
            base_to(ev.base, proto::EventType::Raw),
        ) && p.event == Some(ev.event) && p.source == ev.source,
        Event::Custom(ev) => r matches Ok(proto::EventBody::Custom(p)) && p.base_event == Some(
            base_to(ev.base, proto::EventType::Custom),
        ) && p.name == ev.name && p.value == Some(ev.value),
        Event::RunStarted(ev) => r matches Ok(proto::EventBody::RunStarted(p)) && p.base_event
            == Some(base_to(ev.base, proto::EventType::RunStarted)) && p.thread_id == ev.thread_id
            && p.run_id == ev.run_id,
        Event::RunFinished(ev) => r matches Ok(proto::EventBody::RunFinished(p)) && p.base_event
            == Some(base_to(ev.base, proto::EventType::RunFinished)) && p.thread_id == ev.thread_id
            && p.run_id == ev.run_id && p.result == ev.result && match ev.outcome {
            None => p.outcome@ == Seq::<char>::empty() && p.interrupts@.len() == 0,
            Some(RunFinishedOutcome::Success) => p.outcome@ == "success"@ && p.interrupts@.len()
                == 0,
            Some(RunFinishedOutcome::Interrupt { interrupts }) => p.outcome@ == "interrupt"@
                && p.interrupts@ == interrupts@.map_values(
                |i: crate::types::Interrupt| interrupt_to(i),
            ) && forall|k: int|
                0 <= k < interrupts@.len() ==> objects_read_back(#[trigger] interrupts@[k]),
        },
        Event::RunError(ev) => r matches Ok(proto::EventBody::RunError(p)) && p.base_event
            == Some(base_to(ev.base, proto::EventType::RunError)) && p.code == ev.code && p.message
            == ev.message,
        Event::StepStarted(ev) => r matches Ok(proto::EventBody::StepStarted(p)) && p.base_event
            == Some(base_to(ev.base, proto::EventType::StepStarted)) && p.step_name == ev.step_name,
        Event::StepFinished(ev) => r matches Ok(proto::EventBody::StepFinished(p)) && p.base_event
            == Some(base_to(ev.base, proto::EventType::StepFinished)) && p.step_name
            == ev.step_name,
        _ => r matches Err(AgUiError::Unsupported(msg)) && msg@ == "event type "@
            + schema_absent_name(e) + " is not part of the AG-UI protobuf schema"@,
    }
}

/// The schema's form of the JSON Patch operations of a state delta, or the error of the first
/// one that cannot be converted.
fn patch_ops_to_proto(vs: &Vec<serde_json::Value>) -> (r: Result<Vec<proto::JsonPatchOperation>, AgUiError>)
    ensures
        match first_failing_op(vs@, 0) {
            Some(i) => r matches Err(x) && patch_op_to_ok(vs@[i], Err(x)),
            None => r matches Ok(ps) && ps@.len() == vs@.len() && forall|k: int|
                0 <= k < vs@.len() ==> patch_op_to_ok(vs@[k], Ok(#[trigger] ps@[k])),
        },
{
    let mut ps: Vec<proto::JsonPatchOperation> = Vec::new();
    let mut i: usize = 0;
    while i < vs.len()
        invariant
            i <= vs@.len(),
            ps@.len() == i,
            first_failing_op(vs@, 0) == first_failing_op(vs@, i as int),
            forall|k: int| 0 <= k < i ==> patch_op_to_ok(vs@[k], Ok(#[trigger] ps@[k])),
        decreases vs.len() - i,
    {
        let r = patch_op_to_proto(&vs[i]);
        match r {
            Ok(p) => {
                ps.push(p);
            },
            Err(x) => {
                return Err(x);
            },
        }
        i += 1;
    }
    Ok(ps)
}

/// The schema's form of an event, as `event_to_ok` says.
pub fn to_proto_event(e: &Event) -> (r: Result<proto::EventBody, AgUiError>)
    ensures
        event_to_ok(*e, r),
{
    match e {
        Event::TextMessageStart(ev) => Ok(proto::EventBody::TextMessageStart(proto::TextMessageStartEvent {
            base_event: Some(base_to_proto(&ev.base, proto::EventType::TextMessageStart)),
            message_id: ev.message_id.clone(),
            role: Some(text_role_name(ev.role)),
            name: clone_opt_string(&ev.name),
        })),
        Event::TextMessageContent(ev) => Ok(proto::EventBody::TextMessageContent(proto::TextMessageContentEvent {
            base_event: Some(base_to_proto(&ev.base, proto::EventType::TextMessageContent)),
            message_id: ev.message_id.clone(),
            delta: ev.delta.clone(),
        })),
        Event::TextMessageEnd(ev) => Ok(proto::EventBody::TextMessageEnd(proto::TextMessageEndEvent {
            base_event: Some(base_to_proto(&ev.base, proto::EventType::TextMessageEnd)),
            message_id: ev.message_id.clone(),
        })),
        Event::TextMessageChunk(ev) => Ok(proto::EventBody::TextMessageChunk(proto::TextMessageChunkEvent {
            base_event: Some(base_to_proto(&ev.base, proto::EventType::TextMessageStart)),
            message_id: clone_opt_string(&ev.message_id),
            role: match ev.role {
                Some(x) => Some(text_role_name(x)),
                None => None,
            },
            delta: clone_opt_string(&ev.delta),
            name: clone_opt_string(&ev.name),
        })),
        Event::ToolCallStart(ev) => Ok(proto::EventBody::ToolCallStart(proto::ToolCallStartEvent {
            base_event: Some(base_to_proto(&ev.base, proto::EventType::ToolCallStart)),
            tool_call_id: ev.tool_call_id.clone(),
            tool_call_name: ev.tool_call_name.clone(),
            parent_message_id: clone_opt_string(&ev.parent_message_id),
        })),
        Event::ToolCallArgs(ev) => Ok(proto::EventBody::ToolCallArgs(proto::ToolCallArgsEvent {
            base_event: Some(base_to_proto(&ev.base, proto::EventType::ToolCallArgs)),
            tool_call_id: ev.tool_call_id.clone(),
            delta: ev.delta.clone(),
        })),
        Event::ToolCallEnd(ev) => Ok(proto::EventBody::ToolCallEnd(proto::ToolCallEndEvent {
            base_event: Some(base_to_proto(&ev.base, proto::EventType::ToolCallEnd)),
            tool_call_id: ev.tool_call_id.clone(),
        })),
        Event::ToolCallChunk(ev) => Ok(proto::EventBody::ToolCallChunk(proto::ToolCallChunkEvent {
            base_event: Some(base_to_proto(&ev.base, proto::EventType::ToolCallStart)),
            tool_call_id: clone_opt_string(&ev.tool_call_id),
            tool_call_name: clone_opt_string(&ev.tool_call_name),
            parent_message_id: clone_opt_string(&ev.parent_message_id),
            delta: clone_opt_string(&ev.delta),
        })),
        Event::StateSnapshot(ev) => Ok(proto::EventBody::StateSnapshot(proto::StateSnapshotEvent {
            base_event: Some(base_to_proto(&ev.base, proto::EventType::StateSnapshot)),
            snapshot: Some(ev.snapshot.clone()),
        })),
        Event::StateDelta(ev) => {
            let delta = match patch_ops_to_proto(&ev.delta) {
                Ok(ps) => ps,
                Err(x) => {
                    return Err(x);
                },
            };
            Ok(proto::EventBody::StateDelta(proto::StateDeltaEvent {
                base_event: Some(base_to_proto(&ev.base, proto::EventType::StateDelta)),
                delta,
            }))
        },
        Event::MessagesSnapshot(ev) => {
            let mut messages: Vec<proto::ProtoMessage> = Vec::new();
            let mut i: usize = 0;
            while i < ev.messages.len()
                invariant
                    i <= ev.messages@.len(),
                    messages@.len() == i,
                    forall|k: int|
                        0 <= k < i ==> message_to_ok(ev.messages@[k], #[trigger] messages@[k]),
                decreases ev.messages.len() - i,
            {
                messages.push(message_to_proto(&ev.messages[i]));
                i += 1;
            }
            Ok(proto::EventBody::MessagesSnapshot(proto::MessagesSnapshotEvent {
                base_event: Some(base_to_proto(&ev.base, proto::EventType::MessagesSnapshot)),
                messages,
            }))
        },
        Event::Raw(ev) => Ok(proto::EventBody::Raw(proto::RawEvent {
            base_event: Some(base_to_proto(&ev.base, proto::EventType::Raw)),
            event: Some(ev.event.clone()),
            source: clone_opt_string(&ev.source),
        })),
        Event::Custom(ev) => Ok(proto::EventBody::Custom(proto::CustomEvent {
            base_event: Some(base_to_proto(&ev.base, proto::EventType::Custom)),
            name: ev.name.clone(),
            value: Some(ev.value.clone()),
        })),
        Event::RunStarted(ev) => Ok(proto::EventBody::RunStarted(proto::RunStartedEvent {
            base_event: Some(base_to_proto(&ev.base, proto::EventType::RunStarted)),
            thread_id: ev.thread_id.clone(),
            run_id: ev.run_id.clone(),
        })),
        Event::RunFinished(ev) => {
            let mut interrupts: Vec<proto::Interrupt> = Vec::new();
            let outcome = match &ev.outcome {
                None => String::new(),
                Some(RunFinishedOutcome::Success) => owned("success"),
                Some(RunFinishedOutcome::Interrupt { interrupts: is }) => {
                    let mut i: usize = 0;
                    while i < is.len()
                        invariant
                            i <= is@.len(),
                            interrupts@ == is@.take(i as int).map_values(
                                |x: crate::types::Interrupt| interrupt_to(x),
                            ),
                            forall|k: int| 0 <= k < i ==> objects_read_back(#[trigger] is@[k]),
                        decreases is.len() - i,
                    {
                        interrupts.push(interrupt_to_proto(&is[i]));
                        assert(is@.take(i + 1) =~= is@.take(i as int).push(is@[i as int]));
                        assert(interrupts@ =~= is@.take(i + 1).map_values(
                            |x: crate::types::Interrupt| interrupt_to(x),
                        ));
                        i += 1;
                    }
                    assert(is@.take(is.len() as int) =~= is@);
                    owned("interrupt")
                },
            };
            Ok(proto::EventBody::RunFinished(proto::RunFinishedEvent {
                base_event: Some(base_to_proto(&ev.base, proto::EventType::RunFinished)),
                thread_id: ev.thread_id.clone(),
                run_id: ev.run_id.clone(),
                result: clone_opt_value(&ev.result),
                outcome,
                interrupts,
            }))
        },
        Event::RunError(ev) => Ok(proto::EventBody::RunError(proto::RunErrorEvent {
            base_event: Some(base_to_proto(&ev.base, proto::EventType::RunError)),
            code: clone_opt_string(&ev.code),
            message: ev.message.clone(),
        })),
        Event::StepStarted(ev) => Ok(proto::EventBody::StepStarted(proto::StepStartedEvent {
            base_event: Some(base_to_proto(&ev.base, proto::EventType::StepStarted)),
            step_name: ev.step_name.clone(),
        })),
        Event::StepFinished(ev) => Ok(proto::EventBody::StepFinished(proto::StepFinishedEvent {
            base_event: Some(base_to_proto(&ev.base, proto::EventType::StepFinished)),
            step_name: ev.step_name.clone(),
        })),
        _ => {
            let name = schema_absent_type_name(e);
            let msg = crate::text::concat3("event type ", name, " is not part of the AG-UI protobuf schema");
            Err(AgUiError::Unsupported(msg))
        },
    }
}

/// Whether the schema message's role is one the library knows.
pub open spec fn role_known(p: proto::ProtoMessage) -> bool {
    p.role@ == "developer"@ || p.role@ == "system"@ || p.role@ == "assistant"@ || p.role@
        == "user"@ || p.role@ == "tool"@ || p.role@ == "reasoning"@
}

/// The first message, from `k` on, whose role is unknown.
pub open spec fn first_unknown_role(ms: Seq<proto::ProtoMessage>, k: int) -> Option<int>
    decreases ms.len() - k,
{
    if k < 0 || k >= ms.len() {
        None
    } else if !role_known(ms[k]) {
        Some(k)
    } else {
        first_unknown_role(ms, k + 1)
    }
}

/// A decoded JSON value: the one given, or `null` when there is none.
pub open spec fn value_or_null(v: Option<serde_json::Value>) -> serde_json::Value {
    match v {
        Some(x) => x,
        None => crate::json::json_or_null(None),
    }
}

/// A decoded JSON value, as `value_or_null` says.
fn value_or_null_of(v: Option<serde_json::Value>) -> (r: serde_json::Value)
    ensures
        r == value_or_null(v),
{
    crate::json::json_from_option(v)
}

/// Whether `r` is the library's event for a decoded one: each field carried over, missing
/// JSON values `null`, the outcome of a finished run read from its name, and an error for a
/// messages snapshot with a message of unknown role (the first such).
pub open spec fn event_from_ok(b: proto::EventBody, r: Result<Event, AgUiError>) -> bool {
    match b {
        proto::EventBody::TextMessageStart(p) => r matches Ok(Event::TextMessageStart(e))
            && e.message_id == p.message_id && e.role == text_role_of(
            crate::types::opt_str(p.role),
        ) && e.name == p.name && e.base == base_from(p.base_event),
        proto::EventBody::TextMessageContent(p) => r matches Ok(Event::TextMessageContent(e))
            && e.message_id == p.message_id && e.delta == p.delta && e.base == base_from(
            p.base_event,
        ),
        proto::EventBody::TextMessageEnd(p) => r matches Ok(Event::TextMessageEnd(e))
            && e.message_id == p.message_id && e.base == base_from(p.base_event),
        proto::EventBody::TextMessageChunk(p) => r matches Ok(Event::TextMessageChunk(e))
            && e.message_id == p.message_id && e.role == match p.role {
            Some(x) => Some(text_role_of(Some(x@))),
            None => None,
        } && e.delta == p.delta && e.name == p.name && e.base == base_from(p.base_event),
        proto::EventBody::ToolCallStart(p) => r matches Ok(Event::ToolCallStart(e))
            && e.tool_call_id == p.tool_call_id && e.tool_call_name == p.tool_call_name
            && e.parent_message_id == p.parent_message_id && e.base == base_from(p.base_event),
        proto::EventBody::ToolCallArgs(p) => r matches Ok(Event::ToolCallArgs(e))
            && e.tool_call_id == p.tool_call_id && e.delta == p.delta && e.base == base_from(
            p.base_event,
        ),
        proto::EventBody::ToolCallEnd(p) => r matches Ok(Event::ToolCallEnd(e)) && e.tool_call_id
            == p.tool_call_id && e.base == base_from(p.base_event),
        proto::EventBody::ToolCallChunk(p) => r matches Ok(Event::ToolCallChunk(e))
            && e.tool_call_id == p.tool_call_id && e.tool_call_name == p.tool_call_name
            && e.parent_message_id == p.parent_message_id && e.delta == p.delta && e.base
            == base_from(p.base_event),
        proto::EventBody::StateSnapshot(p) => r matches Ok(Event::StateSnapshot(e)) && e.snapshot
            == value_or_null(p.snapshot) && e.base == base_from(p.base_event),
        proto::EventBody::StateDelta(p) => r matches Ok(Event::StateDelta(e)) && e.delta@
            == p.delta@.map_values(|o: proto::JsonPatchOperation| patch_op_json(o)) && e.base
            == base_from(p.base_event),
        proto::EventBody::MessagesSnapshot(p) => match first_unknown_role(p.messages@, 0) {
            Some(i) => r matches Err(x) && message_from_ok(p.messages@[i], Err(x)),
            None => r matches Ok(Event::MessagesSnapshot(e)) && e.base == base_from(p.base_event)
                && e.messages@.len() == p.messages@.len() && forall|k: int|
                0 <= k < p.messages@.len() ==> message_from_ok(
                    p.messages@[k],
                    Ok(#[trigger] e.messages@[k]),
                ),
        },
        proto::EventBody::Raw(p) => r matches Ok(Event::Raw(e)) && e.event == value_or_null(
            p.event,
        ) && e.source == p.source && e.base == base_from(p.base_event),
        proto::EventBody::Custom(p) => r matches Ok(Event::Custom(e)) && e.name == p.name
            && e.value == value_or_null(p.value) && e.base == base_from(p.base_event),
        proto::EventBody::RunStarted(p) => r matches Ok(Event::RunStarted(e)) && e.thread_id
            == p.thread_id && e.run_id == p.run_id && e.parent_run_id is None && e.input is None
            && e.base == base_from(p.base_event),
        proto::EventBody::RunFinished(p) => r matches Ok(Event::RunFinished(e)) && e.thread_id
            == p.thread_id && e.run_id == p.run_id && e.result == p.result && e.base == base_from(
            p.base_event,
        ) && if p.outcome@ == "interrupt"@ {
            e.outcome matches Some(RunFinishedOutcome::Interrupt { interrupts }) && interrupts@
                == p.interrupts@.map_values(|i: proto::Interrupt| interrupt_from(i))
        } else if p.outcome@ == "success"@ {
            e.outcome == Some(RunFinishedOutcome::Success)
        } else {
            e.outcome is None
        },
        proto::EventBody::RunError(p) => r matches Ok(Event::RunError(e)) && e.message == p.message
            && e.code == p.code && e.base == base_from(p.base_event),
        proto::EventBody::StepStarted(p) => r matches Ok(Event::StepStarted(e)) && e.step_name
            == p.step_name && e.base == base_from(p.base_event),
        proto::EventBody::StepFinished(p) => r matches Ok(Event::StepFinished(e)) && e.step_name
            == p.step_name && e.base == base_from(p.base_event),
    }
}

/// The library's event for a decoded one, as `event_from_ok` says.
pub fn from_proto_event(b: proto::EventBody) -> (r: Result<Event, AgUiError>)
    ensures
        event_from_ok(b, r),
{
    let ghost input = b;
    match b {
        proto::EventBody::TextMessageStart(p) => {
            let role = match &p.role {
                Some(x) => parse_text_role(Some(x.as_str())),
                None => parse_text_role(None),
            };
            Ok(Event::TextMessageStart(crate::events::TextMessageStartEvent {
                message_id: p.message_id,
                role,
                name: p.name,
                base: base_from_proto(p.base_event),
            }))
        },
        proto::EventBody::TextMessageContent(p) => Ok(Event::TextMessageContent(crate::events::TextMessageContentEvent {
            message_id: p.message_id,
            delta: p.delta,
            base: base_from_proto(p.base_event),
        })),
        proto::EventBody::TextMessageEnd(p) => Ok(Event::TextMessageEnd(crate::events::TextMessageEndEvent {
            message_id: p.message_id,
            base: base_from_proto(p.base_event),
        })),
        proto::EventBody::TextMessageChunk(p) => {
            let role = match &p.role {
                Some(x) => Some(parse_text_role(Some(x.as_str()))),
                None => None,
            };
            Ok(Event::TextMessageChunk(crate::events::TextMessageChunkEvent {
                message_id: p.message_id,
                role,
                delta: p.delta,
                name: p.name,
                base: base_from_proto(p.base_event),
            }))
        },
        proto::EventBody::ToolCallStart(p) => Ok(Event::ToolCallStart(crate::events::ToolCallStartEvent {
            tool_call_id: p.tool_call_id,
            tool_call_name: p.tool_call_name,
            parent_message_id: p.parent_message_id,
            base: base_from_proto(p.base_event),
        })),
        proto::EventBody::ToolCallArgs(p) => Ok(Event::ToolCallArgs(crate::events::ToolCallArgsEvent {
            tool_call_id: p.tool_call_id,
            delta: p.delta,
            base: base_from_proto(p.base_event),
        })),
        proto::EventBody::ToolCallEnd(p) => Ok(Event::ToolCallEnd(crate::events::ToolCallEndEvent {
            tool_call_id: p.tool_call_id,
            base: base_from_proto(p.base_event),
        })),
        proto::EventBody::ToolCallChunk(p) => Ok(Event::ToolCallChunk(crate::events::ToolCallChunkEvent {
            tool_call_id: p.tool_call_id,
            tool_call_name: p.tool_call_name,
            parent_message_id: p.parent_message_id,
            delta: p.delta,
            base: base_from_proto(p.base_event),
        })),
        proto::EventBody::StateSnapshot(p) => Ok(Event::StateSnapshot(crate::events::StateSnapshotEvent {
            snapshot: value_or_null_of(p.snapshot),
            base: base_from_proto(p.base_event),
        })),
        proto::EventBody::StateDelta(p) => {
            let ghost orig = p.delta@;
            let mut delta: Vec<serde_json::Value> = Vec::new();
            for o in it: p.delta.into_iter()
                invariant
                    it.seq() == orig,
                    delta@ == orig.take(it.index() as int).map_values(
                        |x: proto::JsonPatchOperation| patch_op_json(x),
                    ),
            {
                let ghost idx = it.index();
                assert(o == orig[idx as int]);
                delta.push(patch_op_from_proto(o));
                assert(orig.take(idx + 1) =~= orig.take(idx as int).push(orig[idx as int]));
                assert(delta@ =~= orig.take(idx + 1).map_values(
                    |x: proto::JsonPatchOperation| patch_op_json(x),
                ));
            }
            assert(orig.take(orig.len() as int) =~= orig);
            Ok(Event::StateDelta(crate::events::StateDeltaEvent {
                delta,
                base: base_from_proto(p.base_event),
            }))
        },
        proto::EventBody::MessagesSnapshot(p) => {
            let ghost orig = p.messages@;
            let mut messages: Vec<crate::types::Message> = Vec::new();
            for m in it: p.messages.into_iter()
                invariant
                    it.seq() == orig,
                    input matches proto::EventBody::MessagesSnapshot(q) && q.messages@ == orig,
                    input == b,
                    messages@.len() == it.index(),
                    first_unknown_role(orig, 0) == first_unknown_role(orig, it.index() as int),
                    forall|k: int|
                        0 <= k < messages@.len() ==> message_from_ok(
                            orig[k],
                            Ok(#[trigger] messages@[k]),
                        ),
            {
                let ghost idx = it.index() as int;
                assert(m == orig[idx]);
                match message_from_proto(m) {
                    Ok(x) => {
                        assert(role_known(orig[idx]));
                        assert(first_unknown_role(orig, idx) == first_unknown_role(orig, idx + 1));
                        messages.push(x);
                    },
                    Err(x) => {
                        assert(!role_known(orig[idx]));
                        assert(first_unknown_role(orig, idx) == Some(idx));
                        return Err(x);
                    },
                }
            }
            Ok(Event::MessagesSnapshot(crate::events::MessagesSnapshotEvent {
                messages,
                base: base_from_proto(p.base_event),
            }))
        },
        proto::EventBody::Raw(p) => Ok(Event::Raw(crate::events::RawEvent {
            event: value_or_null_of(p.event),
            source: p.source,
            base: base_from_proto(p.base_event),
        })),
        proto::EventBody::Custom(p) => Ok(Event::Custom(crate::events::CustomEvent {
            name: p.name,
            value: value_or_null_of(p.value),
            base: base_from_proto(p.base_event),
        })),
        proto::EventBody::RunStarted(p) => Ok(Event::RunStarted(crate::events::RunStartedEvent {
            thread_id: p.thread_id,
            run_id: p.run_id,
            parent_run_id: None,
            input: None,
            base: base_from_proto(p.base_event),
        })),
        proto::EventBody::RunFinished(p) => {
            let outcome = if crate::text::str_eq(p.outcome.as_str(), "interrupt") {
                let ghost orig = p.interrupts@;
                let mut interrupts: Vec<crate::types::Interrupt> = Vec::new();
                for i in it: p.interrupts.into_iter()
                    invariant
                        it.seq() == orig,
                        interrupts@ == orig.take(it.index() as int).map_values(
                            |x: proto::Interrupt| interrupt_from(x),
                        ),
                {
                    let ghost idx = it.index();
                    assert(i == orig[idx as int]);
                    interrupts.push(interrupt_from_proto(i));
                    assert(orig.take(idx + 1) =~= orig.take(idx as int).push(orig[idx as int]));
                    assert(interrupts@ =~= orig.take(idx + 1).map_values(
                        |x: proto::Interrupt| interrupt_from(x),
                    ));
                }
                assert(orig.take(orig.len() as int) =~= orig);
                Some(RunFinishedOutcome::Interrupt { interrupts })
            } else if crate::text::str_eq(p.outcome.as_str(), "success") {
                Some(RunFinishedOutcome::Success)
            } else {
                None
            };
            Ok(Event::RunFinished(crate::events::RunFinishedEvent {
                thread_id: p.thread_id,
                run_id: p.run_id,
                result: p.result,
                outcome,
                base: base_from_proto(p.base_event),
            }))
        },
        proto::EventBody::RunError(p) => Ok(Event::RunError(crate::events::RunErrorEvent {
            message: p.message,
            code: p.code,
            base: base_from_proto(p.base_event),
        })),
        proto::EventBody::StepStarted(p) => Ok(Event::StepStarted(crate::events::StepStartedEvent {
            step_name: p.step_name,
            base: base_from_proto(p.base_event),
        })),
        proto::EventBody::StepFinished(p) => Ok(Event::StepFinished(crate::events::StepFinishedEvent {
            step_name: p.step_name,
            base: base_from_proto(p.base_event),
        })),
    }
}

/// The schema message of an event, as `event_to_ok` says, or why it cannot be encoded.
pub fn to_proto_message(e: &Event) -> (r: Result<proto::EventMessage, AgUiError>)
    ensures
        match r {
            Ok(m) => m.event matches Some(b) && event_to_ok(*e, Ok(b)),
            Err(x) => event_to_ok(*e, Err(x)),
        },
{
    match to_proto_event(e) {
        Ok(b) => Ok(proto::EventMessage { event: Some(b) }),
        Err(x) => Err(x),
    }
}

/// The library's event for a decoded schema message, as `event_from_ok` says; a protocol error
/// when the message carries no event.
pub fn from_proto_message(m: proto::EventMessage) -> (r: Result<Event, AgUiError>)
    ensures
        match m.event {
            Some(b) => event_from_ok(b, r),
            None => r matches Err(AgUiError::Protocol(msg)) && msg@
                == "protobuf Event has no variant set"@,
        },
{
    match m.event {
        Some(b) => from_proto_event(b),
        None => Err(AgUiError::Protocol(owned("protobuf Event has no variant set"))),
    }
}

/// Whether an event survives encoding and decoding unchanged: the schema has its type, and it
/// holds nothing the schema drops (a parent run id or input of a started run). State deltas and
/// message snapshots go through JSON and message conversions of their own and are not covered
/// here.
pub open spec fn round_trips(e: Event) -> bool {
    match e {
        Event::TextMessageStart(_) | Event::TextMessageContent(_) | Event::TextMessageEnd(_)
        | Event::TextMessageChunk(_) | Event::ToolCallStart(_) | Event::ToolCallArgs(_)
        | Event::ToolCallEnd(_) | Event::ToolCallChunk(_) | Event::StateSnapshot(_)
        | Event::Raw(_) | Event::Custom(_) | Event::RunError(_) | Event::StepStarted(_)
        | Event::StepFinished(_) => true,
        Event::RunStarted(ev) => ev.parent_run_id is None && ev.input is None,
        Event::RunFinished(_) => true,
        _ => false,
    }
}

proof fn lemma_text_role_round_trip()
    ensures
        forall|x: TextMessageRole| #[trigger] text_role_of(Some(text_role_text(x))) == x,
{
    reveal_strlit("developer");
    reveal_strlit("system");
    reveal_strlit("user");
    reveal_strlit("assistant");
    assert("assistant"@[0] != "developer"@[0]);
    assert("assistant"@.len() != "system"@.len());
    assert("assistant"@.len() != "user"@.len());
    assert("system"@.len() != "developer"@.len());
    assert("user"@.len() != "developer"@.len());
    assert("user"@.len() != "system"@.len());
}

/// Whether two events are the same: equal, where a finished run's interrupts are compared as
/// the sequences they hold.
pub open spec fn same_event(a: Event, b: Event) -> bool {
    match (a, b) {
        (Event::RunFinished(x), Event::RunFinished(y)) => x.thread_id == y.thread_id && x.run_id
            == y.run_id && x.result == y.result && x.base == y.base
            && crate::agent::outcome_view(x.outcome) == crate::agent::outcome_view(y.outcome),
        _ => a == b,
    }
}

/// Decoding what an event encodes to gives the event back, for every event that
/// `round_trips` admits.
pub proof fn law_proto_round_trip(e: Event, b: proto::EventBody, r: Result<Event, AgUiError>)
    requires
        round_trips(e),
        event_to_ok(e, Ok(b)),
        event_from_ok(b, r),
    ensures
        r matches Ok(d) && same_event(d, e),
{
    lemma_text_role_round_trip();
    match e {
        Event::TextMessageStart(ev) => {
            assert(text_role_of(Some(text_role_text(ev.role))) == ev.role);
        },
        Event::TextMessageChunk(ev) => {
            match ev.role {
                Some(x) => {
                    assert(text_role_of(Some(text_role_text(x))) == x);
                },
                None => {},
            }
        },
        Event::RunFinished(ev) => {
            reveal_strlit("interrupt");
            reveal_strlit("success");
            assert("success"@.len() != "interrupt"@.len());
            assert(Seq::<char>::empty().len() != "interrupt"@.len());
            assert(Seq::<char>::empty().len() != "success"@.len());
            if let Some(RunFinishedOutcome::Interrupt { interrupts }) = ev.outcome {
                if let proto::EventBody::RunFinished(p) = b {
                    assert forall|k: int| 0 <= k < interrupts@.len() implies interrupt_from(
                        interrupt_to(#[trigger] interrupts@[k]),
                    ) == interrupts@[k] by {
                        assert(objects_read_back(interrupts@[k]));
                    }
                    assert(p.interrupts@.map_values(|i: proto::Interrupt| interrupt_from(i))
                        =~= interrupts@);
                }
            }
        },
        _ => {},
    }
}

/// Encoding fails exactly on the events the schema lacks and on state deltas with an
/// operation that cannot be converted.
pub proof fn law_proto_encoding_fails_exactly(e: Event, r: Result<proto::EventBody, AgUiError>)
    requires
        event_to_ok(e, r),
    ensures
        (r is Err) <==> (schema_lacks(e) || (e matches Event::StateDelta(ev) && first_failing_op(
            ev.delta@,
            0,
        ) is Some)),
{
}


/// The schema numbers the JSON Patch operations `add` 0, `remove` 1, `replace` 2, `move` 3,
/// `copy` 4 and `test` 5. Encoding an operation with one of these names gives its number, and
/// decoding a number gives its name back; every other name is rejected.
pub proof fn law_patch_op_numbering(
    op: Seq<char>,
    path: Option<Seq<char>>,
    from: Option<Seq<char>>,
    value: Option<serde_json::Value>,
    r: Result<proto::JsonPatchOperation, crate::error::AgUiError>,
)
    requires
        patch_members_ok(op, path, from, value, r),
    ensures
        op == "add"@ ==> (r matches Ok(p) && p.op == 0),
        op == "remove"@ ==> (r matches Ok(p) && p.op == 1),
        op == "replace"@ ==> (r matches Ok(p) && p.op == 2),
        op == "move"@ ==> (r matches Ok(p) && p.op == 3),
        op == "copy"@ ==> (r matches Ok(p) && p.op == 4),
        op == "test"@ ==> (r matches Ok(p) && p.op == 5),
        r matches Ok(p) ==> 0 <= p.op <= 5 && patch_kind_name(p.op) == op,
        patch_kind_name(0) == "add"@,
        patch_kind_name(1) == "remove"@,
        patch_kind_name(2) == "replace"@,
        patch_kind_name(3) == "move"@,
        patch_kind_name(4) == "copy"@,
        patch_kind_name(5) == "test"@,
{
    reveal_strlit("add");
    reveal_strlit("remove");
    reveal_strlit("replace");
    reveal_strlit("move");
    reveal_strlit("copy");
    reveal_strlit("test");
    assert("remove"@.len() != "add"@.len());
    assert("replace"@.len() != "add"@.len());
    assert("replace"@.len() != "remove"@.len());
    assert("move"@.len() != "add"@.len() && "move"@.len() != "remove"@.len()
        && "move"@.len() != "replace"@.len());
    assert("copy"@.len() != "add"@.len() && "copy"@.len() != "remove"@.len()
        && "copy"@.len() != "replace"@.len() && "copy"@[0] != "move"@[0]);
    assert("test"@.len() != "add"@.len() && "test"@.len() != "remove"@.len()
        && "test"@.len() != "replace"@.len() && "test"@[0] != "move"@[0] && "test"@[0]
        != "copy"@[0]);
}

} // verus!

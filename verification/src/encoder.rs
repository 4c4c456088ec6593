//! Server-side encoding of events: content negotiation from the `Accept` header, and the
//! framing of an encoded event as a server-sent-events frame or a length-prefixed protobuf
//! message.
use vstd::prelude::*;
use crate::media::{AGUI_MEDIA_TYPE_PROTOBUF, AGUI_MEDIA_TYPE_SSE};
use crate::text::{
    ascii_lower, chars_eq, chars_eq_ignore_ascii_case, chars_of, concat3, split_chars, split_on,
};
use crate::transform::{media_type_chars, media_type_of, StreamFormat};

verus! {

/// Whether one entry of an `Accept` header admits protobuf: its media type is the protobuf
/// media type, ignoring ASCII case, or exactly `*/*`.
pub open spec fn accept_entry_admits_protobuf(entry: Seq<char>) -> bool {
    let media = media_type_of(entry);
    ascii_lower(media) == ascii_lower(AGUI_MEDIA_TYPE_PROTOBUF@) || media == "*/*"@
}

/// Whether an `Accept` header admits protobuf: some of its comma-separated entries does.
pub open spec fn accept_admits_protobuf(accept: Seq<char>) -> bool {
    exists|i: int|
        0 <= i < split_on(accept, ',').len() && accept_entry_admits_protobuf(
            #[trigger] split_on(accept, ',')[i],
        )
}

/// Whether an `Accept` header admits protobuf, as `accept_admits_protobuf` says.
pub fn accepts_protobuf(accept: &str) -> (r: bool)
    ensures
        r == accept_admits_protobuf(accept@),
{
    let chars = chars_of(accept);
    let entries = split_chars(&chars, ',');
    let proto = chars_of(AGUI_MEDIA_TYPE_PROTOBUF);
    let star = chars_of("*/*");
    let ghost pieces = split_on(accept@, ',');
    let mut i: usize = 0;
    while i < entries.len()
        invariant
            chars@ == accept@,
            proto@ == AGUI_MEDIA_TYPE_PROTOBUF@,
            star@ == "*/*"@,
            pieces == split_on(accept@, ','),
            entries@.map_values(|p: Vec<char>| p@) == pieces,
            i <= entries@.len(),
            forall|k: int| 0 <= k < i ==> !accept_entry_admits_protobuf(#[trigger] pieces[k]),
        decreases entries.len() - i,
    {
        assert(pieces[i as int] == entries@[i as int]@);
        let media = media_type_chars(&entries[i]);
        if chars_eq_ignore_ascii_case(&media, &proto) || chars_eq(&media, &star) {
            assert(accept_entry_admits_protobuf(pieces[i as int]));
            return true;
        }
        i += 1;
    }
    false
}

/// Encodes events for one response, in the format that the client's `Accept` header asked
/// for. Its view is whether protobuf was negotiated.
#[derive(Debug, Clone)]
pub struct EventEncoder {
    accepts_protobuf: bool,
}

impl View for EventEncoder {
    type V = bool;

    closed spec fn view(&self) -> bool {
        self.accepts_protobuf
    }
}

impl Default for EventEncoder {
    fn default() -> (r: Self)
        ensures
            !r@,
    {
        EventEncoder { accepts_protobuf: false }
    }
}

impl EventEncoder {
    /// An encoder for server-sent events.
    pub fn new() -> (r: Self)
        ensures
            !r@,
    {
        EventEncoder { accepts_protobuf: false }
    }

    /// An encoder for the given `Accept` header: protobuf exactly when the header admits it.
    pub fn with_accept(accept: Option<&str>) -> (r: Self)
        ensures
            r@ == match accept {
                Some(a) => accept_admits_protobuf(a@),
                None => false,
            },
    {
        let accepts = match accept {
            Some(a) => accepts_protobuf(a),
            None => false,
        };
        EventEncoder { accepts_protobuf: accepts }
    }

    /// Whether protobuf was negotiated.
    pub fn accepts_protobuf(&self) -> (r: bool)
        ensures
            r == self@,
    {
        self.accepts_protobuf
    }

    /// The `Content-Type` of the response: the protobuf media type when negotiated, the
    /// server-sent-events one otherwise.
    pub fn content_type(&self) -> (r: &'static str)
        ensures
            r@ == if self@ {
                AGUI_MEDIA_TYPE_PROTOBUF@
            } else {
                AGUI_MEDIA_TYPE_SSE@
            },
    {
        if self.accepts_protobuf {
            AGUI_MEDIA_TYPE_PROTOBUF
        } else {
            AGUI_MEDIA_TYPE_SSE
        }
    }

    /// The format of the bytes that binary encoding produces: protobuf when negotiated,
    /// server-sent-events frames otherwise.
    pub fn binary_format(&self) -> (r: StreamFormat)
        ensures
            r == if self@ {
                StreamFormat::Protobuf
            } else {
                StreamFormat::Sse
            },
    {
        if self.accepts_protobuf {
            StreamFormat::Protobuf
        } else {
            StreamFormat::Sse
        }
    }
}

/// The server-sent-events frame of a JSON-encoded event: `data: <json>` and a blank line.
pub fn sse_frame(json: &str) -> (r: String)
    ensures
        r@ == "data: "@ + json@ + "\n\n"@,
{
    concat3("data: ", json, "\n\n")
}

/// The four bytes of `n`, most significant first.
pub open spec fn be_u32_bytes(n: u32) -> Seq<u8> {
    seq![(n >> 24u32) as u8, (n >> 16u32) as u8, (n >> 8u32) as u8, n as u8]
}

/// The number that four bytes encode, most significant first.
pub open spec fn be_u32_value(b: Seq<u8>) -> u32 {
    ((b[0] as u32) << 24u32) | ((b[1] as u32) << 16u32) | ((b[2] as u32) << 8u32) | (b[3] as u32)
}

/// A protobuf message framed for the wire: the message's length as a big-endian `u32`
/// (truncated to 32 bits), then the message.
pub open spec fn length_prefixed(message: Seq<u8>) -> Seq<u8> {
    be_u32_bytes(message.len() as u32) + message
}

/// Frames an encoded protobuf message, as `length_prefixed` says.
pub fn protobuf_frame(message: &Vec<u8>) -> (r: Vec<u8>)
    ensures
        r@ == length_prefixed(message@),
{
    let n: u32 = message.len() as u32;
    let mut r: Vec<u8> = Vec::new();
    r.push((n >> 24u32) as u8);
    r.push((n >> 16u32) as u8);
    r.push((n >> 8u32) as u8);
    r.push(n as u8);
    let ghost head = r@;
    assert(head == be_u32_bytes(n));
    let mut i: usize = 0;
    while i < message.len()
        invariant
            i <= message@.len(),
            r@ == head + message@.take(i as int),
        decreases message.len() - i,
    {
        r.push(message[i]);
        assert(message@.take(i + 1) =~= message@.take(i as int).push(message@[i as int]));
        i += 1;
    }
    assert(message@.take(message.len() as int) =~= message@);
    r
}

/// The four bytes of a `u32`, read back most significant first, give the number.
pub proof fn lemma_be_u32_round_trip(n: u32)
    ensures
        be_u32_value(be_u32_bytes(n)) == n,
{
    let b0 = (n >> 24u32) as u8;
    let b1 = (n >> 16u32) as u8;
    let b2 = (n >> 8u32) as u8;
    let b3 = n as u8;
    assert(((b0 as u32) << 24u32) | ((b1 as u32) << 16u32) | ((b2 as u32) << 8u32) | (b3 as u32)
        == n) by (bit_vector)
        requires
            b0 == (n >> 24u32) as u8,
            b1 == (n >> 16u32) as u8,
            b2 == (n >> 8u32) as u8,
            b3 == n as u8,
    ;
}

/// A framed message whose length fits in 32 bits starts with a header that reads back as
/// the length of what follows it, and what follows it is the message.
pub proof fn lemma_length_prefix_decodes(message: Seq<u8>)
    requires
        message.len() <= u32::MAX,
    ensures
        length_prefixed(message).len() == message.len() + 4,
        be_u32_value(length_prefixed(message).take(4)) == message.len(),
        length_prefixed(message).skip(4) == message,
{
    let n = message.len() as u32;
    lemma_be_u32_round_trip(n);
    assert(length_prefixed(message).take(4) =~= be_u32_bytes(n));
    assert(length_prefixed(message).skip(4) =~= message);
}

} // verus!

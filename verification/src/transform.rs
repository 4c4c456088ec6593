//! Which wire format a response stream carries, from its `Content-Type`.
use vstd::prelude::*;
use crate::media::AGUI_MEDIA_TYPE_PROTOBUF;
use crate::text::{chars_eq, chars_of, lemma_split_on_len, split_chars, split_on, trim, trim_chars};

verus! {

/// The wire format of an event stream.
#[derive(Debug, Clone, Copy, PartialEq, Eq, Structural)]
pub enum StreamFormat {
    Sse,
    Protobuf,
}

/// The media type of a header value: the text before its first `;`, trimmed.
pub open spec fn media_type_of(header: Seq<char>) -> Seq<char> {
    trim(split_on(header, ';')[0])
}

/// The format announced by a `Content-Type` header: protobuf exactly when its media type is
/// the protobuf media type; server-sent events otherwise, a missing header included.
pub open spec fn stream_format_of(content_type: Option<Seq<char>>) -> StreamFormat {
    let header = match content_type {
        Some(c) => c,
        None => Seq::empty(),
    };
    if media_type_of(header) == AGUI_MEDIA_TYPE_PROTOBUF@ {
        StreamFormat::Protobuf
    } else {
        StreamFormat::Sse
    }
}

/// The media type of the characters of a header value, as `media_type_of` says.
pub fn media_type_chars(chars: &Vec<char>) -> (r: Vec<char>)
    ensures
        r@ == media_type_of(chars@),
{
    let pieces = split_chars(chars, ';');
    proof {
        lemma_split_on_len(chars@, ';');
        assert(pieces@.map_values(|p: Vec<char>| p@)[0] == pieces@[0]@);
    }
    trim_chars(&pieces[0])
}

/// The media type of a header value, as `media_type_of` says.
pub fn media_type(header: &str) -> (r: Vec<char>)
    ensures
        r@ == media_type_of(header@),
{
    let chars = chars_of(header);
    media_type_chars(&chars)
}

/// Detects the stream format from a response's `Content-Type`, as `stream_format_of` says.
pub fn detect_stream_format(content_type: Option<&str>) -> (r: StreamFormat)
    ensures
        r == stream_format_of(
            match content_type {
                Some(c) => Some(c@),
                None => None,
            },
        ),
{
    let header: &str = match content_type {
        Some(c) => c,
        None => "",
    };
    proof {
        reveal_strlit("");
    }
    let media = media_type(header);
    let expected = chars_of(AGUI_MEDIA_TYPE_PROTOBUF);
    if chars_eq(&media, &expected) {
        StreamFormat::Protobuf
    } else {
        StreamFormat::Sse
    }
}

} // verus!

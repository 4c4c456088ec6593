//! The media types of the two wire formats of an event stream.
use vstd::prelude::*;

verus! {

/// The media type of a stream of length-prefixed protobuf events.
pub const AGUI_MEDIA_TYPE_PROTOBUF: &'static str = "application/vnd.ag-ui.event+proto";

/// The media type of a server-sent-events stream.
pub const AGUI_MEDIA_TYPE_SSE: &'static str = "text/event-stream";

} // verus!

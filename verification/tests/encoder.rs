use agui_rs::encoder::{accepts_protobuf, protobuf_frame, sse_frame, EventEncoder};
use agui_rs::media::{AGUI_MEDIA_TYPE_PROTOBUF, AGUI_MEDIA_TYPE_SSE};
use agui_rs::transform::StreamFormat;

#[test]
fn defaults_to_sse() {
    let enc = EventEncoder::new();
    assert!(!enc.accepts_protobuf());
    assert_eq!(enc.content_type(), "text/event-stream");
}

#[test]
fn detects_protobuf_accept() {
    let enc = EventEncoder::with_accept(Some(
        "application/vnd.ag-ui.event+proto, text/event-stream;q=0.5",
    ));
    assert!(enc.accepts_protobuf());
    assert_eq!(enc.content_type(), AGUI_MEDIA_TYPE_PROTOBUF);
}

#[test]
fn ignores_unrelated_accept() {
    let enc = EventEncoder::with_accept(Some("application/json"));
    assert!(!enc.accepts_protobuf());
}

#[test]
fn star_accept_implies_protobuf_when_offered() {
    let enc = EventEncoder::with_accept(Some("*/*"));
    assert!(enc.accepts_protobuf());
}

#[test]
fn protobuf_accept_header_switches_content_negotiation() {
    let encoder = EventEncoder::with_accept(Some(&format!(
        "text/event-stream, {AGUI_MEDIA_TYPE_PROTOBUF}"
    )));

    assert!(encoder.accepts_protobuf());
    assert_eq!(encoder.content_type(), AGUI_MEDIA_TYPE_PROTOBUF);
}

#[test]
fn missing_accept_header_means_sse() {
    let enc = EventEncoder::with_accept(None);
    assert!(!enc.accepts_protobuf());
    assert_eq!(enc.content_type(), AGUI_MEDIA_TYPE_SSE);
    assert_eq!(enc.binary_format(), StreamFormat::Sse);
}

#[test]
fn accept_matching_ignores_case_parameters_and_spaces() {
    assert!(accepts_protobuf("  APPLICATION/VND.AG-UI.EVENT+PROTO ; q=1"));
    assert!(accepts_protobuf("text/html, */*;q=0.1"));
    assert!(!accepts_protobuf("text/event-stream"));
    assert!(!accepts_protobuf(""));
    assert!(!accepts_protobuf("*/* x"));
}

#[test]
fn negotiated_protobuf_encodes_binary_as_protobuf() {
    let enc = EventEncoder::with_accept(Some(AGUI_MEDIA_TYPE_PROTOBUF));
    assert_eq!(enc.binary_format(), StreamFormat::Protobuf);
}

#[test]
fn default_encoder_is_sse() {
    let enc = EventEncoder::default();
    assert!(!enc.accepts_protobuf());
}

#[test]
fn sse_frame_wraps_json_payload() {
    let frame = sse_frame("{\"type\":\"RUN_STARTED\"}");
    assert_eq!(frame, "data: {\"type\":\"RUN_STARTED\"}\n\n");
    assert!(frame.starts_with("data: {"));
    assert!(frame.ends_with("\n\n"));
}

#[test]
fn protobuf_frame_prefixes_big_endian_length() {
    let message: Vec<u8> = (0..300u32).map(|i| (i % 251) as u8).collect();
    let framed = protobuf_frame(&message);
    assert_eq!(framed.len(), message.len() + 4);
    assert_eq!(&framed[..4], &[0, 0, 1, 44]);
    let len = u32::from_be_bytes([framed[0], framed[1], framed[2], framed[3]]) as usize;
    assert_eq!(len, framed.len() - 4);
    assert_eq!(&framed[4..], &message[..]);
}

#[test]
fn protobuf_frame_of_empty_message_is_a_zero_header() {
    assert_eq!(protobuf_frame(&Vec::new()), vec![0, 0, 0, 0]);
}

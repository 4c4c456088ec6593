use agui_rs::media::{AGUI_MEDIA_TYPE_PROTOBUF, AGUI_MEDIA_TYPE_SSE};
use agui_rs::transform::{detect_stream_format, media_type, StreamFormat};

#[test]
fn detects_protobuf_content_type() {
    assert_eq!(
        detect_stream_format(Some(AGUI_MEDIA_TYPE_PROTOBUF)),
        StreamFormat::Protobuf
    );
    assert_eq!(
        detect_stream_format(Some(&format!("{AGUI_MEDIA_TYPE_PROTOBUF}; charset=binary"))),
        StreamFormat::Protobuf
    );
}

#[test]
fn defaults_to_sse_for_missing_and_non_protobuf_content_types() {
    assert_eq!(detect_stream_format(None), StreamFormat::Sse);
    assert_eq!(
        detect_stream_format(Some(AGUI_MEDIA_TYPE_SSE)),
        StreamFormat::Sse
    );
    assert_eq!(
        detect_stream_format(Some("application/json")),
        StreamFormat::Sse
    );
}

#[test]
fn content_type_matching_is_exact_after_trimming() {
    assert_eq!(
        detect_stream_format(Some("  application/vnd.ag-ui.event+proto  ")),
        StreamFormat::Protobuf
    );
    assert_eq!(
        detect_stream_format(Some("APPLICATION/VND.AG-UI.EVENT+PROTO")),
        StreamFormat::Sse
    );
    assert_eq!(detect_stream_format(Some("")), StreamFormat::Sse);
}

#[test]
fn media_type_is_text_before_first_semicolon() {
    let m: String = media_type(" text/event-stream ; charset=utf-8; x=y").into_iter().collect();
    assert_eq!(m, "text/event-stream");
    let m: String = media_type("").into_iter().collect();
    assert_eq!(m, "");
}

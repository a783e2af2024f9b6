use terrain_streaming::http_body::{
    body_has_tiff_signature, body_magic_preview, content_type_looks_textual, http_status_error, preview_text,
    response_looks_like_error_document, response_looks_like_text_document, response_preview, transport_error,
};
use terrain_streaming::source_contract::StreamingProviderError;

#[test]
fn markup_error_pages_are_recognised_after_leading_whitespace() {
    assert!(response_looks_like_error_document(b"  \n<!DOCTYPE html>"));
    assert!(response_looks_like_error_document(b"<HTML><body/>"));
    assert!(response_looks_like_error_document(b"<?xml version=\"1.0\"?><ServiceExceptionReport/>"));
    assert!(response_looks_like_error_document(b"<ows:ExceptionReport>"));
    assert!(!response_looks_like_error_document(b"\x89PNG\r\n"));
    assert!(!response_looks_like_error_document(b""));
    assert!(!response_looks_like_error_document(b"{\"error\": 1}"));
}

#[test]
fn textual_error_answers_are_recognised() {
    assert!(response_looks_like_text_document(b"{\"error\": \"quota\"}"));
    assert!(response_looks_like_text_document(b"\tMessage: try later"));
    assert!(response_looks_like_text_document(b"Error 500"));
    assert!(!response_looks_like_text_document(b"II*\0"));
}

#[test]
fn content_types_are_classified_after_trimming_and_folding() {
    assert!(content_type_looks_textual("text/plain"));
    assert!(content_type_looks_textual("  Application/XML "));
    assert!(content_type_looks_textual("application/problem+json"));
    assert!(!content_type_looks_textual("image/tiff"));
    assert!(!content_type_looks_textual("x text/plain"));
}

#[test]
fn previews_are_single_line_and_bounded() {
    assert_eq!(preview_text("a\nb\rc"), "a b c");
    let long = "x".repeat(300);
    assert_eq!(response_preview(long.as_bytes()).len(), 160);
    assert_eq!(response_preview(b"line1\r\nline2"), "line1  line2");
    assert_eq!(response_preview(&[0xff, b'a']), "\u{fffd}a");
}

#[test]
fn magic_previews_show_at_most_eight_bytes() {
    assert_eq!(body_magic_preview(&[]), "empty");
    assert_eq!(body_magic_preview(&[0x0a]), "0A");
    assert_eq!(body_magic_preview(&[0, 1, 2, 3, 4, 5, 6, 7, 8, 9]), "00 01 02 03 04 05 06 07");
    assert!(body_has_tiff_signature(b"MM\0+"));
    assert!(!body_has_tiff_signature(b"MM\0"));
}

#[test]
fn http_failures_are_transient_or_permanent() {
    assert_eq!(
        http_status_error("gibs", 500, "https://x"),
        StreamingProviderError::Transient("gibs returned HTTP 500 for https://x".to_string())
    );
    assert_eq!(
        http_status_error("gibs", 403, "https://x"),
        StreamingProviderError::Permanent("gibs returned HTTP 403 for https://x".to_string())
    );
    assert_eq!(
        transport_error("gibs", None),
        StreamingProviderError::Transient("gibs transport failed: transport error without message".to_string())
    );
    assert_eq!(
        transport_error("gibs", Some("dns")),
        StreamingProviderError::Transient("gibs transport failed: dns".to_string())
    );
}

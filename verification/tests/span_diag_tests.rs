//! Tests of source spans and diagnostic rendering.

use mendes::span::{Position, Span};
use mendes::{Diagnostic, DiagnosticRenderer, ErrorCode, SourceCache};

#[test]
fn test_span_merge() {
    let span1 = Span::new(Position::new(1, 1, 0), Position::new(1, 5, 4), 0);
    let span2 = Span::new(Position::new(1, 10, 9), Position::new(1, 15, 14), 0);

    let merged = span1.merge(span2);
    assert_eq!(merged.start.offset, 0);
    assert_eq!(merged.end.offset, 14);
}

#[test]
fn test_span_len() {
    let span = Span::new(Position::new(1, 1, 0), Position::new(1, 10, 9), 0);
    assert_eq!(span.len(), 9);
}

#[test]
fn test_diagnostic_rendering() {
    let mut cache = SourceCache::new();
    let file_id = cache.add("test.ms", "let x: int = 10\nlet y = x + 1");

    let span = Span::new(Position::new(1, 5, 4), Position::new(1, 6, 5), file_id);

    let diagnostic = Diagnostic::error("invalid type")
        .with_code(ErrorCode::type_mismatch())
        .with_label(span, "expected `int`, found `string`")
        .with_help("consider converting the value to int");

    let renderer = DiagnosticRenderer::new(&cache).without_colors();
    let output = renderer.render(&diagnostic);

    assert!(output.contains("error[ET001]"));
    assert!(output.contains("invalid type"));
    assert!(output.contains("test.ms:1:5"));
}

//! Tests of the markup rewriter.

use halfwidth::html::rewrite;

#[test]
fn test_convert_html_preserve_tags() {
    let input = "\n<!DOCTYPE html>\n<html lang=\"zh-CN\">\n<head>\n    <meta charset=\"UTF-8\">\n    <title>\u{793a}\u{4f8b}</title>\n</head>\n<body>\n    <p>\u{4f60}\u{597d}\u{ff0c}<strong>\u{201c}Rust\u{201d}</strong>\u{ff08}2024\u{ff09}\u{ff01}</p>\n</body>\n</html>\n        ";
    let out = rewrite(&input.as_bytes().to_vec())
        .expect("should parse")
        .expect("should convert html");
    assert!(out.contains("<strong>"));
    assert!(!out.contains('\u{ff0c}'));
    assert!(!out.contains('\u{ff01}'));
    assert!(!out.contains('\u{201c}'));
    assert!(!out.contains('\u{201d}'));
    assert!(!out.contains('\u{ff08}'));
    assert!(!out.contains('\u{ff09}'));
    assert_eq!(
        out.trim(),
        "<!DOCTYPE html><html lang=\"zh-CN\"><head>\n    <meta charset=\"UTF-8\">\n    <title>\u{793a}\u{4f8b}</title>\n</head>\n<body>\n    <p>\u{4f60}\u{597d},<strong>\"Rust\"</strong>(2024)!</p>\n\n\n        </body></html>"
    );
}

#[test]
fn scenario_markup_with_element_boundary() {
    let input = "<p>\u{4f60}\u{597d}\u{ff0c}<strong>\u{201c}Rust\u{201d}</strong>\u{ff08}2024\u{ff09}\u{ff01}</p>";
    let out = rewrite(&input.as_bytes().to_vec())
        .expect("should parse")
        .expect("should convert html");
    // Each text node is converted independently; the element boundary is
    // preserved and no text is merged across it.
    assert!(out.contains("<p>\u{4f60}\u{597d},<strong>\"Rust\"</strong>(2024)!</p>"));
}

#[test]
fn scenario_invalid_byte_stream() {
    let input: Vec<u8> = vec![0xff, 0xfe, 0x80, 0x3c, 0x70, 0x3e];
    assert!(rewrite(&input).is_err());
}

#[test]
fn unchanged_markup_reports_no_change() {
    let input = "<p>Hello, <strong>world</strong></p>";
    let out = rewrite(&input.as_bytes().to_vec()).expect("should parse");
    assert_eq!(out, None);
}

#[test]
fn character_references_are_converted() {
    // The parser decodes character references before the rewriter sees
    // the text, so ASCII-only markup can still hold recognized
    // punctuation: no byte-level shortcut can decide "no change".
    let input = "<p>a&#xFF0C;b</p>";
    let out = rewrite(&input.as_bytes().to_vec())
        .expect("should parse")
        .expect("should convert html");
    assert!(out.contains("<p>a, b</p>"));
}

#[test]
fn no_marker_value_in_markup_output() {
    let input = "<p>\u{4f60}\u{597d}\u{ff0c}\u{4e16}\u{754c}\u{ff01}</p>";
    let out = rewrite(&input.as_bytes().to_vec())
        .expect("should parse")
        .expect("should convert html");
    assert!(!out.contains('\u{0}'));
}

#[test]
fn attributes_and_ordering_survive() {
    let input = "<ul id=\"a\" class=\"b c\"><li>\u{4e00}\u{3002}</li><li>\u{4e8c}\u{3002}</li></ul>";
    let out = rewrite(&input.as_bytes().to_vec())
        .expect("should parse")
        .expect("should convert html");
    assert!(out.contains("<ul id=\"a\" class=\"b c\">"));
    assert!(out.contains("<li>\u{4e00}.</li><li>\u{4e8c}.</li>"));
}

//! Tests of the plain-text conversion pipeline.

use halfwidth::pipeline::convert_str;

#[test]
fn test_convert_str_basic() {
    let input = "\u{4f60}\u{597d}\u{ff0c}\u{4e16}\u{754c}\u{ff01}\u{201c}Rust\u{201d} \u{ff08}2024\u{ff09}\u{3002}\u{201c}Rust\u{201d}\u{ff08}2024\u{ff09}";
    let out = convert_str(input).expect("should convert");
    assert!(!out.contains('\u{ff0c}'));
    assert!(!out.contains('\u{ff01}'));
    assert!(!out.contains('\u{201c}'));
    assert!(!out.contains('\u{201d}'));
    assert!(!out.contains('\u{ff08}'));
    assert!(!out.contains('\u{ff09}'));
    assert_eq!(
        out,
        "\u{4f60}\u{597d}, \u{4e16}\u{754c}!\"Rust\" (2024).\"Rust\"(2024)"
    );
}

#[test]
fn scenario_plain_sentence() {
    let out = convert_str("\u{4f60}\u{597d}\u{ff0c}\u{4e16}\u{754c}\u{ff01}");
    assert_eq!(out, Some("\u{4f60}\u{597d}, \u{4e16}\u{754c}!".to_string()));
}

#[test]
fn scenario_quotes_then_parens() {
    // The closing quote ends in one marker and the opening parenthesis
    // starts with one: the run of two collapses, so no space is inserted.
    let out = convert_str("\u{201c}Rust\u{201d}\u{ff08}2024\u{ff09}");
    assert_eq!(out, Some("\"Rust\"(2024)".to_string()));
}

#[test]
fn scenario_quotes_space_parens() {
    // With a real space between them, exactly one space separates the
    // closing quote from the opening parenthesis, and none stands inside
    // the parentheses.
    let out = convert_str("\u{201c}Rust\u{201d} \u{ff08}2024\u{ff09}").expect("should convert");
    assert_eq!(out, "\"Rust\" (2024)");
    assert!(!out.contains("( "));
    assert!(!out.contains(" )"));
    assert!(!out.contains("  "));
}

#[test]
fn scenario_no_recognized_punctuation() {
    assert_eq!(convert_str("Hello, world"), None);
}

#[test]
fn empty_input_is_unchanged() {
    assert_eq!(convert_str(""), None);
}

#[test]
fn conversion_table() {
    let cases: Vec<(&str, &str)> = vec![
        ("a\u{300b}b", "a > b"),
        ("a\u{300a}b", "a <b"),
        ("a\u{ff1a}b", "a: b"),
        ("a\u{ff1b}b", "a; b"),
        ("a\u{201c}b", "a \"b"),
        ("a\u{201d}b", "a\" b"),
        ("a\u{ff01}b", "a! b"),
        ("a\u{2026}b", "a...b"),
        ("a\u{ff08}b", "a (b"),
        ("a\u{ff09}b", "a) b"),
        ("a\u{3010}b", "a [b"),
        ("a\u{3011}b", "a] b"),
        ("a\u{3001}b", "a, b"),
        ("a\u{3002}b", "a. b"),
        ("a\u{ff0c}b", "a, b"),
        ("a\u{ff1f}b", "a? b"),
    ];
    for (input, expected) in cases {
        assert_eq!(convert_str(input), Some(expected.to_string()));
    }
}

#[test]
fn lone_marker_next_to_whitespace_vanishes() {
    // A space already follows the comma's trailing marker: no extra space.
    assert_eq!(
        convert_str("a\u{ff0c} b"),
        Some("a, b".to_string())
    );
}

#[test]
fn leading_and_trailing_markers_vanish() {
    // At the start the scan behaves as if white space had just been
    // emitted; at the end a pending marker is dropped.
    assert_eq!(convert_str("\u{ff0c}a"), Some(", a".to_string()));
    assert_eq!(convert_str("a\u{ff0c}"), Some("a,".to_string()));
    assert_eq!(convert_str("\u{ff0c}"), Some(",".to_string()));
}

#[test]
fn adjacent_rules_collapse_markers() {
    // Two commas in a row: three markers stand between the two literals,
    // so nothing is inserted there.
    assert_eq!(convert_str("a\u{ff0c}\u{ff0c}b"), Some("a,, b".to_string()));
}

#[test]
fn second_conversion_finds_nothing() {
    let inputs = vec![
        "\u{4f60}\u{597d}\u{ff0c}\u{4e16}\u{754c}\u{ff01}",
        "\u{201c}Rust\u{201d}\u{ff08}2024\u{ff09}",
        "\u{300a}\u{4e66}\u{300b}\u{2026}",
    ];
    for input in inputs {
        let once = convert_str(input).expect("first pass should convert");
        assert_eq!(convert_str(&once), None);
    }
}

#[test]
fn no_marker_value_leaks() {
    let inputs = vec![
        "\u{4f60}\u{597d}\u{ff0c}\u{4e16}\u{754c}\u{ff01}",
        "\u{ff0c}\u{ff0c}\u{ff0c}",
        "a\u{2026}\u{201d}b",
    ];
    for input in inputs {
        let out = convert_str(input).expect("should convert");
        assert!(!out.contains('\u{0}'));
    }
}

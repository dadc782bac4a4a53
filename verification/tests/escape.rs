use ecma_codegen::ast::{Str};
use ecma_codegen::comments::Comments;
use ecma_codegen::config::Config;
use ecma_codegen::emitter::Emitter;
use ecma_codegen::escape::{begins_with_alpha_num, contains_char, is_alpha_num, quote_str};
use ecma_codegen::source::SourceMap;
use ecma_codegen::span::Span;
use ecma_codegen::text_writer::JsWriter;

#[test]
fn plain_text_is_quoted() {
    assert_eq!(quote_str("abc"), "\"abc\"");
    assert_eq!(quote_str(""), "\"\"");
    assert_eq!(quote_str("a b~!"), "\"a b~!\"");
    assert_eq!(quote_str("it's"), "\"it's\"");
}

#[test]
fn quote_and_backslash() {
    assert_eq!(quote_str("a\"b"), "\"a\\\"b\"");
    assert_eq!(quote_str("a\\b"), "\"a\\\\b\"");
}

#[test]
fn named_escapes() {
    assert_eq!(quote_str("\n"), "\"\\n\"");
    assert_eq!(quote_str("\r"), "\"\\r\"");
    assert_eq!(quote_str("\t"), "\"\\t\"");
    assert_eq!(quote_str("\u{8}"), "\"\\b\"");
    assert_eq!(quote_str("\u{c}"), "\"\\f\"");
}

#[test]
fn two_digit_escapes() {
    assert_eq!(quote_str("\u{0}"), "\"\\x00\"");
    assert_eq!(quote_str("\u{1}"), "\"\\x01\"");
    assert_eq!(quote_str("\u{1f}"), "\"\\x1f\"");
    assert_eq!(quote_str("\u{7f}"), "\"\\x7f\"");
    assert_eq!(quote_str("\u{e9}"), "\"\\xe9\"");
    assert_eq!(quote_str("\u{ff}"), "\"\\xff\"");
}

#[test]
fn four_digit_escapes() {
    assert_eq!(quote_str("\u{100}"), "\"\\u0100\"");
    assert_eq!(quote_str("\u{2028}"), "\"\\u2028\"");
    assert_eq!(quote_str("\u{ffff}"), "\"\\uffff\"");
}

#[test]
fn braced_escapes() {
    assert_eq!(quote_str("\u{10000}"), "\"\\u{10000}\"");
    assert_eq!(quote_str("\u{1f600}"), "\"\\u{1f600}\"");
    assert_eq!(quote_str("\u{10ffff}"), "\"\\u{10ffff}\"");
}

#[test]
fn mixed_text() {
    assert_eq!(quote_str("a\u{e9}\n\"\u{1f600}z"), "\"a\\xe9\\n\\\"\\u{1f600}z\"");
}

#[test]
fn contains_a_character() {
    assert!(contains_char("1.5", '.'));
    assert!(contains_char(".", '.'));
    assert!(contains_char("1e3.", '.'));
    assert!(!contains_char("15", '.'));
    assert!(!contains_char("", '.'));
    assert!(contains_char("caf\u{e9}", '\u{e9}'));
    assert!(!contains_char("cafe", '\u{e9}'));
}

#[test]
fn synthesized_string_is_quoted() {
    let mut e = Emitter::new(
        Config::default(),
        SourceMap::new(),
        Comments::new(),
        JsWriter::new("  ", 0),
    );
    let node = Str { span: Span::dummy(), value: "line\nbreak".to_string() };
    assert!(e.emit_str_lit(&node).is_ok());
    assert_eq!(e.wr.as_str(), "\"line\\nbreak\"");
}

#[test]
fn letters_and_digits() {
    for c in ['0', '9', 'A', 'Z', 'a', 'z', '\u{80}', '\u{e9}', '\u{1f600}'] {
        assert!(is_alpha_num(c));
    }
    for c in ['/', ':', '@', '[', '`', '{', '-', '.', '$', '_', ' ', '"', '\u{7f}', '\u{0}'] {
        assert!(!is_alpha_num(c));
    }
}

#[test]
fn a_text_begins_with_its_first_character() {
    assert!(begins_with_alpha_num("a-"));
    assert!(begins_with_alpha_num("0x1F"));
    assert!(begins_with_alpha_num("\u{e9}"));
    assert!(!begins_with_alpha_num("-a"));
    assert!(!begins_with_alpha_num(".5"));
    assert!(!begins_with_alpha_num(""));
    assert!(!begins_with_alpha_num("'a'"));
}

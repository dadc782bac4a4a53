use ecma_codegen::ast::{Ident, Number, Regex, Str};
use ecma_codegen::text_writer::{JsWriter, Mark, SinkError, TokenClass};

fn writer() -> JsWriter {
    JsWriter::new("  ", 0)
}

#[test]
fn words_stand_apart() {
    let mut w = writer();
    w.write_keyword(None, "return");
    w.write_symbol(None, "a");
    w.write_num_lit(None, "1");
    w.write_keyword(None, "in");
    assert_eq!(w.as_str(), "return a 1 in");
}

#[test]
fn punctuation_needs_no_space() {
    let mut w = writer();
    w.write_symbol(None, "f");
    w.write_punct("(");
    w.write_symbol(None, "a");
    w.write_punct(")");
    w.write_punct(";");
    assert_eq!(w.as_str(), "f(a);");
}

#[test]
fn word_and_operator_run_together() {
    let mut w = writer();
    w.write_symbol(None, "a");
    w.write_operator("+");
    w.write_symbol(None, "b");
    assert_eq!(w.as_str(), "a+b");
}

#[test]
fn operators_that_end_as_the_next_begins_stand_apart() {
    let mut w = writer();
    w.write_operator("+");
    w.write_operator("+");
    w.write_operator("++");
    w.write_operator("-");
    w.write_operator("--");
    w.write_operator(">=");
    w.write_operator("=");
    assert_eq!(w.as_str(), "+ + ++- -->= =");
}

#[test]
fn strings_and_regexes_need_no_space() {
    let mut w = writer();
    w.write_keyword(None, "return");
    w.write_str_lit(None, "'s'");
    w.write_symbol(None, "a");
    w.write_regex("re");
    w.write_keyword(None, "in");
    assert_eq!(w.as_str(), "return's'a" .to_string() + "re" + "in");
}

#[test]
fn a_space_resets_the_class() {
    let mut w = writer();
    w.write_keyword(None, "return");
    w.write_space();
    w.write_symbol(None, "a");
    w.write_operator("+");
    w.write_space();
    w.write_operator("+");
    assert_eq!(w.as_str(), "return a+ +");
}

#[test]
fn a_line_is_indented_when_something_is_written_on_it() {
    let mut w = writer();
    w.write_punct("{");
    w.increase_indent();
    w.write_line();
    w.write_symbol(None, "a");
    w.write_line();
    w.write_line();
    w.increase_indent();
    w.write_symbol(None, "b");
    w.decrease_indent();
    w.decrease_indent();
    w.write_line();
    w.write_punct("}");
    assert_eq!(w.as_str(), "{\n  a\n\n    b\n}");
    assert_eq!(w.indent(), 0);
}

#[test]
fn no_space_is_due_at_a_line_start() {
    let mut w = writer();
    w.write_keyword(None, "a");
    w.write_line();
    w.write_keyword(None, "b");
    assert_eq!(w.as_str(), "a\nb");
}

#[test]
fn a_space_at_a_line_start_follows_the_indentation() {
    let mut w = JsWriter::new("\t", 2);
    w.write_space();
    w.write_symbol(None, "a");
    assert_eq!(w.as_str(), "\t\t a");
}

#[test]
fn the_first_line_is_indented_too() {
    let mut w = JsWriter::new("    ", 1);
    w.write_symbol(None, "a");
    assert_eq!(w.as_str(), "    a");
    assert_eq!(w.indent(), 1);
}

#[test]
fn an_empty_writer() {
    let w = writer();
    assert_eq!(w.as_str(), "");
    assert_eq!(w.status(), Ok(()));
    assert_eq!(w.indent(), 0);
    assert!(w.marks().is_empty());
}

#[test]
fn indent_overflow_is_an_error() {
    let mut w = JsWriter::new("", u32::MAX - 1);
    w.write_symbol(None, "a");
    assert!(w.increase_indent());
    assert_eq!(w.status(), Ok(()));
    assert_eq!(w.indent(), u32::MAX);
    assert!(!w.increase_indent());
    assert_eq!(w.status(), Err(SinkError::IndentOverflow));
    assert_eq!(w.indent(), u32::MAX);
}

#[test]
fn nothing_is_written_after_an_error() {
    let mut w = JsWriter::new("", u32::MAX);
    w.write_symbol(None, "a");
    assert!(!w.increase_indent());
    w.write_symbol(Some(3), "b");
    w.write_space();
    w.write_line();
    w.write_punct(";");
    assert!(!w.increase_indent());
    assert_eq!(w.as_str(), "a");
    assert_eq!(w.indent(), u32::MAX);
    assert!(w.marks().is_empty());
    assert_eq!(w.status(), Err(SinkError::IndentOverflow));
}

#[test]
fn marks_point_at_the_token_not_at_what_precedes_it() {
    let mut w = JsWriter::new("  ", 1);
    w.write_keyword(Some(10), "let");
    w.write_symbol(Some(14), "caf\u{e9}");
    w.write_punct(";");
    w.write_line();
    w.write_str_lit(Some(20), "'s'");
    w.write_num_lit(Some(30), "1");
    assert_eq!(w.as_str(), "  let caf\u{e9};\n  's'1");
    assert_eq!(
        w.marks().clone(),
        vec![
            Mark { src: 10, dst: 2 },
            Mark { src: 14, dst: 6 },
            Mark { src: 20, dst: 15 },
            Mark { src: 30, dst: 18 },
        ]
    );
}

#[test]
fn token_classes() {
    assert!(TokenClass::Keyword.is_word());
    assert!(TokenClass::Ident.is_word());
    assert!(TokenClass::Number.is_word());
    assert!(!TokenClass::Punct.is_word());
    assert!(!TokenClass::Operator.is_word());
    assert!(!TokenClass::Str.is_word());
    assert!(!TokenClass::Regex.is_word());
    assert!(!TokenClass::Blank.is_word());
    assert!(!TokenClass::Line.is_word());
}

#[test]
fn the_depth_comes_back_after_an_error() {
    let mut w = JsWriter::new("", u32::MAX - 1);
    assert!(w.increase_indent());
    assert!(!w.increase_indent());
    assert_eq!(w.status(), Err(SinkError::IndentOverflow));
    w.decrease_indent();
    assert_eq!(w.indent(), u32::MAX - 1);
    assert!(!w.increase_indent());
    assert_eq!(w.indent(), u32::MAX - 1);
    assert_eq!(w.status(), Err(SinkError::IndentOverflow));
}

#[test]
fn a_blank_after_a_word_is_a_space() {
    let mut w = JsWriter::new("", 0);
    w.write_keyword(None, "a");
    w.write_keyword(None, "");
    w.write_keyword(None, "b");
    w.write_line();
    w.write_keyword(None, "c");
    assert_eq!(w.as_str(), "a  b\nc");
}

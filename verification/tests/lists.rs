use ecma_codegen::ast::{BlockStmt, Expr, ExprOrSpread, Ident, Pat, Stmt};
use ecma_codegen::comments::Comments;
use ecma_codegen::config::Config;
use ecma_codegen::emitter::{Emitter, Nodes};
use ecma_codegen::list::{
    ALLOW_TRAILING_COMMA, AMPERSAND_DELIMITED, ANGLE_BRACKETS, ARRAY_BINDING_PATTERN_ELEMENTS,
    BAR_DELIMITED, CALL_ARGUMENTS, COMMA_DELIMITED, CURLY_BRACES, INDENTED, ListFormat, MULTI_LINE,
    NO_SPACE_IF_EMPTY, NONE, OPTIONAL_IF_EMPTY, OPTIONAL_IF_UNDEFINED, PARENTHESIS,
    PREFER_NEW_LINE, SPACE_BETWEEN_BRACES, SPACE_BETWEEN_SIBLINGS, SQUARE_BRACKETS,
};
use ecma_codegen::source::{SourceFile, SourceMap};
use ecma_codegen::span::Span;
use ecma_codegen::text_writer::JsWriter;

fn sp() -> Span {
    Span::dummy()
}

fn emitter_with(cfg: Config) -> Emitter {
    Emitter::new(cfg, SourceMap::new(), Comments::new(), JsWriter::new("  ", 0))
}

fn emitter() -> Emitter {
    emitter_with(Config::default())
}

/// An emitter whose source map holds `src` from position 1 on.
fn emitter_over(src: &str) -> Emitter {
    let mut cm = SourceMap::new();
    cm.files.push(SourceFile { start_pos: 1, src: src.to_string() });
    Emitter::new(Config::default(), cm, Comments::new(), JsWriter::new("  ", 0))
}

/// The span of the bytes `lo..hi` of the source that starts at position 1.
fn at(lo: u32, hi: u32) -> Span {
    Span::new(lo + 1, hi + 1)
}

fn text(e: &Emitter) -> String {
    e.wr.as_str().to_string()
}

fn id(name: &str) -> Ident {
    Ident { span: sp(), sym: name.to_string() }
}

fn var(name: &str) -> Box<Expr> {
    Box::new(Expr::Ident(id(name)))
}

fn arg(expr: Box<Expr>) -> ExprOrSpread {
    ExprOrSpread { span: sp(), spread: false, expr }
}

fn param(name: &str) -> Pat {
    Pat::Ident(id(name))
}

fn names(list: &[&str]) -> Vec<Pat> {
    list.iter().map(|n| param(n)).collect()
}

fn listed(children: Option<&Vec<Pat>>, bits: u32) -> String {
    let mut e = emitter();
    let nodes = children.map(|v| Nodes::Pats(v));
    assert!(e.emit_list(sp(), nodes, ListFormat::from_bits(bits)).is_ok());
    text(&e)
}

#[test]
fn absent_list_that_may_go_writes_nothing() {
    assert_eq!(listed(None, PARENTHESIS | OPTIONAL_IF_UNDEFINED), "");
}

#[test]
fn absent_list_that_must_stay_writes_its_brackets() {
    assert_eq!(listed(None, PARENTHESIS), "()");
    assert_eq!(listed(None, NONE), "");
}

#[test]
fn empty_list_that_may_go_writes_nothing() {
    assert_eq!(listed(Some(&vec![]), PARENTHESIS | OPTIONAL_IF_EMPTY), "");
    assert_eq!(listed(None, PARENTHESIS | OPTIONAL_IF_EMPTY), "");
    assert_eq!(listed(Some(&names(&["a"])), PARENTHESIS | OPTIONAL_IF_EMPTY), "(a)");
}

#[test]
fn empty_list_between_braces() {
    assert_eq!(listed(Some(&vec![]), CURLY_BRACES | SPACE_BETWEEN_BRACES), "{ }");
    assert_eq!(
        listed(Some(&vec![]), CURLY_BRACES | SPACE_BETWEEN_BRACES | NO_SPACE_IF_EMPTY),
        "{}"
    );
    assert_eq!(listed(Some(&vec![]), CURLY_BRACES | SPACE_BETWEEN_BRACES | MULTI_LINE), "{\n}");
}

#[test]
fn delimiters_between_children() {
    let v = names(&["a", "b", "c"]);
    assert_eq!(listed(Some(&v), COMMA_DELIMITED), "a,b,c");
    assert_eq!(listed(Some(&v), COMMA_DELIMITED | SPACE_BETWEEN_SIBLINGS), "a, b, c");
    assert_eq!(listed(Some(&v), BAR_DELIMITED | SPACE_BETWEEN_SIBLINGS), "a | b | c");
    assert_eq!(listed(Some(&v), AMPERSAND_DELIMITED), "a &b &c");
    assert_eq!(listed(Some(&v), SPACE_BETWEEN_SIBLINGS), "a b c");
    assert_eq!(listed(Some(&v), NONE), "a b c");
}

#[test]
fn every_bracket() {
    let v = names(&["a"]);
    assert_eq!(listed(Some(&v), CURLY_BRACES), "{a}");
    assert_eq!(listed(Some(&v), PARENTHESIS), "(a)");
    assert_eq!(listed(Some(&v), ANGLE_BRACKETS), "<a>");
    assert_eq!(listed(Some(&v), SQUARE_BRACKETS), "[a]");
    assert_eq!(listed(Some(&v), CURLY_BRACES | SPACE_BETWEEN_BRACES), "{ a }");
}

#[test]
fn multi_line_list() {
    let v = names(&["a", "b"]);
    assert_eq!(listed(Some(&v), MULTI_LINE | COMMA_DELIMITED), "\na,\nb\n");
    assert_eq!(
        listed(Some(&v), MULTI_LINE | COMMA_DELIMITED | INDENTED | SQUARE_BRACKETS),
        "[\n  a,\n  b\n]"
    );
    assert_eq!(listed(Some(&v), PREFER_NEW_LINE | PARENTHESIS), "(\na\nb\n)");
}

#[test]
fn a_range_of_the_children() {
    let v = names(&["a", "b", "c", "d"]);
    let range = |start: usize, count: usize| {
        let mut e = emitter();
        let format = ListFormat::from_bits(COMMA_DELIMITED | PARENTHESIS);
        assert!(e.emit_list5(sp(), Some(Nodes::Pats(&v)), format, start, count).is_ok());
        text(&e)
    };
    assert_eq!(range(0, 4), "(a,b,c,d)");
    assert_eq!(range(1, 2), "(b,c)");
    assert_eq!(range(3, 1), "(d)");
    assert_eq!(range(2, 10), "(c,d)");
    assert_eq!(range(2, usize::MAX), "(c,d)");
    assert_eq!(range(0, 0), "()");
    assert_eq!(range(4, 1), "()");
    assert_eq!(range(usize::MAX, usize::MAX), "()");
}

#[test]
fn original_children_follow_the_lines_of_the_source() {
    let src = "[a, b,\n c]";
    let mut e = emitter_over(src);
    let pat = |lo: u32, name: &str| Pat::Ident(Ident { span: at(lo, lo + 1), sym: name.to_string() });
    let v = vec![pat(1, "a"), pat(4, "b"), pat(8, "c")];
    let format = ListFormat::from_bits(ARRAY_BINDING_PATTERN_ELEMENTS);
    assert!(e.emit_list(at(0, 10), Some(Nodes::Pats(&v)), format).is_ok());
    assert_eq!(text(&e), "[a, b,\n  c]");
    assert_eq!(e.wr.indent(), 0);
}

#[test]
fn original_children_on_one_line_stay_on_one_line() {
    let src = "{a; b;}";
    let mut e = emitter_over(src);
    let st = |lo: u32, name: &str| {
        Stmt::Expr(Box::new(Expr::Ident(Ident { span: at(lo, lo + 1), sym: name.to_string() })))
    };
    let node = BlockStmt { span: at(0, 7), stmts: vec![st(1, "a"), st(4, "b")] };
    assert!(e.emit_block_stmt(&node).is_ok());
    assert_eq!(text(&e), "{a;b;}");
}

#[test]
fn a_synthesized_child_among_original_ones_follows_the_format() {
    let src = "f(a, b)";
    let mut e = emitter_over(src);
    let a = ExprOrSpread {
        span: at(2, 3),
        spread: false,
        expr: Box::new(Expr::Ident(Ident { span: at(2, 3), sym: "a".to_string() })),
    };
    let v = vec![a, arg(var("made"))];
    let one_line = ListFormat::from_bits(CALL_ARGUMENTS);
    assert!(e.emit_expr_or_spreads(at(0, 7), &v, one_line).is_ok());
    assert_eq!(text(&e), "(a, made)");
}

#[test]
fn child_by_index() {
    let v = names(&["a", "b"]);
    let mut e = emitter();
    assert!(e.emit_child(Nodes::Pats(&v), 1).is_ok());
    assert_eq!(text(&e), "b");
    let holes: Vec<Option<Pat>> = vec![None, Some(param("x"))];
    let mut e = emitter();
    assert!(e.emit_child(Nodes::ArrayPatElems(&holes), 0).is_ok());
    assert_eq!(text(&e), "");
    assert!(e.emit_child(Nodes::ArrayPatElems(&holes), 1).is_ok());
    assert_eq!(text(&e), "x");
}

#[test]
fn children_know_their_length_and_spans() {
    let a = Ident { span: at(0, 1), sym: "a".to_string() };
    let v = vec![Pat::Ident(a), param("b")];
    let nodes = Nodes::Pats(&v);
    assert_eq!(nodes.len(), 2);
    assert_eq!(nodes.span_at(0), at(0, 1));
    assert_eq!(nodes.span_at(1), Span::dummy());
    let holes: Vec<Option<ExprOrSpread>> = vec![None];
    assert_eq!(Nodes::ArrayElems(&holes).span_at(0), Span::dummy());
}

#[test]
fn trailing_comma_only_after_a_hole_at_the_very_end() {
    let holes: Vec<Option<Pat>> = vec![Some(param("a")), None, None];
    let listed = |bits: u32, start: usize, count: usize| {
        let mut e = emitter();
        let format = ListFormat::from_bits(bits);
        assert!(e.emit_list5(sp(), Some(Nodes::ArrayPatElems(&holes)), format, start, count).is_ok());
        text(&e)
    };
    assert_eq!(listed(COMMA_DELIMITED | ALLOW_TRAILING_COMMA, 0, 3), "a,,,");
    assert_eq!(listed(COMMA_DELIMITED | ALLOW_TRAILING_COMMA, 0, 2), "a,");
    assert_eq!(listed(COMMA_DELIMITED, 0, 3), "a,,");
    assert_eq!(listed(BAR_DELIMITED | ALLOW_TRAILING_COMMA, 0, 3), "a | |");
    assert!(Nodes::ArrayPatElems(&holes).ends_with_hole());
    let full: Vec<Option<Pat>> = vec![None, Some(param("a"))];
    assert!(!Nodes::ArrayPatElems(&full).ends_with_hole());
    let none: Vec<Option<Pat>> = vec![];
    assert!(!Nodes::ArrayPatElems(&none).ends_with_hole());
    assert!(!Nodes::Pats(&vec![]).ends_with_hole());
}

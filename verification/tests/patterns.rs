use ecma_codegen::ast::{
    ArrayPat, AssignPat, AssignPatProp, Expr, ExprOrSuper, Ident, KeyValuePatProp, Lit, Null,
    Number, NumberValue, ObjectPat, ObjectPatProp, Pat, PatOrExpr, PropName, RestPat, Stmt,
    VarDecl, VarDeclKind, VarDeclOrPat, VarDeclarator,
};
use ecma_codegen::comments::Comments;
use ecma_codegen::config::Config;
use ecma_codegen::emitter::Emitter;
use ecma_codegen::source::SourceMap;
use ecma_codegen::span::Span;
use ecma_codegen::text_writer::JsWriter;

fn sp() -> Span {
    Span::dummy()
}

fn emitter_with(cfg: Config) -> Emitter {
    Emitter::new(cfg, SourceMap::new(), Comments::new(), JsWriter::new("  ", 0))
}

fn emitter() -> Emitter {
    emitter_with(Config::default())
}

/// The span of the bytes `lo..hi` of the source that starts at position 1.
fn at(lo: u32, hi: u32) -> Span {
    Span::new(lo + 1, hi + 1)
}

fn text(e: &Emitter) -> String {
    e.wr.as_str().to_string()
}

fn id(name: &str) -> Ident {
    Ident { span: sp(), sym: name.to_string() }
}

fn var(name: &str) -> Box<Expr> {
    Box::new(Expr::Ident(id(name)))
}

fn num(digits: &str) -> Box<Expr> {
    Box::new(Expr::Lit(Lit::Num(Number {
        span: sp(),
        value: NumberValue::Finite(digits.to_string()),
    })))
}

fn param(name: &str) -> Pat {
    Pat::Ident(id(name))
}

fn emitted_pat(p: &Pat) -> String {
    let mut e = emitter();
    assert!(e.emit_pat(p).is_ok());
    text(&e)
}

#[test]
fn identifier_pattern() {
    assert_eq!(emitted_pat(&param("a")), "a");
}

#[test]
fn array_pattern_with_a_hole() {
    let node = ArrayPat { span: sp(), elems: vec![Some(param("a")), None, Some(param("b"))] };
    assert_eq!(emitted_pat(&Pat::Array(node)), "[a, , b]");
}

#[test]
fn rest_pattern() {
    let node = RestPat { span: sp(), arg: Box::new(param("rest")) };
    assert_eq!(emitted_pat(&Pat::Rest(node)), "...rest");
}

#[test]
fn pattern_with_a_default() {
    let node = AssignPat { span: sp(), left: Box::new(param("a")), right: num("1") };
    assert_eq!(emitted_pat(&Pat::Assign(node)), "a = 1");
}

#[test]
fn expression_as_a_pattern() {
    assert_eq!(emitted_pat(&Pat::Expr(var("a"))), "a");
}

#[test]
fn object_pattern() {
    let node = ObjectPat {
        span: sp(),
        props: vec![
            ObjectPatProp::KeyValue(KeyValuePatProp {
                span: sp(),
                key: PropName::Ident(id("a")),
                value: Box::new(param("b")),
            }),
            ObjectPatProp::Assign(AssignPatProp { span: sp(), key: id("c"), value: None }),
            ObjectPatProp::Assign(AssignPatProp { span: sp(), key: id("d"), value: Some(num("1")) }),
            ObjectPatProp::Rest(RestPat { span: sp(), arg: Box::new(param("rest")) }),
        ],
    };
    assert_eq!(emitted_pat(&Pat::Object(node)), "{ a: b, c, d = 1, ...rest }");
}

#[test]
fn empty_object_pattern_has_no_space() {
    assert_eq!(emitted_pat(&Pat::Object(ObjectPat { span: sp(), props: vec![] })), "{}");
}

#[test]
fn pattern_or_expression() {
    let mut e = emitter();
    assert!(e.emit_pat_or_expr(&PatOrExpr::Pat(Box::new(param("a")))).is_ok());
    assert!(e.emit_pat_or_expr(&PatOrExpr::Expr(num("1"))).is_ok());
    assert_eq!(text(&e), "a 1");
}

#[test]
fn declaration_or_pattern() {
    let mut e = emitter();
    let decl = VarDecl {
        span: sp(),
        kind: VarDeclKind::Let,
        decls: vec![VarDeclarator { span: sp(), name: param("a"), init: None }],
    };
    assert!(e.emit_var_decl_or_pat(&VarDeclOrPat::VarDecl(decl)).is_ok());
    assert_eq!(text(&e), "let a");
    let mut e = emitter();
    assert!(e.emit_var_decl_or_pat(&VarDeclOrPat::Pat(param("a"))).is_ok());
    assert_eq!(text(&e), "a");
}

#[test]
fn spans_of_patterns_and_statements() {
    let a = Ident { span: at(2, 3), sym: "a".to_string() };
    assert_eq!(Pat::Ident(a).span(), at(2, 3));
    let rest = RestPat { span: at(4, 9), arg: Box::new(param("r")) };
    assert_eq!(ObjectPatProp::Rest(rest).span(), at(4, 9));
    let inner = Ident { span: at(1, 2), sym: "x".to_string() };
    assert_eq!(Stmt::Expr(Box::new(Expr::Ident(inner))).span(), at(1, 2));
    assert_eq!(ExprOrSuper::Super(at(0, 5)).span(), at(0, 5));
    assert_eq!(Lit::Null(Null { span: at(3, 7) }).span(), at(3, 7));
}

#[test]
fn array_pattern_that_ends_in_a_hole() {
    let node = ArrayPat { span: sp(), elems: vec![Some(param("a")), None] };
    assert_eq!(emitted_pat(&Pat::Array(node)), "[a, ,]");
}

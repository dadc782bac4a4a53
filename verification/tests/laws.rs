use ecma_codegen::ast::{
    ArrowExpr, BinExpr, BinaryOp, BlockStmt, BlockStmtOrExpr, Bool, BreakStmt, CallExpr,
    ContinueStmt, DebuggerStmt, Decl, DoWhileStmt, Expr, ExprOrSpread, ExprOrSuper, Ident, Lit,
    Module, ModuleItem, Number, NumberValue, ObjectLit, Pat, Prop, PropOrSpread, Regex, ReturnStmt,
    Stmt, Str, ThrowStmt, UnaryExpr, UnaryOp, VarDecl, VarDeclKind, VarDeclarator,
};
use ecma_codegen::comments::{Comment, CommentGroup, CommentKind, Comments};
use ecma_codegen::config::{Config, EcmaVersion};
use ecma_codegen::emitter::{Emitter, Nodes};
use ecma_codegen::list::{INDENTED, ListFormat};
use ecma_codegen::source::{SourceFile, SourceMap};
use ecma_codegen::span::Span;
use ecma_codegen::text_writer::{JsWriter, Mark, SinkError};

fn sp() -> Span {
    Span::dummy()
}

fn emitter_with(cfg: Config) -> Emitter {
    Emitter::new(cfg, SourceMap::new(), Comments::new(), JsWriter::new("  ", 0))
}

fn emitter() -> Emitter {
    emitter_with(Config::default())
}

fn minifier() -> Emitter {
    emitter_with(Config { minify: true, ..Config::default() })
}

/// An emitter whose source map holds `src` from position 1 on.
fn emitter_over(src: &str) -> Emitter {
    let mut cm = SourceMap::new();
    cm.files.push(SourceFile { start_pos: 1, src: src.to_string() });
    Emitter::new(Config::default(), cm, Comments::new(), JsWriter::new("  ", 0))
}

/// The span of the bytes `lo..hi` of the source that starts at position 1.
fn at(lo: u32, hi: u32) -> Span {
    Span::new(lo + 1, hi + 1)
}

fn text(e: &Emitter) -> String {
    e.wr.as_str().to_string()
}

fn id(name: &str) -> Ident {
    Ident { span: sp(), sym: name.to_string() }
}

fn var(name: &str) -> Box<Expr> {
    Box::new(Expr::Ident(id(name)))
}

fn num(digits: &str) -> Box<Expr> {
    Box::new(Expr::Lit(Lit::Num(Number {
        span: sp(),
        value: NumberValue::Finite(digits.to_string()),
    })))
}

fn string(value: &str) -> Str {
    Str { span: sp(), value: value.to_string() }
}

fn arg(expr: Box<Expr>) -> ExprOrSpread {
    ExprOrSpread { span: sp(), spread: false, expr }
}

fn call(name: &str, args: Vec<Box<Expr>>) -> Box<Expr> {
    Box::new(Expr::Call(CallExpr {
        span: sp(),
        callee: ExprOrSuper::Expr(var(name)),
        args: args.into_iter().map(|e| arg(e)).collect(),
    }))
}

fn stmt(expr: Box<Expr>) -> Stmt {
    Stmt::Expr(expr)
}

fn block(stmts: Vec<Stmt>) -> BlockStmt {
    BlockStmt { span: sp(), stmts }
}

fn param(name: &str) -> Pat {
    Pat::Ident(id(name))
}

fn bin(op: BinaryOp, left: Box<Expr>, right: Box<Expr>) -> Box<Expr> {
    Box::new(Expr::Bin(BinExpr { span: sp(), op, left, right }))
}

fn unary(op: UnaryOp, arg: Box<Expr>) -> Box<Expr> {
    Box::new(Expr::Unary(UnaryExpr { span: sp(), op, arg }))
}

fn minified(e: &Expr) -> String {
    let mut em = minifier();
    assert!(em.emit_expr(e).is_ok());
    text(&em)
}

fn object(props: Vec<&str>) -> Box<Expr> {
    Box::new(Expr::Object(ObjectLit {
        span: sp(),
        props: props
            .into_iter()
            .map(|p| PropOrSpread::Prop(Box::new(Prop::Shorthand(id(p)))))
            .collect(),
    }))
}

fn nested(depth: u32) -> Stmt {
    let mut s = stmt(object(vec!["a", "b"]));
    for _ in 0..depth {
        s = Stmt::Block(block(vec![s]));
    }
    s
}

#[test]
fn words_never_touch_even_when_minified() {
    let in_expr = bin(BinaryOp::In, var("a"), var("b"));
    let typed = unary(UnaryOp::TypeOf, bin(BinaryOp::InstanceOf, num("1"), in_expr));
    let mut e = minifier();
    assert!(e.emit_stmt(&Stmt::Return(ReturnStmt { span: sp(), arg: Some(typed) })).is_ok());
    assert_eq!(text(&e), "return typeof 1 instanceof a in b;");
}

#[test]
fn words_never_touch_whatever_the_caller_forgets() {
    let mut w = JsWriter::new("", 0);
    for word in ["var", "x", "1", "of", "y"] {
        w.write_keyword(None, word);
        w.write_symbol(None, word);
        w.write_num_lit(None, word);
    }
    let out = w.as_str().to_string();
    assert_eq!(out, "var var var x x x 1 1 1 of of of y y y");
}

#[test]
fn indent_is_back_where_it_began_after_a_script() {
    for initial in [0u32, 3, u32::MAX - 6] {
        let mut e = Emitter::new(
            Config::default(),
            SourceMap::new(),
            Comments::new(),
            JsWriter::new("", initial),
        );
        assert!(e.emit_script(&vec![nested(4), nested(0)]).is_ok());
        assert_eq!(e.wr.indent(), initial);
    }
}

#[test]
fn indent_is_back_where_it_began_after_a_module() {
    let mut e = Emitter::new(
        Config::default(),
        SourceMap::new(),
        Comments::new(),
        JsWriter::new(" ", 7),
    );
    let module = Module { span: sp(), body: vec![ModuleItem::Stmt(nested(3))] };
    assert!(e.emit_module(&module).is_ok());
    assert_eq!(e.wr.indent(), 7);
}

#[test]
fn too_deep_a_tree_is_an_error() {
    let mut e = Emitter::new(
        Config::default(),
        SourceMap::new(),
        Comments::new(),
        JsWriter::new("", u32::MAX - 1),
    );
    let r = e.emit_script(&vec![nested(1), stmt(var("never"))]);
    assert_eq!(r, Err(SinkError::IndentOverflow));
    assert_eq!(e.status(), Err(SinkError::IndentOverflow));
    assert_eq!(text(&e), "{\n{\n");
    assert_eq!(e.wr.indent(), u32::MAX - 1);
}

#[test]
fn an_error_is_reported_by_every_later_call() {
    let mut e = Emitter::new(
        Config::default(),
        SourceMap::new(),
        Comments::new(),
        JsWriter::new("", u32::MAX),
    );
    assert_eq!(e.emit_expr(&object(vec!["a"])), Err(SinkError::IndentOverflow));
    assert_eq!(e.emit_expr(&var("a")), Err(SinkError::IndentOverflow));
    assert_eq!(text(&e), "{\n");
}

#[test]
fn original_number_keeps_its_spelling() {
    let mut e = emitter_over("x = 0x1F + 1e3 + 1_000;");
    let lit = |span: Span, value: &str| {
        Box::new(Expr::Lit(Lit::Num(Number { span, value: NumberValue::Finite(value.to_string()) })))
    };
    let sum = bin(
        BinaryOp::Plus,
        bin(BinaryOp::Plus, lit(at(4, 8), "31"), lit(at(11, 14), "1000")),
        lit(at(17, 22), "1000"),
    );
    assert!(e.emit_expr(&sum).is_ok());
    assert_eq!(text(&e), "0x1F + 1e3 + 1_000");
}

#[test]
fn original_string_keeps_its_quotes_and_escapes() {
    let mut e = emitter_over("a = 'it\\'s \\x41';");
    let node = Str { span: at(4, 16), value: "it's A".to_string() };
    assert!(e.emit_str_lit(&node).is_ok());
    assert_eq!(text(&e), "'it\\'s \\x41'");
}

#[test]
fn a_literal_with_a_context_is_written_from_its_value() {
    let mut e = emitter_over("a = 'x';");
    let node = Str { span: Span { lo: 5, hi: 8, ctxt: 2 }, value: "y".to_string() };
    assert!(e.emit_str_lit(&node).is_ok());
    assert_eq!(text(&e), "\"y\"");
}

#[test]
fn a_literal_outside_the_source_is_written_from_its_value() {
    let mut e = emitter_over("a");
    let node = Number { span: Span::new(40, 42), value: NumberValue::Finite("7".to_string()) };
    assert!(e.emit_num_lit(&node).is_ok());
    assert_eq!(text(&e), "7");
}

#[test]
fn positions_are_noted_when_asked_for() {
    let src = "let a = 'b';";
    let mut cm = SourceMap::new();
    cm.files.push(SourceFile { start_pos: 1, src: src.to_string() });
    let cfg = Config { source_map: true, ..Config::default() };
    let mut e = Emitter::new(cfg, cm, Comments::new(), JsWriter::new("  ", 1));
    let decl = VarDecl {
        span: at(0, 12),
        kind: VarDeclKind::Let,
        decls: vec![VarDeclarator {
            span: at(4, 11),
            name: Pat::Ident(Ident { span: at(4, 5), sym: "a".to_string() }),
            init: Some(Box::new(Expr::Lit(Lit::Str(Str {
                span: at(8, 11),
                value: "b".to_string(),
            })))),
        }],
    };
    assert!(e.emit_stmt(&Stmt::Decl(Decl::Var(decl))).is_ok());
    assert_eq!(text(&e), "  let a = 'b';\n");
    assert_eq!(e.wr.marks().clone(), vec![Mark { src: 5, dst: 6 }, Mark { src: 9, dst: 10 }]);
}

#[test]
fn positions_are_not_noted_otherwise() {
    let mut e = emitter_over("a");
    assert!(e.emit_ident(&Ident { span: at(0, 1), sym: "a".to_string() }).is_ok());
    assert!(e.wr.marks().is_empty());
    let cfg = Config { source_map: true, ..Config::default() };
    let mut e = emitter_with(cfg);
    assert!(e.emit_ident(&id("made")).is_ok());
    assert!(e.emit_lit(&Lit::Bool(Bool { span: Span::new(3, 7), value: true })).is_ok());
    assert_eq!(e.wr.marks().clone(), vec![Mark { src: 3, dst: 5 }]);
}

#[test]
fn default_configuration() {
    let cfg = Config::default();
    assert!(!cfg.minify);
    assert!(!cfg.omit_last_semicolon);
    assert!(!cfg.source_map);
}

#[test]
fn a_slash_never_runs_into_a_slash() {
    let re = || {
        Box::new(Expr::Lit(Lit::Regex(Regex { span: sp(), exp: string("x"), flags: None })))
    };
    assert_eq!(minified(&bin(BinaryOp::Div, var("a"), re())), "a/ /x/");
    assert_eq!(minified(&bin(BinaryOp::Div, re(), var("a"))), "/x/ /a");
    assert_eq!(minified(&bin(BinaryOp::Times, var("a"), re())), "a*/x/");
}

#[test]
fn a_comment_never_runs_into_a_slash() {
    let comments = Comments {
        leading: vec![CommentGroup {
            pos: 7,
            comments: vec![Comment { kind: CommentKind::Block, text: "c".to_string() }],
        }],
        trailing: vec![],
    };
    let cfg = Config { minify: true, ..Config::default() };
    let mut e = Emitter::new(cfg, SourceMap::new(), comments, JsWriter::new("", 0));
    let b = Box::new(Expr::Ident(Ident { span: Span { lo: 7, hi: 8, ctxt: 1 }, sym: "b".to_string() }));
    assert!(e.emit_expr(&bin(BinaryOp::Div, var("a"), b)).is_ok());
    assert_eq!(text(&e), "a/ /*c*/b");
}

#[test]
fn indent_is_back_where_it_began_after_a_list_that_failed() {
    let mut e = Emitter::new(
        Config::default(),
        SourceMap::new(),
        Comments::new(),
        JsWriter::new("", u32::MAX - 1),
    );
    let arrow = Box::new(Expr::Arrow(ArrowExpr {
        span: sp(),
        params: vec![],
        body: BlockStmtOrExpr::Expr(var("x")),
        is_async: false,
        is_generator: false,
    }));
    let children = vec![arrow];
    let r = e.emit_list(sp(), Some(Nodes::Exprs(&children)), ListFormat::from_bits(INDENTED));
    assert_eq!(r, Err(SinkError::IndentOverflow));
    assert_eq!(text(&e), "()=>");
    assert_eq!(e.wr.indent(), u32::MAX - 1);
}

#[test]
fn indent_is_back_where_it_began_after_a_script_that_failed() {
    for initial in [u32::MAX, u32::MAX - 1, u32::MAX - 2] {
        let mut e = Emitter::new(
            Config::default(),
            SourceMap::new(),
            Comments::new(),
            JsWriter::new("", initial),
        );
        assert_eq!(e.emit_script(&vec![nested(4), nested(0)]), Err(SinkError::IndentOverflow));
        assert_eq!(e.wr.indent(), initial);
    }
}

#[test]
fn the_target_decides_on_trailing_commas_in_calls() {
    let old = [EcmaVersion::Es3, EcmaVersion::Es5, EcmaVersion::Es2015, EcmaVersion::Es2016];
    let new = [EcmaVersion::Es2017, EcmaVersion::Es2018, EcmaVersion::Es2019, EcmaVersion::Es2020];
    for v in old {
        assert!(!v.allows_trailing_comma_in_calls());
    }
    for v in new {
        assert!(v.allows_trailing_comma_in_calls());
    }
    assert_eq!(Config::default().target, EcmaVersion::Es5);
    let mut e = emitter_with(Config { target: EcmaVersion::Es2020, ..Config::default() });
    assert!(e.emit_expr(&call("f", vec![var("a"), var("b")])).is_ok());
    assert_eq!(text(&e), "f(a, b)");
}

#[test]
fn statements_that_take_a_semicolon_write_it() {
    let all = vec![
        stmt(var("a")),
        Stmt::Debugger(DebuggerStmt { span: sp() }),
        Stmt::Return(ReturnStmt { span: sp(), arg: Some(var("a")) }),
        Stmt::Break(BreakStmt { span: sp(), label: None }),
        Stmt::Continue(ContinueStmt { span: sp(), label: None }),
        Stmt::Throw(ThrowStmt { span: sp(), arg: var("a") }),
        Stmt::DoWhile(DoWhileStmt { span: sp(), test: var("a"), body: Box::new(stmt(var("b"))) }),
        Stmt::Decl(Decl::Var(VarDecl {
            span: sp(),
            kind: VarDeclKind::Var,
            decls: vec![VarDeclarator { span: sp(), name: param("a"), init: None }],
        })),
    ];
    for s in &all {
        let mut e = emitter();
        assert!(e.emit_stmt(s).is_ok());
        assert!(text(&e).ends_with(";\n"));
        let mut e = minifier();
        assert!(e.emit_stmt(s).is_ok());
        assert!(text(&e).ends_with(';'));
    }
    let mut e = emitter();
    assert!(e.emit_script(&all).is_ok());
    assert_eq!(text(&e).matches(';').count(), 9);
}

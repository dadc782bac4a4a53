use ecma_codegen::ast::{
    CallExpr, Expr, ExprOrSuper, Ident, ImportDecl, ImportNames,
    ImportSpecific, KeyValueProp, Lit, MemberExpr, Module, ModuleDecl, ModuleItem, Number,
    NumberValue, ObjectLit, Prop, PropName, PropOrSpread, Stmt, Str, SwitchCase, SwitchStmt,
    TplElement, TplLit, UnaryExpr, UnaryOp, UpdateExpr, UpdateOp,
};
use ecma_codegen::comments::Comments;
use ecma_codegen::config::Config;
use ecma_codegen::emitter::Emitter;
use ecma_codegen::source::{SourceFile, SourceMap};
use ecma_codegen::span::Span;
use ecma_codegen::text_writer::JsWriter;

fn emitter_over(src: &str) -> Emitter {
    let mut cm = SourceMap::new();
    if !src.is_empty() {
        cm.files.push(SourceFile { start_pos: 1, src: src.to_string() });
    }
    Emitter::new(Config::default(), cm, Comments::new(), JsWriter::new("  ", 0))
}

fn ident(name: &str) -> Ident {
    Ident { span: Span::dummy(), sym: name.to_string() }
}

fn ident_expr(name: &str) -> Box<Expr> {
    Box::new(Expr::Ident(ident(name)))
}

fn call_stmt(name: &str) -> Stmt {
    Stmt::Expr(Box::new(Expr::Call(CallExpr {
        span: Span::dummy(),
        callee: ExprOrSuper::Expr(ident_expr(name)),
        args: vec![],
    })))
}

#[test]
fn double_dot_member_access() {
    let mut e = emitter_over("1");
    let node = MemberExpr {
        span: Span::dummy(),
        obj: ExprOrSuper::Expr(Box::new(Expr::Lit(Lit::Num(Number {
            span: Span::new(1, 2),
            value: NumberValue::Finite("1".to_string()),
        })))),
        prop: ident_expr("toString"),
        computed: false,
    };
    assert!(e.emit_member_expr(&node).is_ok());
    assert_eq!(e.wr.as_str(), "1..toString");
}

#[test]
fn unary_double_plus() {
    let mut e = emitter_over("");
    let node = UnaryExpr {
        span: Span::dummy(),
        op: UnaryOp::Plus,
        arg: Box::new(Expr::Update(UpdateExpr {
            span: Span::dummy(),
            op: UpdateOp::PlusPlus,
            prefix: true,
            arg: ident_expr("x"),
        })),
    };
    assert!(e.emit_unary_expr(&node).is_ok());
    assert_eq!(e.wr.as_str(), "+ ++x");
}

#[test]
fn template_literal() {
    let mut e = emitter_over("");
    let quasi = |raw: &str| TplElement { span: Span::dummy(), raw: raw.to_string() };
    let node = TplLit::new(
        Span::dummy(),
        None,
        vec![ident_expr("x"), ident_expr("y")],
        vec![quasi("a"), quasi("b"), quasi("c")],
    )
    .unwrap();
    assert!(e.emit_tpl_lit(&node).is_ok());
    assert_eq!(e.wr.as_str(), "`a${x}b${y}c`");
}

#[test]
fn named_import_with_default() {
    let src = "import d, {a as b} from \"m\";";
    let mut e = emitter_over(src);
    let at = |lo: u32, hi: u32| Span::new(lo + 1, hi + 1);
    let node = ImportDecl {
        span: at(0, 28),
        default: Some(Ident { span: at(7, 8), sym: "d".to_string() }),
        names: Some(ImportNames::Named(vec![ImportSpecific {
            span: at(11, 17),
            local: Ident { span: at(16, 17), sym: "b".to_string() },
            imported: Some(Ident { span: at(11, 12), sym: "a".to_string() }),
        }])),
        src: Str { span: at(24, 27), value: "m".to_string() },
    };
    let module = Module {
        span: at(0, 28),
        body: vec![ModuleItem::ModuleDecl(ModuleDecl::Import(node))],
    };
    assert!(e.emit_module(&module).is_ok());
    assert_eq!(e.wr.as_str(), "import d, { a as b } from \"m\";\n");
}

#[test]
fn object_literal_multiline() {
    let mut e = emitter_over("");
    let kv = |k: &str, v: &str| {
        PropOrSpread::Prop(Box::new(Prop::KeyValue(KeyValueProp {
            span: Span::dummy(),
            key: PropName::Ident(ident(k)),
            value: ident_expr(v),
        })))
    };
    let node = ObjectLit { span: Span::dummy(), props: vec![kv("k1", "v1"), kv("k2", "v2")] };
    assert!(e.emit_object_lit(&node).is_ok());
    assert_eq!(e.wr.as_str(), "{\n  k1: v1,\n  k2: v2\n}");
}

#[test]
fn switch_single_statement_case() {
    let mut e = emitter_over("");
    let one = |n: &str| {
        Some(Box::new(Expr::Lit(Lit::Num(Number {
            span: Span::dummy(),
            value: NumberValue::Finite(n.to_string()),
        }))))
    };
    let node = SwitchStmt {
        span: Span::dummy(),
        discriminant: ident_expr("x"),
        cases: vec![
            SwitchCase { span: Span::dummy(), test: one("1"), cons: vec![call_stmt("doIt")] },
            SwitchCase {
                span: Span::dummy(),
                test: one("2"),
                cons: vec![call_stmt("a"), call_stmt("b")],
            },
        ],
    };
    assert!(e.emit_switch_stmt(&node).is_ok());
    assert_eq!(
        e.wr.as_str(),
        "switch(x){\n  case 1: doIt();\n  case 2:\n    a();\n    b();\n\n}"
    );
}

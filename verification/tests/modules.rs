use ecma_codegen::ast::{
    BlockStmt, CallExpr, Class, ClassExpr, Decl, ExportAll, ExportDefaultDecl, ExportSpecifier,
    Expr, ExprOrSpread, ExprOrSuper, FnDecl, FnExpr, Function, Ident, ImportDecl, ImportNames,
    ImportSpecific, Lit, Module, ModuleDecl, ModuleItem, NamedExport, Number, NumberValue, Pat,
    Stmt, Str, VarDecl, VarDeclKind, VarDeclarator,
};
use ecma_codegen::comments::Comments;
use ecma_codegen::config::Config;
use ecma_codegen::emitter::Emitter;
use ecma_codegen::source::SourceMap;
use ecma_codegen::span::Span;
use ecma_codegen::text_writer::JsWriter;

fn sp() -> Span {
    Span::dummy()
}

fn emitter_with(cfg: Config) -> Emitter {
    Emitter::new(cfg, SourceMap::new(), Comments::new(), JsWriter::new("  ", 0))
}

fn emitter() -> Emitter {
    emitter_with(Config::default())
}

fn text(e: &Emitter) -> String {
    e.wr.as_str().to_string()
}

fn id(name: &str) -> Ident {
    Ident { span: sp(), sym: name.to_string() }
}

fn var(name: &str) -> Box<Expr> {
    Box::new(Expr::Ident(id(name)))
}

fn num(digits: &str) -> Box<Expr> {
    Box::new(Expr::Lit(Lit::Num(Number {
        span: sp(),
        value: NumberValue::Finite(digits.to_string()),
    })))
}

fn string(value: &str) -> Str {
    Str { span: sp(), value: value.to_string() }
}

fn arg(expr: Box<Expr>) -> ExprOrSpread {
    ExprOrSpread { span: sp(), spread: false, expr }
}

fn call(name: &str, args: Vec<Box<Expr>>) -> Box<Expr> {
    Box::new(Expr::Call(CallExpr {
        span: sp(),
        callee: ExprOrSuper::Expr(var(name)),
        args: args.into_iter().map(|e| arg(e)).collect(),
    }))
}

fn stmt(expr: Box<Expr>) -> Stmt {
    Stmt::Expr(expr)
}

fn block(stmts: Vec<Stmt>) -> BlockStmt {
    BlockStmt { span: sp(), stmts }
}

fn param(name: &str) -> Pat {
    Pat::Ident(id(name))
}

fn function(params: Vec<Pat>, body: Vec<Stmt>) -> Function {
    Function { span: sp(), params, body: block(body), is_generator: false, is_async: false }
}

fn emitted_module(items: Vec<ModuleItem>) -> String {
    let mut em = emitter();
    assert!(em.emit_module(&Module { span: sp(), body: items }).is_ok());
    text(&em)
}

fn import(default: Option<&str>, names: Option<ImportNames>) -> ModuleItem {
    ModuleItem::ModuleDecl(ModuleDecl::Import(ImportDecl {
        span: sp(),
        default: default.map(|d| id(d)),
        names,
        src: string("m"),
    }))
}

fn specific(local: &str, imported: Option<&str>) -> ImportSpecific {
    ImportSpecific { span: sp(), local: id(local), imported: imported.map(|i| id(i)) }
}

fn export_name(orig: &str, exported: Option<&str>) -> ExportSpecifier {
    ExportSpecifier { span: sp(), orig: id(orig), exported: exported.map(|x| id(x)) }
}

fn minified_module(cfg: Config, items: Vec<ModuleItem>) -> String {
    let mut e = emitter_with(cfg);
    assert!(e.emit_module(&Module { span: sp(), body: items }).is_ok());
    text(&e)
}

#[test]
fn import_for_its_effects() {
    assert_eq!(emitted_module(vec![import(None, None)]), "import \"m\";\n");
}

#[test]
fn import_default() {
    assert_eq!(emitted_module(vec![import(Some("d"), None)]), "import d from \"m\";\n");
}

#[test]
fn import_namespace() {
    let names = Some(ImportNames::Namespace(id("ns")));
    assert_eq!(emitted_module(vec![import(None, names)]), "import * as ns from \"m\";\n");
}

#[test]
fn import_default_and_namespace() {
    let names = Some(ImportNames::Namespace(id("ns")));
    assert_eq!(emitted_module(vec![import(Some("d"), names)]), "import d, * as ns from \"m\";\n");
}

#[test]
fn import_names() {
    let names =
        Some(ImportNames::Named(vec![specific("a", None), specific("c", Some("b"))]));
    assert_eq!(emitted_module(vec![import(None, names)]), "import { a, b as c } from \"m\";\n");
}

#[test]
fn import_no_names() {
    let names = Some(ImportNames::Named(vec![]));
    assert_eq!(emitted_module(vec![import(None, names)]), "import {} from \"m\";\n");
}

#[test]
fn imports_minified() {
    let cfg = Config { minify: true, ..Config::default() };
    let names = Some(ImportNames::Named(vec![specific("a", None), specific("c", Some("b"))]));
    assert_eq!(minified_module(cfg, vec![import(Some("d"), names)]), "import d,{a,b as c}from\"m\";");
    let names = Some(ImportNames::Namespace(id("ns")));
    assert_eq!(minified_module(cfg, vec![import(None, names)]), "import*as ns from\"m\";");
    assert_eq!(minified_module(cfg, vec![import(None, None)]), "import\"m\";");
}

#[test]
fn export_names() {
    let node = NamedExport {
        span: sp(),
        specifiers: vec![export_name("a", None), export_name("b", Some("c"))],
        src: None,
    };
    let item = ModuleItem::ModuleDecl(ModuleDecl::ExportNamed(node));
    assert_eq!(emitted_module(vec![item]), "export { a, b as c };\n");
}

#[test]
fn export_names_from_a_source() {
    let node =
        NamedExport { span: sp(), specifiers: vec![export_name("a", None)], src: Some(string("m")) };
    let item = ModuleItem::ModuleDecl(ModuleDecl::ExportNamed(node));
    assert_eq!(emitted_module(vec![item]), "export { a } from\"m\";\n");
}

#[test]
fn export_all() {
    let item =
        ModuleItem::ModuleDecl(ModuleDecl::ExportAll(ExportAll { span: sp(), src: string("m") }));
    assert_eq!(emitted_module(vec![item]), "export * from \"m\";\n");
}

#[test]
fn export_declarations() {
    let var = Decl::Var(VarDecl {
        span: sp(),
        kind: VarDeclKind::Const,
        decls: vec![VarDeclarator { span: sp(), name: param("a"), init: Some(num("1")) }],
    });
    let f = Decl::Fn(FnDecl { span: sp(), ident: id("f"), function: function(vec![], vec![]) });
    let items = vec![
        ModuleItem::ModuleDecl(ModuleDecl::ExportDecl(var)),
        ModuleItem::ModuleDecl(ModuleDecl::ExportDecl(f)),
    ];
    assert_eq!(emitted_module(items), "export const a = 1;\nexport function f() {\n}\n");
}

#[test]
fn export_default_expression() {
    let item = ModuleItem::ModuleDecl(ModuleDecl::ExportDefaultExpr(var("a")));
    assert_eq!(emitted_module(vec![item]), "export default a;\n");
}

#[test]
fn export_default_declarations() {
    let class = ExportDefaultDecl::Class(ClassExpr {
        span: sp(),
        ident: Some(id("A")),
        class: Class { span: sp(), body: vec![], super_class: None },
    });
    let f = ExportDefaultDecl::Fn(FnExpr {
        span: sp(),
        ident: None,
        function: function(vec![], vec![]),
    });
    let v = ExportDefaultDecl::Var(VarDecl {
        span: sp(),
        kind: VarDeclKind::Var,
        decls: vec![VarDeclarator { span: sp(), name: param("a"), init: None }],
    });
    let items = vec![
        ModuleItem::ModuleDecl(ModuleDecl::ExportDefaultDecl(class)),
        ModuleItem::ModuleDecl(ModuleDecl::ExportDefaultDecl(f)),
        ModuleItem::ModuleDecl(ModuleDecl::ExportDefaultDecl(v)),
    ];
    assert_eq!(
        emitted_module(items),
        "export default class A{\n}\nexport default function() {\n}\nexport default var a;\n"
    );
}

#[test]
fn module_items_one_after_the_other() {
    let items = vec![import(Some("d"), None), ModuleItem::Stmt(stmt(call("d", vec![])))];
    assert_eq!(emitted_module(items), "import d from \"m\";\nd();\n");
    assert_eq!(emitted_module(vec![]), "");
}

#[test]
fn last_semicolon_of_a_module_may_go() {
    let cfg = Config { minify: true, omit_last_semicolon: true, ..Config::default() };
    let items = vec![import(Some("d"), None), ModuleItem::Stmt(stmt(call("d", vec![])))];
    assert_eq!(minified_module(cfg, items), "import d from\"m\";d()");
    let items = vec![ModuleItem::Stmt(stmt(var("a"))), import(Some("d"), None)];
    assert_eq!(minified_module(cfg, items), "a;import d from\"m\"");
}

#[test]
fn module_item_alone() {
    let mut e = emitter();
    assert!(e.emit_module_item(&import(Some("d"), None)).is_ok());
    assert!(e.emit_module_item_with(&ModuleItem::Stmt(stmt(var("a"))), true).is_ok());
    assert_eq!(text(&e), "import d from \"m\";\na\n");
}

#[test]
fn import_pieces() {
    let node = ImportDecl {
        span: sp(),
        default: Some(id("d")),
        names: Some(ImportNames::Named(vec![specific("a", None)])),
        src: string("m"),
    };
    let mut e = emitter();
    assert!(e.emit_import_names(&node).is_ok());
    assert_eq!(text(&e), ", { a }");
    let mut e = emitter();
    assert!(e.emit_import_from(&node).is_ok());
    assert_eq!(text(&e), " from");
    let mut e = emitter();
    assert!(e.emit_import_specific(&specific("b", Some("a"))).is_ok());
    assert_eq!(text(&e), "a as b");
    let mut e = emitter();
    assert!(e.emit_export_specifier(&export_name("a", Some("b"))).is_ok());
    assert_eq!(text(&e), "a as b");
}

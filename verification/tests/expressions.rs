use ecma_codegen::ast::{
    ArrayLit, ArrayPat, ArrowExpr, AssignExpr, AssignOp, AssignPat, AssignProp, AwaitExpr, BinExpr,
    BinaryOp, BlockStmt, BlockStmtOrExpr, Bool, CallExpr, Class, ClassExpr, ClassMethod,
    ClassMethodKind, CondExpr, Expr, ExprOrSpread, ExprOrSuper, FnExpr, Function, GetterProp,
    Ident, KeyValueProp, Lit, MemberExpr, MetaPropExpr, MethodProp, NewExpr, Null, Number,
    NumberValue, ObjectLit, ObjectPat, ParenExpr, Pat, PatOrExpr, Prop, PropName, PropOrSpread,
    Regex, RestPat, SeqExpr, SetterProp, SpreadElement, Stmt, Str, ThisExpr, TplElement, TplLit,
    UnaryExpr, UnaryOp, UpdateExpr, UpdateOp, VarDeclKind, YieldExpr,
};
use ecma_codegen::comments::Comments;
use ecma_codegen::config::Config;
use ecma_codegen::emitter::{Emitter, Node};
use ecma_codegen::list::{CALL_ARGUMENTS, ListFormat};
use ecma_codegen::source::{SourceFile, SourceMap};
use ecma_codegen::span::Span;
use ecma_codegen::text_writer::JsWriter;

fn sp() -> Span {
    Span::dummy()
}

fn emitter_with(cfg: Config) -> Emitter {
    Emitter::new(cfg, SourceMap::new(), Comments::new(), JsWriter::new("  ", 0))
}

fn emitter() -> Emitter {
    emitter_with(Config::default())
}

fn minifier() -> Emitter {
    emitter_with(Config { minify: true, ..Config::default() })
}

/// An emitter whose source map holds `src` from position 1 on.
fn emitter_over(src: &str) -> Emitter {
    let mut cm = SourceMap::new();
    cm.files.push(SourceFile { start_pos: 1, src: src.to_string() });
    Emitter::new(Config::default(), cm, Comments::new(), JsWriter::new("  ", 0))
}

/// The span of the bytes `lo..hi` of the source that starts at position 1.
fn at(lo: u32, hi: u32) -> Span {
    Span::new(lo + 1, hi + 1)
}

fn text(e: &Emitter) -> String {
    e.wr.as_str().to_string()
}

fn id(name: &str) -> Ident {
    Ident { span: sp(), sym: name.to_string() }
}

fn var(name: &str) -> Box<Expr> {
    Box::new(Expr::Ident(id(name)))
}

fn num(digits: &str) -> Box<Expr> {
    Box::new(Expr::Lit(Lit::Num(Number {
        span: sp(),
        value: NumberValue::Finite(digits.to_string()),
    })))
}

fn string(value: &str) -> Str {
    Str { span: sp(), value: value.to_string() }
}

fn arg(expr: Box<Expr>) -> ExprOrSpread {
    ExprOrSpread { span: sp(), spread: false, expr }
}

fn call(name: &str, args: Vec<Box<Expr>>) -> Box<Expr> {
    Box::new(Expr::Call(CallExpr {
        span: sp(),
        callee: ExprOrSuper::Expr(var(name)),
        args: args.into_iter().map(|e| arg(e)).collect(),
    }))
}

fn block(stmts: Vec<Stmt>) -> BlockStmt {
    BlockStmt { span: sp(), stmts }
}

fn param(name: &str) -> Pat {
    Pat::Ident(id(name))
}

fn function(params: Vec<Pat>, body: Vec<Stmt>) -> Function {
    Function { span: sp(), params, body: block(body), is_generator: false, is_async: false }
}

fn bin(op: BinaryOp, left: Box<Expr>, right: Box<Expr>) -> Box<Expr> {
    Box::new(Expr::Bin(BinExpr { span: sp(), op, left, right }))
}

fn unary(op: UnaryOp, arg: Box<Expr>) -> Box<Expr> {
    Box::new(Expr::Unary(UnaryExpr { span: sp(), op, arg }))
}

fn update(op: UpdateOp, prefix: bool, arg: Box<Expr>) -> Box<Expr> {
    Box::new(Expr::Update(UpdateExpr { span: sp(), op, prefix, arg }))
}

fn emitted(e: &Expr) -> String {
    let mut em = emitter();
    assert!(em.emit_expr(e).is_ok());
    text(&em)
}

fn minified(e: &Expr) -> String {
    let mut em = minifier();
    assert!(em.emit_expr(e).is_ok());
    text(&em)
}

#[test]
fn this_is_a_keyword() {
    assert_eq!(emitted(&Expr::This(ThisExpr { span: sp() })), "this");
}

#[test]
fn array_literal_on_one_line() {
    let node = ArrayLit { span: sp(), elems: vec![Some(arg(var("a"))), Some(arg(var("b")))] };
    assert_eq!(emitted(&Expr::Array(node)), "[a, b]");
}

#[test]
fn array_hole_writes_nothing() {
    let node = ArrayLit { span: sp(), elems: vec![Some(arg(var("a"))), None, Some(arg(var("b")))] };
    assert_eq!(emitted(&Expr::Array(node)), "[a, , b]");
}

#[test]
fn empty_array_literal() {
    assert_eq!(emitted(&Expr::Array(ArrayLit { span: sp(), elems: vec![] })), "[]");
}

#[test]
fn empty_object_literal_closes_on_a_new_line() {
    assert_eq!(emitted(&Expr::Object(ObjectLit { span: sp(), props: vec![] })), "{\n}");
}

#[test]
fn object_literal_members() {
    let getter = Prop::Getter(GetterProp {
        span: sp(),
        key: PropName::Ident(id("g")),
        body: block(vec![]),
    });
    let setter = Prop::Setter(SetterProp {
        span: sp(),
        key: PropName::Ident(id("s")),
        param: param("v"),
        body: block(vec![]),
    });
    let method = Prop::Method(MethodProp {
        span: sp(),
        key: PropName::Ident(id("m")),
        function: function(vec![param("a")], vec![]),
    });
    let node = ObjectLit {
        span: sp(),
        props: vec![
            PropOrSpread::Prop(Box::new(Prop::Shorthand(id("a")))),
            PropOrSpread::Prop(Box::new(getter)),
            PropOrSpread::Prop(Box::new(setter)),
            PropOrSpread::Prop(Box::new(method)),
            PropOrSpread::Spread(SpreadElement { span: sp(), expr: var("rest") }),
        ],
    };
    assert_eq!(
        emitted(&Expr::Object(node)),
        "{\n  a,\n  get g () {\n  },\n  set s (v){\n  },\n  m (a) {\n  },\n  ...rest\n}"
    );
}

#[test]
fn property_keys() {
    let kv = |key: PropName| {
        PropOrSpread::Prop(Box::new(Prop::KeyValue(KeyValueProp {
            span: sp(),
            key,
            value: num("1"),
        })))
    };
    let node = ObjectLit {
        span: sp(),
        props: vec![
            kv(PropName::Str(string("s"))),
            kv(PropName::Num(Number { span: sp(), value: NumberValue::Finite("2".to_string()) })),
            kv(PropName::Computed(var("k"))),
        ],
    };
    assert_eq!(emitted(&Expr::Object(node)), "{\n  \"s\": 1,\n  2: 1,\n  [k]: 1\n}");
}

#[test]
fn assign_prop_has_no_spaces() {
    let mut e = emitter();
    let node = AssignProp { span: sp(), key: id("a"), value: num("1") };
    assert!(e.emit_assign_prop(&node).is_ok());
    assert_eq!(text(&e), "a=1");
}

#[test]
fn function_expression() {
    let node = FnExpr {
        span: sp(),
        ident: Some(id("f")),
        function: function(vec![param("a"), param("b")], vec![]),
    };
    assert_eq!(emitted(&Expr::Fn(node)), "function f(a, b) {\n}");
}

#[test]
fn anonymous_async_generator() {
    let mut function = function(vec![], vec![]);
    function.is_async = true;
    function.is_generator = true;
    let node = FnExpr { span: sp(), ident: None, function };
    assert_eq!(emitted(&Expr::Fn(node)), "async function*() {\n}");
}

#[test]
fn word_operator_stands_off_from_a_word() {
    assert_eq!(emitted(&unary(UnaryOp::TypeOf, var("x"))), "typeof x");
    assert_eq!(emitted(&unary(UnaryOp::Void, num("0"))), "void 0");
    assert_eq!(emitted(&unary(UnaryOp::Delete, var("x"))), "delete x");
}

#[test]
fn word_operator_runs_into_a_bracket() {
    let paren = Box::new(Expr::Paren(ParenExpr { span: sp(), expr: var("x") }));
    assert_eq!(emitted(&unary(UnaryOp::TypeOf, paren)), "typeof(x)");
}

#[test]
fn sign_operators_run_into_their_operand() {
    assert_eq!(emitted(&unary(UnaryOp::Minus, var("x"))), "-x");
    assert_eq!(emitted(&unary(UnaryOp::Plus, var("x"))), "+x");
    assert_eq!(emitted(&unary(UnaryOp::Tilde, var("x"))), "~x");
    assert_eq!(emitted(&unary(UnaryOp::Bang, var("x"))), "!x");
}

#[test]
fn equal_signs_stand_apart() {
    assert_eq!(emitted(&unary(UnaryOp::Minus, unary(UnaryOp::Minus, var("x")))), "- -x");
    assert_eq!(emitted(&unary(UnaryOp::Plus, unary(UnaryOp::Plus, var("x")))), "+ +x");
    assert_eq!(
        emitted(&unary(UnaryOp::Minus, update(UpdateOp::MinusMinus, true, var("x")))),
        "- --x"
    );
}

#[test]
fn unequal_signs_run_together() {
    assert_eq!(emitted(&unary(UnaryOp::Plus, unary(UnaryOp::Minus, var("x")))), "+-x");
    assert_eq!(
        emitted(&unary(UnaryOp::Plus, update(UpdateOp::MinusMinus, true, var("x")))),
        "+--x"
    );
    assert_eq!(
        emitted(&unary(UnaryOp::Plus, update(UpdateOp::PlusPlus, false, var("x")))),
        "+x++"
    );
}

#[test]
fn writer_parts_operators_that_end_as_the_next_begins() {
    assert_eq!(emitted(&unary(UnaryOp::Bang, unary(UnaryOp::Bang, var("x")))), "! !x");
}

#[test]
fn update_before_and_after() {
    assert_eq!(emitted(&update(UpdateOp::PlusPlus, true, var("x"))), "++x");
    assert_eq!(emitted(&update(UpdateOp::MinusMinus, false, var("x"))), "x--");
}

#[test]
fn binary_with_spaces() {
    assert_eq!(emitted(&bin(BinaryOp::Plus, var("a"), var("b"))), "a + b");
    assert_eq!(emitted(&bin(BinaryOp::In, var("a"), var("b"))), "a in b");
    assert_eq!(emitted(&bin(BinaryOp::ZeroFillRShift, var("a"), num("1"))), "a >>> 1");
}

#[test]
fn binary_minified() {
    assert_eq!(minified(&bin(BinaryOp::Plus, var("a"), var("b"))), "a+b");
    assert_eq!(minified(&bin(BinaryOp::InstanceOf, var("a"), var("b"))), "a instanceof b");
    assert_eq!(minified(&bin(BinaryOp::Plus, var("a"), unary(UnaryOp::Plus, var("b")))), "a+ +b");
    assert_eq!(
        minified(&bin(BinaryOp::Minus, var("a"), update(UpdateOp::MinusMinus, true, var("b")))),
        "a- --b"
    );
    assert_eq!(
        minified(&bin(BinaryOp::Plus, update(UpdateOp::PlusPlus, false, var("a")), var("b"))),
        "a++ +b"
    );
}

#[test]
fn every_binary_operator_has_its_text() {
    let all = [
        (BinaryOp::EqEq, "=="),
        (BinaryOp::NotEq, "!="),
        (BinaryOp::EqEqEq, "==="),
        (BinaryOp::NotEqEq, "!=="),
        (BinaryOp::Lt, "<"),
        (BinaryOp::LtEq, "<="),
        (BinaryOp::Gt, ">"),
        (BinaryOp::GtEq, ">="),
        (BinaryOp::LShift, "<<"),
        (BinaryOp::RShift, ">>"),
        (BinaryOp::ZeroFillRShift, ">>>"),
        (BinaryOp::Plus, "+"),
        (BinaryOp::Minus, "-"),
        (BinaryOp::Times, "*"),
        (BinaryOp::Div, "/"),
        (BinaryOp::Mod, "%"),
        (BinaryOp::BitOr, "|"),
        (BinaryOp::BitXor, "^"),
        (BinaryOp::BitAnd, "&"),
        (BinaryOp::LogicalOr, "||"),
        (BinaryOp::LogicalAnd, "&&"),
        (BinaryOp::In, "in"),
        (BinaryOp::InstanceOf, "instanceof"),
        (BinaryOp::Exp, "**"),
        (BinaryOp::NullishCoalescing, "??"),
    ];
    for (op, expected) in all {
        assert_eq!(op.as_str(), expected);
        assert_eq!(op.is_word(), expected == "in" || expected == "instanceof");
    }
}

#[test]
fn every_assignment_operator_has_its_text() {
    let all = [
        (AssignOp::Assign, "="),
        (AssignOp::PlusAssign, "+="),
        (AssignOp::MinusAssign, "-="),
        (AssignOp::TimesAssign, "*="),
        (AssignOp::DivAssign, "/="),
        (AssignOp::ModAssign, "%="),
        (AssignOp::LShiftAssign, "<<="),
        (AssignOp::RShiftAssign, ">>="),
        (AssignOp::ZeroFillRShiftAssign, ">>>="),
        (AssignOp::BitOrAssign, "|="),
        (AssignOp::BitXorAssign, "^="),
        (AssignOp::BitAndAssign, "&="),
        (AssignOp::ExpAssign, "**="),
        (AssignOp::AndAssign, "&&="),
        (AssignOp::OrAssign, "||="),
        (AssignOp::NullishAssign, "??="),
    ];
    for (op, expected) in all {
        assert_eq!(op.as_str(), expected);
    }
}

#[test]
fn unary_update_and_declaration_words() {
    let unary = [
        (UnaryOp::Minus, "-", false),
        (UnaryOp::Plus, "+", false),
        (UnaryOp::Bang, "!", false),
        (UnaryOp::Tilde, "~", false),
        (UnaryOp::TypeOf, "typeof", true),
        (UnaryOp::Void, "void", true),
        (UnaryOp::Delete, "delete", true),
    ];
    for (op, expected, word) in unary {
        assert_eq!(op.as_str(), expected);
        assert_eq!(op.is_word(), word);
    }
    assert_eq!(UpdateOp::PlusPlus.as_str(), "++");
    assert_eq!(UpdateOp::MinusMinus.as_str(), "--");
    assert_eq!(VarDeclKind::Var.as_str(), "var");
    assert_eq!(VarDeclKind::Let.as_str(), "let");
    assert_eq!(VarDeclKind::Const.as_str(), "const");
}

#[test]
fn assignment() {
    let node = AssignExpr {
        span: sp(),
        op: AssignOp::PlusAssign,
        left: PatOrExpr::Pat(Box::new(param("a"))),
        right: num("1"),
    };
    assert_eq!(emitted(&Expr::Assign(node)), "a += 1");
    let node = AssignExpr {
        span: sp(),
        op: AssignOp::Assign,
        left: PatOrExpr::Expr(var("a")),
        right: var("b"),
    };
    assert_eq!(minified(&Expr::Assign(node)), "a=b");
}

#[test]
fn member_access() {
    let member = |obj: ExprOrSuper, computed: bool| {
        Expr::Member(MemberExpr { span: sp(), obj, prop: var("b"), computed })
    };
    assert_eq!(emitted(&member(ExprOrSuper::Expr(var("a")), false)), "a.b");
    assert_eq!(emitted(&member(ExprOrSuper::Expr(var("a")), true)), "a[b]");
    assert_eq!(emitted(&member(ExprOrSuper::Super(sp()), false)), "super.b");
}

#[test]
fn number_without_a_dot_takes_two() {
    let member = |obj: Box<Expr>| {
        Expr::Member(MemberExpr {
            span: sp(),
            obj: ExprOrSuper::Expr(obj),
            prop: var("toFixed"),
            computed: false,
        })
    };
    assert_eq!(emitted(&member(num("1"))), "1..toFixed");
    assert_eq!(emitted(&member(num("1.5"))), "1.5.toFixed");
    assert_eq!(emitted(&member(num("1."))), "1..toFixed");
    let infinity = Box::new(Expr::Lit(Lit::Num(Number { span: sp(), value: NumberValue::Infinity })));
    assert_eq!(emitted(&member(infinity)), "Infinity.toFixed");
}

#[test]
fn computed_access_on_a_number_takes_no_dot() {
    let node = MemberExpr {
        span: sp(),
        obj: ExprOrSuper::Expr(num("1")),
        prop: var("k"),
        computed: true,
    };
    assert_eq!(emitted(&Expr::Member(node)), "1[k]");
}

#[test]
fn needs_2dots_reads_the_digits() {
    let e = emitter_over("0x10");
    let original = |span: Span| {
        ExprOrSuper::Expr(Box::new(Expr::Lit(Lit::Num(Number {
            span,
            value: NumberValue::Finite("16.0".to_string()),
        }))))
    };
    assert!(e.needs_2dots_for_property_access(&original(at(0, 4))));
    assert!(!e.needs_2dots_for_property_access(&original(sp())));
    assert!(!e.needs_2dots_for_property_access(&ExprOrSuper::Expr(var("a"))));
    assert!(!e.needs_2dots_for_property_access(&ExprOrSuper::Super(sp())));
}

#[test]
fn conditional() {
    let node = CondExpr { span: sp(), test: var("a"), cons: var("b"), alt: var("c") };
    assert_eq!(emitted(&Expr::Cond(node)), "a ? b : c");
    let node = CondExpr { span: sp(), test: var("a"), cons: var("b"), alt: var("c") };
    assert_eq!(minified(&Expr::Cond(node)), "a?b:c");
}

#[test]
fn call_with_arguments() {
    assert_eq!(emitted(&call("f", vec![var("a"), var("b")])), "f(a, b)");
    assert_eq!(emitted(&call("f", vec![])), "f()");
    assert_eq!(minified(&call("f", vec![var("a"), var("b")])), "f(a,b)");
}

#[test]
fn spread_argument() {
    let node = CallExpr {
        span: sp(),
        callee: ExprOrSuper::Expr(var("f")),
        args: vec![ExprOrSpread { span: sp(), spread: true, expr: var("a") }],
    };
    assert_eq!(emitted(&Expr::Call(node)), "f(...a)");
}

#[test]
fn new_with_and_without_arguments() {
    let with = NewExpr { span: sp(), callee: var("A"), args: Some(vec![arg(var("a"))]) };
    assert_eq!(emitted(&Expr::New(with)), "new A(a)");
    let without = NewExpr { span: sp(), callee: var("A"), args: None };
    assert_eq!(emitted(&Expr::New(without)), "new A");
    let empty = NewExpr { span: sp(), callee: var("A"), args: Some(vec![]) };
    assert_eq!(minified(&Expr::New(empty)), "new A()");
}

#[test]
fn sequence() {
    let node = SeqExpr { span: sp(), exprs: vec![var("a"), var("b"), var("c")] };
    assert_eq!(emitted(&Expr::Sequence(node)), "a, b, c");
}

#[test]
fn arrow_with_an_expression_body() {
    let node = ArrowExpr {
        span: sp(),
        params: vec![param("a"), param("b")],
        body: BlockStmtOrExpr::Expr(var("a")),
        is_async: false,
        is_generator: false,
    };
    assert_eq!(emitted(&Expr::Arrow(node)), "(a, b)=>a");
}

#[test]
fn async_arrow_with_a_block_body() {
    let node = ArrowExpr {
        span: sp(),
        params: vec![],
        body: BlockStmtOrExpr::BlockStmt(block(vec![])),
        is_async: true,
        is_generator: false,
    };
    assert_eq!(emitted(&Expr::Arrow(node)), "async ()=>{\n}");
}

#[test]
fn arrow_body_is_one_stop_deeper() {
    let object = |props| Box::new(Expr::Object(ObjectLit { span: sp(), props }));
    let node = ArrowExpr {
        span: sp(),
        params: vec![],
        body: BlockStmtOrExpr::Expr(object(vec![PropOrSpread::Prop(Box::new(Prop::Shorthand(
            id("a"),
        )))])),
        is_async: false,
        is_generator: false,
    };
    assert_eq!(emitted(&Expr::Arrow(node)), "()=>{\n    a\n  }");
}

#[test]
fn yield_forms() {
    let y = |arg, delegate| Expr::Yield(YieldExpr { span: sp(), arg, delegate });
    assert_eq!(emitted(&y(None, false)), "yield");
    assert_eq!(emitted(&y(Some(var("a")), false)), "yield a");
    assert_eq!(emitted(&y(Some(var("a")), true)), "yield* a");
}

#[test]
fn meta_property() {
    let node = MetaPropExpr { span: sp(), meta: id("new"), prop: id("target") };
    assert_eq!(emitted(&Expr::MetaProp(node)), "new.target");
}

#[test]
fn await_argument() {
    assert_eq!(emitted(&Expr::Await(AwaitExpr { span: sp(), arg: var("a") })), "await a");
}

#[test]
fn parenthesised() {
    assert_eq!(emitted(&Expr::Paren(ParenExpr { span: sp(), expr: var("a") })), "(a)");
}

#[test]
fn tagged_template() {
    let quasi = |raw: &str| TplElement { span: sp(), raw: raw.to_string() };
    let node = TplLit::new(sp(), Some(var("tag")), vec![var("x")], vec![quasi("a"), quasi("")])
        .unwrap();
    assert_eq!(emitted(&Expr::Tpl(node)), "tag`a${x}`");
}

#[test]
fn template_without_holes() {
    let quasi = TplElement { span: sp(), raw: "plain".to_string() };
    let node = TplLit::new(sp(), None, vec![], vec![quasi]).unwrap();
    assert_eq!(emitted(&Expr::Tpl(node)), "`plain`");
}

#[test]
fn template_needs_one_more_part_than_holes() {
    let quasi = |raw: &str| TplElement { span: sp(), raw: raw.to_string() };
    assert!(TplLit::new(sp(), None, vec![var("x")], vec![quasi("a")]).is_none());
    assert!(TplLit::new(sp(), None, vec![], vec![]).is_none());
    assert!(TplLit::new(sp(), None, vec![], vec![quasi("a"), quasi("b")]).is_none());
    let ok = TplLit::new(at(0, 3), None, vec![], vec![quasi("a")]).unwrap();
    assert_eq!(ok.span(), at(0, 3));
    assert!(ok.tag().is_none());
}

#[test]
fn class_expression() {
    let node = ClassExpr {
        span: sp(),
        ident: Some(id("A")),
        class: Class { span: sp(), body: vec![], super_class: Some(var("B")) },
    };
    assert_eq!(emitted(&Expr::Class(node)), "class A extends B{\n}");
}

#[test]
fn class_members() {
    let method = |kind, is_static, is_async, is_generator| {
        let mut f = function(vec![], vec![]);
        f.is_async = is_async;
        f.is_generator = is_generator;
        ClassMethod { span: sp(), key: PropName::Ident(id("m")), function: f, kind, is_static }
    };
    let node = ClassExpr {
        span: sp(),
        ident: None,
        class: Class {
            span: sp(),
            body: vec![
                method(ClassMethodKind::Constructor, false, false, false),
                method(ClassMethodKind::Method, true, false, false),
                method(ClassMethodKind::Method, false, true, true),
                method(ClassMethodKind::Getter, false, false, false),
                method(ClassMethodKind::Setter, true, false, false),
            ],
            super_class: None,
        },
    };
    assert_eq!(
        emitted(&Expr::Class(node)),
        "class{\n  constructor() {\n  }\n  static m() {\n  }\n  async *m() {\n  }\n  get m() {\n  }\n  static set m() {\n  }\n}"
    );
}

#[test]
fn literals() {
    assert_eq!(emitted(&Expr::Lit(Lit::Bool(Bool { span: sp(), value: true }))), "true");
    assert_eq!(emitted(&Expr::Lit(Lit::Bool(Bool { span: sp(), value: false }))), "false");
    assert_eq!(emitted(&Expr::Lit(Lit::Null(Null { span: sp() }))), "null");
    assert_eq!(emitted(&Expr::Lit(Lit::Str(string("a\"b")))), "\"a\\\"b\"");
    assert_eq!(emitted(&num("42")), "42");
}

#[test]
fn infinities_are_written_by_name() {
    let n = |value| Expr::Lit(Lit::Num(Number { span: sp(), value }));
    assert_eq!(emitted(&n(NumberValue::Infinity)), "Infinity");
    assert_eq!(emitted(&n(NumberValue::NegInfinity)), "-Infinity");
    assert_eq!(
        minified(&bin(BinaryOp::Minus, var("a"), Box::new(n(NumberValue::NegInfinity)))),
        "a- -Infinity"
    );
}

#[test]
fn regex_with_and_without_flags() {
    let re = |flags: Option<&str>| {
        Expr::Lit(Lit::Regex(Regex { span: sp(), exp: string("ab+c"), flags: flags.map(|f| string(f)) }))
    };
    assert_eq!(emitted(&re(Some("gi"))), "/ab+c/gi");
    assert_eq!(emitted(&re(None)), "/ab+c/");
}

#[test]
fn identifier_is_written_as_the_source_had_it() {
    let mut e = emitter_over("let caf\\u00e9;");
    let node = Ident { span: at(4, 13), sym: "caf\u{e9}".to_string() };
    assert!(e.emit_ident(&node).is_ok());
    assert_eq!(text(&e), "caf\\u00e9");
}

#[test]
fn synthesized_identifier_is_written_by_name() {
    let mut e = emitter_over("abc");
    let node = Ident { span: Span { lo: 1, hi: 4, ctxt: 7 }, sym: "renamed".to_string() };
    assert!(e.emit_ident(&node).is_ok());
    assert_eq!(text(&e), "renamed");
}

#[test]
fn starts_with_alpha_num_by_kind() {
    let e = emitter();
    assert!(e.starts_with_alpha_num(&var("a")));
    assert!(e.starts_with_alpha_num(&num("1")));
    assert!(e.starts_with_alpha_num(&Expr::This(ThisExpr { span: sp() })));
    assert!(e.starts_with_alpha_num(&bin(BinaryOp::Plus, var("a"), var("b"))));
    assert!(e.starts_with_alpha_num(&update(UpdateOp::PlusPlus, false, var("a"))));
    assert!(e.starts_with_alpha_num(&unary(UnaryOp::TypeOf, var("a"))));
    assert!(e.starts_with_alpha_num(&call("f", vec![])));
    assert!(e.starts_with_alpha_num(&Expr::Lit(Lit::Bool(Bool { span: sp(), value: true }))));
    assert!(e.starts_with_alpha_num(&Expr::Lit(Lit::Null(Null { span: sp() }))));
    assert!(!e.starts_with_alpha_num(&update(UpdateOp::PlusPlus, true, var("a"))));
    assert!(!e.starts_with_alpha_num(&unary(UnaryOp::Minus, var("a"))));
    assert!(!e.starts_with_alpha_num(&Expr::Paren(ParenExpr { span: sp(), expr: var("a") })));
    assert!(!e.starts_with_alpha_num(&Expr::Lit(Lit::Str(string("a")))));
    assert!(!e.starts_with_alpha_num(&Expr::Array(ArrayLit { span: sp(), elems: vec![] })));
    assert!(!e.starts_with_alpha_num(&Expr::Sequence(SeqExpr { span: sp(), exprs: vec![] })));
    let re = Regex { span: sp(), exp: string("x"), flags: None };
    assert!(!e.starts_with_alpha_num(&Expr::Lit(Lit::Regex(re))));
}

#[test]
fn a_number_starts_as_it_is_written() {
    let e = emitter();
    let n = |value| Expr::Lit(Lit::Num(Number { span: sp(), value }));
    assert!(e.starts_with_alpha_num(&num("0")));
    assert!(e.starts_with_alpha_num(&num("1e3")));
    assert!(!e.starts_with_alpha_num(&num("-1")));
    assert!(!e.starts_with_alpha_num(&num("-0.5")));
    assert!(!e.starts_with_alpha_num(&num(".5")));
    assert!(!e.starts_with_alpha_num(&num("")));
    assert!(e.starts_with_alpha_num(&n(NumberValue::Infinity)));
    assert!(!e.starts_with_alpha_num(&n(NumberValue::NegInfinity)));
}

#[test]
fn an_original_literal_starts_as_the_source_had_it() {
    let e = emitter_over(".5 0x1F 'a' x");
    let lit = |span: Span| {
        Expr::Lit(Lit::Num(Number { span, value: NumberValue::Finite("7".to_string()) }))
    };
    assert!(!e.starts_with_alpha_num(&lit(at(0, 2))));
    assert!(e.starts_with_alpha_num(&lit(at(3, 7))));
    assert!(e.starts_with_alpha_num(&lit(sp())));
    let s = Expr::Lit(Lit::Str(Str { span: at(8, 11), value: "a".to_string() }));
    assert!(!e.starts_with_alpha_num(&s));
    let x = Expr::Ident(Ident { span: at(12, 13), sym: "$renamed".to_string() });
    assert!(e.starts_with_alpha_num(&x));
}

#[test]
fn an_identifier_starts_with_its_first_character() {
    let e = emitter();
    assert!(e.starts_with_alpha_num(&var("x1")));
    assert!(e.starts_with_alpha_num(&var("Z")));
    assert!(e.starts_with_alpha_num(&var("\u{e9}t\u{e9}")));
    assert!(!e.starts_with_alpha_num(&var("$x")));
    assert!(!e.starts_with_alpha_num(&var("_x")));
    assert!(!e.starts_with_alpha_num(&var("")));
    let meta = MetaPropExpr { span: sp(), meta: id("new"), prop: id("target") };
    assert!(e.starts_with_alpha_num(&Expr::MetaProp(meta)));
}

#[test]
fn a_pattern_starts_as_its_first_part_does() {
    let e = emitter();
    assert!(e.pat_starts_with_alpha_num(&param("a")));
    assert!(!e.pat_starts_with_alpha_num(&param("_a")));
    assert!(e.pat_starts_with_alpha_num(&Pat::Expr(var("a"))));
    let with_default = AssignPat { span: sp(), left: Box::new(param("a")), right: num("1") };
    assert!(e.pat_starts_with_alpha_num(&Pat::Assign(with_default)));
    assert!(!e.pat_starts_with_alpha_num(&Pat::Array(ArrayPat { span: sp(), elems: vec![] })));
    assert!(!e.pat_starts_with_alpha_num(&Pat::Object(ObjectPat { span: sp(), props: vec![] })));
    let rest = RestPat { span: sp(), arg: Box::new(param("a")) };
    assert!(!e.pat_starts_with_alpha_num(&Pat::Rest(rest)));
    let assign = |left| Expr::Assign(AssignExpr { span: sp(), op: AssignOp::Assign, left, right: num("1") });
    assert!(e.starts_with_alpha_num(&assign(PatOrExpr::Pat(Box::new(param("a"))))));
    assert!(!e.starts_with_alpha_num(&assign(PatOrExpr::Pat(Box::new(Pat::Array(ArrayPat {
        span: sp(),
        elems: vec![],
    }))))));
    assert!(e.starts_with_alpha_num(&assign(PatOrExpr::Expr(var("a")))));
}

#[test]
fn whitespace_before_operand() {
    let e = emitter();
    let node = |op, arg| UnaryExpr { span: sp(), op, arg };
    assert!(e.should_emit_whitespace_before_operand(&node(UnaryOp::TypeOf, var("a"))));
    assert!(e.should_emit_whitespace_before_operand(&node(UnaryOp::Void, num("0"))));
    assert!(e.should_emit_whitespace_before_operand(&node(UnaryOp::Delete, var("a"))));
    assert!(!e.should_emit_whitespace_before_operand(&node(
        UnaryOp::TypeOf,
        Box::new(Expr::Array(ArrayLit { span: sp(), elems: vec![] }))
    )));
    assert!(!e.should_emit_whitespace_before_operand(&node(UnaryOp::TypeOf, num("-1"))));
    assert!(!e.should_emit_whitespace_before_operand(&node(UnaryOp::Void, num("-1"))));
    assert!(!e.should_emit_whitespace_before_operand(&node(UnaryOp::Delete, num("-1"))));
    assert!(!e.should_emit_whitespace_before_operand(&node(UnaryOp::TypeOf, num(".5"))));
    assert!(e.should_emit_whitespace_before_operand(&node(
        UnaryOp::Plus,
        unary(UnaryOp::Plus, var("a"))
    )));
    assert!(e.should_emit_whitespace_before_operand(&node(
        UnaryOp::Minus,
        update(UpdateOp::MinusMinus, true, var("a"))
    )));
    assert!(!e.should_emit_whitespace_before_operand(&node(
        UnaryOp::Minus,
        update(UpdateOp::MinusMinus, false, var("a"))
    )));
    assert!(!e.should_emit_whitespace_before_operand(&node(
        UnaryOp::Minus,
        update(UpdateOp::PlusPlus, true, var("a"))
    )));
    assert!(!e.should_emit_whitespace_before_operand(&node(UnaryOp::Minus, num("-1"))));
    assert!(!e.should_emit_whitespace_before_operand(&node(UnaryOp::Bang, var("a"))));
}

#[test]
fn a_word_runs_into_a_sign() {
    assert_eq!(emitted(&unary(UnaryOp::TypeOf, num("-1"))), "typeof-1");
    assert_eq!(minified(&unary(UnaryOp::TypeOf, num("-1"))), "typeof-1");
    assert_eq!(minified(&unary(UnaryOp::Void, num("-0.5"))), "void-0.5");
    let neg = Box::new(Expr::Lit(Lit::Num(Number { span: sp(), value: NumberValue::NegInfinity })));
    assert_eq!(minified(&unary(UnaryOp::Delete, neg)), "delete-Infinity");
    assert_eq!(minified(&unary(UnaryOp::Minus, num("-1"))), "- -1");
}

#[test]
fn the_writer_still_parts_a_word_from_a_word() {
    assert_eq!(minified(&unary(UnaryOp::TypeOf, num(".5"))), "typeof .5");
    assert_eq!(minified(&unary(UnaryOp::TypeOf, var("$x"))), "typeof $x");
    assert_eq!(minified(&unary(UnaryOp::TypeOf, var("_x"))), "typeof _x");
    assert_eq!(minified(&unary(UnaryOp::TypeOf, num("1"))), "typeof 1");
}

#[test]
fn emit_through_a_node_reference() {
    let mut e = emitter();
    let expr = bin(BinaryOp::Times, var("a"), num("2"));
    assert!(e.emit(Node::Expr(&expr)).is_ok());
    assert_eq!(text(&e), "a * 2");
    let mut e = emitter();
    let name = id("x");
    assert!(Node::Ident(&name).emit_with(&mut e).is_ok());
    assert_eq!(text(&e), "x");
}

#[test]
fn expr_or_spreads_as_a_list() {
    let mut e = emitter();
    let nodes = vec![arg(var("a")), arg(var("b"))];
    assert!(e.emit_expr_or_spreads(sp(), &nodes, ListFormat::from_bits(CALL_ARGUMENTS)).is_ok());
    assert_eq!(text(&e), "(a, b)");
}

#[test]
fn a_hole_at_the_end_keeps_its_comma() {
    let node = ArrayLit { span: sp(), elems: vec![Some(arg(var("a"))), None] };
    assert_eq!(emitted(&Expr::Array(node)), "[a, ,]");
    let node = ArrayLit { span: sp(), elems: vec![None] };
    assert_eq!(emitted(&Expr::Array(node)), "[,]");
    let node = ArrayLit { span: sp(), elems: vec![None, None, Some(arg(var("a")))] };
    assert_eq!(minified(&Expr::Array(node)), "[,,a]");
}

#[test]
fn the_sign_of_a_made_number_is_an_operator() {
    assert_eq!(emitted(&num("-1")), "-1");
    assert_eq!(minified(&bin(BinaryOp::Minus, var("a"), num("-1"))), "a- -1");
    assert_eq!(minified(&bin(BinaryOp::Plus, var("a"), num("-1.5e3"))), "a+-1.5e3");
    assert_eq!(emitted(&unary(UnaryOp::Minus, num("-2"))), "- -2");
}

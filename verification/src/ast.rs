//! The syntax tree that the emitter walks.
//!
//! Every struct carries the span of the source it was read from; a node that
//! was made rather than read carries a dummy span.
use vstd::prelude::*;
use crate::span::Span;

verus! {

/// A prefix operator.
#[derive(Clone, Copy, Debug, PartialEq, Eq, Structural)]
pub enum UnaryOp {
    Minus,
    Plus,
    Bang,
    Tilde,
    TypeOf,
    Void,
    Delete,
}

impl UnaryOp {
    pub open spec fn text(&self) -> Seq<char> {
        match self {
            UnaryOp::Minus => "-"@,
            UnaryOp::Plus => "+"@,
            UnaryOp::Bang => "!"@,
            UnaryOp::Tilde => "~"@,
            UnaryOp::TypeOf => "typeof"@,
            UnaryOp::Void => "void"@,
            UnaryOp::Delete => "delete"@,
        }
    }

    pub fn as_str(&self) -> (r: &'static str)
        ensures
            r@ == self.text(),
    {
        match self {
            UnaryOp::Minus => "-",
            UnaryOp::Plus => "+",
            UnaryOp::Bang => "!",
            UnaryOp::Tilde => "~",
            UnaryOp::TypeOf => "typeof",
            UnaryOp::Void => "void",
            UnaryOp::Delete => "delete",
        }
    }

    /// The operator is spelled as a word.
    pub open spec fn spec_is_word(&self) -> bool {
        *self == UnaryOp::TypeOf || *self == UnaryOp::Void || *self == UnaryOp::Delete
    }

    #[verifier::when_used_as_spec(spec_is_word)]
    pub fn is_word(&self) -> (r: bool)
        ensures
            r == self.spec_is_word(),
    {
        match self {
            UnaryOp::TypeOf | UnaryOp::Void | UnaryOp::Delete => true,
            _ => false,
        }
    }
}

/// `++` or `--`.
#[derive(Clone, Copy, Debug, PartialEq, Eq, Structural)]
pub enum UpdateOp {
    PlusPlus,
    MinusMinus,
}

impl UpdateOp {
    pub open spec fn text(&self) -> Seq<char> {
        match self {
            UpdateOp::PlusPlus => "++"@,
            UpdateOp::MinusMinus => "--"@,
        }
    }

    pub fn as_str(&self) -> (r: &'static str)
        ensures
            r@ == self.text(),
    {
        match self {
            UpdateOp::PlusPlus => "++",
            UpdateOp::MinusMinus => "--",
        }
    }
}

/// An infix operator.
#[derive(Clone, Copy, Debug, PartialEq, Eq, Structural)]
pub enum BinaryOp {
    EqEq,
    NotEq,
    EqEqEq,
    NotEqEq,
    Lt,
    LtEq,
    Gt,
    GtEq,
    LShift,
    RShift,
    ZeroFillRShift,
    Plus,
    Minus,
    Times,
    Div,
    Mod,
    BitOr,
    BitXor,
    BitAnd,
    LogicalOr,
    LogicalAnd,
    In,
    InstanceOf,
    Exp,
    NullishCoalescing,
}

impl BinaryOp {
    pub open spec fn text(&self) -> Seq<char> {
        match self {
            BinaryOp::EqEq => "=="@,
            BinaryOp::NotEq => "!="@,
            BinaryOp::EqEqEq => "==="@,
            BinaryOp::NotEqEq => "!=="@,
            BinaryOp::Lt => "<"@,
            BinaryOp::LtEq => "<="@,
            BinaryOp::Gt => ">"@,
            BinaryOp::GtEq => ">="@,
            BinaryOp::LShift => "<<"@,
            BinaryOp::RShift => ">>"@,
            BinaryOp::ZeroFillRShift => ">>>"@,
            BinaryOp::Plus => "+"@,
            BinaryOp::Minus => "-"@,
            BinaryOp::Times => "*"@,
            BinaryOp::Div => "/"@,
            BinaryOp::Mod => "%"@,
            BinaryOp::BitOr => "|"@,
            BinaryOp::BitXor => "^"@,
            BinaryOp::BitAnd => "&"@,
            BinaryOp::LogicalOr => "||"@,
            BinaryOp::LogicalAnd => "&&"@,
            BinaryOp::In => "in"@,
            BinaryOp::InstanceOf => "instanceof"@,
            BinaryOp::Exp => "**"@,
            BinaryOp::NullishCoalescing => "??"@,
        }
    }

    pub fn as_str(&self) -> (r: &'static str)
        ensures
            r@ == self.text(),
    {
        match self {
            BinaryOp::EqEq => "==",
            BinaryOp::NotEq => "!=",
            BinaryOp::EqEqEq => "===",
            BinaryOp::NotEqEq => "!==",
            BinaryOp::Lt => "<",
            BinaryOp::LtEq => "<=",
            BinaryOp::Gt => ">",
            BinaryOp::GtEq => ">=",
            BinaryOp::LShift => "<<",
            BinaryOp::RShift => ">>",
            BinaryOp::ZeroFillRShift => ">>>",
            BinaryOp::Plus => "+",
            BinaryOp::Minus => "-",
            BinaryOp::Times => "*",
            BinaryOp::Div => "/",
            BinaryOp::Mod => "%",
            BinaryOp::BitOr => "|",
            BinaryOp::BitXor => "^",
            BinaryOp::BitAnd => "&",
            BinaryOp::LogicalOr => "||",
            BinaryOp::LogicalAnd => "&&",
            BinaryOp::In => "in",
            BinaryOp::InstanceOf => "instanceof",
            BinaryOp::Exp => "**",
            BinaryOp::NullishCoalescing => "??",
        }
    }

    /// The operator is spelled as a word.
    pub open spec fn spec_is_word(&self) -> bool {
        *self == BinaryOp::In || *self == BinaryOp::InstanceOf
    }

    #[verifier::when_used_as_spec(spec_is_word)]
    pub fn is_word(&self) -> (r: bool)
        ensures
            r == self.spec_is_word(),
    {
        match self {
            BinaryOp::In | BinaryOp::InstanceOf => true,
            _ => false,
        }
    }
}

/// An assignment operator.
#[derive(Clone, Copy, Debug, PartialEq, Eq, Structural)]
pub enum AssignOp {
    Assign,
    PlusAssign,
    MinusAssign,
    TimesAssign,
    DivAssign,
    ModAssign,
    LShiftAssign,
    RShiftAssign,
    ZeroFillRShiftAssign,
    BitOrAssign,
    BitXorAssign,
    BitAndAssign,
    ExpAssign,
    AndAssign,
    OrAssign,
    NullishAssign,
}

impl AssignOp {
    pub open spec fn text(&self) -> Seq<char> {
        match self {
            AssignOp::Assign => "="@,
            AssignOp::PlusAssign => "+="@,
            AssignOp::MinusAssign => "-="@,
            AssignOp::TimesAssign => "*="@,
            AssignOp::DivAssign => "/="@,
            AssignOp::ModAssign => "%="@,
            AssignOp::LShiftAssign => "<<="@,
            AssignOp::RShiftAssign => ">>="@,
            AssignOp::ZeroFillRShiftAssign => ">>>="@,
            AssignOp::BitOrAssign => "|="@,
            AssignOp::BitXorAssign => "^="@,
            AssignOp::BitAndAssign => "&="@,
            AssignOp::ExpAssign => "**="@,
            AssignOp::AndAssign => "&&="@,
            AssignOp::OrAssign => "||="@,
            AssignOp::NullishAssign => "??="@,
        }
    }

    pub fn as_str(&self) -> (r: &'static str)
        ensures
            r@ == self.text(),
    {
        match self {
            AssignOp::Assign => "=",
            AssignOp::PlusAssign => "+=",
            AssignOp::MinusAssign => "-=",
            AssignOp::TimesAssign => "*=",
            AssignOp::DivAssign => "/=",
            AssignOp::ModAssign => "%=",
            AssignOp::LShiftAssign => "<<=",
            AssignOp::RShiftAssign => ">>=",
            AssignOp::ZeroFillRShiftAssign => ">>>=",
            AssignOp::BitOrAssign => "|=",
            AssignOp::BitXorAssign => "^=",
            AssignOp::BitAndAssign => "&=",
            AssignOp::ExpAssign => "**=",
            AssignOp::AndAssign => "&&=",
            AssignOp::OrAssign => "||=",
            AssignOp::NullishAssign => "??=",
        }
    }
}

/// `var`, `let` or `const`.
#[derive(Clone, Copy, Debug, PartialEq, Eq, Structural)]
pub enum VarDeclKind {
    Var,
    Let,
    Const,
}

impl VarDeclKind {
    pub open spec fn text(&self) -> Seq<char> {
        match self {
            VarDeclKind::Var => "var"@,
            VarDeclKind::Let => "let"@,
            VarDeclKind::Const => "const"@,
        }
    }

    pub fn as_str(&self) -> (r: &'static str)
        ensures
            r@ == self.text(),
    {
        match self {
            VarDeclKind::Var => "var",
            VarDeclKind::Let => "let",
            VarDeclKind::Const => "const",
        }
    }
}

/// What a class member is.
#[derive(Clone, Copy, Debug, PartialEq, Eq, Structural)]
pub enum ClassMethodKind {
    Constructor,
    Method,
    Getter,
    Setter,
}


/// An identifier.
#[derive(Debug)]
pub struct Ident {
    pub span: Span,
    pub sym: String,
}

/// A string literal; `value` is what it denotes.
#[derive(Debug)]
pub struct Str {
    pub span: Span,
    pub value: String,
}

/// `true` or `false`.
#[derive(Debug)]
pub struct Bool {
    pub span: Span,
    pub value: bool,
}

/// `null`.
#[derive(Debug)]
pub struct Null {
    pub span: Span,
}

/// What a numeric literal denotes, in the only forms the writer tells apart.
#[derive(Debug)]
pub enum NumberValue {
    Infinity,
    NegInfinity,
    Finite(String),
}

/// A numeric literal.
#[derive(Debug)]
pub struct Number {
    pub span: Span,
    pub value: NumberValue,
}

/// A regular expression literal.
#[derive(Debug)]
pub struct Regex {
    pub span: Span,
    pub exp: Str,
    pub flags: Option<Str>,
}

/// A literal.
#[derive(Debug)]
pub enum Lit {
    Str(Str),
    Bool(Bool),
    Null(Null),
    Num(Number),
    Regex(Regex),
}

/// `this`.
#[derive(Debug)]
pub struct ThisExpr {
    pub span: Span,
}

/// An argument or element, possibly spread.
#[derive(Debug)]
pub struct ExprOrSpread {
    pub span: Span,
    pub spread: bool,
    pub expr: Box<Expr>,
}

/// `[a, b]`; a hole is `None`.
#[derive(Debug)]
pub struct ArrayLit {
    pub span: Span,
    pub elems: Vec<Option<ExprOrSpread>>,
}

/// `...expr` in an object literal.
#[derive(Debug)]
pub struct SpreadElement {
    pub span: Span,
    pub expr: Box<Expr>,
}

/// The key of a property or method.
#[derive(Debug)]
pub enum PropName {
    Ident(Ident),
    Str(Str),
    Num(Number),
    Computed(Box<Expr>),
}

/// `key: value`.
#[derive(Debug)]
pub struct KeyValueProp {
    pub span: Span,
    pub key: PropName,
    pub value: Box<Expr>,
}

/// `key = value`, as it occurs in a pattern written as an object.
#[derive(Debug)]
pub struct AssignProp {
    pub span: Span,
    pub key: Ident,
    pub value: Box<Expr>,
}

/// `get key() { .. }`.
#[derive(Debug)]
pub struct GetterProp {
    pub span: Span,
    pub key: PropName,
    pub body: BlockStmt,
}

/// `set key(param) { .. }`.
#[derive(Debug)]
pub struct SetterProp {
    pub span: Span,
    pub key: PropName,
    pub param: Pat,
    pub body: BlockStmt,
}

/// `key(params) { .. }`.
#[derive(Debug)]
pub struct MethodProp {
    pub span: Span,
    pub key: PropName,
    pub function: Function,
}

/// A property of an object literal.
#[derive(Debug)]
pub enum Prop {
    Shorthand(Ident),
    KeyValue(KeyValueProp),
    Assign(AssignProp),
    Getter(GetterProp),
    Setter(SetterProp),
    Method(MethodProp),
}

/// A member of an object literal.
#[derive(Debug)]
pub enum PropOrSpread {
    Prop(Box<Prop>),
    Spread(SpreadElement),
}

/// `{ a: 1 }`.
#[derive(Debug)]
pub struct ObjectLit {
    pub span: Span,
    pub props: Vec<PropOrSpread>,
}

/// Parameters and body, shared by every kind of function.
#[derive(Debug)]
pub struct Function {
    pub span: Span,
    pub params: Vec<Pat>,
    pub body: BlockStmt,
    pub is_generator: bool,
    pub is_async: bool,
}

/// `function name(params) { .. }` as an expression.
#[derive(Debug)]
pub struct FnExpr {
    pub span: Span,
    pub ident: Option<Ident>,
    pub function: Function,
}

/// `op arg`.
#[derive(Debug)]
pub struct UnaryExpr {
    pub span: Span,
    pub op: UnaryOp,
    pub arg: Box<Expr>,
}

/// `++arg` or `arg++`.
#[derive(Debug)]
pub struct UpdateExpr {
    pub span: Span,
    pub op: UpdateOp,
    pub prefix: bool,
    pub arg: Box<Expr>,
}

/// `left op right`.
#[derive(Debug)]
pub struct BinExpr {
    pub span: Span,
    pub op: BinaryOp,
    pub left: Box<Expr>,
    pub right: Box<Expr>,
}

/// The target of an assignment.
#[derive(Debug)]
pub enum PatOrExpr {
    Expr(Box<Expr>),
    Pat(Box<Pat>),
}

/// `left op right`.
#[derive(Debug)]
pub struct AssignExpr {
    pub span: Span,
    pub op: AssignOp,
    pub left: PatOrExpr,
    pub right: Box<Expr>,
}

/// A callee or object: an expression or `super`.
#[derive(Debug)]
pub enum ExprOrSuper {
    Super(Span),
    Expr(Box<Expr>),
}

/// `obj.prop` or `obj[prop]`.
#[derive(Debug)]
pub struct MemberExpr {
    pub span: Span,
    pub obj: ExprOrSuper,
    pub prop: Box<Expr>,
    pub computed: bool,
}

/// `test ? cons : alt`.
#[derive(Debug)]
pub struct CondExpr {
    pub span: Span,
    pub test: Box<Expr>,
    pub cons: Box<Expr>,
    pub alt: Box<Expr>,
}

/// `callee(args)`.
#[derive(Debug)]
pub struct CallExpr {
    pub span: Span,
    pub callee: ExprOrSuper,
    pub args: Vec<ExprOrSpread>,
}

/// `new callee(args)`; the arguments may be left out.
#[derive(Debug)]
pub struct NewExpr {
    pub span: Span,
    pub callee: Box<Expr>,
    pub args: Option<Vec<ExprOrSpread>>,
}

/// `a, b`.
#[derive(Debug)]
pub struct SeqExpr {
    pub span: Span,
    pub exprs: Vec<Box<Expr>>,
}

/// The body of an arrow function.
#[derive(Debug)]
pub enum BlockStmtOrExpr {
    BlockStmt(BlockStmt),
    Expr(Box<Expr>),
}

/// `(params) => body`.
#[derive(Debug)]
pub struct ArrowExpr {
    pub span: Span,
    pub params: Vec<Pat>,
    pub body: BlockStmtOrExpr,
    pub is_async: bool,
    pub is_generator: bool,
}

/// `yield arg` or `yield* arg`.
#[derive(Debug)]
pub struct YieldExpr {
    pub span: Span,
    pub arg: Option<Box<Expr>>,
    pub delegate: bool,
}

/// `new.target`.
#[derive(Debug)]
pub struct MetaPropExpr {
    pub span: Span,
    pub meta: Ident,
    pub prop: Ident,
}

/// `await arg`.
#[derive(Debug)]
pub struct AwaitExpr {
    pub span: Span,
    pub arg: Box<Expr>,
}

/// A static part of a template literal, as it was written.
#[derive(Debug)]
pub struct TplElement {
    pub span: Span,
    pub raw: String,
}

/// A template literal, possibly tagged.
#[derive(Debug)]
pub struct TplLit {
    pub(crate) span: Span,
    pub(crate) tag: Option<Box<Expr>>,
    pub(crate) exprs: Vec<Box<Expr>>,
    pub(crate) quasis: Vec<TplElement>,
}

/// `(expr)`.
#[derive(Debug)]
pub struct ParenExpr {
    pub span: Span,
    pub expr: Box<Expr>,
}

/// A member of a class body.
#[derive(Debug)]
pub struct ClassMethod {
    pub span: Span,
    pub key: PropName,
    pub function: Function,
    pub kind: ClassMethodKind,
    pub is_static: bool,
}

/// Heritage and body, shared by class declarations and expressions.
#[derive(Debug)]
pub struct Class {
    pub span: Span,
    pub body: Vec<ClassMethod>,
    pub super_class: Option<Box<Expr>>,
}

/// `class name { .. }` as an expression.
#[derive(Debug)]
pub struct ClassExpr {
    pub span: Span,
    pub ident: Option<Ident>,
    pub class: Class,
}

/// An expression.
#[derive(Debug)]
pub enum Expr {
    This(ThisExpr),
    Array(ArrayLit),
    Object(ObjectLit),
    Fn(FnExpr),
    Unary(UnaryExpr),
    Update(UpdateExpr),
    Bin(BinExpr),
    Assign(AssignExpr),
    Member(MemberExpr),
    Cond(CondExpr),
    Call(CallExpr),
    New(NewExpr),
    Sequence(SeqExpr),
    Ident(Ident),
    Lit(Lit),
    Tpl(TplLit),
    Arrow(ArrowExpr),
    Class(ClassExpr),
    Yield(YieldExpr),
    MetaProp(MetaPropExpr),
    Await(AwaitExpr),
    Paren(ParenExpr),
}

/// `[a, b]` as a pattern; a hole is `None`.
#[derive(Debug)]
pub struct ArrayPat {
    pub span: Span,
    pub elems: Vec<Option<Pat>>,
}

/// `...arg`.
#[derive(Debug)]
pub struct RestPat {
    pub span: Span,
    pub arg: Box<Pat>,
}

/// `left = right`: a pattern with a default.
#[derive(Debug)]
pub struct AssignPat {
    pub span: Span,
    pub left: Box<Pat>,
    pub right: Box<Expr>,
}

/// `key: value` in an object pattern.
#[derive(Debug)]
pub struct KeyValuePatProp {
    pub span: Span,
    pub key: PropName,
    pub value: Box<Pat>,
}

/// `key` or `key = value` in an object pattern.
#[derive(Debug)]
pub struct AssignPatProp {
    pub span: Span,
    pub key: Ident,
    pub value: Option<Box<Expr>>,
}

/// A member of an object pattern.
#[derive(Debug)]
pub enum ObjectPatProp {
    KeyValue(KeyValuePatProp),
    Assign(AssignPatProp),
    Rest(RestPat),
}

/// `{ a, b: c }` as a pattern.
#[derive(Debug)]
pub struct ObjectPat {
    pub span: Span,
    pub props: Vec<ObjectPatProp>,
}

/// A binding or assignment pattern.
#[derive(Debug)]
pub enum Pat {
    Ident(Ident),
    Array(ArrayPat),
    Rest(RestPat),
    Object(ObjectPat),
    Assign(AssignPat),
    Expr(Box<Expr>),
}

/// `name = init`.
#[derive(Debug)]
pub struct VarDeclarator {
    pub span: Span,
    pub name: Pat,
    pub init: Option<Box<Expr>>,
}

/// `var a = 1, b`.
#[derive(Debug)]
pub struct VarDecl {
    pub span: Span,
    pub kind: VarDeclKind,
    pub decls: Vec<VarDeclarator>,
}

/// `function name(params) { .. }`.
#[derive(Debug)]
pub struct FnDecl {
    pub span: Span,
    pub ident: Ident,
    pub function: Function,
}

/// `class name { .. }`.
#[derive(Debug)]
pub struct ClassDecl {
    pub span: Span,
    pub ident: Ident,
    pub class: Class,
}

/// A declaration.
#[derive(Debug)]
pub enum Decl {
    Class(ClassDecl),
    Fn(FnDecl),
    Var(VarDecl),
}

/// The head of a `for`-`in` or `for`-`of`.
#[derive(Debug)]
pub enum VarDeclOrPat {
    VarDecl(VarDecl),
    Pat(Pat),
}

/// The initialiser of a `for`.
#[derive(Debug)]
pub enum VarDeclOrExpr {
    VarDecl(VarDecl),
    Expr(Box<Expr>),
}

/// `{ .. }`.
#[derive(Debug)]
pub struct BlockStmt {
    pub span: Span,
    pub stmts: Vec<Stmt>,
}

/// `;`.
#[derive(Debug)]
pub struct EmptyStmt {
    pub span: Span,
}

/// `debugger;`.
#[derive(Debug)]
pub struct DebuggerStmt {
    pub span: Span,
}

/// `with (obj) body`.
#[derive(Debug)]
pub struct WithStmt {
    pub span: Span,
    pub obj: Box<Expr>,
    pub body: Box<Stmt>,
}

/// `return arg;`.
#[derive(Debug)]
pub struct ReturnStmt {
    pub span: Span,
    pub arg: Option<Box<Expr>>,
}

/// `label: body`.
#[derive(Debug)]
pub struct LabeledStmt {
    pub span: Span,
    pub label: Ident,
    pub body: Box<Stmt>,
}

/// `break label;`.
#[derive(Debug)]
pub struct BreakStmt {
    pub span: Span,
    pub label: Option<Ident>,
}

/// `continue label;`.
#[derive(Debug)]
pub struct ContinueStmt {
    pub span: Span,
    pub label: Option<Ident>,
}

/// `if (test) cons else alt`.
#[derive(Debug)]
pub struct IfStmt {
    pub span: Span,
    pub test: Box<Expr>,
    pub cons: Box<Stmt>,
    pub alt: Option<Box<Stmt>>,
}

/// `case test:` or `default:`, with its statements.
#[derive(Debug)]
pub struct SwitchCase {
    pub span: Span,
    pub test: Option<Box<Expr>>,
    pub cons: Vec<Stmt>,
}

/// `switch (discriminant) { .. }`.
#[derive(Debug)]
pub struct SwitchStmt {
    pub span: Span,
    pub discriminant: Box<Expr>,
    pub cases: Vec<SwitchCase>,
}

/// `throw arg;`.
#[derive(Debug)]
pub struct ThrowStmt {
    pub span: Span,
    pub arg: Box<Expr>,
}

/// `catch (param) { .. }`.
#[derive(Debug)]
pub struct CatchClause {
    pub span: Span,
    pub param: Pat,
    pub body: BlockStmt,
}

/// `try { .. } catch (e) { .. } finally { .. }`.
#[derive(Debug)]
pub struct TryStmt {
    pub span: Span,
    pub block: BlockStmt,
    pub handler: Option<CatchClause>,
    pub finalizer: Option<BlockStmt>,
}

/// `while (test) body`.
#[derive(Debug)]
pub struct WhileStmt {
    pub span: Span,
    pub test: Box<Expr>,
    pub body: Box<Stmt>,
}

/// `do body while (test);`.
#[derive(Debug)]
pub struct DoWhileStmt {
    pub span: Span,
    pub test: Box<Expr>,
    pub body: Box<Stmt>,
}

/// `for (init; test; update) body`.
#[derive(Debug)]
pub struct ForStmt {
    pub span: Span,
    pub init: Option<VarDeclOrExpr>,
    pub test: Option<Box<Expr>>,
    pub update: Option<Box<Expr>>,
    pub body: Box<Stmt>,
}

/// `for (left in right) body`.
#[derive(Debug)]
pub struct ForInStmt {
    pub span: Span,
    pub left: VarDeclOrPat,
    pub right: Box<Expr>,
    pub body: Box<Stmt>,
}

/// `for (left of right) body`.
#[derive(Debug)]
pub struct ForOfStmt {
    pub span: Span,
    pub left: VarDeclOrPat,
    pub right: Box<Expr>,
    pub body: Box<Stmt>,
}

/// A statement.
#[derive(Debug)]
pub enum Stmt {
    Expr(Box<Expr>),
    Block(BlockStmt),
    Empty(EmptyStmt),
    Debugger(DebuggerStmt),
    With(WithStmt),
    Return(ReturnStmt),
    Labeled(LabeledStmt),
    Break(BreakStmt),
    Continue(ContinueStmt),
    If(IfStmt),
    Switch(SwitchStmt),
    Throw(ThrowStmt),
    Try(TryStmt),
    While(WhileStmt),
    DoWhile(DoWhileStmt),
    For(ForStmt),
    ForIn(ForInStmt),
    ForOf(ForOfStmt),
    Decl(Decl),
}

/// `imported as local`, or `local` alone.
#[derive(Debug)]
pub struct ImportSpecific {
    pub span: Span,
    pub local: Ident,
    pub imported: Option<Ident>,
}

/// What an import binds besides its default: a namespace or a list of names, never both.
#[derive(Debug)]
pub enum ImportNames {
    Namespace(Ident),
    Named(Vec<ImportSpecific>),
}

/// `import default, names from src;`.
#[derive(Debug)]
pub struct ImportDecl {
    pub span: Span,
    pub default: Option<Ident>,
    pub names: Option<ImportNames>,
    pub src: Str,
}

/// `orig as exported`, or `orig` alone.
#[derive(Debug)]
pub struct ExportSpecifier {
    pub span: Span,
    pub orig: Ident,
    pub exported: Option<Ident>,
}

/// `export { a, b as c } from src;`.
#[derive(Debug)]
pub struct NamedExport {
    pub span: Span,
    pub specifiers: Vec<ExportSpecifier>,
    pub src: Option<Str>,
}

/// `export * from src;`.
#[derive(Debug)]
pub struct ExportAll {
    pub span: Span,
    pub src: Str,
}

/// What `export default` declares.
#[derive(Debug)]
pub enum ExportDefaultDecl {
    Class(ClassExpr),
    Fn(FnExpr),
    Var(VarDecl),
}

/// An import or export.
#[derive(Debug)]
pub enum ModuleDecl {
    Import(ImportDecl),
    ExportDecl(Decl),
    ExportNamed(NamedExport),
    ExportDefaultDecl(ExportDefaultDecl),
    ExportDefaultExpr(Box<Expr>),
    ExportAll(ExportAll),
}

/// A top-level item of a module.
#[derive(Debug)]
pub enum ModuleItem {
    Stmt(Stmt),
    ModuleDecl(ModuleDecl),
}

/// A module.
#[derive(Debug)]
pub struct Module {
    pub span: Span,
    pub body: Vec<ModuleItem>,
}

impl Ident {
    /// The number of nodes in this tree; what the walk over it descends on.
    pub open spec fn size(&self) -> nat
        decreases self,
    {
        1
    }
}

impl Str {
    /// The number of nodes in this tree; what the walk over it descends on.
    pub open spec fn size(&self) -> nat
        decreases self,
    {
        1
    }
}

impl Bool {
    /// The number of nodes in this tree; what the walk over it descends on.
    pub open spec fn size(&self) -> nat
        decreases self,
    {
        1
    }
}

impl Null {
    /// The number of nodes in this tree; what the walk over it descends on.
    pub open spec fn size(&self) -> nat
        decreases self,
    {
        1
    }
}

impl NumberValue {
    /// The number of nodes in this tree; what the walk over it descends on.
    pub open spec fn size(&self) -> nat
        decreases self,
    {
        match self {
            NumberValue::Infinity => 1,
            NumberValue::NegInfinity => 1,
            NumberValue::Finite(_) => 1,
        }
    }
}

impl Number {
    /// The number of nodes in this tree; what the walk over it descends on.
    pub open spec fn size(&self) -> nat
        decreases self,
    {
        1 + self.value.size()
    }
}

impl Regex {
    /// The number of nodes in this tree; what the walk over it descends on.
    pub open spec fn size(&self) -> nat
        decreases self,
    {
        1 + self.exp.size() + (match self.flags {
            Some(x) => x.size(),
            None => 0,
        })
    }
}

impl Lit {
    /// The number of nodes in this tree; what the walk over it descends on.
    pub open spec fn size(&self) -> nat
        decreases self,
    {
        match self {
            Lit::Str(x) => 1 + x.size(),
            Lit::Bool(x) => 1 + x.size(),
            Lit::Null(x) => 1 + x.size(),
            Lit::Num(x) => 1 + x.size(),
            Lit::Regex(x) => 1 + x.size(),
        }
    }

    pub open spec fn spec_span(&self) -> Span {
        match self {
            Lit::Str(x) => x.span,
            Lit::Bool(x) => x.span,
            Lit::Null(x) => x.span,
            Lit::Num(x) => x.span,
            Lit::Regex(x) => x.span,
        }
    }

    #[verifier::when_used_as_spec(spec_span)]
    pub fn span(&self) -> (r: Span)
        ensures
            r == self.spec_span(),
    {
        match self {
            Lit::Str(x) => x.span,
            Lit::Bool(x) => x.span,
            Lit::Null(x) => x.span,
            Lit::Num(x) => x.span,
            Lit::Regex(x) => x.span,
        }
    }
}

impl ThisExpr {
    /// The number of nodes in this tree; what the walk over it descends on.
    pub open spec fn size(&self) -> nat
        decreases self,
    {
        1
    }
}

impl ExprOrSpread {
    /// The number of nodes in this tree; what the walk over it descends on.
    pub open spec fn size(&self) -> nat
        decreases self,
    {
        1 + self.expr.size()
    }
}

impl ArrayLit {
    /// The number of nodes in this tree; what the walk over it descends on.
    pub open spec fn size(&self) -> nat
        decreases self,
    {
        1 + 1 + array_elems_size(self.elems@, 0)
    }
}

impl SpreadElement {
    /// The number of nodes in this tree; what the walk over it descends on.
    pub open spec fn size(&self) -> nat
        decreases self,
    {
        1 + self.expr.size()
    }
}

impl PropName {
    /// The number of nodes in this tree; what the walk over it descends on.
    pub open spec fn size(&self) -> nat
        decreases self,
    {
        match self {
            PropName::Ident(x) => 1 + x.size(),
            PropName::Str(x) => 1 + x.size(),
            PropName::Num(x) => 1 + x.size(),
            PropName::Computed(x) => 1 + x.size(),
        }
    }

    pub open spec fn spec_span(&self) -> Span {
        match self {
            PropName::Ident(x) => x.span,
            PropName::Str(x) => x.span,
            PropName::Num(x) => x.span,
            PropName::Computed(x) => x.spec_span(),
        }
    }

    #[verifier::when_used_as_spec(spec_span)]
    pub fn span(&self) -> (r: Span)
        ensures
            r == self.spec_span(),
    {
        match self {
            PropName::Ident(x) => x.span,
            PropName::Str(x) => x.span,
            PropName::Num(x) => x.span,
            PropName::Computed(x) => x.span(),
        }
    }
}

impl KeyValueProp {
    /// The number of nodes in this tree; what the walk over it descends on.
    pub open spec fn size(&self) -> nat
        decreases self,
    {
        1 + self.key.size() + self.value.size()
    }
}

impl AssignProp {
    /// The number of nodes in this tree; what the walk over it descends on.
    pub open spec fn size(&self) -> nat
        decreases self,
    {
        1 + self.key.size() + self.value.size()
    }
}

impl GetterProp {
    /// The number of nodes in this tree; what the walk over it descends on.
    pub open spec fn size(&self) -> nat
        decreases self,
    {
        1 + self.key.size() + self.body.size()
    }
}

impl SetterProp {
    /// The number of nodes in this tree; what the walk over it descends on.
    pub open spec fn size(&self) -> nat
        decreases self,
    {
        1 + self.key.size() + self.param.size() + self.body.size()
    }
}

impl MethodProp {
    /// The number of nodes in this tree; what the walk over it descends on.
    pub open spec fn size(&self) -> nat
        decreases self,
    {
        1 + self.key.size() + self.function.size()
    }
}

impl Prop {
    /// The number of nodes in this tree; what the walk over it descends on.
    pub open spec fn size(&self) -> nat
        decreases self,
    {
        match self {
            Prop::Shorthand(x) => 1 + x.size(),
            Prop::KeyValue(x) => 1 + x.size(),
            Prop::Assign(x) => 1 + x.size(),
            Prop::Getter(x) => 1 + x.size(),
            Prop::Setter(x) => 1 + x.size(),
            Prop::Method(x) => 1 + x.size(),
        }
    }

    pub open spec fn spec_span(&self) -> Span {
        match self {
            Prop::Shorthand(x) => x.span,
            Prop::KeyValue(x) => x.span,
            Prop::Assign(x) => x.span,
            Prop::Getter(x) => x.span,
            Prop::Setter(x) => x.span,
            Prop::Method(x) => x.span,
        }
    }

    #[verifier::when_used_as_spec(spec_span)]
    pub fn span(&self) -> (r: Span)
        ensures
            r == self.spec_span(),
    {
        match self {
            Prop::Shorthand(x) => x.span,
            Prop::KeyValue(x) => x.span,
            Prop::Assign(x) => x.span,
            Prop::Getter(x) => x.span,
            Prop::Setter(x) => x.span,
            Prop::Method(x) => x.span,
        }
    }
}

impl PropOrSpread {
    /// The number of nodes in this tree; what the walk over it descends on.
    pub open spec fn size(&self) -> nat
        decreases self,
    {
        match self {
            PropOrSpread::Prop(x) => 1 + x.size(),
            PropOrSpread::Spread(x) => 1 + x.size(),
        }
    }

    pub open spec fn spec_span(&self) -> Span {
        match self {
            PropOrSpread::Prop(x) => x.spec_span(),
            PropOrSpread::Spread(x) => x.span,
        }
    }

    #[verifier::when_used_as_spec(spec_span)]
    pub fn span(&self) -> (r: Span)
        ensures
            r == self.spec_span(),
    {
        match self {
            PropOrSpread::Prop(x) => x.span(),
            PropOrSpread::Spread(x) => x.span,
        }
    }
}

impl ObjectLit {
    /// The number of nodes in this tree; what the walk over it descends on.
    pub open spec fn size(&self) -> nat
        decreases self,
    {
        1 + 1 + props_size(self.props@, 0)
    }
}

impl Function {
    /// The number of nodes in this tree; what the walk over it descends on.
    pub open spec fn size(&self) -> nat
        decreases self,
    {
        1 + 1 + pats_size(self.params@, 0) + self.body.size()
    }
}

impl FnExpr {
    /// The number of nodes in this tree; what the walk over it descends on.
    pub open spec fn size(&self) -> nat
        decreases self,
    {
        1 + (match self.ident {
            Some(x) => x.size(),
            None => 0,
        }) + self.function.size()
    }
}

impl UnaryExpr {
    /// The number of nodes in this tree; what the walk over it descends on.
    pub open spec fn size(&self) -> nat
        decreases self,
    {
        1 + self.arg.size()
    }
}

impl UpdateExpr {
    /// The number of nodes in this tree; what the walk over it descends on.
    pub open spec fn size(&self) -> nat
        decreases self,
    {
        1 + self.arg.size()
    }
}

impl BinExpr {
    /// The number of nodes in this tree; what the walk over it descends on.
    pub open spec fn size(&self) -> nat
        decreases self,
    {
        1 + self.left.size() + self.right.size()
    }
}

impl PatOrExpr {
    /// The number of nodes in this tree; what the walk over it descends on.
    pub open spec fn size(&self) -> nat
        decreases self,
    {
        match self {
            PatOrExpr::Expr(x) => 1 + x.size(),
            PatOrExpr::Pat(x) => 1 + x.size(),
        }
    }

    pub open spec fn spec_span(&self) -> Span {
        match self {
            PatOrExpr::Expr(x) => x.spec_span(),
            PatOrExpr::Pat(x) => x.spec_span(),
        }
    }

    #[verifier::when_used_as_spec(spec_span)]
    pub fn span(&self) -> (r: Span)
        ensures
            r == self.spec_span(),
    {
        match self {
            PatOrExpr::Expr(x) => x.span(),
            PatOrExpr::Pat(x) => x.span(),
        }
    }
}

impl AssignExpr {
    /// The number of nodes in this tree; what the walk over it descends on.
    pub open spec fn size(&self) -> nat
        decreases self,
    {
        1 + self.left.size() + self.right.size()
    }
}

impl ExprOrSuper {
    /// The number of nodes in this tree; what the walk over it descends on.
    pub open spec fn size(&self) -> nat
        decreases self,
    {
        match self {
            ExprOrSuper::Super(_) => 1,
            ExprOrSuper::Expr(x) => 1 + x.size(),
        }
    }

    pub open spec fn spec_span(&self) -> Span {
        match self {
            ExprOrSuper::Super(x) => *x,
            ExprOrSuper::Expr(x) => x.spec_span(),
        }
    }

    #[verifier::when_used_as_spec(spec_span)]
    pub fn span(&self) -> (r: Span)
        ensures
            r == self.spec_span(),
    {
        match self {
            ExprOrSuper::Super(x) => *x,
            ExprOrSuper::Expr(x) => x.span(),
        }
    }
}

impl MemberExpr {
    /// The number of nodes in this tree; what the walk over it descends on.
    pub open spec fn size(&self) -> nat
        decreases self,
    {
        1 + self.obj.size() + self.prop.size()
    }
}

impl CondExpr {
    /// The number of nodes in this tree; what the walk over it descends on.
    pub open spec fn size(&self) -> nat
        decreases self,
    {
        1 + self.test.size() + self.cons.size() + self.alt.size()
    }
}

impl CallExpr {
    /// The number of nodes in this tree; what the walk over it descends on.
    pub open spec fn size(&self) -> nat
        decreases self,
    {
        1 + self.callee.size() + 1 + expr_or_spreads_size(self.args@, 0)
    }
}

impl NewExpr {
    /// The number of nodes in this tree; what the walk over it descends on.
    pub open spec fn size(&self) -> nat
        decreases self,
    {
        1 + self.callee.size() + (match self.args {
            Some(x) => 1 + expr_or_spreads_size(x@, 0),
            None => 0,
        })
    }
}

impl SeqExpr {
    /// The number of nodes in this tree; what the walk over it descends on.
    pub open spec fn size(&self) -> nat
        decreases self,
    {
        1 + 1 + exprs_size(self.exprs@, 0)
    }
}

impl BlockStmtOrExpr {
    /// The number of nodes in this tree; what the walk over it descends on.
    pub open spec fn size(&self) -> nat
        decreases self,
    {
        match self {
            BlockStmtOrExpr::BlockStmt(x) => 1 + x.size(),
            BlockStmtOrExpr::Expr(x) => 1 + x.size(),
        }
    }

    pub open spec fn spec_span(&self) -> Span {
        match self {
            BlockStmtOrExpr::BlockStmt(x) => x.span,
            BlockStmtOrExpr::Expr(x) => x.spec_span(),
        }
    }

    #[verifier::when_used_as_spec(spec_span)]
    pub fn span(&self) -> (r: Span)
        ensures
            r == self.spec_span(),
    {
        match self {
            BlockStmtOrExpr::BlockStmt(x) => x.span,
            BlockStmtOrExpr::Expr(x) => x.span(),
        }
    }
}

impl ArrowExpr {
    /// The number of nodes in this tree; what the walk over it descends on.
    pub open spec fn size(&self) -> nat
        decreases self,
    {
        1 + 1 + pats_size(self.params@, 0) + self.body.size()
    }
}

impl YieldExpr {
    /// The number of nodes in this tree; what the walk over it descends on.
    pub open spec fn size(&self) -> nat
        decreases self,
    {
        1 + (match self.arg {
            Some(x) => x.size(),
            None => 0,
        })
    }
}

impl MetaPropExpr {
    /// The number of nodes in this tree; what the walk over it descends on.
    pub open spec fn size(&self) -> nat
        decreases self,
    {
        1 + self.meta.size() + self.prop.size()
    }
}

impl AwaitExpr {
    /// The number of nodes in this tree; what the walk over it descends on.
    pub open spec fn size(&self) -> nat
        decreases self,
    {
        1 + self.arg.size()
    }
}

impl TplElement {
    /// The number of nodes in this tree; what the walk over it descends on.
    pub open spec fn size(&self) -> nat
        decreases self,
    {
        1
    }
}

impl TplLit {
    /// The number of nodes in this tree; what the walk over it descends on.
    pub open(crate) spec fn size(&self) -> nat
        decreases self,
    {
        1 + (match self.tag {
            Some(x) => x.size(),
            None => 0,
        }) + 1 + exprs_size(self.exprs@, 0) + 1 + tpl_elements_size(self.quasis@, 0)
    }
}

impl ParenExpr {
    /// The number of nodes in this tree; what the walk over it descends on.
    pub open spec fn size(&self) -> nat
        decreases self,
    {
        1 + self.expr.size()
    }
}

impl ClassMethod {
    /// The number of nodes in this tree; what the walk over it descends on.
    pub open spec fn size(&self) -> nat
        decreases self,
    {
        1 + self.key.size() + self.function.size()
    }
}

impl Class {
    /// The number of nodes in this tree; what the walk over it descends on.
    pub open spec fn size(&self) -> nat
        decreases self,
    {
        1 + 1 + class_methods_size(self.body@, 0) + (match self.super_class {
            Some(x) => x.size(),
            None => 0,
        })
    }
}

impl ClassExpr {
    /// The number of nodes in this tree; what the walk over it descends on.
    pub open spec fn size(&self) -> nat
        decreases self,
    {
        1 + (match self.ident {
            Some(x) => x.size(),
            None => 0,
        }) + self.class.size()
    }
}

impl Expr {
    /// The number of nodes in this tree; what the walk over it descends on.
    pub open spec fn size(&self) -> nat
        decreases self,
    {
        match self {
            Expr::This(x) => 1 + x.size(),
            Expr::Array(x) => 1 + x.size(),
            Expr::Object(x) => 1 + x.size(),
            Expr::Fn(x) => 1 + x.size(),
            Expr::Unary(x) => 1 + x.size(),
            Expr::Update(x) => 1 + x.size(),
            Expr::Bin(x) => 1 + x.size(),
            Expr::Assign(x) => 1 + x.size(),
            Expr::Member(x) => 1 + x.size(),
            Expr::Cond(x) => 1 + x.size(),
            Expr::Call(x) => 1 + x.size(),
            Expr::New(x) => 1 + x.size(),
            Expr::Sequence(x) => 1 + x.size(),
            Expr::Ident(x) => 1 + x.size(),
            Expr::Lit(x) => 1 + x.size(),
            Expr::Tpl(x) => 1 + x.size(),
            Expr::Arrow(x) => 1 + x.size(),
            Expr::Class(x) => 1 + x.size(),
            Expr::Yield(x) => 1 + x.size(),
            Expr::MetaProp(x) => 1 + x.size(),
            Expr::Await(x) => 1 + x.size(),
            Expr::Paren(x) => 1 + x.size(),
        }
    }

    pub open spec fn spec_span(&self) -> Span {
        match self {
            Expr::This(x) => x.span,
            Expr::Array(x) => x.span,
            Expr::Object(x) => x.span,
            Expr::Fn(x) => x.span,
            Expr::Unary(x) => x.span,
            Expr::Update(x) => x.span,
            Expr::Bin(x) => x.span,
            Expr::Assign(x) => x.span,
            Expr::Member(x) => x.span,
            Expr::Cond(x) => x.span,
            Expr::Call(x) => x.span,
            Expr::New(x) => x.span,
            Expr::Sequence(x) => x.span,
            Expr::Ident(x) => x.span,
            Expr::Lit(x) => x.spec_span(),
            Expr::Tpl(x) => x.spec_span(),
            Expr::Arrow(x) => x.span,
            Expr::Class(x) => x.span,
            Expr::Yield(x) => x.span,
            Expr::MetaProp(x) => x.span,
            Expr::Await(x) => x.span,
            Expr::Paren(x) => x.span,
        }
    }

    #[verifier::when_used_as_spec(spec_span)]
    pub fn span(&self) -> (r: Span)
        ensures
            r == self.spec_span(),
    {
        match self {
            Expr::This(x) => x.span,
            Expr::Array(x) => x.span,
            Expr::Object(x) => x.span,
            Expr::Fn(x) => x.span,
            Expr::Unary(x) => x.span,
            Expr::Update(x) => x.span,
            Expr::Bin(x) => x.span,
            Expr::Assign(x) => x.span,
            Expr::Member(x) => x.span,
            Expr::Cond(x) => x.span,
            Expr::Call(x) => x.span,
            Expr::New(x) => x.span,
            Expr::Sequence(x) => x.span,
            Expr::Ident(x) => x.span,
            Expr::Lit(x) => x.span(),
            Expr::Tpl(x) => x.span(),
            Expr::Arrow(x) => x.span,
            Expr::Class(x) => x.span,
            Expr::Yield(x) => x.span,
            Expr::MetaProp(x) => x.span,
            Expr::Await(x) => x.span,
            Expr::Paren(x) => x.span,
        }
    }
}

impl ArrayPat {
    /// The number of nodes in this tree; what the walk over it descends on.
    pub open spec fn size(&self) -> nat
        decreases self,
    {
        1 + 1 + array_pat_elems_size(self.elems@, 0)
    }
}

impl RestPat {
    /// The number of nodes in this tree; what the walk over it descends on.
    pub open spec fn size(&self) -> nat
        decreases self,
    {
        1 + self.arg.size()
    }
}

impl AssignPat {
    /// The number of nodes in this tree; what the walk over it descends on.
    pub open spec fn size(&self) -> nat
        decreases self,
    {
        1 + self.left.size() + self.right.size()
    }
}

impl KeyValuePatProp {
    /// The number of nodes in this tree; what the walk over it descends on.
    pub open spec fn size(&self) -> nat
        decreases self,
    {
        1 + self.key.size() + self.value.size()
    }
}

impl AssignPatProp {
    /// The number of nodes in this tree; what the walk over it descends on.
    pub open spec fn size(&self) -> nat
        decreases self,
    {
        1 + self.key.size() + (match self.value {
            Some(x) => x.size(),
            None => 0,
        })
    }
}

impl ObjectPatProp {
    /// The number of nodes in this tree; what the walk over it descends on.
    pub open spec fn size(&self) -> nat
        decreases self,
    {
        match self {
            ObjectPatProp::KeyValue(x) => 1 + x.size(),
            ObjectPatProp::Assign(x) => 1 + x.size(),
            ObjectPatProp::Rest(x) => 1 + x.size(),
        }
    }

    pub open spec fn spec_span(&self) -> Span {
        match self {
            ObjectPatProp::KeyValue(x) => x.span,
            ObjectPatProp::Assign(x) => x.span,
            ObjectPatProp::Rest(x) => x.span,
        }
    }

    #[verifier::when_used_as_spec(spec_span)]
    pub fn span(&self) -> (r: Span)
        ensures
            r == self.spec_span(),
    {
        match self {
            ObjectPatProp::KeyValue(x) => x.span,
            ObjectPatProp::Assign(x) => x.span,
            ObjectPatProp::Rest(x) => x.span,
        }
    }
}

impl ObjectPat {
    /// The number of nodes in this tree; what the walk over it descends on.
    pub open spec fn size(&self) -> nat
        decreases self,
    {
        1 + 1 + object_pat_props_size(self.props@, 0)
    }
}

impl Pat {
    /// The number of nodes in this tree; what the walk over it descends on.
    pub open spec fn size(&self) -> nat
        decreases self,
    {
        match self {
            Pat::Ident(x) => 1 + x.size(),
            Pat::Array(x) => 1 + x.size(),
            Pat::Rest(x) => 1 + x.size(),
            Pat::Object(x) => 1 + x.size(),
            Pat::Assign(x) => 1 + x.size(),
            Pat::Expr(x) => 1 + x.size(),
        }
    }

    pub open spec fn spec_span(&self) -> Span {
        match self {
            Pat::Ident(x) => x.span,
            Pat::Array(x) => x.span,
            Pat::Rest(x) => x.span,
            Pat::Object(x) => x.span,
            Pat::Assign(x) => x.span,
            Pat::Expr(x) => x.spec_span(),
        }
    }

    #[verifier::when_used_as_spec(spec_span)]
    pub fn span(&self) -> (r: Span)
        ensures
            r == self.spec_span(),
    {
        match self {
            Pat::Ident(x) => x.span,
            Pat::Array(x) => x.span,
            Pat::Rest(x) => x.span,
            Pat::Object(x) => x.span,
            Pat::Assign(x) => x.span,
            Pat::Expr(x) => x.span(),
        }
    }
}

impl VarDeclarator {
    /// The number of nodes in this tree; what the walk over it descends on.
    pub open spec fn size(&self) -> nat
        decreases self,
    {
        1 + self.name.size() + (match self.init {
            Some(x) => x.size(),
            None => 0,
        })
    }
}

impl VarDecl {
    /// The number of nodes in this tree; what the walk over it descends on.
    pub open spec fn size(&self) -> nat
        decreases self,
    {
        1 + 1 + var_declarators_size(self.decls@, 0)
    }
}

impl FnDecl {
    /// The number of nodes in this tree; what the walk over it descends on.
    pub open spec fn size(&self) -> nat
        decreases self,
    {
        1 + self.ident.size() + self.function.size()
    }
}

impl ClassDecl {
    /// The number of nodes in this tree; what the walk over it descends on.
    pub open spec fn size(&self) -> nat
        decreases self,
    {
        1 + self.ident.size() + self.class.size()
    }
}

impl Decl {
    /// The number of nodes in this tree; what the walk over it descends on.
    pub open spec fn size(&self) -> nat
        decreases self,
    {
        match self {
            Decl::Class(x) => 1 + x.size(),
            Decl::Fn(x) => 1 + x.size(),
            Decl::Var(x) => 1 + x.size(),
        }
    }

    pub open spec fn spec_span(&self) -> Span {
        match self {
            Decl::Class(x) => x.span,
            Decl::Fn(x) => x.span,
            Decl::Var(x) => x.span,
        }
    }

    #[verifier::when_used_as_spec(spec_span)]
    pub fn span(&self) -> (r: Span)
        ensures
            r == self.spec_span(),
    {
        match self {
            Decl::Class(x) => x.span,
            Decl::Fn(x) => x.span,
            Decl::Var(x) => x.span,
        }
    }
}

impl VarDeclOrPat {
    /// The number of nodes in this tree; what the walk over it descends on.
    pub open spec fn size(&self) -> nat
        decreases self,
    {
        match self {
            VarDeclOrPat::VarDecl(x) => 1 + x.size(),
            VarDeclOrPat::Pat(x) => 1 + x.size(),
        }
    }

    pub open spec fn spec_span(&self) -> Span {
        match self {
            VarDeclOrPat::VarDecl(x) => x.span,
            VarDeclOrPat::Pat(x) => x.spec_span(),
        }
    }

    #[verifier::when_used_as_spec(spec_span)]
    pub fn span(&self) -> (r: Span)
        ensures
            r == self.spec_span(),
    {
        match self {
            VarDeclOrPat::VarDecl(x) => x.span,
            VarDeclOrPat::Pat(x) => x.span(),
        }
    }
}

impl VarDeclOrExpr {
    /// The number of nodes in this tree; what the walk over it descends on.
    pub open spec fn size(&self) -> nat
        decreases self,
    {
        match self {
            VarDeclOrExpr::VarDecl(x) => 1 + x.size(),
            VarDeclOrExpr::Expr(x) => 1 + x.size(),
        }
    }

    pub open spec fn spec_span(&self) -> Span {
        match self {
            VarDeclOrExpr::VarDecl(x) => x.span,
            VarDeclOrExpr::Expr(x) => x.spec_span(),
        }
    }

    #[verifier::when_used_as_spec(spec_span)]
    pub fn span(&self) -> (r: Span)
        ensures
            r == self.spec_span(),
    {
        match self {
            VarDeclOrExpr::VarDecl(x) => x.span,
            VarDeclOrExpr::Expr(x) => x.span(),
        }
    }
}

impl BlockStmt {
    /// The number of nodes in this tree; what the walk over it descends on.
    pub open spec fn size(&self) -> nat
        decreases self,
    {
        1 + 1 + stmts_size(self.stmts@, 0)
    }
}

impl EmptyStmt {
    /// The number of nodes in this tree; what the walk over it descends on.
    pub open spec fn size(&self) -> nat
        decreases self,
    {
        1
    }
}

impl DebuggerStmt {
    /// The number of nodes in this tree; what the walk over it descends on.
    pub open spec fn size(&self) -> nat
        decreases self,
    {
        1
    }
}

impl WithStmt {
    /// The number of nodes in this tree; what the walk over it descends on.
    pub open spec fn size(&self) -> nat
        decreases self,
    {
        1 + self.obj.size() + self.body.size()
    }
}

impl ReturnStmt {
    /// The number of nodes in this tree; what the walk over it descends on.
    pub open spec fn size(&self) -> nat
        decreases self,
    {
        1 + (match self.arg {
            Some(x) => x.size(),
            None => 0,
        })
    }
}

impl LabeledStmt {
    /// The number of nodes in this tree; what the walk over it descends on.
    pub open spec fn size(&self) -> nat
        decreases self,
    {
        1 + self.label.size() + self.body.size()
    }
}

impl BreakStmt {
    /// The number of nodes in this tree; what the walk over it descends on.
    pub open spec fn size(&self) -> nat
        decreases self,
    {
        1 + (match self.label {
            Some(x) => x.size(),
            None => 0,
        })
    }
}

impl ContinueStmt {
    /// The number of nodes in this tree; what the walk over it descends on.
    pub open spec fn size(&self) -> nat
        decreases self,
    {
        1 + (match self.label {
            Some(x) => x.size(),
            None => 0,
        })
    }
}

impl IfStmt {
    /// The number of nodes in this tree; what the walk over it descends on.
    pub open spec fn size(&self) -> nat
        decreases self,
    {
        1 + self.test.size() + self.cons.size() + (match self.alt {
            Some(x) => x.size(),
            None => 0,
        })
    }
}

impl SwitchCase {
    /// The number of nodes in this tree; what the walk over it descends on.
    pub open spec fn size(&self) -> nat
        decreases self,
    {
        1 + (match self.test {
            Some(x) => x.size(),
            None => 0,
        }) + 1 + stmts_size(self.cons@, 0)
    }
}

impl SwitchStmt {
    /// The number of nodes in this tree; what the walk over it descends on.
    pub open spec fn size(&self) -> nat
        decreases self,
    {
        1 + self.discriminant.size() + 1 + switch_cases_size(self.cases@, 0)
    }
}

impl ThrowStmt {
    /// The number of nodes in this tree; what the walk over it descends on.
    pub open spec fn size(&self) -> nat
        decreases self,
    {
        1 + self.arg.size()
    }
}

impl CatchClause {
    /// The number of nodes in this tree; what the walk over it descends on.
    pub open spec fn size(&self) -> nat
        decreases self,
    {
        1 + self.param.size() + self.body.size()
    }
}

impl TryStmt {
    /// The number of nodes in this tree; what the walk over it descends on.
    pub open spec fn size(&self) -> nat
        decreases self,
    {
        1 + self.block.size() + (match self.handler {
            Some(x) => x.size(),
            None => 0,
        }) + (match self.finalizer {
            Some(x) => x.size(),
            None => 0,
        })
    }
}

impl WhileStmt {
    /// The number of nodes in this tree; what the walk over it descends on.
    pub open spec fn size(&self) -> nat
        decreases self,
    {
        1 + self.test.size() + self.body.size()
    }
}

impl DoWhileStmt {
    /// The number of nodes in this tree; what the walk over it descends on.
    pub open spec fn size(&self) -> nat
        decreases self,
    {
        1 + self.test.size() + self.body.size()
    }
}

impl ForStmt {
    /// The number of nodes in this tree; what the walk over it descends on.
    pub open spec fn size(&self) -> nat
        decreases self,
    {
        1 + (match self.init {
            Some(x) => x.size(),
            None => 0,
        }) + (match self.test {
            Some(x) => x.size(),
            None => 0,
        }) + (match self.update {
            Some(x) => x.size(),
            None => 0,
        }) + self.body.size()
    }
}

impl ForInStmt {
    /// The number of nodes in this tree; what the walk over it descends on.
    pub open spec fn size(&self) -> nat
        decreases self,
    {
        1 + self.left.size() + self.right.size() + self.body.size()
    }
}

impl ForOfStmt {
    /// The number of nodes in this tree; what the walk over it descends on.
    pub open spec fn size(&self) -> nat
        decreases self,
    {
        1 + self.left.size() + self.right.size() + self.body.size()
    }
}

impl Stmt {
    /// The number of nodes in this tree; what the walk over it descends on.
    pub open spec fn size(&self) -> nat
        decreases self,
    {
        match self {
            Stmt::Expr(x) => 1 + x.size(),
            Stmt::Block(x) => 1 + x.size(),
            Stmt::Empty(x) => 1 + x.size(),
            Stmt::Debugger(x) => 1 + x.size(),
            Stmt::With(x) => 1 + x.size(),
            Stmt::Return(x) => 1 + x.size(),
            Stmt::Labeled(x) => 1 + x.size(),
            Stmt::Break(x) => 1 + x.size(),
            Stmt::Continue(x) => 1 + x.size(),
            Stmt::If(x) => 1 + x.size(),
            Stmt::Switch(x) => 1 + x.size(),
            Stmt::Throw(x) => 1 + x.size(),
            Stmt::Try(x) => 1 + x.size(),
            Stmt::While(x) => 1 + x.size(),
            Stmt::DoWhile(x) => 1 + x.size(),
            Stmt::For(x) => 1 + x.size(),
            Stmt::ForIn(x) => 1 + x.size(),
            Stmt::ForOf(x) => 1 + x.size(),
            Stmt::Decl(x) => 1 + x.size(),
        }
    }

    pub open spec fn spec_span(&self) -> Span {
        match self {
            Stmt::Expr(x) => x.spec_span(),
            Stmt::Block(x) => x.span,
            Stmt::Empty(x) => x.span,
            Stmt::Debugger(x) => x.span,
            Stmt::With(x) => x.span,
            Stmt::Return(x) => x.span,
            Stmt::Labeled(x) => x.span,
            Stmt::Break(x) => x.span,
            Stmt::Continue(x) => x.span,
            Stmt::If(x) => x.span,
            Stmt::Switch(x) => x.span,
            Stmt::Throw(x) => x.span,
            Stmt::Try(x) => x.span,
            Stmt::While(x) => x.span,
            Stmt::DoWhile(x) => x.span,
            Stmt::For(x) => x.span,
            Stmt::ForIn(x) => x.span,
            Stmt::ForOf(x) => x.span,
            Stmt::Decl(x) => x.spec_span(),
        }
    }

    #[verifier::when_used_as_spec(spec_span)]
    pub fn span(&self) -> (r: Span)
        ensures
            r == self.spec_span(),
    {
        match self {
            Stmt::Expr(x) => x.span(),
            Stmt::Block(x) => x.span,
            Stmt::Empty(x) => x.span,
            Stmt::Debugger(x) => x.span,
            Stmt::With(x) => x.span,
            Stmt::Return(x) => x.span,
            Stmt::Labeled(x) => x.span,
            Stmt::Break(x) => x.span,
            Stmt::Continue(x) => x.span,
            Stmt::If(x) => x.span,
            Stmt::Switch(x) => x.span,
            Stmt::Throw(x) => x.span,
            Stmt::Try(x) => x.span,
            Stmt::While(x) => x.span,
            Stmt::DoWhile(x) => x.span,
            Stmt::For(x) => x.span,
            Stmt::ForIn(x) => x.span,
            Stmt::ForOf(x) => x.span,
            Stmt::Decl(x) => x.span(),
        }
    }
}

impl ImportSpecific {
    /// The number of nodes in this tree; what the walk over it descends on.
    pub open spec fn size(&self) -> nat
        decreases self,
    {
        1 + self.local.size() + (match self.imported {
            Some(x) => x.size(),
            None => 0,
        })
    }
}

impl ImportNames {
    /// The number of nodes in this tree; what the walk over it descends on.
    pub open spec fn size(&self) -> nat
        decreases self,
    {
        match self {
            ImportNames::Namespace(x) => 1 + x.size(),
            ImportNames::Named(x) => 1 + 1 + import_specifics_size(x@, 0),
        }
    }
}

impl ImportDecl {
    /// The number of nodes in this tree; what the walk over it descends on.
    pub open spec fn size(&self) -> nat
        decreases self,
    {
        1 + (match self.default {
            Some(x) => x.size(),
            None => 0,
        }) + (match self.names {
            Some(x) => x.size(),
            None => 0,
        }) + self.src.size()
    }
}

impl ExportSpecifier {
    /// The number of nodes in this tree; what the walk over it descends on.
    pub open spec fn size(&self) -> nat
        decreases self,
    {
        1 + self.orig.size() + (match self.exported {
            Some(x) => x.size(),
            None => 0,
        })
    }
}

impl NamedExport {
    /// The number of nodes in this tree; what the walk over it descends on.
    pub open spec fn size(&self) -> nat
        decreases self,
    {
        1 + 1 + export_specifiers_size(self.specifiers@, 0) + (match self.src {
            Some(x) => x.size(),
            None => 0,
        })
    }
}

impl ExportAll {
    /// The number of nodes in this tree; what the walk over it descends on.
    pub open spec fn size(&self) -> nat
        decreases self,
    {
        1 + self.src.size()
    }
}

impl ExportDefaultDecl {
    /// The number of nodes in this tree; what the walk over it descends on.
    pub open spec fn size(&self) -> nat
        decreases self,
    {
        match self {
            ExportDefaultDecl::Class(x) => 1 + x.size(),
            ExportDefaultDecl::Fn(x) => 1 + x.size(),
            ExportDefaultDecl::Var(x) => 1 + x.size(),
        }
    }

    pub open spec fn spec_span(&self) -> Span {
        match self {
            ExportDefaultDecl::Class(x) => x.span,
            ExportDefaultDecl::Fn(x) => x.span,
            ExportDefaultDecl::Var(x) => x.span,
        }
    }

    #[verifier::when_used_as_spec(spec_span)]
    pub fn span(&self) -> (r: Span)
        ensures
            r == self.spec_span(),
    {
        match self {
            ExportDefaultDecl::Class(x) => x.span,
            ExportDefaultDecl::Fn(x) => x.span,
            ExportDefaultDecl::Var(x) => x.span,
        }
    }
}

impl ModuleDecl {
    /// The number of nodes in this tree; what the walk over it descends on.
    pub open spec fn size(&self) -> nat
        decreases self,
    {
        match self {
            ModuleDecl::Import(x) => 1 + x.size(),
            ModuleDecl::ExportDecl(x) => 1 + x.size(),
            ModuleDecl::ExportNamed(x) => 1 + x.size(),
            ModuleDecl::ExportDefaultDecl(x) => 1 + x.size(),
            ModuleDecl::ExportDefaultExpr(x) => 1 + x.size(),
            ModuleDecl::ExportAll(x) => 1 + x.size(),
        }
    }

    pub open spec fn spec_span(&self) -> Span {
        match self {
            ModuleDecl::Import(x) => x.span,
            ModuleDecl::ExportDecl(x) => x.spec_span(),
            ModuleDecl::ExportNamed(x) => x.span,
            ModuleDecl::ExportDefaultDecl(x) => x.spec_span(),
            ModuleDecl::ExportDefaultExpr(x) => x.spec_span(),
            ModuleDecl::ExportAll(x) => x.span,
        }
    }

    #[verifier::when_used_as_spec(spec_span)]
    pub fn span(&self) -> (r: Span)
        ensures
            r == self.spec_span(),
    {
        match self {
            ModuleDecl::Import(x) => x.span,
            ModuleDecl::ExportDecl(x) => x.span(),
            ModuleDecl::ExportNamed(x) => x.span,
            ModuleDecl::ExportDefaultDecl(x) => x.span(),
            ModuleDecl::ExportDefaultExpr(x) => x.span(),
            ModuleDecl::ExportAll(x) => x.span,
        }
    }
}

impl ModuleItem {
    /// The number of nodes in this tree; what the walk over it descends on.
    pub open spec fn size(&self) -> nat
        decreases self,
    {
        match self {
            ModuleItem::Stmt(x) => 1 + x.size(),
            ModuleItem::ModuleDecl(x) => 1 + x.size(),
        }
    }

    pub open spec fn spec_span(&self) -> Span {
        match self {
            ModuleItem::Stmt(x) => x.spec_span(),
            ModuleItem::ModuleDecl(x) => x.spec_span(),
        }
    }

    #[verifier::when_used_as_spec(spec_span)]
    pub fn span(&self) -> (r: Span)
        ensures
            r == self.spec_span(),
    {
        match self {
            ModuleItem::Stmt(x) => x.span(),
            ModuleItem::ModuleDecl(x) => x.span(),
        }
    }
}

impl Module {
    /// The number of nodes in this tree; what the walk over it descends on.
    pub open spec fn size(&self) -> nat
        decreases self,
    {
        1 + 1 + module_items_size(self.body@, 0)
    }
}

/// The sizes of the elements of `v` from `i` on, summed.
pub open spec fn stmts_size(v: Seq<Stmt>, i: int) -> nat
    decreases v, v.len() - i,
{
    if 0 <= i < v.len() {
        v[i].size() + stmts_size(v, i + 1)
    } else {
        0
    }
}

/// No element is larger than the sum it is part of.
pub proof fn lemma_stmts_size(v: Seq<Stmt>, i: int, k: int)
    requires
        0 <= i <= k < v.len(),
    ensures
        v[k].size() <= stmts_size(v, i),
    decreases v.len() - i,
{
    if i < k {
        lemma_stmts_size(v, i + 1, k);
    }
}

/// The sizes of the elements of `v` from `i` on, summed.
pub open spec fn module_items_size(v: Seq<ModuleItem>, i: int) -> nat
    decreases v, v.len() - i,
{
    if 0 <= i < v.len() {
        v[i].size() + module_items_size(v, i + 1)
    } else {
        0
    }
}

/// No element is larger than the sum it is part of.
pub proof fn lemma_module_items_size(v: Seq<ModuleItem>, i: int, k: int)
    requires
        0 <= i <= k < v.len(),
    ensures
        v[k].size() <= module_items_size(v, i),
    decreases v.len() - i,
{
    if i < k {
        lemma_module_items_size(v, i + 1, k);
    }
}

/// The sizes of the elements of `v` from `i` on, summed.
pub open spec fn expr_or_spreads_size(v: Seq<ExprOrSpread>, i: int) -> nat
    decreases v, v.len() - i,
{
    if 0 <= i < v.len() {
        v[i].size() + expr_or_spreads_size(v, i + 1)
    } else {
        0
    }
}

/// No element is larger than the sum it is part of.
pub proof fn lemma_expr_or_spreads_size(v: Seq<ExprOrSpread>, i: int, k: int)
    requires
        0 <= i <= k < v.len(),
    ensures
        v[k].size() <= expr_or_spreads_size(v, i),
    decreases v.len() - i,
{
    if i < k {
        lemma_expr_or_spreads_size(v, i + 1, k);
    }
}

/// The sizes of the elements of `v` from `i` on, summed.
pub open spec fn array_elems_size(v: Seq<Option<ExprOrSpread>>, i: int) -> nat
    decreases v, v.len() - i,
{
    if 0 <= i < v.len() {
        (match v[i] {
            Some(x) => x.size(),
            None => 0,
        }) + array_elems_size(v, i + 1)
    } else {
        0
    }
}

/// No element is larger than the sum it is part of.
pub proof fn lemma_array_elems_size(v: Seq<Option<ExprOrSpread>>, i: int, k: int)
    requires
        0 <= i <= k < v.len(),
    ensures
        (v[k] matches Some(x) ==> x.size() <= array_elems_size(v, i)),
    decreases v.len() - i,
{
    if i < k {
        lemma_array_elems_size(v, i + 1, k);
    }
}

/// The sizes of the elements of `v` from `i` on, summed.
pub open spec fn props_size(v: Seq<PropOrSpread>, i: int) -> nat
    decreases v, v.len() - i,
{
    if 0 <= i < v.len() {
        v[i].size() + props_size(v, i + 1)
    } else {
        0
    }
}

/// No element is larger than the sum it is part of.
pub proof fn lemma_props_size(v: Seq<PropOrSpread>, i: int, k: int)
    requires
        0 <= i <= k < v.len(),
    ensures
        v[k].size() <= props_size(v, i),
    decreases v.len() - i,
{
    if i < k {
        lemma_props_size(v, i + 1, k);
    }
}

/// The sizes of the elements of `v` from `i` on, summed.
pub open spec fn pats_size(v: Seq<Pat>, i: int) -> nat
    decreases v, v.len() - i,
{
    if 0 <= i < v.len() {
        v[i].size() + pats_size(v, i + 1)
    } else {
        0
    }
}

/// No element is larger than the sum it is part of.
pub proof fn lemma_pats_size(v: Seq<Pat>, i: int, k: int)
    requires
        0 <= i <= k < v.len(),
    ensures
        v[k].size() <= pats_size(v, i),
    decreases v.len() - i,
{
    if i < k {
        lemma_pats_size(v, i + 1, k);
    }
}

/// The sizes of the elements of `v` from `i` on, summed.
pub open spec fn array_pat_elems_size(v: Seq<Option<Pat>>, i: int) -> nat
    decreases v, v.len() - i,
{
    if 0 <= i < v.len() {
        (match v[i] {
            Some(x) => x.size(),
            None => 0,
        }) + array_pat_elems_size(v, i + 1)
    } else {
        0
    }
}

/// No element is larger than the sum it is part of.
pub proof fn lemma_array_pat_elems_size(v: Seq<Option<Pat>>, i: int, k: int)
    requires
        0 <= i <= k < v.len(),
    ensures
        (v[k] matches Some(x) ==> x.size() <= array_pat_elems_size(v, i)),
    decreases v.len() - i,
{
    if i < k {
        lemma_array_pat_elems_size(v, i + 1, k);
    }
}

/// The sizes of the elements of `v` from `i` on, summed.
pub open spec fn object_pat_props_size(v: Seq<ObjectPatProp>, i: int) -> nat
    decreases v, v.len() - i,
{
    if 0 <= i < v.len() {
        v[i].size() + object_pat_props_size(v, i + 1)
    } else {
        0
    }
}

/// No element is larger than the sum it is part of.
pub proof fn lemma_object_pat_props_size(v: Seq<ObjectPatProp>, i: int, k: int)
    requires
        0 <= i <= k < v.len(),
    ensures
        v[k].size() <= object_pat_props_size(v, i),
    decreases v.len() - i,
{
    if i < k {
        lemma_object_pat_props_size(v, i + 1, k);
    }
}

/// The sizes of the elements of `v` from `i` on, summed.
pub open spec fn class_methods_size(v: Seq<ClassMethod>, i: int) -> nat
    decreases v, v.len() - i,
{
    if 0 <= i < v.len() {
        v[i].size() + class_methods_size(v, i + 1)
    } else {
        0
    }
}

/// No element is larger than the sum it is part of.
pub proof fn lemma_class_methods_size(v: Seq<ClassMethod>, i: int, k: int)
    requires
        0 <= i <= k < v.len(),
    ensures
        v[k].size() <= class_methods_size(v, i),
    decreases v.len() - i,
{
    if i < k {
        lemma_class_methods_size(v, i + 1, k);
    }
}

/// The sizes of the elements of `v` from `i` on, summed.
pub open spec fn switch_cases_size(v: Seq<SwitchCase>, i: int) -> nat
    decreases v, v.len() - i,
{
    if 0 <= i < v.len() {
        v[i].size() + switch_cases_size(v, i + 1)
    } else {
        0
    }
}

/// No element is larger than the sum it is part of.
pub proof fn lemma_switch_cases_size(v: Seq<SwitchCase>, i: int, k: int)
    requires
        0 <= i <= k < v.len(),
    ensures
        v[k].size() <= switch_cases_size(v, i),
    decreases v.len() - i,
{
    if i < k {
        lemma_switch_cases_size(v, i + 1, k);
    }
}

/// The sizes of the elements of `v` from `i` on, summed.
pub open spec fn var_declarators_size(v: Seq<VarDeclarator>, i: int) -> nat
    decreases v, v.len() - i,
{
    if 0 <= i < v.len() {
        v[i].size() + var_declarators_size(v, i + 1)
    } else {
        0
    }
}

/// No element is larger than the sum it is part of.
pub proof fn lemma_var_declarators_size(v: Seq<VarDeclarator>, i: int, k: int)
    requires
        0 <= i <= k < v.len(),
    ensures
        v[k].size() <= var_declarators_size(v, i),
    decreases v.len() - i,
{
    if i < k {
        lemma_var_declarators_size(v, i + 1, k);
    }
}

/// The sizes of the elements of `v` from `i` on, summed.
pub open spec fn import_specifics_size(v: Seq<ImportSpecific>, i: int) -> nat
    decreases v, v.len() - i,
{
    if 0 <= i < v.len() {
        v[i].size() + import_specifics_size(v, i + 1)
    } else {
        0
    }
}

/// No element is larger than the sum it is part of.
pub proof fn lemma_import_specifics_size(v: Seq<ImportSpecific>, i: int, k: int)
    requires
        0 <= i <= k < v.len(),
    ensures
        v[k].size() <= import_specifics_size(v, i),
    decreases v.len() - i,
{
    if i < k {
        lemma_import_specifics_size(v, i + 1, k);
    }
}

/// The sizes of the elements of `v` from `i` on, summed.
pub open spec fn export_specifiers_size(v: Seq<ExportSpecifier>, i: int) -> nat
    decreases v, v.len() - i,
{
    if 0 <= i < v.len() {
        v[i].size() + export_specifiers_size(v, i + 1)
    } else {
        0
    }
}

/// No element is larger than the sum it is part of.
pub proof fn lemma_export_specifiers_size(v: Seq<ExportSpecifier>, i: int, k: int)
    requires
        0 <= i <= k < v.len(),
    ensures
        v[k].size() <= export_specifiers_size(v, i),
    decreases v.len() - i,
{
    if i < k {
        lemma_export_specifiers_size(v, i + 1, k);
    }
}

/// The sizes of the elements of `v` from `i` on, summed.
pub open spec fn exprs_size(v: Seq<Box<Expr>>, i: int) -> nat
    decreases v, v.len() - i,
{
    if 0 <= i < v.len() {
        v[i].size() + exprs_size(v, i + 1)
    } else {
        0
    }
}

/// No element is larger than the sum it is part of.
pub proof fn lemma_exprs_size(v: Seq<Box<Expr>>, i: int, k: int)
    requires
        0 <= i <= k < v.len(),
    ensures
        v[k].size() <= exprs_size(v, i),
    decreases v.len() - i,
{
    if i < k {
        lemma_exprs_size(v, i + 1, k);
    }
}

/// The sizes of the elements of `v` from `i` on, summed.
pub open spec fn tpl_elements_size(v: Seq<TplElement>, i: int) -> nat
    decreases v, v.len() - i,
{
    if 0 <= i < v.len() {
        v[i].size() + tpl_elements_size(v, i + 1)
    } else {
        0
    }
}

impl TplLit {
    /// A template has one more static part than it has holes.
    #[verifier::type_invariant]
    pub open(crate) spec fn well_formed(&self) -> bool {
        self.quasis@.len() == self.exprs@.len() + 1
    }

    pub open(crate) spec fn spec_span(&self) -> Span {
        self.span
    }

    #[verifier::when_used_as_spec(spec_span)]
    pub fn span(&self) -> (r: Span)
        ensures
            r == self.spec_span(),
    {
        self.span
    }

    /// The tag, if the template has one.
    pub open(crate) spec fn spec_tag(&self) -> Option<Box<Expr>> {
        self.tag
    }

    pub fn tag(&self) -> (r: &Option<Box<Expr>>)
        ensures
            *r == self.spec_tag(),
    {
        &self.tag
    }

    /// The expressions in the holes, in order.
    pub open(crate) spec fn spec_exprs(&self) -> Seq<Box<Expr>> {
        self.exprs@
    }

    /// The static parts, in order.
    pub open(crate) spec fn spec_quasis(&self) -> Seq<TplElement> {
        self.quasis@
    }

    /// The template with these holes and static parts, where there is one
    /// more static part than there are holes; nothing otherwise.
    pub fn new(
        span: Span,
        tag: Option<Box<Expr>>,
        exprs: Vec<Box<Expr>>,
        quasis: Vec<TplElement>,
    ) -> (r: Option<TplLit>)
        ensures
            r is Some <==> quasis@.len() == exprs@.len() + 1,
            r matches Some(t) ==> t.spec_span() == span && t.spec_tag() == tag && t.spec_exprs()
                == exprs@ && t.spec_quasis() == quasis@,
    {
        if quasis.len() > 0 && quasis.len() - 1 == exprs.len() {
            Some(TplLit { span, tag, exprs, quasis })
        } else {
            None
        }
    }
}


} // verus!

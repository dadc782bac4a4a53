//! What each emitter writes, as a function from the state before it to the
//! state after it.
//!
//! A rule reads the tree, the source map, the comments and the configuration
//! and never anything else, so equal inputs give equal text.
use vstd::prelude::*;
use crate::ast::{
    array_elems_size, array_pat_elems_size, ArrayLit, ArrayPat, ArrowExpr, AssignExpr, AssignPat,
    AssignPatProp, AssignProp, AwaitExpr, BinExpr, BlockStmt, BlockStmtOrExpr, Bool, BreakStmt,
    CallExpr, CatchClause, Class, class_methods_size, ClassDecl, ClassExpr, ClassMethod,
    ClassMethodKind, CondExpr, ContinueStmt, DebuggerStmt, Decl, DoWhileStmt, EmptyStmt,
    export_specifiers_size, ExportAll, ExportDefaultDecl, ExportSpecifier, Expr,
    expr_or_spreads_size, ExprOrSpread, ExprOrSuper, exprs_size, FnDecl, FnExpr, ForInStmt,
    ForOfStmt, ForStmt, Function, GetterProp, Ident, IfStmt, import_specifics_size, ImportDecl,
    ImportNames, ImportSpecific, KeyValuePatProp, KeyValueProp, LabeledStmt,
    lemma_array_elems_size, lemma_array_pat_elems_size, lemma_class_methods_size,
    lemma_export_specifiers_size, lemma_expr_or_spreads_size, lemma_exprs_size,
    lemma_import_specifics_size, lemma_module_items_size, lemma_object_pat_props_size,
    lemma_pats_size, lemma_props_size, lemma_stmts_size, lemma_switch_cases_size,
    lemma_var_declarators_size, Lit, MemberExpr, MetaPropExpr, MethodProp, Module,
    module_items_size, ModuleDecl, ModuleItem, NamedExport, NewExpr, Null, Number, NumberValue,
    object_pat_props_size, ObjectLit, ObjectPat, ObjectPatProp, ParenExpr, Pat, PatOrExpr,
    pats_size, Prop, PropName, PropOrSpread, props_size, Regex, RestPat, ReturnStmt, SeqExpr,
    SetterProp, SpreadElement, Stmt, stmts_size, Str, switch_cases_size, SwitchCase, SwitchStmt,
    ThisExpr, ThrowStmt, TplElement, TplLit, TryStmt, UnaryExpr, UnaryOp, UpdateExpr, UpdateOp,
    var_declarators_size, VarDecl, VarDeclarator, VarDeclOrExpr, VarDeclOrPat, WhileStmt, WithStmt,
    YieldExpr,
};
use crate::comments::{Comment, CommentKind, Comments};
use crate::config::Config;
use crate::emitter::Node;
use crate::escape::{quote, spec_begins_with_alpha_num};
use crate::list::{
    ALLOW_TRAILING_COMMA, ARRAY_BINDING_PATTERN_ELEMENTS, ARRAY_LITERAL_ELEMENTS, BRACKETS_MASK,
    CALL_ARGUMENTS, CASE_BLOCK_CLAUSES, CASE_OR_DEFAULT_CLAUSE_STATEMENTS, CLASS_MEMBERS,
    COMMA_DELIMITED, COMMA_LIST_ELEMENTS, DELIMITERS_MASK, INDENTED, LINES_MASK, ListFormat,
    MULTI_LINE, MULTI_LINE_BLOCK_STATEMENTS, NAMED_IMPORTS_OR_EXPORTS_ELEMENTS,
    NO_INTERVENING_COMMENTS, NO_SPACE_IF_EMPTY, OBJECT_BINDING_PATTERN_ELEMENTS,
    OBJECT_LITERAL_PROPERTIES, OPTIONAL_IF_EMPTY, OPTIONAL_IF_UNDEFINED, SINGLE_LINE,
    SPACE_BETWEEN_BRACES, SPACE_BETWEEN_SIBLINGS,
};
use crate::source::SourceMap;
use crate::span::{dummy_span, Span};
use crate::text_writer::WriterState;

verus! {

/// What an emitter reads and never changes.
pub struct Env {
    pub cfg: Config,
    pub cm: SourceMap,
    pub comments: Comments,
}

/// What an emitter changes.
pub struct State {
    /// The writer.
    pub wr: WriterState,
    /// The positions whose leading comments have been written.
    pub leading: Set<u32>,
    /// The positions whose trailing comments have been written.
    pub trailing: Set<u32>,
    /// The statement being written is the last of its script or module and
    /// is to go without its semicolon.
    pub semi_off: bool,
}

impl State {
    pub open spec fn keyword(self, text: Seq<char>) -> State {
        State { wr: self.wr.keyword(None, text), ..self }
    }

    /// A keyword that stands for a node of the source.
    pub open spec fn keyword_at(self, cx: &Env, span: Span, text: Seq<char>) -> State {
        State { wr: self.wr.keyword(origin(cx, span), text), ..self }
    }

    pub open spec fn punct(self, text: Seq<char>) -> State {
        State { wr: self.wr.punct(text), ..self }
    }

    pub open spec fn operator(self, text: Seq<char>) -> State {
        State { wr: self.wr.operator(text), ..self }
    }

    pub open spec fn symbol(self, cx: &Env, span: Span, text: Seq<char>) -> State {
        State { wr: self.wr.symbol(origin(cx, span), text), ..self }
    }

    pub open spec fn number(self, cx: &Env, span: Span, text: Seq<char>) -> State {
        State { wr: self.wr.number(origin(cx, span), text), ..self }
    }

    pub open spec fn str_lit(self, cx: &Env, span: Span, text: Seq<char>) -> State {
        State { wr: self.wr.str_lit(origin(cx, span), text), ..self }
    }

    /// The text of a comment.
    pub open spec fn comment_text(self, text: Seq<char>) -> State {
        State { wr: self.wr.str_lit(None, text), ..self }
    }

    pub open spec fn regex(self, text: Seq<char>) -> State {
        State { wr: self.wr.regex(text), ..self }
    }

    /// A space that the grammar needs.
    pub open spec fn space(self) -> State {
        State { wr: self.wr.space(), ..self }
    }

    /// A space for the reader: none when minifying.
    pub open spec fn formatting_space(self, cx: &Env) -> State {
        if cx.cfg.minify {
            self
        } else {
            self.space()
        }
    }

    /// A line break that the grammar needs.
    pub open spec fn hard_line(self) -> State {
        State { wr: self.wr.line(), ..self }
    }

    /// A line break for the reader: none when minifying.
    pub open spec fn line(self, cx: &Env) -> State {
        if cx.cfg.minify {
            self
        } else {
            self.hard_line()
        }
    }

    /// The semicolon that ends a statement, unless this statement goes
    /// without.
    pub open spec fn semi(self) -> State {
        if self.semi_off {
            self
        } else {
            self.punct(";"@)
        }
    }

    /// The depth can go one stop deeper: only then is the way back owed.
    pub open spec fn deepens(self) -> bool {
        self.wr.deepens()
    }

    pub open spec fn increase_indent(self) -> State {
        State { wr: self.wr.increase_indent(), ..self }
    }

    /// The way back from a stop that was taken; nothing for one that was not.
    pub open spec fn back(self, took: bool) -> State {
        if took {
            self.decrease_indent()
        } else {
            self
        }
    }

    pub open spec fn decrease_indent(self) -> State {
        State { wr: self.wr.decrease_indent(), ..self }
    }

    pub open spec fn with_semi_off(self, semi_off: bool) -> State {
        State { semi_off, ..self }
    }

    /// An operator that is spelled as a word is written as a keyword, so that
    /// it stands off from its operands.
    pub open spec fn operator_or_word(self, word: bool, text: Seq<char>) -> State {
        if word {
            self.keyword(text)
        } else {
            self.operator(text)
        }
    }
}

/// The format of the arguments of a call: a trailing comma is allowed where
/// the target knows it.
pub open spec fn call_format(cx: &Env) -> ListFormat {
    if cx.cfg.target.allows_trailing_comma_in_calls() {
        ListFormat { bits: CALL_ARGUMENTS | ALLOW_TRAILING_COMMA }
    } else {
        ListFormat { bits: CALL_ARGUMENTS }
    }
}

/// The source position that a token of this node is marked with: the start
/// of the node, if positions are asked for and the node has one.
pub open spec fn origin(cx: &Env, span: Span) -> Option<u32> {
    if cx.cfg.source_map && !span.is_dummy() {
        Some(span.lo)
    } else {
        None
    }
}

/// `after` is `by` stops deeper than `before`, whether or not the writer has
/// failed, and a failure stays.
pub open spec fn shifted(before: State, after: State, by: int) -> bool {
    after.wr.indent == before.wr.indent + by && (before.wr.failed ==> after.wr.failed)
}

/// The indent depth is the same in both, whether or not the writer has
/// failed, and a failure stays.
pub open spec fn balanced(before: State, after: State) -> bool {
    shifted(before, after, 0)
}

/// One comment between its delimiters. A line comment ends its line; a block
/// comment is followed by a space for the reader. The opening delimiter is
/// written as an operator, so that it stands off from a `/` before it.
pub open spec fn comment(cx: &Env, s: State, c: &Comment) -> State {
    match c.kind {
        CommentKind::Line => s.operator("//"@).comment_text(c.text@).hard_line(),
        CommentKind::Block => s.operator("/*"@).comment_text(c.text@).punct(
            "*/"@,
        ).formatting_space(cx),
    }
}

/// The comments of `cs` from `i` on, each after a space if `prefix_space`.
pub open spec fn comments_from(
    cx: &Env,
    s: State,
    cs: Seq<Comment>,
    i: int,
    prefix_space: bool,
) -> State
    decreases cs.len() - i,
{
    if 0 <= i < cs.len() {
        let s = if prefix_space {
            s.formatting_space(cx)
        } else {
            s
        };
        comments_from(cx, comment(cx, s, &cs[i]), cs, i + 1, prefix_space)
    } else {
        s
    }
}

/// The comments that lead `pos`, the first time it is asked for; nothing
/// after that, and nothing for position `0`.
pub open spec fn leading_comments(cx: &Env, s: State, pos: u32) -> State {
    if pos == 0 || s.leading.contains(pos) {
        s
    } else {
        let s = State { leading: s.leading.insert(pos), ..s };
        comments_from(cx, s, cx.comments.leading_at(pos), 0, false)
    }
}

/// The comments that trail `pos`, the first time it is asked for; nothing
/// after that, and nothing for position `0`.
pub open spec fn trailing_comments(cx: &Env, s: State, pos: u32, prefix_space: bool) -> State {
    if pos == 0 || s.trailing.contains(pos) {
        s
    } else {
        let s = State { trailing: s.trailing.insert(pos), ..s };
        comments_from(cx, s, cx.comments.trailing_at(pos), 0, prefix_space)
    }
}

/// What precedes the tokens of a node: the comments that lead it.
pub open spec fn enter(cx: &Env, s: State, span: Span) -> State {
    leading_comments(cx, s, span.lo)
}

/// What follows the tokens of a node: the comments that trail it.
pub open spec fn leave(cx: &Env, s: State, span: Span) -> State {
    trailing_comments(cx, s, span.hi, true)
}

/// The text that an original node had in the source: nothing for a
/// synthesized node, for a span that the source map cannot resolve, and for
/// an empty text.
pub open spec fn source_text(cx: &Env, span: Span) -> Option<Seq<char>> {
    if span.is_synthesized() {
        None
    } else {
        match cx.cm.spec_span_to_snippet(span) {
            Some(t) => if t.len() == 0 {
                None
            } else {
                Some(t)
            },
            None => None,
        }
    }
}

/// The text of a string literal: its source text where it has one, else
/// `value` quoted.
pub open spec fn str_text(cx: &Env, node: &Str) -> Seq<char> {
    match source_text(cx, node.span) {
        Some(t) => t,
        None => quote(node.value@),
    }
}

/// The digits of a numeric literal: its source text where it has one, else
/// the text that stands for its value. An infinity has none: it is written
/// by name.
pub open spec fn num_digits(cx: &Env, node: &Number) -> Option<Seq<char>> {
    match source_text(cx, node.span) {
        Some(t) => Some(t),
        None => match node.value {
            NumberValue::Finite(t) => Some(t@),
            _ => None,
        },
    }
}

/// A member access on this object takes two dots: it is a numeric literal
/// whose digits hold no dot, so that one dot would read as its decimal point.
pub open spec fn needs_2dots(cx: &Env, obj: &ExprOrSuper) -> bool {
    match obj {
        ExprOrSuper::Expr(e) => match **e {
            Expr::Lit(Lit::Num(n)) => match num_digits(cx, &n) {
                Some(t) => !t.contains('.'),
                None => false,
            },
            _ => false,
        },
        _ => false,
    }
}

/// The text of an identifier: as the source had it, else its name.
pub open spec fn ident_text(cx: &Env, node: &Ident) -> Seq<char> {
    match source_text(cx, node.span) {
        Some(t) => t,
        None => node.sym@,
    }
}

/// The text of this literal starts with a letter or a digit. A string that
/// is quoted here starts with its quote, a regular expression with its
/// slash, a number that is split from its sign with the sign.
pub open spec fn lit_starts_with_alpha_num(cx: &Env, l: &Lit) -> bool {
    match l {
        Lit::Bool(_) | Lit::Null(_) => true,
        Lit::Str(x) => match source_text(cx, x.span) {
            Some(t) => spec_begins_with_alpha_num(t),
            None => false,
        },
        Lit::Num(n) => match num_digits(cx, n) {
            Some(t) => spec_begins_with_alpha_num(t),
            None => !(n.value is NegInfinity),
        },
        Lit::Regex(_) => false,
    }
}

/// The text of this expression, comments aside, starts with a letter or a
/// digit, so that a word before it must stand off.
pub open spec fn starts_with_alpha_num(cx: &Env, e: &Expr) -> bool
    decreases e,
{
    match e {
        Expr::This(_) | Expr::Fn(_) | Expr::Class(_) | Expr::New(_) | Expr::Yield(_)
        | Expr::Await(_) => true,
        Expr::Ident(i) => spec_begins_with_alpha_num(ident_text(cx, i)),
        Expr::MetaProp(m) => spec_begins_with_alpha_num(ident_text(cx, &m.meta)),
        Expr::Lit(l) => lit_starts_with_alpha_num(cx, l),
        Expr::Unary(u) => u.op.is_word(),
        Expr::Update(u) => !u.prefix && starts_with_alpha_num(cx, &*u.arg),
        Expr::Bin(b) => starts_with_alpha_num(cx, &*b.left),
        Expr::Cond(c) => starts_with_alpha_num(cx, &*c.test),
        Expr::Assign(a) => match a.left {
            PatOrExpr::Expr(l) => starts_with_alpha_num(cx, &*l),
            PatOrExpr::Pat(p) => pat_starts_with_alpha_num(cx, &*p),
        },
        Expr::Member(m) => match m.obj {
            ExprOrSuper::Super(_) => true,
            ExprOrSuper::Expr(o) => starts_with_alpha_num(cx, &*o),
        },
        Expr::Call(c) => match c.callee {
            ExprOrSuper::Super(_) => true,
            ExprOrSuper::Expr(o) => starts_with_alpha_num(cx, &*o),
        },
        Expr::Sequence(q) => q.exprs@.len() > 0 && starts_with_alpha_num(cx, &*q.exprs@[0]),
        Expr::Arrow(a) => a.is_async,
        Expr::Tpl(t) => match t.spec_tag() {
            Some(g) => starts_with_alpha_num(cx, &*g),
            None => false,
        },
        Expr::Array(_) | Expr::Object(_) | Expr::Paren(_) => false,
    }
}

/// The text of this pattern, comments aside, starts with a letter or a
/// digit.
pub open spec fn pat_starts_with_alpha_num(cx: &Env, p: &Pat) -> bool
    decreases p,
{
    match p {
        Pat::Ident(i) => spec_begins_with_alpha_num(ident_text(cx, i)),
        Pat::Expr(e) => starts_with_alpha_num(cx, &**e),
        Pat::Assign(a) => pat_starts_with_alpha_num(cx, &*a.left),
        Pat::Array(_) | Pat::Object(_) | Pat::Rest(_) => false,
    }
}

/// A space goes between a prefix operator and its operand: after a word, if
/// the text of the operand starts with a letter or a digit; after `+`,
/// before `+` and `++`; after `-`, before `-` and `--`.
pub open spec fn needs_space_before_operand(cx: &Env, node: &UnaryExpr) -> bool {
    if node.op.is_word() {
        starts_with_alpha_num(cx, &*node.arg)
    } else {
        match *node.arg {
            Expr::Update(u) => u.prefix && (node.op == UnaryOp::Plus && u.op == UpdateOp::PlusPlus
                || node.op == UnaryOp::Minus && u.op == UpdateOp::MinusMinus),
            Expr::Unary(u) => node.op == UnaryOp::Plus && u.op == UnaryOp::Plus || node.op
                == UnaryOp::Minus && u.op == UnaryOp::Minus,
            _ => false,
        }
    }
}

/// An import or export, by its kind.
pub open spec fn module_decl(cx: &Env, s: State, node: &ModuleDecl) -> State
    decreases node.size(), 0nat,
{
    match node {
        ModuleDecl::Import(x) => import_decl(cx, s, x),
        ModuleDecl::ExportDecl(x) => {
            let s = s.keyword("export"@).space();
            decl(cx, s, x)
        },
        ModuleDecl::ExportNamed(x) => named_export(cx, s, x),
        ModuleDecl::ExportDefaultDecl(x) => export_default_decl(cx, s, x),
        ModuleDecl::ExportDefaultExpr(x) => {
            let s = s.keyword("export"@).space().keyword("default"@).space();
            let s = expr(cx, s, &**x);
            s.semi()
        },
        ModuleDecl::ExportAll(x) => export_all(cx, s, x),
    }
}

/// `export default` and what it declares; only a variable declaration takes a semicolon.
pub open spec fn export_default_decl(cx: &Env, s: State, node: &ExportDefaultDecl) -> State
    decreases node.size(), 0nat,
{
    let s = s.keyword("export"@).space().keyword("default"@).space();
    match node {
        ExportDefaultDecl::Class(x) => class_expr(cx, s, x),
        ExportDefaultDecl::Fn(x) => fn_expr(cx, s, x),
        ExportDefaultDecl::Var(x) => {
            let s = var_decl(cx, s, x);
            s.semi()
        },
    }
}

/// What an import binds besides its default: after a comma if there is a default, `* as` and the
/// namespace, or the names in braces.
pub open spec fn import_names(cx: &Env, s: State, node: &ImportDecl) -> State
    decreases node.size(), 0nat,
{
    match &node.names {
        Some(x) => {
            let s = if node.default is Some {
                s.punct(","@).formatting_space(cx)
            } else {
                s.formatting_space(cx)
            };
            match x {
                ImportNames::Namespace(n) => {
                    let s = s.punct("*"@).formatting_space(cx).keyword("as"@).space();
                    ident(cx, s, n)
                },
                ImportNames::Named(v) => {
                    list(
                        cx,
                        s,
                        node.span,
                        Some(NodeSeq::ImportSpecifics(v@)),
                        ListFormat { bits: NAMED_IMPORTS_OR_EXPORTS_ELEMENTS },
                    )
                },
            }
        },
        None => s,
    }
}

/// `from` between what an import binds and its source: after a space, which is for the reader
/// where names in braces precede it; nothing where nothing is bound.
pub open spec fn import_from(cx: &Env, s: State, node: &ImportDecl) -> State {
    if node.default is Some || node.names is Some {
        let s = if node.names matches Some(ImportNames::Named(_)) {
            s.formatting_space(cx)
        } else {
            s.space()
        };
        s.keyword("from"@)
    } else {
        s
    }
}

/// `import`, the default binding, the namespace or the names, `from`, the source and a
/// semicolon; with nothing bound, `import` and the source.
pub open spec fn import_decl(cx: &Env, s: State, node: &ImportDecl) -> State
    decreases node.size(), 0nat,
{
    let s = enter(cx, s, node.span);
    let s = s.keyword("import"@);
    let s = match &node.default {
        Some(x) => {
            let s = s.space();
            ident(cx, s, x)
        },
        None => s,
    };
    let s = import_names(cx, s, node);
    let s = import_from(cx, s, node);
    let s = s.formatting_space(cx);
    let s = str_lit(cx, s, &node.src);
    let s = s.semi();
    leave(cx, s, node.span)
}

/// `imported as local`, or `local` alone.
pub open spec fn import_specific(cx: &Env, s: State, node: &ImportSpecific) -> State {
    let s = enter(cx, s, node.span);
    let s = match &node.imported {
        Some(x) => {
            let s = ident(cx, s, x);
            s.space().keyword("as"@).space()
        },
        None => s,
    };
    let s = ident(cx, s, &node.local);
    leave(cx, s, node.span)
}

/// `orig as exported`, or `orig` alone.
pub open spec fn export_specifier(cx: &Env, s: State, node: &ExportSpecifier) -> State {
    let s = enter(cx, s, node.span);
    let s = ident(cx, s, &node.orig);
    let s = match &node.exported {
        Some(x) => {
            let s = s.space().keyword("as"@).space();
            ident(cx, s, x)
        },
        None => s,
    };
    leave(cx, s, node.span)
}

/// `export`, the names in braces, then a space, `from` and the source where there is one, and a
/// semicolon.
pub open spec fn named_export(cx: &Env, s: State, node: &NamedExport) -> State
    decreases node.size(), 0nat,
{
    let s = enter(cx, s, node.span);
    let s = s.keyword("export"@).formatting_space(cx);
    let s = list(
        cx,
        s,
        node.span,
        Some(NodeSeq::ExportSpecifiers(node.specifiers@)),
        ListFormat { bits: NAMED_IMPORTS_OR_EXPORTS_ELEMENTS },
    );
    let s = match &node.src {
        Some(x) => {
            let s = s.space().keyword("from"@);
            str_lit(cx, s, x)
        },
        None => s,
    };
    let s = s.semi();
    leave(cx, s, node.span)
}

/// `export * from src;`.
pub open spec fn export_all(cx: &Env, s: State, node: &ExportAll) -> State {
    let s = enter(cx, s, node.span);
    let s = s.keyword("export"@).space().punct("*"@).formatting_space(cx).keyword("from"@).space();
    let s = str_lit(cx, s, &node.src);
    let s = s.semi();
    leave(cx, s, node.span)
}

/// An expression, or `super`.
pub open spec fn expr_or_super(cx: &Env, s: State, node: &ExprOrSuper) -> State
    decreases node.size(), 0nat,
{
    match node {
        ExprOrSuper::Expr(x) => expr(cx, s, &**x),
        ExprOrSuper::Super(_) => s.keyword("super"@),
    }
}

/// An expression, by its kind.
pub open spec fn expr(cx: &Env, s: State, node: &Expr) -> State
    decreases node.size(), 0nat,
{
    match node {
        Expr::This(x) => this_expr(cx, s, x),
        Expr::Array(x) => array_lit(cx, s, x),
        Expr::Object(x) => object_lit(cx, s, x),
        Expr::Fn(x) => fn_expr(cx, s, x),
        Expr::Unary(x) => unary_expr(cx, s, x),
        Expr::Update(x) => update_expr(cx, s, x),
        Expr::Bin(x) => bin_expr(cx, s, x),
        Expr::Assign(x) => assign_expr(cx, s, x),
        Expr::Member(x) => member_expr(cx, s, x),
        Expr::Cond(x) => cond_expr(cx, s, x),
        Expr::Call(x) => call_expr(cx, s, x),
        Expr::New(x) => new_expr(cx, s, x),
        Expr::Sequence(x) => seq_expr(cx, s, x),
        Expr::Ident(x) => ident(cx, s, x),
        Expr::Lit(x) => lit(cx, s, x),
        Expr::Tpl(x) => tpl_lit(cx, s, x),
        Expr::Arrow(x) => arrow_expr(cx, s, x),
        Expr::Class(x) => class_expr(cx, s, x),
        Expr::Yield(x) => yield_expr(cx, s, x),
        Expr::MetaProp(x) => meta_prop_expr(cx, s, x),
        Expr::Await(x) => await_expr(cx, s, x),
        Expr::Paren(x) => paren_expr(cx, s, x),
    }
}

/// The callee, then the arguments in parentheses.
pub open spec fn call_expr(cx: &Env, s: State, node: &CallExpr) -> State
    decreases node.size(), 0nat,
{
    let s = enter(cx, s, node.span);
    let s = expr_or_super(cx, s, &node.callee);
    let s = list(
        cx,
        s,
        node.span,
        Some(NodeSeq::ExprOrSpreads(node.args@)),
        call_format(cx),
    );
    leave(cx, s, node.span)
}

/// `new`, a space, the callee, then the arguments in parentheses where there are any.
pub open spec fn new_expr(cx: &Env, s: State, node: &NewExpr) -> State
    decreases node.size(), 0nat,
{
    let s = enter(cx, s, node.span);
    let s = s.keyword("new"@).space();
    let s = expr(cx, s, &*node.callee);
    let s = match &node.args {
        Some(x) => {
            list(
                cx,
                s,
                node.span,
                Some(NodeSeq::ExprOrSpreads(x@)),
                call_format(cx),
            )
        },
        None => s,
    };
    leave(cx, s, node.span)
}

/// The object, then the property in square brackets if it is computed, after a dot if not:
/// after two dots where one would read as a decimal point.
pub open spec fn member_expr(cx: &Env, s: State, node: &MemberExpr) -> State
    decreases node.size(), 0nat,
{
    let s = enter(cx, s, node.span);
    let s = expr_or_super(cx, s, &node.obj);
    let s = if node.computed {
        let s = s.punct("["@);
        let s = expr(cx, s, &*node.prop);
        s.punct("]"@)
    } else {
        let s = if needs_2dots(cx, &node.obj) {
            s.punct("."@)
        } else {
            s
        };
        let s = s.punct("."@);
        expr(cx, s, &*node.prop)
    };
    leave(cx, s, node.span)
}

/// `async`, the parameters in parentheses, `=>` and the body.
pub open spec fn arrow_expr(cx: &Env, s: State, node: &ArrowExpr) -> State
    decreases node.size(), 0nat,
{
    let s = enter(cx, s, node.span);
    let s = if node.is_async {
        s.keyword("async"@).formatting_space(cx)
    } else {
        s
    };
    let s = if node.is_generator {
        s.punct("*"@)
    } else {
        s
    };
    let s = s.punct("("@);
    let s = list(
        cx,
        s,
        node.span,
        Some(NodeSeq::Pats(node.params@)),
        ListFormat { bits: COMMA_LIST_ELEMENTS },
    );
    let s = s.punct(")"@).punct("=>"@);
    let s = block_stmt_or_expr(cx, s, &node.body);
    leave(cx, s, node.span)
}

/// `meta.prop`.
pub open spec fn meta_prop_expr(cx: &Env, s: State, node: &MetaPropExpr) -> State {
    let s = enter(cx, s, node.span);
    let s = ident(cx, s, &node.meta);
    let s = s.punct("."@);
    let s = ident(cx, s, &node.prop);
    leave(cx, s, node.span)
}

/// The expressions, separated by commas.
pub open spec fn seq_expr(cx: &Env, s: State, node: &SeqExpr) -> State
    decreases node.size(), 0nat,
{
    let s = enter(cx, s, node.span);
    let s = list(
        cx,
        s,
        node.span,
        Some(NodeSeq::Exprs(node.exprs@)),
        ListFormat { bits: COMMA_LIST_ELEMENTS },
    );
    leave(cx, s, node.span)
}

/// `left op right`, with spaces for the reader.
pub open spec fn assign_expr(cx: &Env, s: State, node: &AssignExpr) -> State
    decreases node.size(), 0nat,
{
    let s = enter(cx, s, node.span);
    let s = pat_or_expr(cx, s, &node.left);
    let s = s.formatting_space(cx).operator(node.op.text()).formatting_space(cx);
    let s = expr(cx, s, &*node.right);
    leave(cx, s, node.span)
}

/// `left op right`, with spaces for the reader; `in` and `instanceof` are written as words.
pub open spec fn bin_expr(cx: &Env, s: State, node: &BinExpr) -> State
    decreases node.size(), 0nat,
{
    let s = enter(cx, s, node.span);
    let s = expr(cx, s, &*node.left);
    let s = s.formatting_space(cx).operator_or_word(node.op.is_word(), node.op.text());
    let s = s.formatting_space(cx);
    let s = expr(cx, s, &*node.right);
    leave(cx, s, node.span)
}

/// `class`, the name after a space where there is one, then the rest of the class.
pub open spec fn class_expr(cx: &Env, s: State, node: &ClassExpr) -> State
    decreases node.size(), 0nat,
{
    let s = enter(cx, s, node.span);
    let s = s.keyword("class"@);
    let s = match &node.ident {
        Some(x) => {
            let s = s.space();
            ident(cx, s, x)
        },
        None => s,
    };
    let s = class_trailing(cx, s, &node.class);
    leave(cx, s, node.span)
}

/// `extends` and the parent class where there is one, then the members in braces.
pub open spec fn class_trailing(cx: &Env, s: State, node: &Class) -> State
    decreases node.size(), 0nat,
{
    let s = enter(cx, s, node.span);
    let s = match &node.super_class {
        Some(x) => {
            let s = s.space().keyword("extends"@).space();
            expr(cx, s, &**x)
        },
        None => s,
    };
    let s = list(
        cx,
        s,
        node.span,
        Some(NodeSeq::ClassMethods(node.body@)),
        ListFormat { bits: CLASS_MEMBERS },
    );
    leave(cx, s, node.span)
}

/// `static`, then what the kind asks for before the key (`constructor` in place of the key),
/// then the parameters and the body.
pub open spec fn class_method(cx: &Env, s: State, node: &ClassMethod) -> State
    decreases node.size(), 0nat,
{
    let s = enter(cx, s, node.span);
    let s = if node.is_static {
        s.keyword("static"@).space()
    } else {
        s
    };
    let s = match node.kind {
        ClassMethodKind::Constructor => s.keyword("constructor"@),
        ClassMethodKind::Method => {
            let s = if node.function.is_async {
                s.keyword("async"@).space()
            } else {
                s
            };
            let s = if node.function.is_generator {
                s.punct("*"@)
            } else {
                s
            };
            prop_name(cx, s, &node.key)
        },
        ClassMethodKind::Getter => {
            let s = s.keyword("get"@).space();
            prop_name(cx, s, &node.key)
        },
        ClassMethodKind::Setter => {
            let s = s.keyword("set"@).space();
            prop_name(cx, s, &node.key)
        },
    };
    let s = fn_trailing(cx, s, &node.function);
    leave(cx, s, node.span)
}

/// A key: a name, a string, a number, or an expression in square brackets.
pub open spec fn prop_name(cx: &Env, s: State, node: &PropName) -> State
    decreases node.size(), 0nat,
{
    match node {
        PropName::Ident(x) => ident(cx, s, x),
        PropName::Str(x) => str_lit(cx, s, x),
        PropName::Num(x) => num_lit(cx, s, x),
        PropName::Computed(x) => {
            let s = s.punct("["@);
            let s = expr(cx, s, &**x);
            s.punct("]"@)
        },
    }
}

/// `test ? cons : alt`, with spaces for the reader.
pub open spec fn cond_expr(cx: &Env, s: State, node: &CondExpr) -> State
    decreases node.size(), 0nat,
{
    let s = enter(cx, s, node.span);
    let s = expr(cx, s, &*node.test);
    let s = s.formatting_space(cx).punct("?"@).formatting_space(cx);
    let s = expr(cx, s, &*node.cons);
    let s = s.formatting_space(cx).punct(":"@).formatting_space(cx);
    let s = expr(cx, s, &*node.alt);
    leave(cx, s, node.span)
}

/// `async`, `function`, `*`, the name after a space where there is one, then the parameters
/// and the body.
pub open spec fn fn_expr(cx: &Env, s: State, node: &FnExpr) -> State
    decreases node.size(), 0nat,
{
    let s = enter(cx, s, node.span);
    let s = if node.function.is_async {
        s.keyword("async"@).space()
    } else {
        s
    };
    let s = s.keyword("function"@);
    let s = if node.function.is_generator {
        s.punct("*"@)
    } else {
        s
    };
    let s = match &node.ident {
        Some(x) => {
            let s = s.space();
            ident(cx, s, x)
        },
        None => s,
    };
    let s = fn_trailing(cx, s, &node.function);
    leave(cx, s, node.span)
}

/// The parameters in parentheses, then the body: `(b) {}` of `function a(b) {}`.
pub open spec fn fn_trailing(cx: &Env, s: State, node: &Function) -> State
    decreases node.size(), 0nat,
{
    let s = enter(cx, s, node.span);
    let s = s.punct("("@);
    let s = list(
        cx,
        s,
        node.span,
        Some(NodeSeq::Pats(node.params@)),
        ListFormat { bits: COMMA_LIST_ELEMENTS },
    );
    let s = s.punct(")"@).formatting_space(cx);
    let s = block_stmt(cx, s, &node.body);
    leave(cx, s, node.span)
}

/// The body of an arrow function; an expression is written one stop deeper.
pub open spec fn block_stmt_or_expr(cx: &Env, s: State, node: &BlockStmtOrExpr) -> State
    decreases node.size(), 0nat,
{
    match node {
        BlockStmtOrExpr::BlockStmt(x) => block_stmt(cx, s, x),
        BlockStmtOrExpr::Expr(x) => {
            let took = s.deepens();
            let s = s.increase_indent();
            let s = expr(cx, s, &**x);
            s.back(took)
        },
    }
}

/// `this`.
pub open spec fn this_expr(cx: &Env, s: State, node: &ThisExpr) -> State {
    let s = enter(cx, s, node.span);
    let s = s.keyword("this"@);
    leave(cx, s, node.span)
}

/// A static part of a template, as it was written.
pub open spec fn quasi(cx: &Env, s: State, node: &TplElement) -> State {
    let s = enter(cx, s, node.span);
    let s = s.str_lit(cx, node.span, node.raw@);
    leave(cx, s, node.span)
}

/// The operator, a space where the operand would otherwise run into it, then the operand.
pub open spec fn unary_expr(cx: &Env, s: State, node: &UnaryExpr) -> State
    decreases node.size(), 0nat,
{
    let s = enter(cx, s, node.span);
    let s = s.operator_or_word(node.op.is_word(), node.op.text());
    let s = if needs_space_before_operand(cx, node) {
        s.space()
    } else {
        s
    };
    let s = expr(cx, s, &*node.arg);
    leave(cx, s, node.span)
}

/// `++arg` or `arg++`.
pub open spec fn update_expr(cx: &Env, s: State, node: &UpdateExpr) -> State
    decreases node.size(), 0nat,
{
    let s = enter(cx, s, node.span);
    let s = if node.prefix {
        let s = s.operator(node.op.text());
        expr(cx, s, &*node.arg)
    } else {
        let s = expr(cx, s, &*node.arg);
        s.operator(node.op.text())
    };
    leave(cx, s, node.span)
}

/// `yield`, `*` when delegating, then the argument after a space.
pub open spec fn yield_expr(cx: &Env, s: State, node: &YieldExpr) -> State
    decreases node.size(), 0nat,
{
    let s = enter(cx, s, node.span);
    let s = s.keyword("yield"@);
    let s = if node.delegate {
        s.operator("*"@)
    } else {
        s
    };
    let s = match &node.arg {
        Some(x) => {
            let s = s.space();
            expr(cx, s, &**x)
        },
        None => s,
    };
    leave(cx, s, node.span)
}

/// An argument or element, after `...` when it is spread.
pub open spec fn expr_or_spread(cx: &Env, s: State, node: &ExprOrSpread) -> State
    decreases node.size(), 0nat,
{
    let s = enter(cx, s, node.span);
    let s = if node.spread {
        s.punct("..."@)
    } else {
        s
    };
    let s = expr(cx, s, &*node.expr);
    leave(cx, s, node.span)
}

/// `await arg`.
pub open spec fn await_expr(cx: &Env, s: State, node: &AwaitExpr) -> State
    decreases node.size(), 0nat,
{
    let s = enter(cx, s, node.span);
    let s = s.keyword("await"@).space();
    let s = expr(cx, s, &*node.arg);
    leave(cx, s, node.span)
}

/// The elements in square brackets.
pub open spec fn array_lit(cx: &Env, s: State, node: &ArrayLit) -> State
    decreases node.size(), 0nat,
{
    let s = enter(cx, s, node.span);
    let s = list(
        cx,
        s,
        node.span,
        Some(NodeSeq::ArrayElems(node.elems@)),
        ListFormat { bits: ARRAY_LITERAL_ELEMENTS },
    );
    leave(cx, s, node.span)
}

/// The properties in braces, one to a line.
pub open spec fn object_lit(cx: &Env, s: State, node: &ObjectLit) -> State
    decreases node.size(), 0nat,
{
    let s = enter(cx, s, node.span);
    let s = list(
        cx,
        s,
        node.span,
        Some(NodeSeq::Props(node.props@)),
        ListFormat { bits: OBJECT_LITERAL_PROPERTIES },
    );
    leave(cx, s, node.span)
}

/// A property, by its kind.
pub open spec fn prop(cx: &Env, s: State, node: &Prop) -> State
    decreases node.size(), 0nat,
{
    match node {
        Prop::Shorthand(x) => ident(cx, s, x),
        Prop::KeyValue(x) => kv_prop(cx, s, x),
        Prop::Assign(x) => assign_prop(cx, s, x),
        Prop::Getter(x) => getter_prop(cx, s, x),
        Prop::Setter(x) => setter_prop(cx, s, x),
        Prop::Method(x) => method_prop(cx, s, x),
    }
}

/// `key: value`.
pub open spec fn kv_prop(cx: &Env, s: State, node: &KeyValueProp) -> State
    decreases node.size(), 0nat,
{
    let s = enter(cx, s, node.span);
    let s = prop_name(cx, s, &node.key);
    let s = s.punct(":"@).formatting_space(cx);
    let s = expr(cx, s, &*node.value);
    leave(cx, s, node.span)
}

/// `key=value`.
pub open spec fn assign_prop(cx: &Env, s: State, node: &AssignProp) -> State
    decreases node.size(), 0nat,
{
    let s = enter(cx, s, node.span);
    let s = ident(cx, s, &node.key);
    let s = s.punct("="@);
    let s = expr(cx, s, &*node.value);
    leave(cx, s, node.span)
}

/// `get key () { .. }`.
pub open spec fn getter_prop(cx: &Env, s: State, node: &GetterProp) -> State
    decreases node.size(), 0nat,
{
    let s = enter(cx, s, node.span);
    let s = s.keyword("get"@).space();
    let s = prop_name(cx, s, &node.key);
    let s = s.space().punct("("@).punct(")"@).formatting_space(cx);
    let s = block_stmt(cx, s, &node.body);
    leave(cx, s, node.span)
}

/// `set key (param){ .. }`.
pub open spec fn setter_prop(cx: &Env, s: State, node: &SetterProp) -> State
    decreases node.size(), 0nat,
{
    let s = enter(cx, s, node.span);
    let s = s.keyword("set"@).space();
    let s = prop_name(cx, s, &node.key);
    let s = s.space().punct("("@);
    let s = pat(cx, s, &node.param);
    let s = s.punct(")"@);
    let s = block_stmt(cx, s, &node.body);
    leave(cx, s, node.span)
}

/// `async`, `*`, the key, a space, then the parameters and the body.
pub open spec fn method_prop(cx: &Env, s: State, node: &MethodProp) -> State
    decreases node.size(), 0nat,
{
    let s = enter(cx, s, node.span);
    let s = if node.function.is_async {
        s.keyword("async"@).space()
    } else {
        s
    };
    let s = if node.function.is_generator {
        s.punct("*"@)
    } else {
        s
    };
    let s = prop_name(cx, s, &node.key);
    let s = s.space();
    let s = fn_trailing(cx, s, &node.function);
    leave(cx, s, node.span)
}

/// `(expr)`.
pub open spec fn paren_expr(cx: &Env, s: State, node: &ParenExpr) -> State
    decreases node.size(), 0nat,
{
    let s = enter(cx, s, node.span);
    let s = s.punct("("@);
    let s = expr(cx, s, &*node.expr);
    let s = s.punct(")"@);
    leave(cx, s, node.span)
}

/// A pattern, by its kind.
pub open spec fn pat(cx: &Env, s: State, node: &Pat) -> State
    decreases node.size(), 0nat,
{
    match node {
        Pat::Ident(x) => ident(cx, s, x),
        Pat::Array(x) => array_pat(cx, s, x),
        Pat::Rest(x) => rest_pat(cx, s, x),
        Pat::Object(x) => object_pat(cx, s, x),
        Pat::Assign(x) => assign_pat(cx, s, x),
        Pat::Expr(x) => expr(cx, s, &**x),
    }
}

/// `...arg`.
pub open spec fn rest_pat(cx: &Env, s: State, node: &RestPat) -> State
    decreases node.size(), 0nat,
{
    let s = enter(cx, s, node.span);
    let s = s.punct("..."@);
    let s = pat(cx, s, &*node.arg);
    leave(cx, s, node.span)
}

/// A property, or a spread.
pub open spec fn prop_or_spread(cx: &Env, s: State, node: &PropOrSpread) -> State
    decreases node.size(), 0nat,
{
    match node {
        PropOrSpread::Prop(x) => prop(cx, s, &**x),
        PropOrSpread::Spread(x) => spread_element(cx, s, x),
    }
}

/// `...expr`.
pub open spec fn spread_element(cx: &Env, s: State, node: &SpreadElement) -> State
    decreases node.size(), 0nat,
{
    let s = enter(cx, s, node.span);
    let s = s.punct("..."@);
    let s = expr(cx, s, &*node.expr);
    leave(cx, s, node.span)
}

/// The target of an assignment.
pub open spec fn pat_or_expr(cx: &Env, s: State, node: &PatOrExpr) -> State
    decreases node.size(), 0nat,
{
    match node {
        PatOrExpr::Expr(x) => expr(cx, s, &**x),
        PatOrExpr::Pat(x) => pat(cx, s, &**x),
    }
}

/// The elements in square brackets.
pub open spec fn array_pat(cx: &Env, s: State, node: &ArrayPat) -> State
    decreases node.size(), 0nat,
{
    let s = enter(cx, s, node.span);
    let s = list(
        cx,
        s,
        node.span,
        Some(NodeSeq::ArrayPatElems(node.elems@)),
        ListFormat { bits: ARRAY_BINDING_PATTERN_ELEMENTS },
    );
    leave(cx, s, node.span)
}

/// `left = right`, with spaces for the reader.
pub open spec fn assign_pat(cx: &Env, s: State, node: &AssignPat) -> State
    decreases node.size(), 0nat,
{
    let s = enter(cx, s, node.span);
    let s = pat(cx, s, &*node.left);
    let s = s.formatting_space(cx).punct("="@).formatting_space(cx);
    let s = expr(cx, s, &*node.right);
    leave(cx, s, node.span)
}

/// The properties in braces.
pub open spec fn object_pat(cx: &Env, s: State, node: &ObjectPat) -> State
    decreases node.size(), 0nat,
{
    let s = enter(cx, s, node.span);
    let s = list(
        cx,
        s,
        node.span,
        Some(NodeSeq::ObjectPatProps(node.props@)),
        ListFormat { bits: OBJECT_BINDING_PATTERN_ELEMENTS },
    );
    leave(cx, s, node.span)
}

/// A member of an object pattern, by its kind.
pub open spec fn object_pat_prop(cx: &Env, s: State, node: &ObjectPatProp) -> State
    decreases node.size(), 0nat,
{
    match node {
        ObjectPatProp::KeyValue(x) => object_kv_pat(cx, s, x),
        ObjectPatProp::Assign(x) => object_assign_pat(cx, s, x),
        ObjectPatProp::Rest(x) => rest_pat(cx, s, x),
    }
}

/// `key: value`.
pub open spec fn object_kv_pat(cx: &Env, s: State, node: &KeyValuePatProp) -> State
    decreases node.size(), 0nat,
{
    let s = enter(cx, s, node.span);
    let s = prop_name(cx, s, &node.key);
    let s = s.punct(":"@).formatting_space(cx);
    let s = pat(cx, s, &*node.value);
    leave(cx, s, node.span)
}

/// `key`, or `key = value`.
pub open spec fn object_assign_pat(cx: &Env, s: State, node: &AssignPatProp) -> State
    decreases node.size(), 0nat,
{
    let s = enter(cx, s, node.span);
    let s = ident(cx, s, &node.key);
    let s = match &node.value {
        Some(x) => {
            let s = s.formatting_space(cx).punct("="@).formatting_space(cx);
            expr(cx, s, &**x)
        },
        None => s,
    };
    leave(cx, s, node.span)
}

/// The head of a `for`-`in` or `for`-`of`.
pub open spec fn var_decl_or_pat(cx: &Env, s: State, node: &VarDeclOrPat) -> State
    decreases node.size(), 0nat,
{
    match node {
        VarDeclOrPat::VarDecl(x) => var_decl(cx, s, x),
        VarDeclOrPat::Pat(x) => pat(cx, s, x),
    }
}

/// A declaration, by its kind; a variable declaration takes a semicolon.
pub open spec fn decl(cx: &Env, s: State, node: &Decl) -> State
    decreases node.size(), 0nat,
{
    match node {
        Decl::Class(x) => class_decl(cx, s, x),
        Decl::Fn(x) => fn_decl(cx, s, x),
        Decl::Var(x) => {
            let s = var_decl(cx, s, x);
            s.semi()
        },
    }
}

/// `class`, a space, the name, then the rest of the class.
pub open spec fn class_decl(cx: &Env, s: State, node: &ClassDecl) -> State
    decreases node.size(), 0nat,
{
    let s = enter(cx, s, node.span);
    let s = s.keyword("class"@).space();
    let s = ident(cx, s, &node.ident);
    let s = class_trailing(cx, s, &node.class);
    leave(cx, s, node.span)
}

/// `async`, `function`, `*`, a space, the name, then the parameters and the body.
pub open spec fn fn_decl(cx: &Env, s: State, node: &FnDecl) -> State
    decreases node.size(), 0nat,
{
    let s = enter(cx, s, node.span);
    let s = if node.function.is_async {
        s.keyword("async"@).space()
    } else {
        s
    };
    let s = s.keyword("function"@);
    let s = if node.function.is_generator {
        s.punct("*"@)
    } else {
        s
    };
    let s = s.space();
    let s = ident(cx, s, &node.ident);
    let s = fn_trailing(cx, s, &node.function);
    leave(cx, s, node.span)
}

/// `var`, `let` or `const`, a space, then the declarators separated by commas.
pub open spec fn var_decl(cx: &Env, s: State, node: &VarDecl) -> State
    decreases node.size(), 0nat,
{
    let s = enter(cx, s, node.span);
    let s = s.keyword(node.kind.text()).space();
    let s = list(
        cx,
        s,
        node.span,
        Some(NodeSeq::VarDeclarators(node.decls@)),
        ListFormat { bits: COMMA_LIST_ELEMENTS },
    );
    leave(cx, s, node.span)
}

/// `name`, or `name = init`.
pub open spec fn var_declarator(cx: &Env, s: State, node: &VarDeclarator) -> State
    decreases node.size(), 0nat,
{
    let s = enter(cx, s, node.span);
    let s = pat(cx, s, &node.name);
    let s = match &node.init {
        Some(x) => {
            let s = s.formatting_space(cx).punct("="@).formatting_space(cx);
            expr(cx, s, &**x)
        },
        None => s,
    };
    leave(cx, s, node.span)
}

/// The statements in braces, one to a line.
pub open spec fn block_stmt(cx: &Env, s: State, node: &BlockStmt) -> State
    decreases node.size(), 0nat,
{
    let s = enter(cx, s, node.span);
    let s = list(
        cx,
        s,
        node.span,
        Some(NodeSeq::Stmts(node.stmts@)),
        ListFormat { bits: MULTI_LINE_BLOCK_STATEMENTS },
    );
    leave(cx, s, node.span)
}

/// `;`.
pub open spec fn empty_stmt(cx: &Env, s: State, node: &EmptyStmt) -> State {
    let s = enter(cx, s, node.span);
    let s = s.punct(";"@);
    leave(cx, s, node.span)
}

/// `debugger;`.
pub open spec fn debugger_stmt(cx: &Env, s: State, node: &DebuggerStmt) -> State {
    let s = enter(cx, s, node.span);
    let s = s.keyword("debugger"@).semi();
    leave(cx, s, node.span)
}

/// `with (obj) body`.
pub open spec fn with_stmt(cx: &Env, s: State, node: &WithStmt) -> State
    decreases node.size(), 0nat,
{
    let s = enter(cx, s, node.span);
    let s = s.keyword("with"@).formatting_space(cx).punct("("@);
    let s = expr(cx, s, &*node.obj);
    let s = s.punct(")"@);
    let s = inner_stmt(cx, s, &*node.body);
    leave(cx, s, node.span)
}

/// `return`, the argument after a space where there is one, and a semicolon.
pub open spec fn return_stmt(cx: &Env, s: State, node: &ReturnStmt) -> State
    decreases node.size(), 0nat,
{
    let s = enter(cx, s, node.span);
    let s = s.keyword("return"@);
    let s = match &node.arg {
        Some(x) => {
            let s = s.space();
            expr(cx, s, &**x)
        },
        None => s,
    };
    let s = s.semi();
    leave(cx, s, node.span)
}

/// `label: body`.
pub open spec fn labeled_stmt(cx: &Env, s: State, node: &LabeledStmt) -> State
    decreases node.size(), 0nat,
{
    let s = enter(cx, s, node.span);
    let s = ident(cx, s, &node.label);
    let s = s.punct(":"@).space();
    let s = inner_stmt(cx, s, &*node.body);
    leave(cx, s, node.span)
}

/// `break`, the label after a space where there is one, and a semicolon.
pub open spec fn break_stmt(cx: &Env, s: State, node: &BreakStmt) -> State {
    let s = enter(cx, s, node.span);
    let s = s.keyword("break"@);
    let s = match &node.label {
        Some(x) => {
            let s = s.space();
            ident(cx, s, x)
        },
        None => s,
    };
    let s = s.semi();
    leave(cx, s, node.span)
}

/// `continue`, the label after a space where there is one, and a semicolon.
pub open spec fn continue_stmt(cx: &Env, s: State, node: &ContinueStmt) -> State {
    let s = enter(cx, s, node.span);
    let s = s.keyword("continue"@);
    let s = match &node.label {
        Some(x) => {
            let s = s.space();
            ident(cx, s, x)
        },
        None => s,
    };
    let s = s.semi();
    leave(cx, s, node.span)
}

/// `if (test) cons`, then `else alt` where there is one. The consequent ends its own line
/// unless it is a block; `else` follows a block after a space.
pub open spec fn if_stmt(cx: &Env, s: State, node: &IfStmt) -> State
    decreases node.size(), 0nat,
{
    let s = enter(cx, s, node.span);
    let s = s.keyword("if"@).space().punct("("@);
    let s = expr(cx, s, &*node.test);
    let s = s.punct(")"@).space();
    let s = stmt(cx, s, &*node.cons);
    let s = match &node.alt {
        Some(x) => {
            let s = if *node.cons is Block {
                s.space()
            } else {
                s
            };
            let s = s.keyword("else"@).space();
            inner_stmt(cx, s, &**x)
        },
        None => s,
    };
    leave(cx, s, node.span)
}

/// `switch(discriminant){`, the clauses one to a line, `}`.
pub open spec fn switch_stmt(cx: &Env, s: State, node: &SwitchStmt) -> State
    decreases node.size(), 0nat,
{
    let s = enter(cx, s, node.span);
    let s = s.keyword("switch"@).punct("("@);
    let s = expr(cx, s, &*node.discriminant);
    let s = s.punct(")"@).punct("{"@);
    let s = list(
        cx,
        s,
        node.span,
        Some(NodeSeq::SwitchCases(node.cases@)),
        ListFormat { bits: CASE_BLOCK_CLAUSES },
    );
    let s = s.punct("}"@);
    leave(cx, s, node.span)
}

/// `catch (param) { .. }`.
pub open spec fn catch_clause(cx: &Env, s: State, node: &CatchClause) -> State
    decreases node.size(), 0nat,
{
    let s = enter(cx, s, node.span);
    let s = s.keyword("catch"@).space().punct("("@);
    let s = pat(cx, s, &node.param);
    let s = s.punct(")"@).space();
    let s = block_stmt(cx, s, &node.body);
    leave(cx, s, node.span)
}

/// `throw arg;`.
pub open spec fn throw_stmt(cx: &Env, s: State, node: &ThrowStmt) -> State
    decreases node.size(), 0nat,
{
    let s = enter(cx, s, node.span);
    let s = s.keyword("throw"@).space();
    let s = expr(cx, s, &*node.arg);
    let s = s.semi();
    leave(cx, s, node.span)
}

/// `try`, the block, then the handler and `finally` with its block where there are any.
pub open spec fn try_stmt(cx: &Env, s: State, node: &TryStmt) -> State
    decreases node.size(), 0nat,
{
    let s = enter(cx, s, node.span);
    let s = s.keyword("try"@);
    let s = block_stmt(cx, s, &node.block);
    let s = match &node.handler {
        Some(x) => catch_clause(cx, s, x),
        None => s,
    };
    let s = match &node.finalizer {
        Some(x) => {
            let s = s.keyword("finally"@);
            block_stmt(cx, s, x)
        },
        None => s,
    };
    leave(cx, s, node.span)
}

/// `while(test)body`.
pub open spec fn while_stmt(cx: &Env, s: State, node: &WhileStmt) -> State
    decreases node.size(), 0nat,
{
    let s = enter(cx, s, node.span);
    let s = s.keyword("while"@).punct("("@);
    let s = expr(cx, s, &*node.test);
    let s = s.punct(")"@);
    let s = inner_stmt(cx, s, &*node.body);
    leave(cx, s, node.span)
}

/// `do body while(test);`.
pub open spec fn do_while_stmt(cx: &Env, s: State, node: &DoWhileStmt) -> State
    decreases node.size(), 0nat,
{
    let s = enter(cx, s, node.span);
    let s = s.keyword("do"@).space();
    let s = inner_stmt(cx, s, &*node.body);
    let s = s.formatting_space(cx).keyword("while"@).punct("("@);
    let s = expr(cx, s, &*node.test);
    let s = s.punct(")"@).semi();
    leave(cx, s, node.span)
}

/// `for(init; test; update)body`; each of the three may be missing.
pub open spec fn for_stmt(cx: &Env, s: State, node: &ForStmt) -> State
    decreases node.size(), 0nat,
{
    let s = enter(cx, s, node.span);
    let s = s.keyword("for"@).punct("("@);
    let s = match &node.init {
        Some(x) => var_decl_or_expr(cx, s, x),
        None => s,
    };
    let s = s.punct(";"@);
    let s = match &node.test {
        Some(x) => {
            let s = s.formatting_space(cx);
            expr(cx, s, &**x)
        },
        None => s,
    };
    let s = s.punct(";"@);
    let s = match &node.update {
        Some(x) => {
            let s = s.formatting_space(cx);
            expr(cx, s, &**x)
        },
        None => s,
    };
    let s = s.punct(")"@);
    let s = inner_stmt(cx, s, &*node.body);
    leave(cx, s, node.span)
}

/// `for(left in right)body`.
pub open spec fn for_in_stmt(cx: &Env, s: State, node: &ForInStmt) -> State
    decreases node.size(), 0nat,
{
    let s = enter(cx, s, node.span);
    let s = s.keyword("for"@).punct("("@);
    let s = var_decl_or_pat(cx, s, &node.left);
    let s = s.space().keyword("in"@).space();
    let s = expr(cx, s, &*node.right);
    let s = s.punct(")"@);
    let s = inner_stmt(cx, s, &*node.body);
    leave(cx, s, node.span)
}

/// `for(left of right)body`.
pub open spec fn for_of_stmt(cx: &Env, s: State, node: &ForOfStmt) -> State
    decreases node.size(), 0nat,
{
    let s = enter(cx, s, node.span);
    let s = s.keyword("for"@).punct("("@);
    let s = var_decl_or_pat(cx, s, &node.left);
    let s = s.space().keyword("of"@).space();
    let s = expr(cx, s, &*node.right);
    let s = s.punct(")"@);
    let s = inner_stmt(cx, s, &*node.body);
    leave(cx, s, node.span)
}

/// The initialiser of a `for`.
pub open spec fn var_decl_or_expr(cx: &Env, s: State, node: &VarDeclOrExpr) -> State
    decreases node.size(), 0nat,
{
    match node {
        VarDeclOrExpr::VarDecl(x) => var_decl(cx, s, x),
        VarDeclOrExpr::Expr(x) => expr(cx, s, &**x),
    }
}

/// The children of a list, by their kind.
pub enum NodeSeq {
    /// Statements; the list decides where their lines break.
    Stmts(Seq<Stmt>),
    /// Arguments.
    ExprOrSpreads(Seq<ExprOrSpread>),
    /// The elements of an array literal; a hole writes nothing.
    ArrayElems(Seq<Option<ExprOrSpread>>),
    /// The members of an object literal.
    Props(Seq<PropOrSpread>),
    /// Parameters.
    Pats(Seq<Pat>),
    /// The elements of an array pattern; a hole writes nothing.
    ArrayPatElems(Seq<Option<Pat>>),
    /// The members of an object pattern.
    ObjectPatProps(Seq<ObjectPatProp>),
    /// The members of a class.
    ClassMethods(Seq<ClassMethod>),
    /// The clauses of a `switch`.
    SwitchCases(Seq<SwitchCase>),
    /// The declarators of a variable declaration.
    VarDeclarators(Seq<VarDeclarator>),
    /// The names of an import.
    ImportSpecifics(Seq<ImportSpecific>),
    /// The names of an export.
    ExportSpecifiers(Seq<ExportSpecifier>),
    /// The expressions of a sequence.
    Exprs(Seq<Box<Expr>>),
}

impl NodeSeq {
    pub open spec fn len(self) -> nat {
        match self {
            NodeSeq::Stmts(v) => v.len(),
            NodeSeq::ExprOrSpreads(v) => v.len(),
            NodeSeq::ArrayElems(v) => v.len(),
            NodeSeq::Props(v) => v.len(),
            NodeSeq::Pats(v) => v.len(),
            NodeSeq::ArrayPatElems(v) => v.len(),
            NodeSeq::ObjectPatProps(v) => v.len(),
            NodeSeq::ClassMethods(v) => v.len(),
            NodeSeq::SwitchCases(v) => v.len(),
            NodeSeq::VarDeclarators(v) => v.len(),
            NodeSeq::ImportSpecifics(v) => v.len(),
            NodeSeq::ExportSpecifiers(v) => v.len(),
            NodeSeq::Exprs(v) => v.len(),
        }
    }

    /// One more than the sizes of the children, summed.
    pub open spec fn size(self) -> nat {
        match self {
            NodeSeq::Stmts(v) => 1 + stmts_size(v, 0),
            NodeSeq::ExprOrSpreads(v) => 1 + expr_or_spreads_size(v, 0),
            NodeSeq::ArrayElems(v) => 1 + array_elems_size(v, 0),
            NodeSeq::Props(v) => 1 + props_size(v, 0),
            NodeSeq::Pats(v) => 1 + pats_size(v, 0),
            NodeSeq::ArrayPatElems(v) => 1 + array_pat_elems_size(v, 0),
            NodeSeq::ObjectPatProps(v) => 1 + object_pat_props_size(v, 0),
            NodeSeq::ClassMethods(v) => 1 + class_methods_size(v, 0),
            NodeSeq::SwitchCases(v) => 1 + switch_cases_size(v, 0),
            NodeSeq::VarDeclarators(v) => 1 + var_declarators_size(v, 0),
            NodeSeq::ImportSpecifics(v) => 1 + import_specifics_size(v, 0),
            NodeSeq::ExportSpecifiers(v) => 1 + export_specifiers_size(v, 0),
            NodeSeq::Exprs(v) => 1 + exprs_size(v, 0),
        }
    }

    /// The span of the child at `i`; a hole has the dummy span.
    pub open spec fn span_at(self, i: int) -> Span {
        match self {
            NodeSeq::Stmts(v) => v[i].span(),
            NodeSeq::ExprOrSpreads(v) => v[i].span,
            NodeSeq::ArrayElems(v) => match v[i] {
                Some(x) => x.span,
                None => dummy_span(),
            },
            NodeSeq::Props(v) => v[i].span(),
            NodeSeq::Pats(v) => v[i].span(),
            NodeSeq::ArrayPatElems(v) => match v[i] {
                Some(x) => x.span(),
                None => dummy_span(),
            },
            NodeSeq::ObjectPatProps(v) => v[i].span(),
            NodeSeq::ClassMethods(v) => v[i].span,
            NodeSeq::SwitchCases(v) => v[i].span,
            NodeSeq::VarDeclarators(v) => v[i].span,
            NodeSeq::ImportSpecifics(v) => v[i].span,
            NodeSeq::ExportSpecifiers(v) => v[i].span,
            NodeSeq::Exprs(v) => v[i].span(),
        }
    }

    /// The last child is a hole: only a comma after it tells that it is there.
    pub open spec fn ends_with_hole(self) -> bool {
        match self {
            NodeSeq::ArrayElems(v) => v.len() > 0 && v.last() is None,
            NodeSeq::ArrayPatElems(v) => v.len() > 0 && v.last() is None,
            _ => false,
        }
    }
}

/// What the child at `i` writes; nothing where there is no such child.
pub open spec fn child(cx: &Env, s: State, c: NodeSeq, i: int) -> State
    decreases c.size(), 0nat,
    via child_decreases
{
    if 0 <= i < c.len() {
        match c {
            NodeSeq::Stmts(v) => inner_stmt(cx, s, &v[i]),
            NodeSeq::ExprOrSpreads(v) => expr_or_spread(cx, s, &v[i]),
            NodeSeq::ArrayElems(v) => match &v[i] {
                Some(x) => expr_or_spread(cx, s, x),
                None => s,
            },
            NodeSeq::Props(v) => prop_or_spread(cx, s, &v[i]),
            NodeSeq::Pats(v) => pat(cx, s, &v[i]),
            NodeSeq::ArrayPatElems(v) => match &v[i] {
                Some(x) => pat(cx, s, x),
                None => s,
            },
            NodeSeq::ObjectPatProps(v) => object_pat_prop(cx, s, &v[i]),
            NodeSeq::ClassMethods(v) => class_method(cx, s, &v[i]),
            NodeSeq::SwitchCases(v) => switch_case(cx, s, &v[i]),
            NodeSeq::VarDeclarators(v) => var_declarator(cx, s, &v[i]),
            NodeSeq::ImportSpecifics(v) => import_specific(cx, s, &v[i]),
            NodeSeq::ExportSpecifiers(v) => export_specifier(cx, s, &v[i]),
            NodeSeq::Exprs(v) => expr(cx, s, &*v[i]),
        }
    } else {
        s
    }
}

#[via_fn]
proof fn child_decreases(cx: &Env, s: State, c: NodeSeq, i: int) {
    if 0 <= i < c.len() {
        match c {
            NodeSeq::Stmts(v) => lemma_stmts_size(v, 0, i),
            NodeSeq::ExprOrSpreads(v) => lemma_expr_or_spreads_size(v, 0, i),
            NodeSeq::ArrayElems(v) => lemma_array_elems_size(v, 0, i),
            NodeSeq::Props(v) => lemma_props_size(v, 0, i),
            NodeSeq::Pats(v) => lemma_pats_size(v, 0, i),
            NodeSeq::ArrayPatElems(v) => lemma_array_pat_elems_size(v, 0, i),
            NodeSeq::ObjectPatProps(v) => lemma_object_pat_props_size(v, 0, i),
            NodeSeq::ClassMethods(v) => lemma_class_methods_size(v, 0, i),
            NodeSeq::SwitchCases(v) => lemma_switch_cases_size(v, 0, i),
            NodeSeq::VarDeclarators(v) => lemma_var_declarators_size(v, 0, i),
            NodeSeq::ImportSpecifics(v) => lemma_import_specifics_size(v, 0, i),
            NodeSeq::ExportSpecifiers(v) => lemma_export_specifiers_size(v, 0, i),
            NodeSeq::Exprs(v) => lemma_exprs_size(v, 0, i),
        }
    }
}

/// What separates two children: the delimiter, after a space for the bar and
/// the ampersand.
pub open spec fn delimiter(s: State, format: ListFormat) -> State {
    if format.intersects(DELIMITERS_MASK) {
        let s = if format.delimiter_has_leading_space() {
            s.space()
        } else {
            s
        };
        s.punct(format.spec_delimiter())
    } else {
        s
    }
}

/// Whether a line break goes before the child at `i`: after the opening of
/// the list for the first child, after its predecessor for any other.
pub open spec fn breaks_before(
    cx: &Env,
    parent: Span,
    c: NodeSeq,
    format: ListFormat,
    start: int,
    i: int,
) -> bool {
    if i == start {
        cx.cm.should_write_leading_line_terminator(parent, c.span_at(i), format)
    } else {
        cx.cm.should_write_separating_line_terminator(c.span_at(i - 1), c.span_at(i), format)
    }
}

/// A child that starts a line in a list that is neither multi-line nor
/// indented is written one stop deeper.
pub open spec fn deeper(
    cx: &Env,
    parent: Span,
    c: NodeSeq,
    format: ListFormat,
    start: int,
    i: int,
) -> bool {
    i > start && breaks_before(cx, parent, c, format, start, i) && format.bits & (LINES_MASK
        | INDENTED) == SINGLE_LINE
}

/// What follows the child at `i - 1` at once: the comments that lead its
/// end, then the delimiter.
pub open spec fn delimited(
    cx: &Env,
    s: State,
    parent: Span,
    c: NodeSeq,
    format: ListFormat,
    i: int,
) -> State {
    let prev = c.span_at(i - 1);
    let s = if format.intersects(DELIMITERS_MASK) && prev.hi != parent.hi {
        leading_comments(cx, s, prev.hi)
    } else {
        s
    };
    delimiter(s, format)
}

/// The child at `i` is written one stop deeper, and the writer can go there:
/// only then is the way back owed after the child.
pub open spec fn item_deepens(
    cx: &Env,
    s: State,
    parent: Span,
    c: NodeSeq,
    format: ListFormat,
    start: int,
    i: int,
) -> bool {
    deeper(cx, parent, c, format, start, i) && delimited(cx, s, parent, c, format, i).deepens()
}

/// What stands between the child at `i - 1` and the child at `i`: the
/// comments that lead the end of the former, the delimiter, then a line
/// break or a space.
pub open spec fn separator(
    cx: &Env,
    s: State,
    parent: Span,
    c: NodeSeq,
    format: ListFormat,
    start: int,
    i: int,
) -> State {
    let s = delimited(cx, s, parent, c, format, i);
    if breaks_before(cx, parent, c, format, start, i) {
        let s = if deeper(cx, parent, c, format, start, i) {
            s.increase_indent()
        } else {
            s
        };
        s.line(cx)
    } else if format.contains(SPACE_BETWEEN_SIBLINGS) {
        s.formatting_space(cx)
    } else {
        s
    }
}

/// What precedes the child at `i`: the separator, unless it is the first,
/// then the comments that trail its end, unless a line break was just
/// written or the format keeps comments out.
pub open spec fn before_child(
    cx: &Env,
    s: State,
    parent: Span,
    c: NodeSeq,
    format: ListFormat,
    start: int,
    i: int,
) -> State {
    let s = if i > start {
        separator(cx, s, parent, c, format, start, i)
    } else {
        s
    };
    if !format.intersects(NO_INTERVENING_COMMENTS) && !breaks_before(
        cx,
        parent,
        c,
        format,
        start,
        i,
    ) {
        trailing_comments(cx, s, c.span_at(i).hi, false)
    } else {
        s
    }
}

/// The child at `i` with what precedes it and, if it was written one stop
/// deeper, the way back: whether or not the writer has failed meanwhile.
pub open spec fn item(
    cx: &Env,
    s: State,
    parent: Span,
    c: NodeSeq,
    format: ListFormat,
    start: int,
    i: int,
) -> State
    decreases c.size(), 1nat,
{
    let took = item_deepens(cx, s, parent, c, format, start, i);
    let s = before_child(cx, s, parent, c, format, start, i);
    child(cx, s, c, i).back(took)
}

/// The children from `i` up to `end`, each with what precedes and follows it.
pub open spec fn list_items(
    cx: &Env,
    s: State,
    parent: Span,
    c: NodeSeq,
    format: ListFormat,
    start: int,
    end: int,
    i: int,
) -> State
    decreases c.size(), 2nat, end - i,
{
    if start <= i < end {
        list_items(cx, item(cx, s, parent, c, format, start, i), parent, c, format, start, end, i + 1)
    } else {
        s
    }
}

pub open spec fn seq_len(children: Option<NodeSeq>) -> nat {
    match children {
        Some(c) => c.len(),
        None => 0,
    }
}

pub open spec fn seq_size(children: Option<NodeSeq>) -> nat {
    match children {
        Some(c) => c.size(),
        None => 0,
    }
}

/// A list has nothing to write between its brackets: it is absent, or the
/// range asked for holds no child.
pub open spec fn list_is_empty(children: Option<NodeSeq>, start: int, count: int) -> bool {
    children is None || count <= 0 || start >= seq_len(children)
}

/// Where the range asked for ends: `count` children on from `start`, or at
/// the last child if there are fewer.
pub open spec fn list_end(children: Option<NodeSeq>, start: int, count: int) -> int {
    if count <= seq_len(children) - start {
        start + count
    } else {
        seq_len(children) as int
    }
}

/// The opening bracket, with the comments that trail the start of an empty
/// list.
pub open spec fn list_open(
    cx: &Env,
    s: State,
    parent: Span,
    format: ListFormat,
    empty: bool,
) -> State {
    if format.intersects(BRACKETS_MASK) {
        let s = s.punct(format.spec_opening_bracket());
        if empty {
            trailing_comments(cx, s, parent.lo, true)
        } else {
            s
        }
    } else {
        s
    }
}

/// The closing bracket, after the comments that lead the end of an empty
/// list.
pub open spec fn list_close(
    cx: &Env,
    s: State,
    parent: Span,
    format: ListFormat,
    empty: bool,
) -> State {
    if format.intersects(BRACKETS_MASK) {
        let s = if empty {
            leading_comments(cx, s, parent.hi)
        } else {
            s
        };
        s.punct(format.spec_closing_bracket())
    } else {
        s
    }
}

/// What an empty list holds between its brackets: a line break if it is
/// multi-line, else a space if it has one between its braces and keeps it
/// when empty.
pub open spec fn list_empty_body(cx: &Env, s: State, format: ListFormat) -> State {
    if format.contains(MULTI_LINE) {
        s.line(cx)
    } else if format.contains(SPACE_BETWEEN_BRACES) && !format.contains(NO_SPACE_IF_EMPTY) {
        s.formatting_space(cx)
    } else {
        s
    }
}

/// What precedes the first child before the list goes deeper: a line break
/// or a space.
pub open spec fn list_space(
    cx: &Env,
    s: State,
    parent: Span,
    c: NodeSeq,
    format: ListFormat,
    start: int,
) -> State {
    if breaks_before(cx, parent, c, format, start, start) {
        s.line(cx)
    } else if format.contains(SPACE_BETWEEN_BRACES) {
        s.formatting_space(cx)
    } else {
        s
    }
}

/// The list is indented, and the writer can go one stop deeper: only then
/// is the way back owed after the last child.
pub open spec fn list_deepens(
    cx: &Env,
    s: State,
    parent: Span,
    c: NodeSeq,
    format: ListFormat,
    start: int,
) -> bool {
    format.contains(INDENTED) && list_space(cx, s, parent, c, format, start).deepens()
}

/// What precedes the first child: a line break or a space, then a stop
/// deeper if the list is indented.
pub open spec fn list_lead(
    cx: &Env,
    s: State,
    parent: Span,
    c: NodeSeq,
    format: ListFormat,
    start: int,
) -> State {
    let s = list_space(cx, s, parent, c, format, start);
    if format.contains(INDENTED) {
        s.increase_indent()
    } else {
        s
    }
}

/// A comma follows the last child where the format allows one and the list
/// ends in a hole, which would not be there without it.
pub open spec fn has_trailing_comma(c: NodeSeq, format: ListFormat, end: int) -> bool {
    format.contains(ALLOW_TRAILING_COMMA) && format.contains(COMMA_DELIMITED) && end == c.len()
        && c.ends_with_hole()
}

/// What follows the last child, which ended at `end - 1`: the trailing comma,
/// the comments that lead the end of the child, the stop back if the list
/// took one, then a line break or a space.
pub open spec fn list_trail(
    cx: &Env,
    s: State,
    parent: Span,
    c: NodeSeq,
    format: ListFormat,
    end: int,
    took: bool,
) -> State {
    let last = c.span_at(end - 1);
    let s = if has_trailing_comma(c, format, end) {
        s.punct(","@)
    } else {
        s
    };
    let s = if format.intersects(DELIMITERS_MASK) && last.hi != parent.hi {
        leading_comments(cx, s, last.hi)
    } else {
        s
    };
    let s = s.back(took);
    if cx.cm.should_write_closing_line_terminator(parent, last, format) {
        s.line(cx)
    } else if format.contains(SPACE_BETWEEN_BRACES) {
        s.formatting_space(cx)
    } else {
        s
    }
}

/// `count` children from `start` on, under `format`.
///
/// Nothing at all for an absent list that the format lets go, and for an
/// empty one that it lets go. Otherwise the opening bracket, the children
/// with their delimiters, line breaks, spaces and comments, and the closing
/// bracket.
pub open spec fn list5(
    cx: &Env,
    s: State,
    parent: Span,
    children: Option<NodeSeq>,
    format: ListFormat,
    start: int,
    count: int,
) -> State
    decreases seq_size(children), 3nat,
{
    let empty = list_is_empty(children, start, count);
    if children is None && format.contains(OPTIONAL_IF_UNDEFINED) {
        s
    } else if empty && format.contains(OPTIONAL_IF_EMPTY) {
        s
    } else {
        let s = list_open(cx, s, parent, format, empty);
        let s = match children {
            Some(c) if !empty => {
                let end = list_end(children, start, count);
                let took = list_deepens(cx, s, parent, c, format, start);
                let s = list_lead(cx, s, parent, c, format, start);
                let s = list_items(cx, s, parent, c, format, start, end, start);
                list_trail(cx, s, parent, c, format, end, took)
            },
            _ => list_empty_body(cx, s, format),
        };
        list_close(cx, s, parent, format, empty)
    }
}

/// All the children, under `format`.
pub open spec fn list(
    cx: &Env,
    s: State,
    parent: Span,
    children: Option<NodeSeq>,
    format: ListFormat,
) -> State
    decreases seq_size(children), 4nat,
{
    list5(cx, s, parent, children, format, 0, seq_len(children) as int)
}

/// A literal, by its kind. The slashes of a regular expression are written as
/// operators, so that they stand off from a `/` beside them.
pub open spec fn lit(cx: &Env, s: State, node: &Lit) -> State {
    match node {
        Lit::Str(x) => str_lit(cx, s, x),
        Lit::Num(x) => num_lit(cx, s, x),
        Lit::Bool(x) => {
            let s = enter(cx, s, x.span);
            let s = if x.value {
                s.keyword_at(cx, x.span, "true"@)
            } else {
                s.keyword_at(cx, x.span, "false"@)
            };
            leave(cx, s, x.span)
        },
        Lit::Null(x) => {
            let s = enter(cx, s, x.span);
            let s = s.keyword_at(cx, x.span, "null"@);
            leave(cx, s, x.span)
        },
        Lit::Regex(x) => {
            let s = enter(cx, s, x.span);
            let s = s.operator("/"@);
            let s = s.regex(x.exp.value@);
            let s = s.operator("/"@);
            let s = match &x.flags {
                Some(f) => s.regex(f.value@),
                None => s,
            };
            leave(cx, s, x.span)
        },
    }
}

/// A string literal: as the source had it, else quoted.
pub open spec fn str_lit(cx: &Env, s: State, node: &Str) -> State {
    let s = enter(cx, s, node.span);
    let s = s.str_lit(cx, node.span, str_text(cx, node));
    leave(cx, s, node.span)
}

/// A numeric literal: its digits, or the name of an infinity after its sign.
/// The sign of a value that was not read from the source is written as an
/// operator, so that it stands off from a `-` before it.
pub open spec fn num_lit(cx: &Env, s: State, node: &Number) -> State {
    let s = enter(cx, s, node.span);
    let s = match num_digits(cx, node) {
        Some(t) => if source_text(cx, node.span) is None && t.len() > 0 && t[0] == '-' {
            s.operator("-"@).number(cx, node.span, t.subrange(1, t.len() as int))
        } else {
            s.number(cx, node.span, t)
        },
        None => {
            let s = if node.value is NegInfinity {
                s.operator("-"@)
            } else {
                s
            };
            s.number(cx, node.span, "Infinity"@)
        },
    };
    leave(cx, s, node.span)
}

/// An identifier: as the source had it, else its name.
pub open spec fn ident(cx: &Env, s: State, node: &Ident) -> State {
    let s = enter(cx, s, node.span);
    let s = s.symbol(cx, node.span, ident_text(cx, node));
    leave(cx, s, node.span)
}

/// The parts of a template from `i` on: the static parts at the even places,
/// the holes at the odd ones, each hole between `${` and `}`.
pub open spec fn tpl_parts(cx: &Env, s: State, node: &TplLit, i: int) -> State
    decreases node.size(), 0nat, node.spec_quasis().len() + node.spec_exprs().len() - i,
    via tpl_parts_decreases
{
    if 0 <= i < node.spec_quasis().len() + node.spec_exprs().len() {
        let s = if i % 2 == 0 {
            if i / 2 < node.spec_quasis().len() {
                quasi(cx, s, &node.spec_quasis()[i / 2])
            } else {
                s
            }
        } else if i / 2 < node.spec_exprs().len() {
            let s = s.punct("$"@);
            let s = s.punct("{"@);
            let s = expr(cx, s, &*node.spec_exprs()[i / 2]);
            s.punct("}"@)
        } else {
            s
        };
        tpl_parts(cx, s, node, i + 1)
    } else {
        s
    }
}

#[via_fn]
proof fn tpl_parts_decreases(cx: &Env, s: State, node: &TplLit, i: int) {
    if 0 <= i < node.spec_quasis().len() + node.spec_exprs().len() && i % 2 != 0 && i / 2
        < node.spec_exprs().len() {
        lemma_exprs_size(node.spec_exprs(), 0, i / 2);
    }
}

/// A template literal: the tag, then the parts between backticks.
pub open spec fn tpl_lit(cx: &Env, s: State, node: &TplLit) -> State
    decreases node.size(), 1nat,
{
    let s = enter(cx, s, node.spec_span());
    let s = match node.spec_tag() {
        Some(x) => expr(cx, s, &*x),
        None => s,
    };
    let s = s.punct("`"@);
    let s = tpl_parts(cx, s, node, 0);
    let s = s.punct("`"@);
    leave(cx, s, node.spec_span())
}

/// A clause with one statement stays on one line if the clause or the
/// statement is synthesized, or if both began on one line of the source.
pub open spec fn is_single_stmt_case(cx: &Env, node: &SwitchCase) -> bool {
    node.cons@.len() == 1 && (node.span.is_synthesized() || node.cons@[0].span().is_synthesized()
        || cx.cm.is_on_same_line(node.span.lo, node.cons@[0].span().lo))
}

/// The format of the statements under a clause.
pub open spec fn case_format(single: bool) -> ListFormat {
    if single {
        ListFormat { bits: CASE_OR_DEFAULT_CLAUSE_STATEMENTS & !(MULTI_LINE | INDENTED) }
    } else {
        ListFormat { bits: CASE_OR_DEFAULT_CLAUSE_STATEMENTS }
    }
}

/// `case test:` or `default:`, then the statements: after a space on the
/// same line for a single statement, else one to a line, indented.
pub open spec fn switch_case(cx: &Env, s: State, node: &SwitchCase) -> State
    decreases node.size(), 0nat,
{
    let s = enter(cx, s, node.span);
    let s = match &node.test {
        Some(x) => {
            let s = s.keyword("case"@);
            let s = s.space();
            expr(cx, s, &**x)
        },
        None => s.keyword("default"@),
    };
    let s = s.punct(":"@);
    let single = is_single_stmt_case(cx, node);
    let s = if single {
        s.space()
    } else {
        s
    };
    let s = list(cx, s, node.span, Some(NodeSeq::Stmts(node.cons@)), case_format(single));
    leave(cx, s, node.span)
}

/// A statement, by its kind, without the line break that follows it.
pub open spec fn stmt_body(cx: &Env, s: State, node: &Stmt) -> State
    decreases node.size(), 0nat,
{
    match node {
        Stmt::Expr(x) => expr(cx, s, &**x).semi(),
        Stmt::Block(x) => block_stmt(cx, s, x),
        Stmt::Empty(x) => empty_stmt(cx, s, x),
        Stmt::Debugger(x) => debugger_stmt(cx, s, x),
        Stmt::With(x) => with_stmt(cx, s, x),
        Stmt::Return(x) => return_stmt(cx, s, x),
        Stmt::Labeled(x) => labeled_stmt(cx, s, x),
        Stmt::Break(x) => break_stmt(cx, s, x),
        Stmt::Continue(x) => continue_stmt(cx, s, x),
        Stmt::If(x) => if_stmt(cx, s, x),
        Stmt::Switch(x) => switch_stmt(cx, s, x),
        Stmt::Throw(x) => throw_stmt(cx, s, x),
        Stmt::Try(x) => try_stmt(cx, s, x),
        Stmt::While(x) => while_stmt(cx, s, x),
        Stmt::DoWhile(x) => do_while_stmt(cx, s, x),
        Stmt::For(x) => for_stmt(cx, s, x),
        Stmt::ForIn(x) => for_in_stmt(cx, s, x),
        Stmt::ForOf(x) => for_of_stmt(cx, s, x),
        Stmt::Decl(x) => decl(cx, s, x),
    }
}

/// A statement whose place is decided by the construct around it: no line
/// break follows it. With `semi_off`, the statement goes without the
/// semicolon that would end it. The statements inside it keep theirs.
pub open spec fn inner_stmt_with(cx: &Env, s: State, node: &Stmt, semi_off: bool) -> State
    decreases node.size(), 1nat,
{
    let outer = s.semi_off;
    stmt_body(cx, s.with_semi_off(semi_off), node).with_semi_off(outer)
}

/// A statement whose place is decided by the construct around it: the body
/// of a loop, a branch of an `if`, a statement of a list.
pub open spec fn inner_stmt(cx: &Env, s: State, node: &Stmt) -> State
    decreases node.size(), 2nat,
{
    inner_stmt_with(cx, s, node, false)
}

/// A statement that stands by itself, and the line break that follows it; a
/// block is followed by none.
pub open spec fn stmt_with(cx: &Env, s: State, node: &Stmt, semi_off: bool) -> State
    decreases node.size(), 2nat,
{
    let s = inner_stmt_with(cx, s, node, semi_off);
    if node is Block {
        s
    } else {
        s.line(cx)
    }
}

/// A statement that stands by itself, and the line break that follows it.
pub open spec fn stmt(cx: &Env, s: State, node: &Stmt) -> State
    decreases node.size(), 3nat,
{
    stmt_with(cx, s, node, false)
}

/// The statements from `i` on, one after the other.
pub open spec fn stmts_from(cx: &Env, s: State, v: Seq<Stmt>, i: int) -> State
    decreases stmts_size(v, 0), 4nat, v.len() - i,
    via stmts_from_decreases
{
    if 0 <= i < v.len() {
        stmts_from(cx, stmt(cx, s, &v[i]), v, i + 1)
    } else {
        s
    }
}

#[via_fn]
proof fn stmts_from_decreases(cx: &Env, s: State, v: Seq<Stmt>, i: int) {
    if 0 <= i < v.len() {
        lemma_stmts_size(v, 0, i);
    }
}

/// An item of a module and the line break that follows it. With `semi_off`
/// the item goes without the semicolon that would end it.
pub open spec fn module_item_with(cx: &Env, s: State, node: &ModuleItem, semi_off: bool) -> State
    decreases node.size(), 0nat,
{
    match node {
        ModuleItem::Stmt(x) => stmt_with(cx, s, x, semi_off),
        ModuleItem::ModuleDecl(x) => {
            let outer = s.semi_off;
            let s = module_decl(cx, s.with_semi_off(semi_off), x);
            s.line(cx).with_semi_off(outer)
        },
    }
}

/// An item of a module and the line break that follows it.
pub open spec fn module_item(cx: &Env, s: State, node: &ModuleItem) -> State
    decreases node.size(), 1nat,
{
    module_item_with(cx, s, node, false)
}

/// The items from `i` on, one after the other; the last goes without its
/// semicolon if the configuration says so.
pub open spec fn module_items_from(cx: &Env, s: State, v: Seq<ModuleItem>, i: int) -> State
    decreases module_items_size(v, 0), 2nat, v.len() - i,
    via module_items_from_decreases
{
    if 0 <= i < v.len() {
        let s = module_item_with(cx, s, &v[i], cx.cfg.omit_last_semicolon && i == v.len() - 1);
        module_items_from(cx, s, v, i + 1)
    } else {
        s
    }
}

#[via_fn]
proof fn module_items_from_decreases(cx: &Env, s: State, v: Seq<ModuleItem>, i: int) {
    if 0 <= i < v.len() {
        lemma_module_items_size(v, 0, i);
    }
}

/// A module: its items, one after the other.
pub open spec fn module(cx: &Env, s: State, node: &Module) -> State {
    module_items_from(cx, s, node.body@, 0)
}

/// The statements from `i` on, one after the other; the last goes without
/// its semicolon if the configuration says so.
pub open spec fn script_from(cx: &Env, s: State, v: Seq<Stmt>, i: int) -> State
    decreases stmts_size(v, 0), 4nat, v.len() - i,
    via script_from_decreases
{
    if 0 <= i < v.len() {
        let s = stmt_with(cx, s, &v[i], cx.cfg.omit_last_semicolon && i == v.len() - 1);
        script_from(cx, s, v, i + 1)
    } else {
        s
    }
}

#[via_fn]
proof fn script_from_decreases(cx: &Env, s: State, v: Seq<Stmt>, i: int) {
    if 0 <= i < v.len() {
        lemma_stmts_size(v, 0, i);
    }
}

/// A script: its statements, one after the other.
pub open spec fn script(cx: &Env, s: State, v: Seq<Stmt>) -> State {
    script_from(cx, s, v, 0)
}

/// What any node writes, by its kind.
pub open spec fn node(cx: &Env, s: State, n: Node) -> State {
    match n {
        Node::Module(x) => module(cx, s, x),
        Node::ModuleItem(x) => module_item(cx, s, x),
        Node::ModuleDecl(x) => module_decl(cx, s, x),
        Node::ImportDecl(x) => import_decl(cx, s, x),
        Node::ImportSpecific(x) => import_specific(cx, s, x),
        Node::ExportSpecifier(x) => export_specifier(cx, s, x),
        Node::NamedExport(x) => named_export(cx, s, x),
        Node::ExportAll(x) => export_all(cx, s, x),
        Node::ExportDefaultDecl(x) => export_default_decl(cx, s, x),
        Node::Stmt(x) => stmt(cx, s, x),
        Node::BlockStmt(x) => block_stmt(cx, s, x),
        Node::SwitchCase(x) => switch_case(cx, s, x),
        Node::CatchClause(x) => catch_clause(cx, s, x),
        Node::Decl(x) => decl(cx, s, x),
        Node::VarDecl(x) => var_decl(cx, s, x),
        Node::VarDeclarator(x) => var_declarator(cx, s, x),
        Node::Expr(x) => expr(cx, s, x),
        Node::ExprOrSpread(x) => expr_or_spread(cx, s, x),
        Node::ExprOrSuper(x) => expr_or_super(cx, s, x),
        Node::Lit(x) => lit(cx, s, x),
        Node::Str(x) => str_lit(cx, s, x),
        Node::Number(x) => num_lit(cx, s, x),
        Node::Ident(x) => ident(cx, s, x),
        Node::TplElement(x) => quasi(cx, s, x),
        Node::Prop(x) => prop(cx, s, x),
        Node::PropOrSpread(x) => prop_or_spread(cx, s, x),
        Node::PropName(x) => prop_name(cx, s, x),
        Node::Function(x) => fn_trailing(cx, s, x),
        Node::Class(x) => class_trailing(cx, s, x),
        Node::ClassMethod(x) => class_method(cx, s, x),
        Node::Pat(x) => pat(cx, s, x),
        Node::ObjectPatProp(x) => object_pat_prop(cx, s, x),
    }
}

} // verus!

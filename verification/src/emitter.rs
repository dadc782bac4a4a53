//! The emitter: one function for each kind of node, each writing what its
//! rule says.
use std::collections::HashSet;
use vstd::prelude::*;
use vstd::std_specs::hash::*;
use vstd::string::*;
use crate::ast::{
    ArrayLit, ArrayPat, ArrowExpr, AssignExpr, AssignPat, AssignPatProp, AssignProp, AwaitExpr,
    BinExpr, BlockStmt, BlockStmtOrExpr, Bool, BreakStmt, CallExpr, CatchClause, Class, ClassDecl,
    ClassExpr, ClassMethod, ClassMethodKind, CondExpr, ContinueStmt, DebuggerStmt, Decl,
    DoWhileStmt, EmptyStmt, ExportAll, ExportDefaultDecl, ExportSpecifier, Expr,
    expr_or_spreads_size, ExprOrSpread, ExprOrSuper, FnDecl, FnExpr, ForInStmt, ForOfStmt, ForStmt,
    Function, GetterProp, Ident, IfStmt, ImportDecl, ImportNames, ImportSpecific, KeyValuePatProp,
    KeyValueProp, LabeledStmt, lemma_array_elems_size, lemma_array_pat_elems_size,
    lemma_class_methods_size, lemma_export_specifiers_size, lemma_expr_or_spreads_size,
    lemma_exprs_size, lemma_import_specifics_size, lemma_object_pat_props_size, lemma_pats_size,
    lemma_props_size, lemma_stmts_size, lemma_switch_cases_size, lemma_var_declarators_size, Lit,
    MemberExpr, MetaPropExpr, MethodProp, Module, ModuleDecl, ModuleItem, NamedExport, NewExpr,
    Null, Number, NumberValue, ObjectLit, ObjectPat, ObjectPatProp, ParenExpr, Pat, PatOrExpr,
    Prop, PropName, PropOrSpread, Regex, RestPat, ReturnStmt, SeqExpr, SetterProp, SpreadElement,
    Stmt, stmts_size, Str, SwitchCase, SwitchStmt, ThisExpr, ThrowStmt, TplElement, TplLit,
    TryStmt, UnaryExpr, UnaryOp, UpdateExpr, UpdateOp, VarDecl, VarDeclarator, VarDeclOrExpr,
    VarDeclOrPat, WhileStmt, WithStmt, YieldExpr,
};
use crate::comments::{find_group, CommentKind, Comments};
use crate::config::Config;
use crate::escape::{
    begins_with_alpha_num, contains_char, quote_str, spec_begins_with_alpha_num,
};
use crate::list::{
    ALLOW_TRAILING_COMMA, ARRAY_BINDING_PATTERN_ELEMENTS, ARRAY_LITERAL_ELEMENTS, BRACKETS_MASK,
    CALL_ARGUMENTS, CASE_BLOCK_CLAUSES, CASE_OR_DEFAULT_CLAUSE_STATEMENTS, CLASS_MEMBERS,
    COMMA_DELIMITED, COMMA_LIST_ELEMENTS, DELIMITERS_MASK, INDENTED, LINES_MASK, ListFormat,
    MULTI_LINE, MULTI_LINE_BLOCK_STATEMENTS, NAMED_IMPORTS_OR_EXPORTS_ELEMENTS,
    NO_INTERVENING_COMMENTS, NO_SPACE_IF_EMPTY, OBJECT_BINDING_PATTERN_ELEMENTS,
    OBJECT_LITERAL_PROPERTIES, OPTIONAL_IF_EMPTY, OPTIONAL_IF_UNDEFINED, SINGLE_LINE,
    SPACE_BETWEEN_BRACES, SPACE_BETWEEN_SIBLINGS,
};
use crate::rules::{
    array_lit, array_pat, arrow_expr, assign_expr, assign_pat, assign_prop, await_expr, balanced,
    bin_expr, block_stmt, block_stmt_or_expr, break_stmt, breaks_before, call_expr, call_format,
    catch_clause, child, class_decl, class_expr, class_method, class_trailing, comment,
    comments_from, cond_expr, continue_stmt, debugger_stmt, decl, deeper, delimiter, do_while_stmt,
    empty_stmt, enter, Env, export_all, export_default_decl, export_specifier, expr,
    expr_or_spread, expr_or_super, fn_decl, fn_expr, fn_trailing, for_in_stmt, for_of_stmt,
    for_stmt, getter_prop, ident, ident_text, if_stmt, import_decl, import_from, import_names,
    import_specific, inner_stmt, inner_stmt_with, item, item_deepens, kv_prop, labeled_stmt,
    leading_comments, leave, list, list5, list_close, list_deepens, list_empty_body, list_items,
    list_lead, list_open, list_trail, lit, lit_starts_with_alpha_num, member_expr, meta_prop_expr,
    method_prop, module, module_decl, module_item, module_item_with, module_items_from,
    named_export, needs_2dots, needs_space_before_operand, new_expr, node, NodeSeq, num_digits,
    num_lit, object_assign_pat, object_kv_pat, object_lit, object_pat, object_pat_prop, origin,
    paren_expr, pat, pat_or_expr, pat_starts_with_alpha_num, prop, prop_name, prop_or_spread,
    quasi, rest_pat, return_stmt, script, script_from, separator, seq_expr, seq_size, setter_prop,
    shifted, source_text, spread_element, starts_with_alpha_num, State, stmt, stmt_body, stmt_with,
    stmts_from, str_lit, switch_case, switch_stmt, this_expr, throw_stmt, tpl_lit, tpl_parts,
    trailing_comments, try_stmt, unary_expr, update_expr, var_decl, var_decl_or_expr,
    var_decl_or_pat, var_declarator, while_stmt, with_stmt, yield_expr,
};
use crate::source::SourceMap;
use crate::span::Span;
use crate::text_writer::{group_keeps_depth, JsWriter, SinkError};

verus! {

broadcast use {group_hash_axioms, group_keeps_depth};

/// Anything that listens to the emitter. Nothing is reported yet.
pub trait Handlers {

}

/// Whether the statement being written goes without its semicolon. Only the
/// emitter sets it.
pub struct SemicolonSwitch {
    off: bool,
}

impl SemicolonSwitch {
    pub closed spec fn is_off(&self) -> bool {
        self.off
    }
}

/// A reference to a node of any kind.
#[derive(Clone, Copy)]
pub enum Node<'a> {
    Module(&'a Module),
    ModuleItem(&'a ModuleItem),
    ModuleDecl(&'a ModuleDecl),
    ImportDecl(&'a ImportDecl),
    ImportSpecific(&'a ImportSpecific),
    ExportSpecifier(&'a ExportSpecifier),
    NamedExport(&'a NamedExport),
    ExportAll(&'a ExportAll),
    ExportDefaultDecl(&'a ExportDefaultDecl),
    Stmt(&'a Stmt),
    BlockStmt(&'a BlockStmt),
    SwitchCase(&'a SwitchCase),
    CatchClause(&'a CatchClause),
    Decl(&'a Decl),
    VarDecl(&'a VarDecl),
    VarDeclarator(&'a VarDeclarator),
    Expr(&'a Expr),
    ExprOrSpread(&'a ExprOrSpread),
    ExprOrSuper(&'a ExprOrSuper),
    Lit(&'a Lit),
    Str(&'a Str),
    Number(&'a Number),
    Ident(&'a Ident),
    TplElement(&'a TplElement),
    Prop(&'a Prop),
    PropOrSpread(&'a PropOrSpread),
    PropName(&'a PropName),
    Function(&'a Function),
    Class(&'a Class),
    ClassMethod(&'a ClassMethod),
    Pat(&'a Pat),
    ObjectPatProp(&'a ObjectPatProp),
}

/// Walks a tree and writes its text.
pub struct Emitter {
    pub cfg: Config,
    /// The source that original nodes point into.
    pub cm: SourceMap,
    pub comments: Comments,
    pub wr: JsWriter,
    /// The positions whose leading comments have been written.
    pub pos_of_leading_comments: HashSet<u32>,
    /// The positions whose trailing comments have been written.
    pub pos_of_trailing_comments: HashSet<u32>,
    /// Set while the last statement of a script or module is written, if it
    /// is to go without its semicolon.
    pub semi: SemicolonSwitch,
}

impl Emitter {
    /// What the emitter reads.
    pub open spec fn env(&self) -> Env {
        Env { cfg: self.cfg, cm: self.cm, comments: self.comments }
    }

    /// What the emitter has come to.
    pub open spec fn state(&self) -> State {
        State {
            wr: self.wr@,
            leading: self.pos_of_leading_comments@,
            trailing: self.pos_of_trailing_comments@,
            semi_off: self.semi.is_off(),
        }
    }

    /// The writer is in order.
    pub open spec fn wf(&self) -> bool {
        self.wr.wf()
    }

    /// This emitter is `before` after a step that leads to `after`: it reads
    /// what `before` read, and its state is `after`.
    pub open spec fn follows(&self, before: Emitter, after: State) -> bool {
        &&& self.wf()
        &&& self.env() == before.env()
        &&& self.state() == after
    }

    /// An emitter that has written nothing.
    pub fn new(cfg: Config, cm: SourceMap, comments: Comments, wr: JsWriter) -> (e: Emitter)
        requires
            wr.wf(),
        ensures
            e.wf(),
            e.env() == (Env { cfg, cm, comments }),
            e.state() == (State {
                wr: wr@,
                leading: Set::empty(),
                trailing: Set::empty(),
                semi_off: false,
            }),
    {
        Emitter {
            cfg,
            cm,
            comments,
            wr,
            pos_of_leading_comments: HashSet::new(),
            pos_of_trailing_comments: HashSet::new(),
            semi: SemicolonSwitch { off: false },
        }
    }

    /// Whether everything asked for was written: the first error, if not.
    pub fn status(&self) -> (r: Result<(), SinkError>)
        ensures
            r is Err <==> self.state().wr.failed,
            r matches Err(e) ==> e == SinkError::IndentOverflow,
    {
        self.wr.status()
    }

    fn keyword(&mut self, text: &str)
        requires
            old(self).wf(),
        ensures
            final(self).follows(*old(self), old(self).state().keyword(text@)),
    {
        self.wr.write_keyword(None, text);
    }

    fn origin(&self, span: Span) -> (r: Option<u32>)
        ensures
            r == origin(&self.env(), span),
    {
        if self.cfg.source_map && !span.is_dummy() {
            Some(span.lo)
        } else {
            None
        }
    }

    fn keyword_at(&mut self, span: Span, text: &str)
        requires
            old(self).wf(),
        ensures
            final(self).follows(
                *old(self),
                old(self).state().keyword_at(&old(self).env(), span, text@),
            ),
    {
        let src = self.origin(span);
        self.wr.write_keyword(src, text);
    }

    fn punct(&mut self, text: &str)
        requires
            old(self).wf(),
        ensures
            final(self).follows(*old(self), old(self).state().punct(text@)),
    {
        self.wr.write_punct(text);
    }

    fn operator(&mut self, text: &str)
        requires
            old(self).wf(),
        ensures
            final(self).follows(*old(self), old(self).state().operator(text@)),
    {
        self.wr.write_operator(text);
    }

    fn operator_or_word(&mut self, word: bool, text: &str)
        requires
            old(self).wf(),
        ensures
            final(self).follows(*old(self), old(self).state().operator_or_word(word, text@)),
    {
        if word {
            self.wr.write_keyword(None, text);
        } else {
            self.wr.write_operator(text);
        }
    }

    fn symbol(&mut self, span: Span, text: &str)
        requires
            old(self).wf(),
        ensures
            final(self).follows(
                *old(self),
                old(self).state().symbol(&old(self).env(), span, text@),
            ),
    {
        let src = self.origin(span);
        self.wr.write_symbol(src, text);
    }

    fn number(&mut self, span: Span, text: &str)
        requires
            old(self).wf(),
        ensures
            final(self).follows(
                *old(self),
                old(self).state().number(&old(self).env(), span, text@),
            ),
    {
        let src = self.origin(span);
        self.wr.write_num_lit(src, text);
    }

    fn str_lit(&mut self, span: Span, text: &str)
        requires
            old(self).wf(),
        ensures
            final(self).follows(
                *old(self),
                old(self).state().str_lit(&old(self).env(), span, text@),
            ),
    {
        let src = self.origin(span);
        self.wr.write_str_lit(src, text);
    }

    fn regex(&mut self, text: &str)
        requires
            old(self).wf(),
        ensures
            final(self).follows(*old(self), old(self).state().regex(text@)),
    {
        self.wr.write_regex(text);
    }

    fn space(&mut self)
        requires
            old(self).wf(),
        ensures
            final(self).follows(*old(self), old(self).state().space()),
    {
        self.wr.write_space();
    }

    fn formatting_space(&mut self)
        requires
            old(self).wf(),
        ensures
            final(self).follows(*old(self), old(self).state().formatting_space(&old(self).env())),
    {
        if !self.cfg.minify {
            self.wr.write_space();
        }
    }

    fn line(&mut self)
        requires
            old(self).wf(),
        ensures
            final(self).follows(*old(self), old(self).state().line(&old(self).env())),
    {
        if !self.cfg.minify {
            self.wr.write_line();
        }
    }

    fn semi(&mut self)
        requires
            old(self).wf(),
        ensures
            final(self).follows(*old(self), old(self).state().semi()),
    {
        if !self.semi.off {
            self.wr.write_punct(";");
        }
    }

    fn increase_indent(&mut self) -> (took: bool)
        requires
            old(self).wf(),
        ensures
            final(self).follows(*old(self), old(self).state().increase_indent()),
            took == old(self).state().deepens(),
    {
        self.wr.increase_indent()
    }

    fn call_format(&self) -> (r: ListFormat)
        ensures
            r == call_format(&self.env()),
    {
        if self.cfg.target.allows_trailing_comma_in_calls() {
            ListFormat::from_bits(CALL_ARGUMENTS | ALLOW_TRAILING_COMMA)
        } else {
            ListFormat::from_bits(CALL_ARGUMENTS)
        }
    }

    fn decrease_indent(&mut self)
        requires
            old(self).wf(),
            old(self).state().wr.indent > 0,
        ensures
            final(self).follows(*old(self), old(self).state().decrease_indent()),
    {
        self.wr.decrease_indent();
    }

    fn emit_comments(&mut self, leading: bool, k: usize, prefix_space: bool)
        requires
            old(self).wf(),
            leading ==> k < old(self).comments.leading@.len(),
            !leading ==> k < old(self).comments.trailing@.len(),
        ensures
            final(self).follows(
                *old(self),
                comments_from(
                    &old(self).env(),
                    old(self).state(),
                    if leading {
                        old(self).comments.leading@[k as int].comments@
                    } else {
                        old(self).comments.trailing@[k as int].comments@
                    },
                    0,
                    prefix_space,
                ),
            ),
            balanced(old(self).state(), final(self).state()),
    {
        let ghost cx = self.env();
        let ghost cs = if leading {
            self.comments.leading@[k as int].comments@
        } else {
            self.comments.trailing@[k as int].comments@
        };
        let ghost goal = comments_from(&cx, self.state(), cs, 0, prefix_space);
        let n = if leading {
            self.comments.leading[k].comments.len()
        } else {
            self.comments.trailing[k].comments.len()
        };
        let mut i: usize = 0;
        while i < n
            invariant
                i <= n == cs.len(),
                self.wf(),
                self.env() == cx,
                leading ==> k < self.comments.leading@.len() && cs
                    == self.comments.leading@[k as int].comments@,
                !leading ==> k < self.comments.trailing@.len() && cs
                    == self.comments.trailing@[k as int].comments@,
                comments_from(&cx, self.state(), cs, i as int, prefix_space) == goal,
                balanced(old(self).state(), self.state()),
            decreases n - i,
        {
            if prefix_space && !self.cfg.minify {
                self.wr.write_space();
            }
            let c = if leading {
                &self.comments.leading[k].comments[i]
            } else {
                &self.comments.trailing[k].comments[i]
            };
            match c.kind {
                CommentKind::Line => {
                    self.wr.write_operator("//");
                    self.wr.write_str_lit(None, c.text.as_str());
                    self.wr.write_line();
                },
                CommentKind::Block => {
                    self.wr.write_operator("/*");
                    self.wr.write_str_lit(None, c.text.as_str());
                    self.wr.write_punct("*/");
                    if !self.cfg.minify {
                        self.wr.write_space();
                    }
                },
            }
            i += 1;
        }
    }

    /// Writes the comments that lead `pos`, unless they were written before.
    pub fn emit_leading_comments_of_pos(&mut self, pos: u32) -> (r: Result<(), SinkError>)
        requires
            old(self).wf(),
        ensures
            final(self).follows(
                *old(self),
                leading_comments(&old(self).env(), old(self).state(), pos),
            ),
            balanced(old(self).state(), final(self).state()),
            r is Err <==> final(self).state().wr.failed,
    {
        if pos != 0 && !self.pos_of_leading_comments.contains(&pos) {
            self.pos_of_leading_comments.insert(pos);
            match find_group(&self.comments.leading, pos) {
                Some(k) => {
                    self.emit_comments(true, k, false);
                },
                None => {},
            }
        }
        self.status()
    }

    /// Writes the comments that trail `pos`, unless they were written before.
    pub fn emit_trailing_comments_of_pos(&mut self, pos: u32, prefix_space: bool) -> (r: Result<
        (),
        SinkError,
    >)
        requires
            old(self).wf(),
        ensures
            final(self).follows(
                *old(self),
                trailing_comments(&old(self).env(), old(self).state(), pos, prefix_space),
            ),
            balanced(old(self).state(), final(self).state()),
            r is Err <==> final(self).state().wr.failed,
    {
        if pos != 0 && !self.pos_of_trailing_comments.contains(&pos) {
            self.pos_of_trailing_comments.insert(pos);
            match find_group(&self.comments.trailing, pos) {
                Some(k) => {
                    self.emit_comments(false, k, prefix_space);
                },
                None => {},
            }
        }
        self.status()
    }

    fn enter(&mut self, span: Span)
        requires
            old(self).wf(),
        ensures
            final(self).follows(*old(self), enter(&old(self).env(), old(self).state(), span)),
            balanced(old(self).state(), final(self).state()),
    {
        self.emit_leading_comments_of_pos(span.lo);
    }

    fn leave(&mut self, span: Span)
        requires
            old(self).wf(),
        ensures
            final(self).follows(*old(self), leave(&old(self).env(), old(self).state(), span)),
            balanced(old(self).state(), final(self).state()),
    {
        self.emit_trailing_comments_of_pos(span.hi, true);
    }

    /// The source text of an original node, if the source map has it.
    pub fn get_text_of_node(&self, span: Span) -> (r: Option<String>)
        ensures
            r is Some <==> source_text(&self.env(), span) is Some,
            r matches Some(t) ==> Some(t@) == source_text(&self.env(), span),
    {
        if span.is_synthesized() {
            return None;
        }
        match self.cm.span_to_snippet(span) {
            Some(t) => if t.as_str().unicode_len() == 0 {
                None
            } else {
                Some(t)
            },
            None => None,
        }
    }

    /// An import or export, by its kind.
    pub fn emit_module_decl(&mut self, node: &ModuleDecl) -> (r: Result<(), SinkError>)
        requires
            old(self).wf(),
        ensures
            final(self).follows(*old(self), module_decl(&old(self).env(), old(self).state(), node)),
            balanced(old(self).state(), final(self).state()),
            r is Err <==> final(self).state().wr.failed,
        decreases node.size(), 0nat,
    {
        match node {
            ModuleDecl::Import(x) => {
                self.emit_import(x);
            },
            ModuleDecl::ExportDecl(x) => {
                self.keyword("export");
                self.space();
                self.emit_decl(x);
            },
            ModuleDecl::ExportNamed(x) => {
                self.emit_named_export(x);
            },
            ModuleDecl::ExportDefaultDecl(x) => {
                self.emit_export_default_decl(x);
            },
            ModuleDecl::ExportDefaultExpr(x) => {
                self.keyword("export");
                self.space();
                self.keyword("default");
                self.space();
                self.emit_expr(&**x);
                self.semi();
            },
            ModuleDecl::ExportAll(x) => {
                self.emit_export_all(x);
            },
        }
        self.status()
    }

    /// `export default` and what it declares; only a variable declaration takes a semicolon.
    pub fn emit_export_default_decl(&mut self, node: &ExportDefaultDecl) -> (r: Result<(), SinkError>)
        requires
            old(self).wf(),
        ensures
            final(self).follows(*old(self), export_default_decl(&old(self).env(), old(self).state(), node)),
            balanced(old(self).state(), final(self).state()),
            r is Err <==> final(self).state().wr.failed,
        decreases node.size(), 0nat,
    {
        self.keyword("export");
        self.space();
        self.keyword("default");
        self.space();
        match node {
            ExportDefaultDecl::Class(x) => {
                self.emit_class_expr(x);
            },
            ExportDefaultDecl::Fn(x) => {
                self.emit_fn_expr(x);
            },
            ExportDefaultDecl::Var(x) => {
                self.emit_var_decl(x);
                self.semi();
            },
        }
        self.status()
    }

    /// What an import binds besides its default: after a comma if there is a default, `* as` and the
    /// namespace, or the names in braces.
    pub fn emit_import_names(&mut self, node: &ImportDecl) -> (r: Result<(), SinkError>)
        requires
            old(self).wf(),
        ensures
            final(self).follows(*old(self), import_names(&old(self).env(), old(self).state(), node)),
            balanced(old(self).state(), final(self).state()),
            r is Err <==> final(self).state().wr.failed,
        decreases node.size(), 0nat,
    {
        if let Some(x) = &node.names {
            if node.default.is_some() {
                self.punct(",");
                self.formatting_space();
            } else {
                self.formatting_space();
            }
            match x {
                ImportNames::Namespace(n) => {
                    self.punct("*");
                    self.formatting_space();
                    self.keyword("as");
                    self.space();
                    self.emit_ident(n);
                },
                ImportNames::Named(v) => {
                    self.emit_list(node.span, Some(Nodes::ImportSpecifics(&v)), ListFormat::from_bits(NAMED_IMPORTS_OR_EXPORTS_ELEMENTS));
                },
            }
        }
        self.status()
    }

    /// `from` between what an import binds and its source: after a space, which is for the reader
    /// where names in braces precede it; nothing where nothing is bound.
    pub fn emit_import_from(&mut self, node: &ImportDecl) -> (r: Result<(), SinkError>)
        requires
            old(self).wf(),
        ensures
            final(self).follows(*old(self), import_from(&old(self).env(), old(self).state(), node)),
            balanced(old(self).state(), final(self).state()),
            r is Err <==> final(self).state().wr.failed,
    {
        if node.default.is_some() || node.names.is_some() {
            if matches!(node.names, Some(ImportNames::Named(_))) {
                self.formatting_space();
            } else {
                self.space();
            }
            self.keyword("from");
        }
        self.status()
    }

    /// `import`, the default binding, the namespace or the names, `from`, the source and a
    /// semicolon; with nothing bound, `import` and the source.
    pub fn emit_import(&mut self, node: &ImportDecl) -> (r: Result<(), SinkError>)
        requires
            old(self).wf(),
        ensures
            final(self).follows(*old(self), import_decl(&old(self).env(), old(self).state(), node)),
            balanced(old(self).state(), final(self).state()),
            r is Err <==> final(self).state().wr.failed,
        decreases node.size(), 0nat,
    {
        self.enter(node.span);
        self.keyword("import");
        if let Some(x) = &node.default {
            self.space();
            self.emit_ident(x);
        }
        self.emit_import_names(node);
        self.emit_import_from(node);
        self.formatting_space();
        self.emit_str_lit(&node.src);
        self.semi();
        self.leave(node.span);
        self.status()
    }

    /// `imported as local`, or `local` alone.
    pub fn emit_import_specific(&mut self, node: &ImportSpecific) -> (r: Result<(), SinkError>)
        requires
            old(self).wf(),
        ensures
            final(self).follows(*old(self), import_specific(&old(self).env(), old(self).state(), node)),
            balanced(old(self).state(), final(self).state()),
            r is Err <==> final(self).state().wr.failed,
    {
        self.enter(node.span);
        if let Some(x) = &node.imported {
            self.emit_ident(x);
            self.space();
            self.keyword("as");
            self.space();
        }
        self.emit_ident(&node.local);
        self.leave(node.span);
        self.status()
    }

    /// `orig as exported`, or `orig` alone.
    pub fn emit_export_specifier(&mut self, node: &ExportSpecifier) -> (r: Result<(), SinkError>)
        requires
            old(self).wf(),
        ensures
            final(self).follows(*old(self), export_specifier(&old(self).env(), old(self).state(), node)),
            balanced(old(self).state(), final(self).state()),
            r is Err <==> final(self).state().wr.failed,
    {
        self.enter(node.span);
        self.emit_ident(&node.orig);
        if let Some(x) = &node.exported {
            self.space();
            self.keyword("as");
            self.space();
            self.emit_ident(x);
        }
        self.leave(node.span);
        self.status()
    }

    /// `export`, the names in braces, then a space, `from` and the source where there is one, and a
    /// semicolon.
    pub fn emit_named_export(&mut self, node: &NamedExport) -> (r: Result<(), SinkError>)
        requires
            old(self).wf(),
        ensures
            final(self).follows(*old(self), named_export(&old(self).env(), old(self).state(), node)),
            balanced(old(self).state(), final(self).state()),
            r is Err <==> final(self).state().wr.failed,
        decreases node.size(), 0nat,
    {
        self.enter(node.span);
        self.keyword("export");
        self.formatting_space();
        self.emit_list(node.span, Some(Nodes::ExportSpecifiers(&node.specifiers)), ListFormat::from_bits(NAMED_IMPORTS_OR_EXPORTS_ELEMENTS));
        if let Some(x) = &node.src {
            self.space();
            self.keyword("from");
            self.emit_str_lit(x);
        }
        self.semi();
        self.leave(node.span);
        self.status()
    }

    /// `export * from src;`.
    pub fn emit_export_all(&mut self, node: &ExportAll) -> (r: Result<(), SinkError>)
        requires
            old(self).wf(),
        ensures
            final(self).follows(*old(self), export_all(&old(self).env(), old(self).state(), node)),
            balanced(old(self).state(), final(self).state()),
            r is Err <==> final(self).state().wr.failed,
    {
        self.enter(node.span);
        self.keyword("export");
        self.space();
        self.punct("*");
        self.formatting_space();
        self.keyword("from");
        self.space();
        self.emit_str_lit(&node.src);
        self.semi();
        self.leave(node.span);
        self.status()
    }

    /// An expression, or `super`.
    pub fn emit_expr_or_super(&mut self, node: &ExprOrSuper) -> (r: Result<(), SinkError>)
        requires
            old(self).wf(),
        ensures
            final(self).follows(*old(self), expr_or_super(&old(self).env(), old(self).state(), node)),
            balanced(old(self).state(), final(self).state()),
            r is Err <==> final(self).state().wr.failed,
        decreases node.size(), 0nat,
    {
        match node {
            ExprOrSuper::Expr(x) => {
                self.emit_expr(&**x);
            },
            ExprOrSuper::Super(_) => {
                self.keyword("super");
            },
        }
        self.status()
    }

    /// An expression, by its kind.
    pub fn emit_expr(&mut self, node: &Expr) -> (r: Result<(), SinkError>)
        requires
            old(self).wf(),
        ensures
            final(self).follows(*old(self), expr(&old(self).env(), old(self).state(), node)),
            balanced(old(self).state(), final(self).state()),
            r is Err <==> final(self).state().wr.failed,
        decreases node.size(), 0nat,
    {
        match node {
            Expr::This(x) => {
                self.emit_this_expr(x);
            },
            Expr::Array(x) => {
                self.emit_array_lit(x);
            },
            Expr::Object(x) => {
                self.emit_object_lit(x);
            },
            Expr::Fn(x) => {
                self.emit_fn_expr(x);
            },
            Expr::Unary(x) => {
                self.emit_unary_expr(x);
            },
            Expr::Update(x) => {
                self.emit_update_expr(x);
            },
            Expr::Bin(x) => {
                self.emit_bin_expr(x);
            },
            Expr::Assign(x) => {
                self.emit_assign_expr(x);
            },
            Expr::Member(x) => {
                self.emit_member_expr(x);
            },
            Expr::Cond(x) => {
                self.emit_cond_expr(x);
            },
            Expr::Call(x) => {
                self.emit_call_expr(x);
            },
            Expr::New(x) => {
                self.emit_new_expr(x);
            },
            Expr::Sequence(x) => {
                self.emit_seq_expr(x);
            },
            Expr::Ident(x) => {
                self.emit_ident(x);
            },
            Expr::Lit(x) => {
                self.emit_lit(x);
            },
            Expr::Tpl(x) => {
                self.emit_tpl_lit(x);
            },
            Expr::Arrow(x) => {
                self.emit_arrow_expr(x);
            },
            Expr::Class(x) => {
                self.emit_class_expr(x);
            },
            Expr::Yield(x) => {
                self.emit_yield_expr(x);
            },
            Expr::MetaProp(x) => {
                self.emit_meta_prop_expr(x);
            },
            Expr::Await(x) => {
                self.emit_await_expr(x);
            },
            Expr::Paren(x) => {
                self.emit_paren_expr(x);
            },
        }
        self.status()
    }

    /// The callee, then the arguments in parentheses.
    pub fn emit_call_expr(&mut self, node: &CallExpr) -> (r: Result<(), SinkError>)
        requires
            old(self).wf(),
        ensures
            final(self).follows(*old(self), call_expr(&old(self).env(), old(self).state(), node)),
            balanced(old(self).state(), final(self).state()),
            r is Err <==> final(self).state().wr.failed,
        decreases node.size(), 0nat,
    {
        self.enter(node.span);
        self.emit_expr_or_super(&node.callee);
        self.emit_list(node.span, Some(Nodes::ExprOrSpreads(&node.args)), self.call_format());
        self.leave(node.span);
        self.status()
    }

    /// `new`, a space, the callee, then the arguments in parentheses where there are any.
    pub fn emit_new_expr(&mut self, node: &NewExpr) -> (r: Result<(), SinkError>)
        requires
            old(self).wf(),
        ensures
            final(self).follows(*old(self), new_expr(&old(self).env(), old(self).state(), node)),
            balanced(old(self).state(), final(self).state()),
            r is Err <==> final(self).state().wr.failed,
        decreases node.size(), 0nat,
    {
        self.enter(node.span);
        self.keyword("new");
        self.space();
        self.emit_expr(&*node.callee);
        if let Some(x) = &node.args {
            self.emit_list(node.span, Some(Nodes::ExprOrSpreads(&x)), self.call_format());
        }
        self.leave(node.span);
        self.status()
    }

    /// The object, then the property in square brackets if it is computed, after a dot if not:
    /// after two dots where one would read as a decimal point.
    pub fn emit_member_expr(&mut self, node: &MemberExpr) -> (r: Result<(), SinkError>)
        requires
            old(self).wf(),
        ensures
            final(self).follows(*old(self), member_expr(&old(self).env(), old(self).state(), node)),
            balanced(old(self).state(), final(self).state()),
            r is Err <==> final(self).state().wr.failed,
        decreases node.size(), 0nat,
    {
        self.enter(node.span);
        self.emit_expr_or_super(&node.obj);
        if node.computed {
            self.punct("[");
            self.emit_expr(&*node.prop);
            self.punct("]");
        } else {
            if self.needs_2dots_for_property_access(&node.obj) {
                self.punct(".");
            }
            self.punct(".");
            self.emit_expr(&*node.prop);
        }
        self.leave(node.span);
        self.status()
    }

    /// `async`, the parameters in parentheses, `=>` and the body.
    pub fn emit_arrow_expr(&mut self, node: &ArrowExpr) -> (r: Result<(), SinkError>)
        requires
            old(self).wf(),
        ensures
            final(self).follows(*old(self), arrow_expr(&old(self).env(), old(self).state(), node)),
            balanced(old(self).state(), final(self).state()),
            r is Err <==> final(self).state().wr.failed,
        decreases node.size(), 0nat,
    {
        self.enter(node.span);
        if node.is_async {
            self.keyword("async");
            self.formatting_space();
        }
        if node.is_generator {
            self.punct("*");
        }
        self.punct("(");
        self.emit_list(node.span, Some(Nodes::Pats(&node.params)), ListFormat::from_bits(COMMA_LIST_ELEMENTS));
        self.punct(")");
        self.punct("=>");
        self.emit_block_stmt_or_expr(&node.body);
        self.leave(node.span);
        self.status()
    }

    /// `meta.prop`.
    pub fn emit_meta_prop_expr(&mut self, node: &MetaPropExpr) -> (r: Result<(), SinkError>)
        requires
            old(self).wf(),
        ensures
            final(self).follows(*old(self), meta_prop_expr(&old(self).env(), old(self).state(), node)),
            balanced(old(self).state(), final(self).state()),
            r is Err <==> final(self).state().wr.failed,
    {
        self.enter(node.span);
        self.emit_ident(&node.meta);
        self.punct(".");
        self.emit_ident(&node.prop);
        self.leave(node.span);
        self.status()
    }

    /// The expressions, separated by commas.
    pub fn emit_seq_expr(&mut self, node: &SeqExpr) -> (r: Result<(), SinkError>)
        requires
            old(self).wf(),
        ensures
            final(self).follows(*old(self), seq_expr(&old(self).env(), old(self).state(), node)),
            balanced(old(self).state(), final(self).state()),
            r is Err <==> final(self).state().wr.failed,
        decreases node.size(), 0nat,
    {
        self.enter(node.span);
        self.emit_list(node.span, Some(Nodes::Exprs(&node.exprs)), ListFormat::from_bits(COMMA_LIST_ELEMENTS));
        self.leave(node.span);
        self.status()
    }

    /// `left op right`, with spaces for the reader.
    pub fn emit_assign_expr(&mut self, node: &AssignExpr) -> (r: Result<(), SinkError>)
        requires
            old(self).wf(),
        ensures
            final(self).follows(*old(self), assign_expr(&old(self).env(), old(self).state(), node)),
            balanced(old(self).state(), final(self).state()),
            r is Err <==> final(self).state().wr.failed,
        decreases node.size(), 0nat,
    {
        self.enter(node.span);
        self.emit_pat_or_expr(&node.left);
        self.formatting_space();
        self.operator(node.op.as_str());
        self.formatting_space();
        self.emit_expr(&*node.right);
        self.leave(node.span);
        self.status()
    }

    /// `left op right`, with spaces for the reader; `in` and `instanceof` are written as words.
    pub fn emit_bin_expr(&mut self, node: &BinExpr) -> (r: Result<(), SinkError>)
        requires
            old(self).wf(),
        ensures
            final(self).follows(*old(self), bin_expr(&old(self).env(), old(self).state(), node)),
            balanced(old(self).state(), final(self).state()),
            r is Err <==> final(self).state().wr.failed,
        decreases node.size(), 0nat,
    {
        self.enter(node.span);
        self.emit_expr(&*node.left);
        self.formatting_space();
        self.operator_or_word(node.op.is_word(), node.op.as_str());
        self.formatting_space();
        self.emit_expr(&*node.right);
        self.leave(node.span);
        self.status()
    }

    /// `class`, the name after a space where there is one, then the rest of the class.
    pub fn emit_class_expr(&mut self, node: &ClassExpr) -> (r: Result<(), SinkError>)
        requires
            old(self).wf(),
        ensures
            final(self).follows(*old(self), class_expr(&old(self).env(), old(self).state(), node)),
            balanced(old(self).state(), final(self).state()),
            r is Err <==> final(self).state().wr.failed,
        decreases node.size(), 0nat,
    {
        self.enter(node.span);
        self.keyword("class");
        if let Some(x) = &node.ident {
            self.space();
            self.emit_ident(x);
        }
        self.emit_class_trailing(&node.class);
        self.leave(node.span);
        self.status()
    }

    /// `extends` and the parent class where there is one, then the members in braces.
    pub fn emit_class_trailing(&mut self, node: &Class) -> (r: Result<(), SinkError>)
        requires
            old(self).wf(),
        ensures
            final(self).follows(*old(self), class_trailing(&old(self).env(), old(self).state(), node)),
            balanced(old(self).state(), final(self).state()),
            r is Err <==> final(self).state().wr.failed,
        decreases node.size(), 0nat,
    {
        self.enter(node.span);
        if let Some(x) = &node.super_class {
            self.space();
            self.keyword("extends");
            self.space();
            self.emit_expr(&**x);
        }
        self.emit_list(node.span, Some(Nodes::ClassMethods(&node.body)), ListFormat::from_bits(CLASS_MEMBERS));
        self.leave(node.span);
        self.status()
    }

    /// `static`, then what the kind asks for before the key (`constructor` in place of the key),
    /// then the parameters and the body.
    pub fn emit_class_method(&mut self, node: &ClassMethod) -> (r: Result<(), SinkError>)
        requires
            old(self).wf(),
        ensures
            final(self).follows(*old(self), class_method(&old(self).env(), old(self).state(), node)),
            balanced(old(self).state(), final(self).state()),
            r is Err <==> final(self).state().wr.failed,
        decreases node.size(), 0nat,
    {
        self.enter(node.span);
        if node.is_static {
            self.keyword("static");
            self.space();
        }
        match node.kind {
            ClassMethodKind::Constructor => {
                self.keyword("constructor");
            },
            ClassMethodKind::Method => {
                if node.function.is_async {
                    self.keyword("async");
                    self.space();
                }
                if node.function.is_generator {
                    self.punct("*");
                }
                self.emit_prop_name(&node.key);
            },
            ClassMethodKind::Getter => {
                self.keyword("get");
                self.space();
                self.emit_prop_name(&node.key);
            },
            ClassMethodKind::Setter => {
                self.keyword("set");
                self.space();
                self.emit_prop_name(&node.key);
            },
        }
        self.emit_fn_trailing(&node.function);
        self.leave(node.span);
        self.status()
    }

    /// A key: a name, a string, a number, or an expression in square brackets.
    pub fn emit_prop_name(&mut self, node: &PropName) -> (r: Result<(), SinkError>)
        requires
            old(self).wf(),
        ensures
            final(self).follows(*old(self), prop_name(&old(self).env(), old(self).state(), node)),
            balanced(old(self).state(), final(self).state()),
            r is Err <==> final(self).state().wr.failed,
        decreases node.size(), 0nat,
    {
        match node {
            PropName::Ident(x) => {
                self.emit_ident(x);
            },
            PropName::Str(x) => {
                self.emit_str_lit(x);
            },
            PropName::Num(x) => {
                self.emit_num_lit(x);
            },
            PropName::Computed(x) => {
                self.punct("[");
                self.emit_expr(&**x);
                self.punct("]");
            },
        }
        self.status()
    }

    /// `test ? cons : alt`, with spaces for the reader.
    pub fn emit_cond_expr(&mut self, node: &CondExpr) -> (r: Result<(), SinkError>)
        requires
            old(self).wf(),
        ensures
            final(self).follows(*old(self), cond_expr(&old(self).env(), old(self).state(), node)),
            balanced(old(self).state(), final(self).state()),
            r is Err <==> final(self).state().wr.failed,
        decreases node.size(), 0nat,
    {
        self.enter(node.span);
        self.emit_expr(&*node.test);
        self.formatting_space();
        self.punct("?");
        self.formatting_space();
        self.emit_expr(&*node.cons);
        self.formatting_space();
        self.punct(":");
        self.formatting_space();
        self.emit_expr(&*node.alt);
        self.leave(node.span);
        self.status()
    }

    /// `async`, `function`, `*`, the name after a space where there is one, then the parameters
    /// and the body.
    pub fn emit_fn_expr(&mut self, node: &FnExpr) -> (r: Result<(), SinkError>)
        requires
            old(self).wf(),
        ensures
            final(self).follows(*old(self), fn_expr(&old(self).env(), old(self).state(), node)),
            balanced(old(self).state(), final(self).state()),
            r is Err <==> final(self).state().wr.failed,
        decreases node.size(), 0nat,
    {
        self.enter(node.span);
        if node.function.is_async {
            self.keyword("async");
            self.space();
        }
        self.keyword("function");
        if node.function.is_generator {
            self.punct("*");
        }
        if let Some(x) = &node.ident {
            self.space();
            self.emit_ident(x);
        }
        self.emit_fn_trailing(&node.function);
        self.leave(node.span);
        self.status()
    }

    /// The parameters in parentheses, then the body: `(b) {}` of `function a(b) {}`.
    pub fn emit_fn_trailing(&mut self, node: &Function) -> (r: Result<(), SinkError>)
        requires
            old(self).wf(),
        ensures
            final(self).follows(*old(self), fn_trailing(&old(self).env(), old(self).state(), node)),
            balanced(old(self).state(), final(self).state()),
            r is Err <==> final(self).state().wr.failed,
        decreases node.size(), 0nat,
    {
        self.enter(node.span);
        self.punct("(");
        self.emit_list(node.span, Some(Nodes::Pats(&node.params)), ListFormat::from_bits(COMMA_LIST_ELEMENTS));
        self.punct(")");
        self.formatting_space();
        self.emit_block_stmt(&node.body);
        self.leave(node.span);
        self.status()
    }

    /// The body of an arrow function; an expression is written one stop deeper.
    pub fn emit_block_stmt_or_expr(&mut self, node: &BlockStmtOrExpr) -> (r: Result<(), SinkError>)
        requires
            old(self).wf(),
        ensures
            final(self).follows(*old(self), block_stmt_or_expr(&old(self).env(), old(self).state(), node)),
            balanced(old(self).state(), final(self).state()),
            r is Err <==> final(self).state().wr.failed,
        decreases node.size(), 0nat,
    {
        match node {
            BlockStmtOrExpr::BlockStmt(x) => {
                self.emit_block_stmt(x);
            },
            BlockStmtOrExpr::Expr(x) => {
                let took = self.increase_indent();
                self.emit_expr(&**x);
                if took {
                    self.decrease_indent();
                }
            },
        }
        self.status()
    }

    /// `this`.
    pub fn emit_this_expr(&mut self, node: &ThisExpr) -> (r: Result<(), SinkError>)
        requires
            old(self).wf(),
        ensures
            final(self).follows(*old(self), this_expr(&old(self).env(), old(self).state(), node)),
            balanced(old(self).state(), final(self).state()),
            r is Err <==> final(self).state().wr.failed,
    {
        self.enter(node.span);
        self.keyword("this");
        self.leave(node.span);
        self.status()
    }

    /// A static part of a template, as it was written.
    pub fn emit_quasi(&mut self, node: &TplElement) -> (r: Result<(), SinkError>)
        requires
            old(self).wf(),
        ensures
            final(self).follows(*old(self), quasi(&old(self).env(), old(self).state(), node)),
            balanced(old(self).state(), final(self).state()),
            r is Err <==> final(self).state().wr.failed,
    {
        self.enter(node.span);
        self.str_lit(node.span, node.raw.as_str());
        self.leave(node.span);
        self.status()
    }

    /// The operator, a space where the operand would otherwise run into it, then the operand.
    pub fn emit_unary_expr(&mut self, node: &UnaryExpr) -> (r: Result<(), SinkError>)
        requires
            old(self).wf(),
        ensures
            final(self).follows(*old(self), unary_expr(&old(self).env(), old(self).state(), node)),
            balanced(old(self).state(), final(self).state()),
            r is Err <==> final(self).state().wr.failed,
        decreases node.size(), 0nat,
    {
        self.enter(node.span);
        self.operator_or_word(node.op.is_word(), node.op.as_str());
        if self.should_emit_whitespace_before_operand(node) {
            self.space();
        }
        self.emit_expr(&*node.arg);
        self.leave(node.span);
        self.status()
    }

    /// `++arg` or `arg++`.
    pub fn emit_update_expr(&mut self, node: &UpdateExpr) -> (r: Result<(), SinkError>)
        requires
            old(self).wf(),
        ensures
            final(self).follows(*old(self), update_expr(&old(self).env(), old(self).state(), node)),
            balanced(old(self).state(), final(self).state()),
            r is Err <==> final(self).state().wr.failed,
        decreases node.size(), 0nat,
    {
        self.enter(node.span);
        if node.prefix {
            self.operator(node.op.as_str());
            self.emit_expr(&*node.arg);
        } else {
            self.emit_expr(&*node.arg);
            self.operator(node.op.as_str());
        }
        self.leave(node.span);
        self.status()
    }

    /// `yield`, `*` when delegating, then the argument after a space.
    pub fn emit_yield_expr(&mut self, node: &YieldExpr) -> (r: Result<(), SinkError>)
        requires
            old(self).wf(),
        ensures
            final(self).follows(*old(self), yield_expr(&old(self).env(), old(self).state(), node)),
            balanced(old(self).state(), final(self).state()),
            r is Err <==> final(self).state().wr.failed,
        decreases node.size(), 0nat,
    {
        self.enter(node.span);
        self.keyword("yield");
        if node.delegate {
            self.operator("*");
        }
        if let Some(x) = &node.arg {
            self.space();
            self.emit_expr(&**x);
        }
        self.leave(node.span);
        self.status()
    }

    /// An argument or element, after `...` when it is spread.
    pub fn emit_expr_or_spread(&mut self, node: &ExprOrSpread) -> (r: Result<(), SinkError>)
        requires
            old(self).wf(),
        ensures
            final(self).follows(*old(self), expr_or_spread(&old(self).env(), old(self).state(), node)),
            balanced(old(self).state(), final(self).state()),
            r is Err <==> final(self).state().wr.failed,
        decreases node.size(), 0nat,
    {
        self.enter(node.span);
        if node.spread {
            self.punct("...");
        }
        self.emit_expr(&*node.expr);
        self.leave(node.span);
        self.status()
    }

    /// `await arg`.
    pub fn emit_await_expr(&mut self, node: &AwaitExpr) -> (r: Result<(), SinkError>)
        requires
            old(self).wf(),
        ensures
            final(self).follows(*old(self), await_expr(&old(self).env(), old(self).state(), node)),
            balanced(old(self).state(), final(self).state()),
            r is Err <==> final(self).state().wr.failed,
        decreases node.size(), 0nat,
    {
        self.enter(node.span);
        self.keyword("await");
        self.space();
        self.emit_expr(&*node.arg);
        self.leave(node.span);
        self.status()
    }

    /// The elements in square brackets.
    pub fn emit_array_lit(&mut self, node: &ArrayLit) -> (r: Result<(), SinkError>)
        requires
            old(self).wf(),
        ensures
            final(self).follows(*old(self), array_lit(&old(self).env(), old(self).state(), node)),
            balanced(old(self).state(), final(self).state()),
            r is Err <==> final(self).state().wr.failed,
        decreases node.size(), 0nat,
    {
        self.enter(node.span);
        self.emit_list(node.span, Some(Nodes::ArrayElems(&node.elems)), ListFormat::from_bits(ARRAY_LITERAL_ELEMENTS));
        self.leave(node.span);
        self.status()
    }

    /// The properties in braces, one to a line.
    pub fn emit_object_lit(&mut self, node: &ObjectLit) -> (r: Result<(), SinkError>)
        requires
            old(self).wf(),
        ensures
            final(self).follows(*old(self), object_lit(&old(self).env(), old(self).state(), node)),
            balanced(old(self).state(), final(self).state()),
            r is Err <==> final(self).state().wr.failed,
        decreases node.size(), 0nat,
    {
        self.enter(node.span);
        self.emit_list(node.span, Some(Nodes::Props(&node.props)), ListFormat::from_bits(OBJECT_LITERAL_PROPERTIES));
        self.leave(node.span);
        self.status()
    }

    /// A property, by its kind.
    pub fn emit_prop(&mut self, node: &Prop) -> (r: Result<(), SinkError>)
        requires
            old(self).wf(),
        ensures
            final(self).follows(*old(self), prop(&old(self).env(), old(self).state(), node)),
            balanced(old(self).state(), final(self).state()),
            r is Err <==> final(self).state().wr.failed,
        decreases node.size(), 0nat,
    {
        match node {
            Prop::Shorthand(x) => {
                self.emit_ident(x);
            },
            Prop::KeyValue(x) => {
                self.emit_kv_prop(x);
            },
            Prop::Assign(x) => {
                self.emit_assign_prop(x);
            },
            Prop::Getter(x) => {
                self.emit_getter_prop(x);
            },
            Prop::Setter(x) => {
                self.emit_setter_prop(x);
            },
            Prop::Method(x) => {
                self.emit_method_prop(x);
            },
        }
        self.status()
    }

    /// `key: value`.
    pub fn emit_kv_prop(&mut self, node: &KeyValueProp) -> (r: Result<(), SinkError>)
        requires
            old(self).wf(),
        ensures
            final(self).follows(*old(self), kv_prop(&old(self).env(), old(self).state(), node)),
            balanced(old(self).state(), final(self).state()),
            r is Err <==> final(self).state().wr.failed,
        decreases node.size(), 0nat,
    {
        self.enter(node.span);
        self.emit_prop_name(&node.key);
        self.punct(":");
        self.formatting_space();
        self.emit_expr(&*node.value);
        self.leave(node.span);
        self.status()
    }

    /// `key=value`.
    pub fn emit_assign_prop(&mut self, node: &AssignProp) -> (r: Result<(), SinkError>)
        requires
            old(self).wf(),
        ensures
            final(self).follows(*old(self), assign_prop(&old(self).env(), old(self).state(), node)),
            balanced(old(self).state(), final(self).state()),
            r is Err <==> final(self).state().wr.failed,
        decreases node.size(), 0nat,
    {
        self.enter(node.span);
        self.emit_ident(&node.key);
        self.punct("=");
        self.emit_expr(&*node.value);
        self.leave(node.span);
        self.status()
    }

    /// `get key () { .. }`.
    pub fn emit_getter_prop(&mut self, node: &GetterProp) -> (r: Result<(), SinkError>)
        requires
            old(self).wf(),
        ensures
            final(self).follows(*old(self), getter_prop(&old(self).env(), old(self).state(), node)),
            balanced(old(self).state(), final(self).state()),
            r is Err <==> final(self).state().wr.failed,
        decreases node.size(), 0nat,
    {
        self.enter(node.span);
        self.keyword("get");
        self.space();
        self.emit_prop_name(&node.key);
        self.space();
        self.punct("(");
        self.punct(")");
        self.formatting_space();
        self.emit_block_stmt(&node.body);
        self.leave(node.span);
        self.status()
    }

    /// `set key (param){ .. }`.
    pub fn emit_setter_prop(&mut self, node: &SetterProp) -> (r: Result<(), SinkError>)
        requires
            old(self).wf(),
        ensures
            final(self).follows(*old(self), setter_prop(&old(self).env(), old(self).state(), node)),
            balanced(old(self).state(), final(self).state()),
            r is Err <==> final(self).state().wr.failed,
        decreases node.size(), 0nat,
    {
        self.enter(node.span);
        self.keyword("set");
        self.space();
        self.emit_prop_name(&node.key);
        self.space();
        self.punct("(");
        self.emit_pat(&node.param);
        self.punct(")");
        self.emit_block_stmt(&node.body);
        self.leave(node.span);
        self.status()
    }

    /// `async`, `*`, the key, a space, then the parameters and the body.
    pub fn emit_method_prop(&mut self, node: &MethodProp) -> (r: Result<(), SinkError>)
        requires
            old(self).wf(),
        ensures
            final(self).follows(*old(self), method_prop(&old(self).env(), old(self).state(), node)),
            balanced(old(self).state(), final(self).state()),
            r is Err <==> final(self).state().wr.failed,
        decreases node.size(), 0nat,
    {
        self.enter(node.span);
        if node.function.is_async {
            self.keyword("async");
            self.space();
        }
        if node.function.is_generator {
            self.punct("*");
        }
        self.emit_prop_name(&node.key);
        self.space();
        self.emit_fn_trailing(&node.function);
        self.leave(node.span);
        self.status()
    }

    /// `(expr)`.
    pub fn emit_paren_expr(&mut self, node: &ParenExpr) -> (r: Result<(), SinkError>)
        requires
            old(self).wf(),
        ensures
            final(self).follows(*old(self), paren_expr(&old(self).env(), old(self).state(), node)),
            balanced(old(self).state(), final(self).state()),
            r is Err <==> final(self).state().wr.failed,
        decreases node.size(), 0nat,
    {
        self.enter(node.span);
        self.punct("(");
        self.emit_expr(&*node.expr);
        self.punct(")");
        self.leave(node.span);
        self.status()
    }

    /// A pattern, by its kind.
    pub fn emit_pat(&mut self, node: &Pat) -> (r: Result<(), SinkError>)
        requires
            old(self).wf(),
        ensures
            final(self).follows(*old(self), pat(&old(self).env(), old(self).state(), node)),
            balanced(old(self).state(), final(self).state()),
            r is Err <==> final(self).state().wr.failed,
        decreases node.size(), 0nat,
    {
        match node {
            Pat::Ident(x) => {
                self.emit_ident(x);
            },
            Pat::Array(x) => {
                self.emit_array_pat(x);
            },
            Pat::Rest(x) => {
                self.emit_rest_pat(x);
            },
            Pat::Object(x) => {
                self.emit_object_pat(x);
            },
            Pat::Assign(x) => {
                self.emit_assign_pat(x);
            },
            Pat::Expr(x) => {
                self.emit_expr(&**x);
            },
        }
        self.status()
    }

    /// `...arg`.
    pub fn emit_rest_pat(&mut self, node: &RestPat) -> (r: Result<(), SinkError>)
        requires
            old(self).wf(),
        ensures
            final(self).follows(*old(self), rest_pat(&old(self).env(), old(self).state(), node)),
            balanced(old(self).state(), final(self).state()),
            r is Err <==> final(self).state().wr.failed,
        decreases node.size(), 0nat,
    {
        self.enter(node.span);
        self.punct("...");
        self.emit_pat(&*node.arg);
        self.leave(node.span);
        self.status()
    }

    /// A property, or a spread.
    pub fn emit_prop_or_spread(&mut self, node: &PropOrSpread) -> (r: Result<(), SinkError>)
        requires
            old(self).wf(),
        ensures
            final(self).follows(*old(self), prop_or_spread(&old(self).env(), old(self).state(), node)),
            balanced(old(self).state(), final(self).state()),
            r is Err <==> final(self).state().wr.failed,
        decreases node.size(), 0nat,
    {
        match node {
            PropOrSpread::Prop(x) => {
                self.emit_prop(&**x);
            },
            PropOrSpread::Spread(x) => {
                self.emit_spread_element(x);
            },
        }
        self.status()
    }

    /// `...expr`.
    pub fn emit_spread_element(&mut self, node: &SpreadElement) -> (r: Result<(), SinkError>)
        requires
            old(self).wf(),
        ensures
            final(self).follows(*old(self), spread_element(&old(self).env(), old(self).state(), node)),
            balanced(old(self).state(), final(self).state()),
            r is Err <==> final(self).state().wr.failed,
        decreases node.size(), 0nat,
    {
        self.enter(node.span);
        self.punct("...");
        self.emit_expr(&*node.expr);
        self.leave(node.span);
        self.status()
    }

    /// The target of an assignment.
    pub fn emit_pat_or_expr(&mut self, node: &PatOrExpr) -> (r: Result<(), SinkError>)
        requires
            old(self).wf(),
        ensures
            final(self).follows(*old(self), pat_or_expr(&old(self).env(), old(self).state(), node)),
            balanced(old(self).state(), final(self).state()),
            r is Err <==> final(self).state().wr.failed,
        decreases node.size(), 0nat,
    {
        match node {
            PatOrExpr::Expr(x) => {
                self.emit_expr(&**x);
            },
            PatOrExpr::Pat(x) => {
                self.emit_pat(&**x);
            },
        }
        self.status()
    }

    /// The elements in square brackets.
    pub fn emit_array_pat(&mut self, node: &ArrayPat) -> (r: Result<(), SinkError>)
        requires
            old(self).wf(),
        ensures
            final(self).follows(*old(self), array_pat(&old(self).env(), old(self).state(), node)),
            balanced(old(self).state(), final(self).state()),
            r is Err <==> final(self).state().wr.failed,
        decreases node.size(), 0nat,
    {
        self.enter(node.span);
        self.emit_list(node.span, Some(Nodes::ArrayPatElems(&node.elems)), ListFormat::from_bits(ARRAY_BINDING_PATTERN_ELEMENTS));
        self.leave(node.span);
        self.status()
    }

    /// `left = right`, with spaces for the reader.
    pub fn emit_assign_pat(&mut self, node: &AssignPat) -> (r: Result<(), SinkError>)
        requires
            old(self).wf(),
        ensures
            final(self).follows(*old(self), assign_pat(&old(self).env(), old(self).state(), node)),
            balanced(old(self).state(), final(self).state()),
            r is Err <==> final(self).state().wr.failed,
        decreases node.size(), 0nat,
    {
        self.enter(node.span);
        self.emit_pat(&*node.left);
        self.formatting_space();
        self.punct("=");
        self.formatting_space();
        self.emit_expr(&*node.right);
        self.leave(node.span);
        self.status()
    }

    /// The properties in braces.
    pub fn emit_object_pat(&mut self, node: &ObjectPat) -> (r: Result<(), SinkError>)
        requires
            old(self).wf(),
        ensures
            final(self).follows(*old(self), object_pat(&old(self).env(), old(self).state(), node)),
            balanced(old(self).state(), final(self).state()),
            r is Err <==> final(self).state().wr.failed,
        decreases node.size(), 0nat,
    {
        self.enter(node.span);
        self.emit_list(node.span, Some(Nodes::ObjectPatProps(&node.props)), ListFormat::from_bits(OBJECT_BINDING_PATTERN_ELEMENTS));
        self.leave(node.span);
        self.status()
    }

    /// A member of an object pattern, by its kind.
    pub fn emit_object_pat_prop(&mut self, node: &ObjectPatProp) -> (r: Result<(), SinkError>)
        requires
            old(self).wf(),
        ensures
            final(self).follows(*old(self), object_pat_prop(&old(self).env(), old(self).state(), node)),
            balanced(old(self).state(), final(self).state()),
            r is Err <==> final(self).state().wr.failed,
        decreases node.size(), 0nat,
    {
        match node {
            ObjectPatProp::KeyValue(x) => {
                self.emit_object_kv_pat(x);
            },
            ObjectPatProp::Assign(x) => {
                self.emit_object_assign_pat(x);
            },
            ObjectPatProp::Rest(x) => {
                self.emit_rest_pat(x);
            },
        }
        self.status()
    }

    /// `key: value`.
    pub fn emit_object_kv_pat(&mut self, node: &KeyValuePatProp) -> (r: Result<(), SinkError>)
        requires
            old(self).wf(),
        ensures
            final(self).follows(*old(self), object_kv_pat(&old(self).env(), old(self).state(), node)),
            balanced(old(self).state(), final(self).state()),
            r is Err <==> final(self).state().wr.failed,
        decreases node.size(), 0nat,
    {
        self.enter(node.span);
        self.emit_prop_name(&node.key);
        self.punct(":");
        self.formatting_space();
        self.emit_pat(&*node.value);
        self.leave(node.span);
        self.status()
    }

    /// `key`, or `key = value`.
    pub fn emit_object_assign_pat(&mut self, node: &AssignPatProp) -> (r: Result<(), SinkError>)
        requires
            old(self).wf(),
        ensures
            final(self).follows(*old(self), object_assign_pat(&old(self).env(), old(self).state(), node)),
            balanced(old(self).state(), final(self).state()),
            r is Err <==> final(self).state().wr.failed,
        decreases node.size(), 0nat,
    {
        self.enter(node.span);
        self.emit_ident(&node.key);
        if let Some(x) = &node.value {
            self.formatting_space();
            self.punct("=");
            self.formatting_space();
            self.emit_expr(&**x);
        }
        self.leave(node.span);
        self.status()
    }

    /// The head of a `for`-`in` or `for`-`of`.
    pub fn emit_var_decl_or_pat(&mut self, node: &VarDeclOrPat) -> (r: Result<(), SinkError>)
        requires
            old(self).wf(),
        ensures
            final(self).follows(*old(self), var_decl_or_pat(&old(self).env(), old(self).state(), node)),
            balanced(old(self).state(), final(self).state()),
            r is Err <==> final(self).state().wr.failed,
        decreases node.size(), 0nat,
    {
        match node {
            VarDeclOrPat::VarDecl(x) => {
                self.emit_var_decl(x);
            },
            VarDeclOrPat::Pat(x) => {
                self.emit_pat(x);
            },
        }
        self.status()
    }

    /// A declaration, by its kind; a variable declaration takes a semicolon.
    pub fn emit_decl(&mut self, node: &Decl) -> (r: Result<(), SinkError>)
        requires
            old(self).wf(),
        ensures
            final(self).follows(*old(self), decl(&old(self).env(), old(self).state(), node)),
            balanced(old(self).state(), final(self).state()),
            r is Err <==> final(self).state().wr.failed,
        decreases node.size(), 0nat,
    {
        match node {
            Decl::Class(x) => {
                self.emit_class_decl(x);
            },
            Decl::Fn(x) => {
                self.emit_fn_decl(x);
            },
            Decl::Var(x) => {
                self.emit_var_decl(x);
                self.semi();
            },
        }
        self.status()
    }

    /// `class`, a space, the name, then the rest of the class.
    pub fn emit_class_decl(&mut self, node: &ClassDecl) -> (r: Result<(), SinkError>)
        requires
            old(self).wf(),
        ensures
            final(self).follows(*old(self), class_decl(&old(self).env(), old(self).state(), node)),
            balanced(old(self).state(), final(self).state()),
            r is Err <==> final(self).state().wr.failed,
        decreases node.size(), 0nat,
    {
        self.enter(node.span);
        self.keyword("class");
        self.space();
        self.emit_ident(&node.ident);
        self.emit_class_trailing(&node.class);
        self.leave(node.span);
        self.status()
    }

    /// `async`, `function`, `*`, a space, the name, then the parameters and the body.
    pub fn emit_fn_decl(&mut self, node: &FnDecl) -> (r: Result<(), SinkError>)
        requires
            old(self).wf(),
        ensures
            final(self).follows(*old(self), fn_decl(&old(self).env(), old(self).state(), node)),
            balanced(old(self).state(), final(self).state()),
            r is Err <==> final(self).state().wr.failed,
        decreases node.size(), 0nat,
    {
        self.enter(node.span);
        if node.function.is_async {
            self.keyword("async");
            self.space();
        }
        self.keyword("function");
        if node.function.is_generator {
            self.punct("*");
        }
        self.space();
        self.emit_ident(&node.ident);
        self.emit_fn_trailing(&node.function);
        self.leave(node.span);
        self.status()
    }

    /// `var`, `let` or `const`, a space, then the declarators separated by commas.
    pub fn emit_var_decl(&mut self, node: &VarDecl) -> (r: Result<(), SinkError>)
        requires
            old(self).wf(),
        ensures
            final(self).follows(*old(self), var_decl(&old(self).env(), old(self).state(), node)),
            balanced(old(self).state(), final(self).state()),
            r is Err <==> final(self).state().wr.failed,
        decreases node.size(), 0nat,
    {
        self.enter(node.span);
        self.keyword(node.kind.as_str());
        self.space();
        self.emit_list(node.span, Some(Nodes::VarDeclarators(&node.decls)), ListFormat::from_bits(COMMA_LIST_ELEMENTS));
        self.leave(node.span);
        self.status()
    }

    /// `name`, or `name = init`.
    pub fn emit_var_declarator(&mut self, node: &VarDeclarator) -> (r: Result<(), SinkError>)
        requires
            old(self).wf(),
        ensures
            final(self).follows(*old(self), var_declarator(&old(self).env(), old(self).state(), node)),
            balanced(old(self).state(), final(self).state()),
            r is Err <==> final(self).state().wr.failed,
        decreases node.size(), 0nat,
    {
        self.enter(node.span);
        self.emit_pat(&node.name);
        if let Some(x) = &node.init {
            self.formatting_space();
            self.punct("=");
            self.formatting_space();
            self.emit_expr(&**x);
        }
        self.leave(node.span);
        self.status()
    }

    /// The statements in braces, one to a line.
    pub fn emit_block_stmt(&mut self, node: &BlockStmt) -> (r: Result<(), SinkError>)
        requires
            old(self).wf(),
        ensures
            final(self).follows(*old(self), block_stmt(&old(self).env(), old(self).state(), node)),
            balanced(old(self).state(), final(self).state()),
            r is Err <==> final(self).state().wr.failed,
        decreases node.size(), 0nat,
    {
        self.enter(node.span);
        self.emit_list(node.span, Some(Nodes::Stmts(&node.stmts)), ListFormat::from_bits(MULTI_LINE_BLOCK_STATEMENTS));
        self.leave(node.span);
        self.status()
    }

    /// `;`.
    pub fn emit_empty_stmt(&mut self, node: &EmptyStmt) -> (r: Result<(), SinkError>)
        requires
            old(self).wf(),
        ensures
            final(self).follows(*old(self), empty_stmt(&old(self).env(), old(self).state(), node)),
            balanced(old(self).state(), final(self).state()),
            r is Err <==> final(self).state().wr.failed,
    {
        self.enter(node.span);
        self.punct(";");
        self.leave(node.span);
        self.status()
    }

    /// `debugger;`.
    pub fn emit_debugger_stmt(&mut self, node: &DebuggerStmt) -> (r: Result<(), SinkError>)
        requires
            old(self).wf(),
        ensures
            final(self).follows(*old(self), debugger_stmt(&old(self).env(), old(self).state(), node)),
            balanced(old(self).state(), final(self).state()),
            r is Err <==> final(self).state().wr.failed,
    {
        self.enter(node.span);
        self.keyword("debugger");
        self.semi();
        self.leave(node.span);
        self.status()
    }

    /// `with (obj) body`.
    pub fn emit_with_stmt(&mut self, node: &WithStmt) -> (r: Result<(), SinkError>)
        requires
            old(self).wf(),
        ensures
            final(self).follows(*old(self), with_stmt(&old(self).env(), old(self).state(), node)),
            balanced(old(self).state(), final(self).state()),
            r is Err <==> final(self).state().wr.failed,
        decreases node.size(), 0nat,
    {
        self.enter(node.span);
        self.keyword("with");
        self.formatting_space();
        self.punct("(");
        self.emit_expr(&*node.obj);
        self.punct(")");
        self.emit_inner_stmt(&*node.body);
        self.leave(node.span);
        self.status()
    }

    /// `return`, the argument after a space where there is one, and a semicolon.
    pub fn emit_return_stmt(&mut self, node: &ReturnStmt) -> (r: Result<(), SinkError>)
        requires
            old(self).wf(),
        ensures
            final(self).follows(*old(self), return_stmt(&old(self).env(), old(self).state(), node)),
            balanced(old(self).state(), final(self).state()),
            r is Err <==> final(self).state().wr.failed,
        decreases node.size(), 0nat,
    {
        self.enter(node.span);
        self.keyword("return");
        if let Some(x) = &node.arg {
            self.space();
            self.emit_expr(&**x);
        }
        self.semi();
        self.leave(node.span);
        self.status()
    }

    /// `label: body`.
    pub fn emit_labeled_stmt(&mut self, node: &LabeledStmt) -> (r: Result<(), SinkError>)
        requires
            old(self).wf(),
        ensures
            final(self).follows(*old(self), labeled_stmt(&old(self).env(), old(self).state(), node)),
            balanced(old(self).state(), final(self).state()),
            r is Err <==> final(self).state().wr.failed,
        decreases node.size(), 0nat,
    {
        self.enter(node.span);
        self.emit_ident(&node.label);
        self.punct(":");
        self.space();
        self.emit_inner_stmt(&*node.body);
        self.leave(node.span);
        self.status()
    }

    /// `break`, the label after a space where there is one, and a semicolon.
    pub fn emit_break_stmt(&mut self, node: &BreakStmt) -> (r: Result<(), SinkError>)
        requires
            old(self).wf(),
        ensures
            final(self).follows(*old(self), break_stmt(&old(self).env(), old(self).state(), node)),
            balanced(old(self).state(), final(self).state()),
            r is Err <==> final(self).state().wr.failed,
    {
        self.enter(node.span);
        self.keyword("break");
        if let Some(x) = &node.label {
            self.space();
            self.emit_ident(x);
        }
        self.semi();
        self.leave(node.span);
        self.status()
    }

    /// `continue`, the label after a space where there is one, and a semicolon.
    pub fn emit_continue_stmt(&mut self, node: &ContinueStmt) -> (r: Result<(), SinkError>)
        requires
            old(self).wf(),
        ensures
            final(self).follows(*old(self), continue_stmt(&old(self).env(), old(self).state(), node)),
            balanced(old(self).state(), final(self).state()),
            r is Err <==> final(self).state().wr.failed,
    {
        self.enter(node.span);
        self.keyword("continue");
        if let Some(x) = &node.label {
            self.space();
            self.emit_ident(x);
        }
        self.semi();
        self.leave(node.span);
        self.status()
    }

    /// `if (test) cons`, then `else alt` where there is one. The consequent ends its own line
    /// unless it is a block; `else` follows a block after a space.
    pub fn emit_if_stmt(&mut self, node: &IfStmt) -> (r: Result<(), SinkError>)
        requires
            old(self).wf(),
        ensures
            final(self).follows(*old(self), if_stmt(&old(self).env(), old(self).state(), node)),
            balanced(old(self).state(), final(self).state()),
            r is Err <==> final(self).state().wr.failed,
        decreases node.size(), 0nat,
    {
        self.enter(node.span);
        self.keyword("if");
        self.space();
        self.punct("(");
        self.emit_expr(&*node.test);
        self.punct(")");
        self.space();
        self.emit_stmt(&*node.cons);
        if let Some(x) = &node.alt {
            if is_block(&node.cons) {
                self.space();
            }
            self.keyword("else");
            self.space();
            self.emit_inner_stmt(&**x);
        }
        self.leave(node.span);
        self.status()
    }

    /// `switch(discriminant){`, the clauses one to a line, `}`.
    pub fn emit_switch_stmt(&mut self, node: &SwitchStmt) -> (r: Result<(), SinkError>)
        requires
            old(self).wf(),
        ensures
            final(self).follows(*old(self), switch_stmt(&old(self).env(), old(self).state(), node)),
            balanced(old(self).state(), final(self).state()),
            r is Err <==> final(self).state().wr.failed,
        decreases node.size(), 0nat,
    {
        self.enter(node.span);
        self.keyword("switch");
        self.punct("(");
        self.emit_expr(&*node.discriminant);
        self.punct(")");
        self.punct("{");
        self.emit_list(node.span, Some(Nodes::SwitchCases(&node.cases)), ListFormat::from_bits(CASE_BLOCK_CLAUSES));
        self.punct("}");
        self.leave(node.span);
        self.status()
    }

    /// `catch (param) { .. }`.
    pub fn emit_catch_clause(&mut self, node: &CatchClause) -> (r: Result<(), SinkError>)
        requires
            old(self).wf(),
        ensures
            final(self).follows(*old(self), catch_clause(&old(self).env(), old(self).state(), node)),
            balanced(old(self).state(), final(self).state()),
            r is Err <==> final(self).state().wr.failed,
        decreases node.size(), 0nat,
    {
        self.enter(node.span);
        self.keyword("catch");
        self.space();
        self.punct("(");
        self.emit_pat(&node.param);
        self.punct(")");
        self.space();
        self.emit_block_stmt(&node.body);
        self.leave(node.span);
        self.status()
    }

    /// `throw arg;`.
    pub fn emit_throw_stmt(&mut self, node: &ThrowStmt) -> (r: Result<(), SinkError>)
        requires
            old(self).wf(),
        ensures
            final(self).follows(*old(self), throw_stmt(&old(self).env(), old(self).state(), node)),
            balanced(old(self).state(), final(self).state()),
            r is Err <==> final(self).state().wr.failed,
        decreases node.size(), 0nat,
    {
        self.enter(node.span);
        self.keyword("throw");
        self.space();
        self.emit_expr(&*node.arg);
        self.semi();
        self.leave(node.span);
        self.status()
    }

    /// `try`, the block, then the handler and `finally` with its block where there are any.
    pub fn emit_try_stmt(&mut self, node: &TryStmt) -> (r: Result<(), SinkError>)
        requires
            old(self).wf(),
        ensures
            final(self).follows(*old(self), try_stmt(&old(self).env(), old(self).state(), node)),
            balanced(old(self).state(), final(self).state()),
            r is Err <==> final(self).state().wr.failed,
        decreases node.size(), 0nat,
    {
        self.enter(node.span);
        self.keyword("try");
        self.emit_block_stmt(&node.block);
        if let Some(x) = &node.handler {
            self.emit_catch_clause(x);
        }
        if let Some(x) = &node.finalizer {
            self.keyword("finally");
            self.emit_block_stmt(x);
        }
        self.leave(node.span);
        self.status()
    }

    /// `while(test)body`.
    pub fn emit_while_stmt(&mut self, node: &WhileStmt) -> (r: Result<(), SinkError>)
        requires
            old(self).wf(),
        ensures
            final(self).follows(*old(self), while_stmt(&old(self).env(), old(self).state(), node)),
            balanced(old(self).state(), final(self).state()),
            r is Err <==> final(self).state().wr.failed,
        decreases node.size(), 0nat,
    {
        self.enter(node.span);
        self.keyword("while");
        self.punct("(");
        self.emit_expr(&*node.test);
        self.punct(")");
        self.emit_inner_stmt(&*node.body);
        self.leave(node.span);
        self.status()
    }

    /// `do body while(test);`.
    pub fn emit_do_while_stmt(&mut self, node: &DoWhileStmt) -> (r: Result<(), SinkError>)
        requires
            old(self).wf(),
        ensures
            final(self).follows(*old(self), do_while_stmt(&old(self).env(), old(self).state(), node)),
            balanced(old(self).state(), final(self).state()),
            r is Err <==> final(self).state().wr.failed,
        decreases node.size(), 0nat,
    {
        self.enter(node.span);
        self.keyword("do");
        self.space();
        self.emit_inner_stmt(&*node.body);
        self.formatting_space();
        self.keyword("while");
        self.punct("(");
        self.emit_expr(&*node.test);
        self.punct(")");
        self.semi();
        self.leave(node.span);
        self.status()
    }

    /// `for(init; test; update)body`; each of the three may be missing.
    pub fn emit_for_stmt(&mut self, node: &ForStmt) -> (r: Result<(), SinkError>)
        requires
            old(self).wf(),
        ensures
            final(self).follows(*old(self), for_stmt(&old(self).env(), old(self).state(), node)),
            balanced(old(self).state(), final(self).state()),
            r is Err <==> final(self).state().wr.failed,
        decreases node.size(), 0nat,
    {
        self.enter(node.span);
        self.keyword("for");
        self.punct("(");
        if let Some(x) = &node.init {
            self.emit_var_decl_or_expr(x);
        }
        self.punct(";");
        if let Some(x) = &node.test {
            self.formatting_space();
            self.emit_expr(&**x);
        }
        self.punct(";");
        if let Some(x) = &node.update {
            self.formatting_space();
            self.emit_expr(&**x);
        }
        self.punct(")");
        self.emit_inner_stmt(&*node.body);
        self.leave(node.span);
        self.status()
    }

    /// `for(left in right)body`.
    pub fn emit_for_in_stmt(&mut self, node: &ForInStmt) -> (r: Result<(), SinkError>)
        requires
            old(self).wf(),
        ensures
            final(self).follows(*old(self), for_in_stmt(&old(self).env(), old(self).state(), node)),
            balanced(old(self).state(), final(self).state()),
            r is Err <==> final(self).state().wr.failed,
        decreases node.size(), 0nat,
    {
        self.enter(node.span);
        self.keyword("for");
        self.punct("(");
        self.emit_var_decl_or_pat(&node.left);
        self.space();
        self.keyword("in");
        self.space();
        self.emit_expr(&*node.right);
        self.punct(")");
        self.emit_inner_stmt(&*node.body);
        self.leave(node.span);
        self.status()
    }

    /// `for(left of right)body`.
    pub fn emit_for_of_stmt(&mut self, node: &ForOfStmt) -> (r: Result<(), SinkError>)
        requires
            old(self).wf(),
        ensures
            final(self).follows(*old(self), for_of_stmt(&old(self).env(), old(self).state(), node)),
            balanced(old(self).state(), final(self).state()),
            r is Err <==> final(self).state().wr.failed,
        decreases node.size(), 0nat,
    {
        self.enter(node.span);
        self.keyword("for");
        self.punct("(");
        self.emit_var_decl_or_pat(&node.left);
        self.space();
        self.keyword("of");
        self.space();
        self.emit_expr(&*node.right);
        self.punct(")");
        self.emit_inner_stmt(&*node.body);
        self.leave(node.span);
        self.status()
    }

    /// The initialiser of a `for`.
    pub fn emit_var_decl_or_expr(&mut self, node: &VarDeclOrExpr) -> (r: Result<(), SinkError>)
        requires
            old(self).wf(),
        ensures
            final(self).follows(*old(self), var_decl_or_expr(&old(self).env(), old(self).state(), node)),
            balanced(old(self).state(), final(self).state()),
            r is Err <==> final(self).state().wr.failed,
        decreases node.size(), 0nat,
    {
        match node {
            VarDeclOrExpr::VarDecl(x) => {
                self.emit_var_decl(x);
            },
            VarDeclOrExpr::Expr(x) => {
                self.emit_expr(&**x);
            },
        }
        self.status()
    }

    /// Writes the child at `i`.
    pub fn emit_child(&mut self, children: Nodes, i: usize) -> (r: Result<(), SinkError>)
        requires
            old(self).wf(),
            i < children@.len(),
        ensures
            final(self).follows(
                *old(self),
                child(&old(self).env(), old(self).state(), children@, i as int),
            ),
            balanced(old(self).state(), final(self).state()),
            r is Err <==> final(self).state().wr.failed,
        decreases children@.size(), 0nat,
    {
        match children {
            Nodes::Stmts(v) => {
                proof {
                    lemma_stmts_size(v@, 0, i as int);
                }
                self.emit_inner_stmt(&v[i]);
            },
            Nodes::ExprOrSpreads(v) => {
                proof {
                    lemma_expr_or_spreads_size(v@, 0, i as int);
                }
                self.emit_expr_or_spread(&v[i]);
            },
            Nodes::ArrayElems(v) => {
                proof {
                    lemma_array_elems_size(v@, 0, i as int);
                }
                if let Some(x) = &v[i] {
                    self.emit_expr_or_spread(x);
                }
            },
            Nodes::Props(v) => {
                proof {
                    lemma_props_size(v@, 0, i as int);
                }
                self.emit_prop_or_spread(&v[i]);
            },
            Nodes::Pats(v) => {
                proof {
                    lemma_pats_size(v@, 0, i as int);
                }
                self.emit_pat(&v[i]);
            },
            Nodes::ArrayPatElems(v) => {
                proof {
                    lemma_array_pat_elems_size(v@, 0, i as int);
                }
                if let Some(x) = &v[i] {
                    self.emit_pat(x);
                }
            },
            Nodes::ObjectPatProps(v) => {
                proof {
                    lemma_object_pat_props_size(v@, 0, i as int);
                }
                self.emit_object_pat_prop(&v[i]);
            },
            Nodes::ClassMethods(v) => {
                proof {
                    lemma_class_methods_size(v@, 0, i as int);
                }
                self.emit_class_method(&v[i]);
            },
            Nodes::SwitchCases(v) => {
                proof {
                    lemma_switch_cases_size(v@, 0, i as int);
                }
                self.emit_switch_case(&v[i]);
            },
            Nodes::VarDeclarators(v) => {
                proof {
                    lemma_var_declarators_size(v@, 0, i as int);
                }
                self.emit_var_declarator(&v[i]);
            },
            Nodes::ImportSpecifics(v) => {
                proof {
                    lemma_import_specifics_size(v@, 0, i as int);
                }
                self.emit_import_specific(&v[i]);
            },
            Nodes::ExportSpecifiers(v) => {
                proof {
                    lemma_export_specifiers_size(v@, 0, i as int);
                }
                self.emit_export_specifier(&v[i]);
            },
            Nodes::Exprs(v) => {
                proof {
                    lemma_exprs_size(v@, 0, i as int);
                }
                self.emit_expr(&*v[i]);
            },
        }
        self.status()
    }

    fn write_delim(&mut self, format: ListFormat)
        requires
            old(self).wf(),
        ensures
            final(self).follows(*old(self), delimiter(old(self).state(), format)),
    {
        if format.intersects(DELIMITERS_MASK) {
            if format.delimiter_has_leading_space() {
                self.space();
            }
            self.punct(format.delimiter());
        }
    }

    /// Writes all the children, under `format`.
    pub fn emit_list(&mut self, parent: Span, children: Option<Nodes>, format: ListFormat) -> (r:
        Result<(), SinkError>)
        requires
            old(self).wf(),
        ensures
            final(self).follows(
                *old(self),
                list(&old(self).env(), old(self).state(), parent, seq_of(children), format),
            ),
            balanced(old(self).state(), final(self).state()),
            r is Err <==> final(self).state().wr.failed,
        decreases seq_size(seq_of(children)), 3nat,
    {
        let count = match children {
            Some(c) => c.len(),
            None => 0,
        };
        self.emit_list5(parent, children, format, 0, count)
    }

    fn list_open(&mut self, parent: Span, format: ListFormat, empty: bool)
        requires
            old(self).wf(),
        ensures
            final(self).follows(
                *old(self),
                list_open(&old(self).env(), old(self).state(), parent, format, empty),
            ),
            balanced(old(self).state(), final(self).state()),
    {
        if format.intersects(BRACKETS_MASK) {
            self.punct(format.opening_bracket());
            if empty {
                self.emit_trailing_comments_of_pos(parent.lo, true);
            }
        }
    }

    fn list_close(&mut self, parent: Span, format: ListFormat, empty: bool)
        requires
            old(self).wf(),
        ensures
            final(self).follows(
                *old(self),
                list_close(&old(self).env(), old(self).state(), parent, format, empty),
            ),
            balanced(old(self).state(), final(self).state()),
    {
        if format.intersects(BRACKETS_MASK) {
            if empty {
                // Emit leading comments within empty lists.
                self.emit_leading_comments_of_pos(parent.hi);
            }
            self.punct(format.closing_bracket());
        }
    }

    fn list_empty_body(&mut self, format: ListFormat)
        requires
            old(self).wf(),
        ensures
            final(self).follows(
                *old(self),
                list_empty_body(&old(self).env(), old(self).state(), format),
            ),
            balanced(old(self).state(), final(self).state()),
    {
        // Write a line terminator if the parent node was multi-line.
        if format.contains(MULTI_LINE) {
            self.line();
        } else if format.contains(SPACE_BETWEEN_BRACES) && !format.contains(NO_SPACE_IF_EMPTY) {
            self.formatting_space();
        }
    }

    fn list_lead(&mut self, parent: Span, c: Nodes, format: ListFormat, start: usize) -> (took:
        bool)
        requires
            old(self).wf(),
            start < c@.len(),
        ensures
            final(self).follows(
                *old(self),
                list_lead(&old(self).env(), old(self).state(), parent, c@, format, start as int),
            ),
            took == list_deepens(
                &old(self).env(),
                old(self).state(),
                parent,
                c@,
                format,
                start as int,
            ),
            shifted(
                old(self).state(),
                final(self).state(),
                if took {
                    1
                } else {
                    0
                },
            ),
    {
        // Write the opening line terminator or leading whitespace.
        if self.cm.should_write_leading_line_terminator(parent, c.span_at(start), format) {
            self.line();
        } else if format.contains(SPACE_BETWEEN_BRACES) {
            self.formatting_space();
        }
        // Increase the indent, if requested.
        if format.contains(INDENTED) {
            self.increase_indent()
        } else {
            false
        }
    }

    fn list_trail(&mut self, parent: Span, c: Nodes, format: ListFormat, end: usize, took: bool)
        requires
            old(self).wf(),
            0 < end <= c@.len(),
            took ==> old(self).state().wr.indent > 0,
        ensures
            final(self).follows(
                *old(self),
                list_trail(
                    &old(self).env(),
                    old(self).state(),
                    parent,
                    c@,
                    format,
                    end as int,
                    took,
                ),
            ),
            shifted(
                old(self).state(),
                final(self).state(),
                if took {
                    -1
                } else {
                    0
                },
            ),
    {
        // Write a trailing comma, if the list would lose a hole without.
        if format.contains(ALLOW_TRAILING_COMMA) && format.contains(COMMA_DELIMITED) && end
            == c.len() && c.ends_with_hole() {
            self.punct(",");
        }
        // Emit any comment that leads the end of the last element.
        let last = c.span_at(end - 1);
        if format.intersects(DELIMITERS_MASK) && last.hi != parent.hi {
            self.emit_leading_comments_of_pos(last.hi);
        }
        // Decrease the indent, if it was increased: on every way out.
        if took {
            self.decrease_indent();
        }
        // Write the closing line terminator or closing whitespace.
        if self.cm.should_write_closing_line_terminator(parent, last, format) {
            self.line();
        } else if format.contains(SPACE_BETWEEN_BRACES) {
            self.formatting_space();
        }
    }

    fn breaks_before(&self, parent: Span, c: Nodes, format: ListFormat, start: usize, i: usize) -> (r:
        bool)
        requires
            start <= i < c@.len(),
        ensures
            r == breaks_before(&self.env(), parent, c@, format, start as int, i as int),
    {
        if i == start {
            self.cm.should_write_leading_line_terminator(parent, c.span_at(i), format)
        } else {
            self.cm.should_write_separating_line_terminator(
                c.span_at(i - 1),
                c.span_at(i),
                format,
            )
        }
    }

    fn separator(&mut self, parent: Span, c: Nodes, format: ListFormat, start: usize, i: usize) -> (took:
        bool)
        requires
            old(self).wf(),
            start < i < c@.len(),
        ensures
            took == item_deepens(
                &old(self).env(),
                old(self).state(),
                parent,
                c@,
                format,
                start as int,
                i as int,
            ),
            final(self).follows(
                *old(self),
                separator(
                    &old(self).env(),
                    old(self).state(),
                    parent,
                    c@,
                    format,
                    start as int,
                    i as int,
                ),
            ),
            shifted(
                old(self).state(),
                final(self).state(),
                if took {
                    1
                } else {
                    0
                },
            ),
    {
        let prev = c.span_at(i - 1);
        if format.intersects(DELIMITERS_MASK) && prev.hi != parent.hi {
            self.emit_leading_comments_of_pos(prev.hi);
        }
        self.write_delim(format);
        let mut took = false;
        // Write either a line terminator or whitespace to separate the elements.
        if self.breaks_before(parent, c, format, start, i) {
            // A child that starts a line of a single-line list goes one stop
            // deeper.
            if format.bits & (LINES_MASK | INDENTED) == SINGLE_LINE {
                took = self.increase_indent();
            }
            self.line();
        } else if format.contains(SPACE_BETWEEN_SIBLINGS) {
            self.formatting_space();
        }
        took
    }

    /// Writes the child at `i` of a list that began at `start`, with what
    /// precedes and follows it.
    fn emit_item(&mut self, parent: Span, c: Nodes, format: ListFormat, start: usize, i: usize)
        requires
            old(self).wf(),
            start <= i < c@.len(),
        ensures
            final(self).follows(
                *old(self),
                item(&old(self).env(), old(self).state(), parent, c@, format, start as int, i as int),
            ),
            balanced(old(self).state(), final(self).state()),
        decreases c@.size(), 1nat,
    {
        // Write the delimiter if this is not the first node.
        let took = if i > start {
            self.separator(parent, c, format, start, i)
        } else {
            false
        };
        let breaks = self.breaks_before(parent, c, format, start, i);
        if !format.intersects(NO_INTERVENING_COMMENTS) && !breaks {
            self.emit_trailing_comments_of_pos(c.span_at(i).hi, false);
        }
        // Emit this child.
        self.emit_child(c, i);
        // The way back is owed whether or not the child could be written.
        if took {
            self.decrease_indent();
        }
    }

    /// Writes `count` children from `start` on, under `format`: as many as
    /// there are, if there are fewer.
    pub fn emit_list5(
        &mut self,
        parent: Span,
        children: Option<Nodes>,
        format: ListFormat,
        start: usize,
        count: usize,
    ) -> (r: Result<(), SinkError>)
        requires
            old(self).wf(),
        ensures
            final(self).follows(
                *old(self),
                list5(
                    &old(self).env(),
                    old(self).state(),
                    parent,
                    seq_of(children),
                    format,
                    start as int,
                    count as int,
                ),
            ),
            balanced(old(self).state(), final(self).state()),
            r is Err <==> final(self).state().wr.failed,
        decreases seq_size(seq_of(children)), 2nat,
    {
        let ghost cx = self.env();
        let empty = match children {
            Some(c) => count == 0 || start >= c.len(),
            None => true,
        };
        if children.is_none() && format.contains(OPTIONAL_IF_UNDEFINED) {
            return self.status();
        }
        if empty && format.contains(OPTIONAL_IF_EMPTY) {
            return self.status();
        }
        self.list_open(parent, format, empty);
        match children {
            Some(c) if !empty => {
                let end = if count <= c.len() - start {
                    start + count
                } else {
                    c.len()
                };
                let took = self.list_lead(parent, c, format, start);
                let ghost base = self.state();
                let ghost goal = list_items(
                    &cx,
                    base,
                    parent,
                    c@,
                    format,
                    start as int,
                    end as int,
                    start as int,
                );
                // Emit each child.
                let mut i = start;
                while i < end
                    invariant
                        start <= i <= end <= c@.len(),
                        seq_of(children) == Some(c@),
                        self.wf(),
                        self.env() == cx,
                        list_items(
                            &cx,
                            self.state(),
                            parent,
                            c@,
                            format,
                            start as int,
                            end as int,
                            i as int,
                        ) == goal,
                        balanced(base, self.state()),
                    decreases end - i,
                {
                    self.emit_item(parent, c, format, start, i);
                    i += 1;
                }
                self.list_trail(parent, c, format, end, took);
            },
            _ => {
                self.list_empty_body(format);
            },
        }
        self.list_close(parent, format, empty);
        self.status()
    }

    /// Writes arguments or elements as a list under `format`.
    pub fn emit_expr_or_spreads(
        &mut self,
        parent: Span,
        nodes: &Vec<ExprOrSpread>,
        format: ListFormat,
    ) -> (r: Result<(), SinkError>)
        requires
            old(self).wf(),
        ensures
            final(self).follows(
                *old(self),
                list(
                    &old(self).env(),
                    old(self).state(),
                    parent,
                    Some(NodeSeq::ExprOrSpreads(nodes@)),
                    format,
                ),
            ),
            balanced(old(self).state(), final(self).state()),
            r is Err <==> final(self).state().wr.failed,
        decreases 1 + expr_or_spreads_size(nodes@, 0), 4nat,
    {
        self.emit_list(parent, Some(Nodes::ExprOrSpreads(nodes)), format)
    }

    /// A literal, by its kind.
    pub fn emit_lit(&mut self, node: &Lit) -> (r: Result<(), SinkError>)
        requires
            old(self).wf(),
        ensures
            final(self).follows(*old(self), lit(&old(self).env(), old(self).state(), node)),
            balanced(old(self).state(), final(self).state()),
            r is Err <==> final(self).state().wr.failed,
    {
        match node {
            Lit::Str(x) => {
                self.emit_str_lit(x);
            },
            Lit::Num(x) => {
                self.emit_num_lit(x);
            },
            Lit::Bool(x) => {
                self.enter(x.span);
                if x.value {
                    self.keyword_at(x.span, "true");
                } else {
                    self.keyword_at(x.span, "false");
                }
                self.leave(x.span);
            },
            Lit::Null(x) => {
                self.enter(x.span);
                self.keyword_at(x.span, "null");
                self.leave(x.span);
            },
            Lit::Regex(x) => {
                self.enter(x.span);
                self.operator("/");
                self.regex(x.exp.value.as_str());
                self.operator("/");
                if let Some(f) = &x.flags {
                    self.regex(f.value.as_str());
                }
                self.leave(x.span);
            },
        }
        self.status()
    }

    /// A string literal: as the source had it, else quoted.
    pub fn emit_str_lit(&mut self, node: &Str) -> (r: Result<(), SinkError>)
        requires
            old(self).wf(),
        ensures
            final(self).follows(*old(self), str_lit(&old(self).env(), old(self).state(), node)),
            balanced(old(self).state(), final(self).state()),
            r is Err <==> final(self).state().wr.failed,
    {
        self.enter(node.span);
        let text = match self.get_text_of_node(node.span) {
            Some(t) => t,
            None => quote_str(node.value.as_str()),
        };
        self.str_lit(node.span, text.as_str());
        self.leave(node.span);
        self.status()
    }

    fn digits_of(&self, node: &Number) -> (r: Option<String>)
        ensures
            r is Some <==> num_digits(&self.env(), node) is Some,
            r matches Some(t) ==> Some(t@) == num_digits(&self.env(), node),
    {
        match self.get_text_of_node(node.span) {
            Some(t) => Some(t),
            None => match &node.value {
                NumberValue::Finite(t) => Some(t.clone()),
                _ => None,
            },
        }
    }

    /// A numeric literal: its digits, or the name of an infinity after its
    /// sign.
    pub fn emit_num_lit(&mut self, node: &Number) -> (r: Result<(), SinkError>)
        requires
            old(self).wf(),
        ensures
            final(self).follows(*old(self), num_lit(&old(self).env(), old(self).state(), node)),
            balanced(old(self).state(), final(self).state()),
            r is Err <==> final(self).state().wr.failed,
    {
        self.enter(node.span);
        let original = self.get_text_of_node(node.span).is_some();
        match self.digits_of(node) {
            Some(t) => {
                let digits = t.as_str();
                let n = digits.unicode_len();
                if !original && n > 0 && digits.get_char(0) == '-' {
                    self.operator("-");
                    self.number(node.span, digits.substring_char(1, n));
                } else {
                    self.number(node.span, digits);
                }
            },
            None => {
                // Handle infinity
                if let NumberValue::NegInfinity = node.value {
                    self.operator("-");
                }
                self.number(node.span, "Infinity");
            },
        }
        self.leave(node.span);
        self.status()
    }

    /// `1..toString` is a valid property access: a second dot goes after a
    /// number that has none.
    pub fn needs_2dots_for_property_access(&self, obj: &ExprOrSuper) -> (r: bool)
        ensures
            r == needs_2dots(&self.env(), obj),
    {
        match obj {
            ExprOrSuper::Expr(e) => match &**e {
                Expr::Lit(Lit::Num(n)) => match self.digits_of(n) {
                    Some(t) => !contains_char(t.as_str(), '.'),
                    None => false,
                },
                _ => false,
            },
            _ => false,
        }
    }

    fn ident_starts_with_alpha_num(&self, node: &Ident) -> (r: bool)
        ensures
            r == spec_begins_with_alpha_num(ident_text(&self.env(), node)),
    {
        match self.get_text_of_node(node.span) {
            Some(t) => begins_with_alpha_num(t.as_str()),
            None => begins_with_alpha_num(node.sym.as_str()),
        }
    }

    fn lit_starts_with_alpha_num(&self, l: &Lit) -> (r: bool)
        ensures
            r == lit_starts_with_alpha_num(&self.env(), l),
    {
        match l {
            Lit::Bool(_) | Lit::Null(_) => true,
            Lit::Str(x) => match self.get_text_of_node(x.span) {
                Some(t) => begins_with_alpha_num(t.as_str()),
                None => false,
            },
            Lit::Num(n) => match self.digits_of(n) {
                Some(t) => begins_with_alpha_num(t.as_str()),
                None => match n.value {
                    NumberValue::NegInfinity => false,
                    _ => true,
                },
            },
            Lit::Regex(_) => false,
        }
    }

    /// Whether the text of this expression, comments aside, starts with a
    /// letter or a digit.
    pub fn starts_with_alpha_num(&self, e: &Expr) -> (r: bool)
        ensures
            r == starts_with_alpha_num(&self.env(), e),
        decreases e,
    {
        match e {
            Expr::This(_) | Expr::Fn(_) | Expr::Class(_) | Expr::New(_) | Expr::Yield(_)
            | Expr::Await(_) => true,
            Expr::Ident(i) => self.ident_starts_with_alpha_num(i),
            Expr::MetaProp(m) => self.ident_starts_with_alpha_num(&m.meta),
            Expr::Lit(l) => self.lit_starts_with_alpha_num(l),
            Expr::Unary(u) => u.op.is_word(),
            Expr::Update(u) => !u.prefix && self.starts_with_alpha_num(&*u.arg),
            Expr::Bin(b) => self.starts_with_alpha_num(&*b.left),
            Expr::Cond(c) => self.starts_with_alpha_num(&*c.test),
            Expr::Assign(a) => match &a.left {
                PatOrExpr::Expr(l) => self.starts_with_alpha_num(&**l),
                PatOrExpr::Pat(p) => self.pat_starts_with_alpha_num(&**p),
            },
            Expr::Member(m) => match &m.obj {
                ExprOrSuper::Super(_) => true,
                ExprOrSuper::Expr(o) => self.starts_with_alpha_num(&**o),
            },
            Expr::Call(c) => match &c.callee {
                ExprOrSuper::Super(_) => true,
                ExprOrSuper::Expr(o) => self.starts_with_alpha_num(&**o),
            },
            Expr::Sequence(q) => q.exprs.len() > 0 && self.starts_with_alpha_num(&*q.exprs[0]),
            Expr::Arrow(a) => a.is_async,
            Expr::Tpl(t) => match t.tag() {
                Some(g) => self.starts_with_alpha_num(&**g),
                None => false,
            },
            Expr::Array(_) | Expr::Object(_) | Expr::Paren(_) => false,
        }
    }

    /// Whether the text of this pattern, comments aside, starts with a letter
    /// or a digit.
    pub fn pat_starts_with_alpha_num(&self, p: &Pat) -> (r: bool)
        ensures
            r == pat_starts_with_alpha_num(&self.env(), p),
        decreases p,
    {
        match p {
            Pat::Ident(i) => self.ident_starts_with_alpha_num(i),
            Pat::Expr(e) => self.starts_with_alpha_num(&**e),
            Pat::Assign(a) => self.pat_starts_with_alpha_num(&*a.left),
            Pat::Array(_) | Pat::Object(_) | Pat::Rest(_) => false,
        }
    }

    /// In some cases a space goes between the operator and the operand. One
    /// is when the operator is a word, like `delete` or `typeof`, and the
    /// text of the operand starts with a letter or a digit. The other is plus
    /// before plus and minus before minus: without the space `+ +x` would
    /// read as an increment of `x`, and `+ ++x` as an increment of `+x`.
    pub fn should_emit_whitespace_before_operand(&self, node: &UnaryExpr) -> (r: bool)
        ensures
            r == needs_space_before_operand(&self.env(), node),
    {
        if node.op.is_word() {
            return self.starts_with_alpha_num(&*node.arg);
        }
        match &*node.arg {
            Expr::Update(u) => u.prefix && (node.op == UnaryOp::Plus && u.op
                == UpdateOp::PlusPlus || node.op == UnaryOp::Minus && u.op
                == UpdateOp::MinusMinus),
            Expr::Unary(u) => node.op == UnaryOp::Plus && u.op == UnaryOp::Plus || node.op
                == UnaryOp::Minus && u.op == UnaryOp::Minus,
            _ => false,
        }
    }

    /// An identifier: as the source had it, else its name.
    pub fn emit_ident(&mut self, node: &Ident) -> (r: Result<(), SinkError>)
        requires
            old(self).wf(),
        ensures
            final(self).follows(*old(self), ident(&old(self).env(), old(self).state(), node)),
            balanced(old(self).state(), final(self).state()),
            r is Err <==> final(self).state().wr.failed,
    {
        self.enter(node.span);
        match self.get_text_of_node(node.span) {
            Some(t) => {
                self.symbol(node.span, t.as_str());
            },
            None => {
                self.symbol(node.span, node.sym.as_str());
            },
        }
        self.leave(node.span);
        self.status()
    }

    /// A template literal: the tag, then the parts between backticks.
    pub fn emit_tpl_lit(&mut self, node: &TplLit) -> (r: Result<(), SinkError>)
        requires
            old(self).wf(),
        ensures
            final(self).follows(*old(self), tpl_lit(&old(self).env(), old(self).state(), node)),
            balanced(old(self).state(), final(self).state()),
            r is Err <==> final(self).state().wr.failed,
        decreases node.size(), 1nat,
    {
        proof {
            use_type_invariant(node);
        }
        let ghost cx = self.env();
        self.enter(node.span);
        if let Some(x) = &node.tag {
            self.emit_expr(&**x);
        }
        self.punct("`");
        let ghost base = self.state();
        let ghost goal = tpl_parts(&cx, base, node, 0);
        let n = node.exprs.len();
        let mut k: usize = 0;
        while k < n
            invariant
                k <= n == node.spec_exprs().len(),
                node.spec_quasis().len() == n + 1,
                self.wf(),
                self.env() == cx,
                tpl_parts(&cx, self.state(), node, 2 * k) == goal,
                balanced(base, self.state()),
            decreases n - k,
        {
            let ghost s0 = self.state();
            self.emit_quasi(&node.quasis[k]);
            let ghost s1 = self.state();
            assert(tpl_parts(&cx, s0, node, 2 * k) == tpl_parts(&cx, s1, node, 2 * k + 1));
            self.punct("$");
            self.punct("{");
            proof {
                lemma_exprs_size(node.spec_exprs(), 0, k as int);
            }
            self.emit_expr(&*node.exprs[k]);
            self.punct("}");
            assert(tpl_parts(&cx, s1, node, 2 * k + 1) == tpl_parts(
                &cx,
                self.state(),
                node,
                2 * k + 2,
            ));
            k += 1;
        }
        let ghost s0 = self.state();
        self.emit_quasi(&node.quasis[n]);
        assert(tpl_parts(&cx, s0, node, 2 * n) == tpl_parts(&cx, self.state(), node, 2 * n + 1));
        self.punct("`");
        self.leave(node.span);
        self.status()
    }

    /// `case test:` or `default:`, then the statements.
    pub fn emit_switch_case(&mut self, node: &SwitchCase) -> (r: Result<(), SinkError>)
        requires
            old(self).wf(),
        ensures
            final(self).follows(
                *old(self),
                switch_case(&old(self).env(), old(self).state(), node),
            ),
            balanced(old(self).state(), final(self).state()),
            r is Err <==> final(self).state().wr.failed,
        decreases node.size(), 0nat,
    {
        self.enter(node.span);
        match &node.test {
            Some(x) => {
                self.keyword("case");
                self.space();
                self.emit_expr(&**x);
            },
            None => {
                self.keyword("default");
            },
        }
        self.punct(":");
        // treat synthesized nodes as located on the same line for emit purposes
        let single = node.cons.len() == 1 && (node.span.is_synthesized()
            || node.cons[0].span().is_synthesized() || self.cm.is_on_same_line(
            node.span.lo,
            node.cons[0].span().lo,
        ));
        let mut format = ListFormat::from_bits(CASE_OR_DEFAULT_CLAUSE_STATEMENTS);
        if single {
            self.space();
            format = format.without(MULTI_LINE | INDENTED);
        }
        self.emit_list(node.span, Some(Nodes::Stmts(&node.cons)), format);
        self.leave(node.span);
        self.status()
    }

    fn emit_stmt_body(&mut self, node: &Stmt)
        requires
            old(self).wf(),
        ensures
            final(self).follows(*old(self), stmt_body(&old(self).env(), old(self).state(), node)),
            balanced(old(self).state(), final(self).state()),
        decreases node.size(), 0nat,
    {
        match node {
            Stmt::Expr(x) => {
                self.emit_expr(&**x);
                self.semi();
            },
            Stmt::Block(x) => {
                self.emit_block_stmt(x);
            },
            Stmt::Empty(x) => {
                self.emit_empty_stmt(x);
            },
            Stmt::Debugger(x) => {
                self.emit_debugger_stmt(x);
            },
            Stmt::With(x) => {
                self.emit_with_stmt(x);
            },
            Stmt::Return(x) => {
                self.emit_return_stmt(x);
            },
            Stmt::Labeled(x) => {
                self.emit_labeled_stmt(x);
            },
            Stmt::Break(x) => {
                self.emit_break_stmt(x);
            },
            Stmt::Continue(x) => {
                self.emit_continue_stmt(x);
            },
            Stmt::If(x) => {
                self.emit_if_stmt(x);
            },
            Stmt::Switch(x) => {
                self.emit_switch_stmt(x);
            },
            Stmt::Throw(x) => {
                self.emit_throw_stmt(x);
            },
            Stmt::Try(x) => {
                self.emit_try_stmt(x);
            },
            Stmt::While(x) => {
                self.emit_while_stmt(x);
            },
            Stmt::DoWhile(x) => {
                self.emit_do_while_stmt(x);
            },
            Stmt::For(x) => {
                self.emit_for_stmt(x);
            },
            Stmt::ForIn(x) => {
                self.emit_for_in_stmt(x);
            },
            Stmt::ForOf(x) => {
                self.emit_for_of_stmt(x);
            },
            Stmt::Decl(x) => {
                self.emit_decl(x);
            },
        }
    }

    /// A statement whose place is decided by the construct around it; with
    /// `semi_off`, without the semicolon that would end it.
    pub fn emit_inner_stmt_with(&mut self, node: &Stmt, semi_off: bool) -> (r: Result<
        (),
        SinkError,
    >)
        requires
            old(self).wf(),
        ensures
            final(self).follows(
                *old(self),
                inner_stmt_with(&old(self).env(), old(self).state(), node, semi_off),
            ),
            balanced(old(self).state(), final(self).state()),
            r is Err <==> final(self).state().wr.failed,
        decreases node.size(), 1nat,
    {
        let outer = self.semi.off;
        self.semi.off = semi_off;
        self.emit_stmt_body(node);
        self.semi.off = outer;
        self.status()
    }

    /// A statement whose place is decided by the construct around it.
    pub fn emit_inner_stmt(&mut self, node: &Stmt) -> (r: Result<(), SinkError>)
        requires
            old(self).wf(),
        ensures
            final(self).follows(
                *old(self),
                inner_stmt(&old(self).env(), old(self).state(), node),
            ),
            balanced(old(self).state(), final(self).state()),
            r is Err <==> final(self).state().wr.failed,
        decreases node.size(), 2nat,
    {
        self.emit_inner_stmt_with(node, false)
    }

    /// A statement that stands by itself, and the line break that follows
    /// it; with `semi_off`, without the semicolon that would end it.
    pub fn emit_stmt_with(&mut self, node: &Stmt, semi_off: bool) -> (r: Result<(), SinkError>)
        requires
            old(self).wf(),
        ensures
            final(self).follows(
                *old(self),
                stmt_with(&old(self).env(), old(self).state(), node, semi_off),
            ),
            balanced(old(self).state(), final(self).state()),
            r is Err <==> final(self).state().wr.failed,
        decreases node.size(), 2nat,
    {
        self.emit_inner_stmt_with(node, semi_off);
        if !is_block(node) {
            self.line();
        }
        self.status()
    }

    /// A statement that stands by itself, and the line break that follows it.
    pub fn emit_stmt(&mut self, node: &Stmt) -> (r: Result<(), SinkError>)
        requires
            old(self).wf(),
        ensures
            final(self).follows(*old(self), stmt(&old(self).env(), old(self).state(), node)),
            balanced(old(self).state(), final(self).state()),
            r is Err <==> final(self).state().wr.failed,
        decreases node.size(), 3nat,
    {
        self.emit_stmt_with(node, false)
    }

    /// The statements, one after the other.
    pub fn emit_stmts(&mut self, stmts: &Vec<Stmt>) -> (r: Result<(), SinkError>)
        requires
            old(self).wf(),
        ensures
            final(self).follows(
                *old(self),
                stmts_from(&old(self).env(), old(self).state(), stmts@, 0),
            ),
            balanced(old(self).state(), final(self).state()),
            r is Err <==> final(self).state().wr.failed,
        decreases stmts_size(stmts@, 0), 4nat,
    {
        let ghost cx = self.env();
        let ghost goal = stmts_from(&cx, self.state(), stmts@, 0);
        let mut i: usize = 0;
        while i < stmts.len()
            invariant
                i <= stmts@.len(),
                self.wf(),
                self.env() == cx,
                stmts_from(&cx, self.state(), stmts@, i as int) == goal,
                balanced(old(self).state(), self.state()),
            decreases stmts@.len() - i,
        {
            proof {
                lemma_stmts_size(stmts@, 0, i as int);
            }
            self.emit_stmt(&stmts[i]);
            i += 1;
        }
        self.status()
    }

    /// A script: its statements, one after the other.
    pub fn emit_script(&mut self, stmts: &Vec<Stmt>) -> (r: Result<(), SinkError>)
        requires
            old(self).wf(),
        ensures
            final(self).follows(*old(self), script(&old(self).env(), old(self).state(), stmts@)),
            balanced(old(self).state(), final(self).state()),
            r is Err <==> final(self).state().wr.failed,
    {
        let ghost cx = self.env();
        let ghost goal = script_from(&cx, self.state(), stmts@, 0);
        let n = stmts.len();
        let mut i: usize = 0;
        while i < n
            invariant
                i <= n == stmts@.len(),
                self.wf(),
                self.env() == cx,
                script_from(&cx, self.state(), stmts@, i as int) == goal,
                balanced(old(self).state(), self.state()),
            decreases n - i,
        {
            let semi_off = self.cfg.omit_last_semicolon && i == n - 1;
            self.emit_stmt_with(&stmts[i], semi_off);
            i += 1;
        }
        self.status()
    }

    /// An item of a module and the line break that follows it; with
    /// `semi_off`, without the semicolon that would end it.
    pub fn emit_module_item_with(&mut self, node: &ModuleItem, semi_off: bool) -> (r: Result<
        (),
        SinkError,
    >)
        requires
            old(self).wf(),
        ensures
            final(self).follows(
                *old(self),
                module_item_with(&old(self).env(), old(self).state(), node, semi_off),
            ),
            balanced(old(self).state(), final(self).state()),
            r is Err <==> final(self).state().wr.failed,
    {
        match node {
            ModuleItem::Stmt(x) => {
                self.emit_stmt_with(x, semi_off);
            },
            ModuleItem::ModuleDecl(x) => {
                let outer = self.semi.off;
                self.semi.off = semi_off;
                self.emit_module_decl(x);
                self.line();
                self.semi.off = outer;
            },
        }
        self.status()
    }

    /// An item of a module and the line break that follows it.
    pub fn emit_module_item(&mut self, node: &ModuleItem) -> (r: Result<(), SinkError>)
        requires
            old(self).wf(),
        ensures
            final(self).follows(
                *old(self),
                module_item(&old(self).env(), old(self).state(), node),
            ),
            balanced(old(self).state(), final(self).state()),
            r is Err <==> final(self).state().wr.failed,
    {
        self.emit_module_item_with(node, false)
    }

    /// Writes a node of any kind.
    pub fn emit(&mut self, n: Node) -> (r: Result<(), SinkError>)
        requires
            old(self).wf(),
        ensures
            final(self).follows(*old(self), node(&old(self).env(), old(self).state(), n)),
            balanced(old(self).state(), final(self).state()),
            r is Err <==> final(self).state().wr.failed,
    {
        match n {
            Node::Module(x) => self.emit_module(x),
            Node::ModuleItem(x) => self.emit_module_item(x),
            Node::ModuleDecl(x) => self.emit_module_decl(x),
            Node::ImportDecl(x) => self.emit_import(x),
            Node::ImportSpecific(x) => self.emit_import_specific(x),
            Node::ExportSpecifier(x) => self.emit_export_specifier(x),
            Node::NamedExport(x) => self.emit_named_export(x),
            Node::ExportAll(x) => self.emit_export_all(x),
            Node::ExportDefaultDecl(x) => self.emit_export_default_decl(x),
            Node::Stmt(x) => self.emit_stmt(x),
            Node::BlockStmt(x) => self.emit_block_stmt(x),
            Node::SwitchCase(x) => self.emit_switch_case(x),
            Node::CatchClause(x) => self.emit_catch_clause(x),
            Node::Decl(x) => self.emit_decl(x),
            Node::VarDecl(x) => self.emit_var_decl(x),
            Node::VarDeclarator(x) => self.emit_var_declarator(x),
            Node::Expr(x) => self.emit_expr(x),
            Node::ExprOrSpread(x) => self.emit_expr_or_spread(x),
            Node::ExprOrSuper(x) => self.emit_expr_or_super(x),
            Node::Lit(x) => self.emit_lit(x),
            Node::Str(x) => self.emit_str_lit(x),
            Node::Number(x) => self.emit_num_lit(x),
            Node::Ident(x) => self.emit_ident(x),
            Node::TplElement(x) => self.emit_quasi(x),
            Node::Prop(x) => self.emit_prop(x),
            Node::PropOrSpread(x) => self.emit_prop_or_spread(x),
            Node::PropName(x) => self.emit_prop_name(x),
            Node::Function(x) => self.emit_fn_trailing(x),
            Node::Class(x) => self.emit_class_trailing(x),
            Node::ClassMethod(x) => self.emit_class_method(x),
            Node::Pat(x) => self.emit_pat(x),
            Node::ObjectPatProp(x) => self.emit_object_pat_prop(x),
        }
    }

    /// A module: its items, one after the other.
    pub fn emit_module(&mut self, node: &Module) -> (r: Result<(), SinkError>)
        requires
            old(self).wf(),
        ensures
            final(self).follows(*old(self), module(&old(self).env(), old(self).state(), node)),
            balanced(old(self).state(), final(self).state()),
            r is Err <==> final(self).state().wr.failed,
    {
        let ghost cx = self.env();
        let ghost goal = module_items_from(&cx, self.state(), node.body@, 0);
        let n = node.body.len();
        let mut i: usize = 0;
        while i < n
            invariant
                i <= n == node.body@.len(),
                self.wf(),
                self.env() == cx,
                module_items_from(&cx, self.state(), node.body@, i as int) == goal,
                balanced(old(self).state(), self.state()),
            decreases n - i,
        {
            let semi_off = self.cfg.omit_last_semicolon && i == n - 1;
            self.emit_module_item_with(&node.body[i], semi_off);
            i += 1;
        }
        self.status()
    }
}

/// The children of an optional list, as values.
pub open spec fn seq_of(children: Option<Nodes>) -> Option<NodeSeq> {
    match children {
        Some(c) => Some(c@),
        None => None,
    }
}

pub fn is_block(node: &Stmt) -> (r: bool)
    ensures
        r == (node is Block),
{
    match node {
        Stmt::Block(_) => true,
        _ => false,
    }
}

/// The children of a list, by their kind.
#[derive(Clone, Copy)]
pub enum Nodes<'a> {
    /// Statements; the list decides where their lines break.
    Stmts(&'a Vec<Stmt>),
    /// Arguments.
    ExprOrSpreads(&'a Vec<ExprOrSpread>),
    /// The elements of an array literal; a hole writes nothing.
    ArrayElems(&'a Vec<Option<ExprOrSpread>>),
    /// The members of an object literal.
    Props(&'a Vec<PropOrSpread>),
    /// Parameters.
    Pats(&'a Vec<Pat>),
    /// The elements of an array pattern; a hole writes nothing.
    ArrayPatElems(&'a Vec<Option<Pat>>),
    /// The members of an object pattern.
    ObjectPatProps(&'a Vec<ObjectPatProp>),
    /// The members of a class.
    ClassMethods(&'a Vec<ClassMethod>),
    /// The clauses of a `switch`.
    SwitchCases(&'a Vec<SwitchCase>),
    /// The declarators of a variable declaration.
    VarDeclarators(&'a Vec<VarDeclarator>),
    /// The names of an import.
    ImportSpecifics(&'a Vec<ImportSpecific>),
    /// The names of an export.
    ExportSpecifiers(&'a Vec<ExportSpecifier>),
    /// The expressions of a sequence.
    Exprs(&'a Vec<Box<Expr>>),
}

impl<'a> View for Nodes<'a> {
    type V = NodeSeq;

    open spec fn view(&self) -> NodeSeq {
        match self {
            Nodes::Stmts(v) => NodeSeq::Stmts(v@),
            Nodes::ExprOrSpreads(v) => NodeSeq::ExprOrSpreads(v@),
            Nodes::ArrayElems(v) => NodeSeq::ArrayElems(v@),
            Nodes::Props(v) => NodeSeq::Props(v@),
            Nodes::Pats(v) => NodeSeq::Pats(v@),
            Nodes::ArrayPatElems(v) => NodeSeq::ArrayPatElems(v@),
            Nodes::ObjectPatProps(v) => NodeSeq::ObjectPatProps(v@),
            Nodes::ClassMethods(v) => NodeSeq::ClassMethods(v@),
            Nodes::SwitchCases(v) => NodeSeq::SwitchCases(v@),
            Nodes::VarDeclarators(v) => NodeSeq::VarDeclarators(v@),
            Nodes::ImportSpecifics(v) => NodeSeq::ImportSpecifics(v@),
            Nodes::ExportSpecifiers(v) => NodeSeq::ExportSpecifiers(v@),
            Nodes::Exprs(v) => NodeSeq::Exprs(v@),
        }
    }
}

impl<'a> Nodes<'a> {
    pub fn len(&self) -> (r: usize)
        ensures
            r == self@.len(),
    {
        match self {
            Nodes::Stmts(v) => v.len(),
            Nodes::ExprOrSpreads(v) => v.len(),
            Nodes::ArrayElems(v) => v.len(),
            Nodes::Props(v) => v.len(),
            Nodes::Pats(v) => v.len(),
            Nodes::ArrayPatElems(v) => v.len(),
            Nodes::ObjectPatProps(v) => v.len(),
            Nodes::ClassMethods(v) => v.len(),
            Nodes::SwitchCases(v) => v.len(),
            Nodes::VarDeclarators(v) => v.len(),
            Nodes::ImportSpecifics(v) => v.len(),
            Nodes::ExportSpecifiers(v) => v.len(),
            Nodes::Exprs(v) => v.len(),
        }
    }

    pub fn span_at(&self, i: usize) -> (r: Span)
        requires
            i < self@.len(),
        ensures
            r == self@.span_at(i as int),
    {
        match self {
            Nodes::Stmts(v) => v[i].span(),
            Nodes::ExprOrSpreads(v) => v[i].span,
            Nodes::ArrayElems(v) => match &v[i] {
                Some(x) => x.span,
                None => Span::dummy(),
            },
            Nodes::Props(v) => v[i].span(),
            Nodes::Pats(v) => v[i].span(),
            Nodes::ArrayPatElems(v) => match &v[i] {
                Some(x) => x.span(),
                None => Span::dummy(),
            },
            Nodes::ObjectPatProps(v) => v[i].span(),
            Nodes::ClassMethods(v) => v[i].span,
            Nodes::SwitchCases(v) => v[i].span,
            Nodes::VarDeclarators(v) => v[i].span,
            Nodes::ImportSpecifics(v) => v[i].span,
            Nodes::ExportSpecifiers(v) => v[i].span,
            Nodes::Exprs(v) => v[i].span(),
        }
    }

    pub fn ends_with_hole(&self) -> (r: bool)
        ensures
            r == self@.ends_with_hole(),
    {
        match self {
            Nodes::ArrayElems(v) => v.len() > 0 && v[v.len() - 1].is_none(),
            Nodes::ArrayPatElems(v) => v.len() > 0 && v[v.len() - 1].is_none(),
            _ => false,
        }
    }
}

impl<'a> Node<'a> {
    /// Writes this node through `e`.
    pub fn emit_with(&self, e: &mut Emitter) -> (r: Result<(), SinkError>)
        requires
            old(e).wf(),
        ensures
            final(e).follows(*old(e), node(&old(e).env(), old(e).state(), *self)),
            balanced(old(e).state(), final(e).state()),
            r is Err <==> final(e).state().wr.failed,
    {
        e.emit(*self)
    }
}

} // verus!

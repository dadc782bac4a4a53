//! Laws of the rules, for every tree, every source and every state:
//! whatever a rule writes, the indent depth comes back to where it was,
//! whether or not the writer fails on the way, no two words become
//! neighbours, and the statement around it goes with or without its
//! semicolon as before; a statement that takes a semicolon writes it; and a
//! literal that was read from the source is written as it stood there.
//!
//! For each rule `r`, `lemma_r` says that `r` keeps depth, distance and the
//! say on semicolons; `lemma_r_semicolon` gives the state in which `r`
//! writes its semicolon.
use vstd::prelude::*;
use crate::ast::{
    ArrayLit, ArrayPat, ArrowExpr, AssignExpr, AssignPat, AssignPatProp, AssignProp, AwaitExpr,
    BinExpr, BlockStmt, BlockStmtOrExpr, Bool, BreakStmt, CallExpr, CatchClause, Class, ClassDecl,
    ClassExpr, ClassMethod, ClassMethodKind, CondExpr, ContinueStmt, DebuggerStmt, Decl,
    DoWhileStmt, EmptyStmt, ExportAll, ExportDefaultDecl, ExportSpecifier, Expr, ExprOrSpread,
    ExprOrSuper, FnDecl, FnExpr, ForInStmt, ForOfStmt, ForStmt, Function, GetterProp, Ident,
    IfStmt, ImportDecl, ImportNames, ImportSpecific, KeyValuePatProp, KeyValueProp, LabeledStmt,
    lemma_array_elems_size, lemma_array_pat_elems_size, lemma_class_methods_size,
    lemma_export_specifiers_size, lemma_expr_or_spreads_size, lemma_exprs_size,
    lemma_import_specifics_size, lemma_object_pat_props_size, lemma_pats_size, lemma_props_size,
    lemma_stmts_size, lemma_switch_cases_size, lemma_var_declarators_size, Lit, MemberExpr,
    MetaPropExpr, MethodProp, Module, ModuleDecl, ModuleItem, NamedExport, NewExpr, Null, Number,
    ObjectLit, ObjectPat, ObjectPatProp, ParenExpr, Pat, PatOrExpr, Prop, PropName, PropOrSpread,
    Regex, RestPat, ReturnStmt, SeqExpr, SetterProp, SpreadElement, Stmt, Str, SwitchCase,
    SwitchStmt, ThisExpr, ThrowStmt, TplElement, TplLit, TryStmt, UnaryExpr, UpdateExpr, VarDecl,
    VarDeclarator, VarDeclOrExpr, VarDeclOrPat, WhileStmt, WithStmt, YieldExpr,
};
use crate::comments::Comment;
use crate::emitter::Node;
use crate::list::{
    ARRAY_BINDING_PATTERN_ELEMENTS, ARRAY_LITERAL_ELEMENTS, BRACKETS_MASK, CASE_BLOCK_CLAUSES,
    CLASS_MEMBERS, COMMA_LIST_ELEMENTS, DELIMITERS_MASK, ListFormat, MULTI_LINE_BLOCK_STATEMENTS,
    NAMED_IMPORTS_OR_EXPORTS_ELEMENTS, NO_INTERVENING_COMMENTS, OBJECT_BINDING_PATTERN_ELEMENTS,
    OBJECT_LITERAL_PROPERTIES, OPTIONAL_IF_EMPTY, OPTIONAL_IF_UNDEFINED,
};
use crate::rules::{
    array_lit, array_pat, arrow_expr, assign_expr, assign_pat, assign_prop, await_expr,
    before_child, bin_expr, block_stmt, block_stmt_or_expr, break_stmt, breaks_before, call_expr,
    call_format, case_format, catch_clause, child, class_decl, class_expr, class_method,
    class_trailing, comment, comments_from, cond_expr, continue_stmt, debugger_stmt, decl,
    do_while_stmt, empty_stmt, enter, Env, export_all, export_default_decl, export_specifier, expr,
    expr_or_spread, expr_or_super, fn_decl, fn_expr, fn_trailing, for_in_stmt, for_of_stmt,
    for_stmt, getter_prop, has_trailing_comma, ident, ident_text, if_stmt, import_decl,
    import_from, import_names, import_specific, inner_stmt, inner_stmt_with, is_single_stmt_case,
    item, item_deepens, kv_prop, labeled_stmt, leading_comments, leave, list, list5, list_deepens,
    list_empty_body, list_end, list_is_empty, list_items, list_lead, list_open, list_trail, lit,
    member_expr, meta_prop_expr, method_prop, module, module_decl, module_item, module_item_with,
    module_items_from, named_export, needs_2dots, needs_space_before_operand, new_expr, node,
    NodeSeq, num_digits, num_lit, object_assign_pat, object_kv_pat, object_lit, object_pat,
    object_pat_prop, paren_expr, pat, pat_or_expr, prop, prop_name, prop_or_spread, quasi,
    rest_pat, return_stmt, script, script_from, separator, seq_expr, seq_len, seq_size,
    setter_prop, shifted, source_text, spread_element, State, stmt, stmt_body, stmt_with,
    stmts_from, str_lit, str_text, switch_case, switch_stmt, this_expr, throw_stmt, tpl_lit,
    tpl_parts, trailing_comments, try_stmt, unary_expr, update_expr, var_decl, var_decl_or_expr,
    var_decl_or_pat, var_declarator, while_stmt, with_stmt, yield_expr,
};
use crate::span::Span;
use crate::text_writer::{
    group_keeps_depth, group_keeps_words_apart, well_spaced, Piece, TokenClass, WriterState,
};

verus! {

broadcast use {group_keeps_depth, group_keeps_words_apart};

/// Where no two words were neighbours in `before`, none are in `after`.
pub open spec fn apart(before: State, after: State) -> bool {
    well_spaced(before.wr.pieces) ==> well_spaced(after.wr.pieces)
}

/// What every rule keeps: the depth, the distance between words, and
/// whether the statement being written goes without its semicolon.
pub open spec fn kept(before: State, after: State) -> bool {
    moved(before, after, 0)
}

/// What a step of a list keeps: the distance between words and the say on
/// semicolons, and the depth but for `by` stops.
pub open spec fn moved(before: State, after: State, by: int) -> bool {
    &&& shifted(before, after, by)
    &&& apart(before, after)
    &&& after.semi_off == before.semi_off
}

pub proof fn lemma_comments_from(cx: &Env, s: State, cs: Seq<Comment>, i: int, prefix_space: bool)
    ensures
        kept(s, comments_from(cx, s, cs, i, prefix_space)),
    decreases cs.len() - i,
{
    if 0 <= i < cs.len() {
        let s = if prefix_space {
            s.formatting_space(cx)
        } else {
            s
        };
        lemma_comments_from(cx, comment(cx, s, &cs[i]), cs, i + 1, prefix_space);
    }
}

pub proof fn lemma_leading_comments(cx: &Env, s: State, pos: u32)
    ensures
        kept(s, leading_comments(cx, s, pos)),
{
    if !(pos == 0 || s.leading.contains(pos)) {
        let s = State { leading: s.leading.insert(pos), ..s };
        lemma_comments_from(cx, s, cx.comments.leading_at(pos), 0, false);
    }
}

pub proof fn lemma_trailing_comments(cx: &Env, s: State, pos: u32, prefix_space: bool)
    ensures
        kept(s, trailing_comments(cx, s, pos, prefix_space)),
{
    if !(pos == 0 || s.trailing.contains(pos)) {
        let s = State { trailing: s.trailing.insert(pos), ..s };
        lemma_comments_from(cx, s, cx.comments.trailing_at(pos), 0, prefix_space);
    }
}

pub proof fn lemma_enter(cx: &Env, s: State, span: Span)
    ensures
        kept(s, enter(cx, s, span)),
{
    lemma_leading_comments(cx, s, span.lo);
}

pub proof fn lemma_leave(cx: &Env, s: State, span: Span)
    ensures
        kept(s, leave(cx, s, span)),
{
    lemma_trailing_comments(cx, s, span.hi, true);
}

pub proof fn lemma_ident(cx: &Env, s: State, node: &Ident)
    ensures
        kept(s, ident(cx, s, node)),
{
    lemma_enter(cx, s, node.span);
    let s = enter(cx, s, node.span);
    lemma_leave(cx, s.symbol(cx, node.span, ident_text(cx, node)), node.span);
}

pub proof fn lemma_str_lit(cx: &Env, s: State, node: &Str)
    ensures
        kept(s, str_lit(cx, s, node)),
{
    lemma_enter(cx, s, node.span);
    let s = enter(cx, s, node.span);
    lemma_leave(cx, s.str_lit(cx, node.span, str_text(cx, node)), node.span);
}

pub proof fn lemma_num_lit(cx: &Env, s: State, node: &Number)
    ensures
        kept(s, num_lit(cx, s, node)),
{
    lemma_enter(cx, s, node.span);
    let s = enter(cx, s, node.span);
    let s = match num_digits(cx, node) {
        Some(t) => if source_text(cx, node.span) is None && t.len() > 0 && t[0] == '-' {
            s.operator("-"@).number(cx, node.span, t.subrange(1, t.len() as int))
        } else {
            s.number(cx, node.span, t)
        },
        None => {
            let s = if node.value is NegInfinity {
                s.operator("-"@)
            } else {
                s
            };
            s.number(cx, node.span, "Infinity"@)
        },
    };
    lemma_leave(cx, s, node.span);
}

pub proof fn lemma_lit(cx: &Env, s: State, node: &Lit)
    ensures
        kept(s, lit(cx, s, node)),
{
    match node {
        Lit::Str(x) => lemma_str_lit(cx, s, x),
        Lit::Num(x) => lemma_num_lit(cx, s, x),
        Lit::Bool(x) => {
            lemma_enter(cx, s, x.span);
            let s = enter(cx, s, x.span);
            let s = if x.value {
                s.keyword_at(cx, x.span, "true"@)
            } else {
                s.keyword_at(cx, x.span, "false"@)
            };
            lemma_leave(cx, s, x.span);
        },
        Lit::Null(x) => {
            lemma_enter(cx, s, x.span);
            let s = enter(cx, s, x.span);
            lemma_leave(cx, s.keyword_at(cx, x.span, "null"@), x.span);
        },
        Lit::Regex(x) => {
            lemma_enter(cx, s, x.span);
            let s = enter(cx, s, x.span);
            let s = s.operator("/"@).regex(x.exp.value@).operator("/"@);
            let s = match &x.flags {
                Some(f) => s.regex(f.value@),
                None => s,
            };
            lemma_leave(cx, s, x.span);
        },
    }
}

pub proof fn lemma_module_decl(cx: &Env, s: State, node: &ModuleDecl)
    ensures
        kept(s, module_decl(cx, s, node)),
    decreases node.size(), 0nat,
{
    match node {
        ModuleDecl::Import(x) => lemma_import_decl(cx, s, x),
        ModuleDecl::ExportDecl(x) => {
            let s = s.keyword("export"@).space();
            lemma_decl(cx, s, x);
        },
        ModuleDecl::ExportNamed(x) => lemma_named_export(cx, s, x),
        ModuleDecl::ExportDefaultDecl(x) => lemma_export_default_decl(cx, s, x),
        ModuleDecl::ExportDefaultExpr(x) => {
            let s = s.keyword("export"@).space().keyword("default"@).space();
            lemma_expr(cx, s, &**x);
        },
        ModuleDecl::ExportAll(x) => lemma_export_all(cx, s, x),
    }
}

pub proof fn lemma_export_default_decl(cx: &Env, s: State, node: &ExportDefaultDecl)
    ensures
        kept(s, export_default_decl(cx, s, node)),
    decreases node.size(), 0nat,
{
    let s = s.keyword("export"@).space().keyword("default"@).space();
    match node {
        ExportDefaultDecl::Class(x) => lemma_class_expr(cx, s, x),
        ExportDefaultDecl::Fn(x) => lemma_fn_expr(cx, s, x),
        ExportDefaultDecl::Var(x) => lemma_var_decl(cx, s, x),
    }
}

pub proof fn lemma_import_names(cx: &Env, s: State, node: &ImportDecl)
    ensures
        kept(s, import_names(cx, s, node)),
    decreases node.size(), 0nat,
{
    match &node.names {
        Some(x) => {
            let s = if node.default is Some {
                s.punct(","@).formatting_space(cx)
            } else {
                s.formatting_space(cx)
            };
            match x {
                ImportNames::Namespace(n) => {
                    let s = s.punct("*"@).formatting_space(cx).keyword("as"@).space();
                    lemma_ident(cx, s, n);
                },
                ImportNames::Named(v) => {
                    lemma_list(
                        cx,
                        s,
                        node.span,
                        Some(NodeSeq::ImportSpecifics(v@)),
                        ListFormat { bits: NAMED_IMPORTS_OR_EXPORTS_ELEMENTS },
                    );
                },
            }
        },
        None => {},
    }
}

pub proof fn lemma_import_from(cx: &Env, s: State, node: &ImportDecl)
    ensures
        kept(s, import_from(cx, s, node)),
{
}

pub proof fn lemma_import_decl(cx: &Env, s: State, node: &ImportDecl)
    ensures
        kept(s, import_decl(cx, s, node)),
    decreases node.size(), 0nat,
{
    lemma_enter(cx, s, node.span);
    let s = enter(cx, s, node.span);
    let s = s.keyword("import"@);
    let s = match &node.default {
        Some(x) => {
            let s = s.space();
            lemma_ident(cx, s, x);
            ident(cx, s, x)
        },
        None => s,
    };
    lemma_import_names(cx, s, node);
    let s = import_names(cx, s, node);
    lemma_import_from(cx, s, node);
    let s = import_from(cx, s, node);
    let s = s.formatting_space(cx);
    lemma_str_lit(cx, s, &node.src);
    let s = str_lit(cx, s, &node.src);
    let s = s.semi();
    lemma_leave(cx, s, node.span);
}

pub proof fn lemma_import_specific(cx: &Env, s: State, node: &ImportSpecific)
    ensures
        kept(s, import_specific(cx, s, node)),
{
    lemma_enter(cx, s, node.span);
    let s = enter(cx, s, node.span);
    let s = match &node.imported {
        Some(x) => {
            lemma_ident(cx, s, x);
            let s = ident(cx, s, x);
            s.space().keyword("as"@).space()
        },
        None => s,
    };
    lemma_ident(cx, s, &node.local);
    let s = ident(cx, s, &node.local);
    lemma_leave(cx, s, node.span);
}

pub proof fn lemma_export_specifier(cx: &Env, s: State, node: &ExportSpecifier)
    ensures
        kept(s, export_specifier(cx, s, node)),
{
    lemma_enter(cx, s, node.span);
    let s = enter(cx, s, node.span);
    lemma_ident(cx, s, &node.orig);
    let s = ident(cx, s, &node.orig);
    let s = match &node.exported {
        Some(x) => {
            let s = s.space().keyword("as"@).space();
            lemma_ident(cx, s, x);
            ident(cx, s, x)
        },
        None => s,
    };
    lemma_leave(cx, s, node.span);
}

pub proof fn lemma_named_export(cx: &Env, s: State, node: &NamedExport)
    ensures
        kept(s, named_export(cx, s, node)),
    decreases node.size(), 0nat,
{
    lemma_enter(cx, s, node.span);
    let s = enter(cx, s, node.span);
    let s = s.keyword("export"@).formatting_space(cx);
    lemma_list(
        cx,
        s,
        node.span,
        Some(NodeSeq::ExportSpecifiers(node.specifiers@)),
        ListFormat { bits: NAMED_IMPORTS_OR_EXPORTS_ELEMENTS },
    );
    let s = list(
        cx,
        s,
        node.span,
        Some(NodeSeq::ExportSpecifiers(node.specifiers@)),
        ListFormat { bits: NAMED_IMPORTS_OR_EXPORTS_ELEMENTS },
    );
    let s = match &node.src {
        Some(x) => {
            let s = s.space().keyword("from"@);
            lemma_str_lit(cx, s, x);
            str_lit(cx, s, x)
        },
        None => s,
    };
    let s = s.semi();
    lemma_leave(cx, s, node.span);
}

pub proof fn lemma_export_all(cx: &Env, s: State, node: &ExportAll)
    ensures
        kept(s, export_all(cx, s, node)),
{
    lemma_enter(cx, s, node.span);
    let s = enter(cx, s, node.span);
    let s = s.keyword("export"@).space().punct("*"@).formatting_space(cx).keyword("from"@).space();
    lemma_str_lit(cx, s, &node.src);
    let s = str_lit(cx, s, &node.src);
    let s = s.semi();
    lemma_leave(cx, s, node.span);
}

pub proof fn lemma_expr_or_super(cx: &Env, s: State, node: &ExprOrSuper)
    ensures
        kept(s, expr_or_super(cx, s, node)),
    decreases node.size(), 0nat,
{
    match node {
        ExprOrSuper::Expr(x) => lemma_expr(cx, s, &**x),
        ExprOrSuper::Super(_) => {
        },
    }
}

pub proof fn lemma_expr(cx: &Env, s: State, node: &Expr)
    ensures
        kept(s, expr(cx, s, node)),
    decreases node.size(), 0nat,
{
    match node {
        Expr::This(x) => lemma_this_expr(cx, s, x),
        Expr::Array(x) => lemma_array_lit(cx, s, x),
        Expr::Object(x) => lemma_object_lit(cx, s, x),
        Expr::Fn(x) => lemma_fn_expr(cx, s, x),
        Expr::Unary(x) => lemma_unary_expr(cx, s, x),
        Expr::Update(x) => lemma_update_expr(cx, s, x),
        Expr::Bin(x) => lemma_bin_expr(cx, s, x),
        Expr::Assign(x) => lemma_assign_expr(cx, s, x),
        Expr::Member(x) => lemma_member_expr(cx, s, x),
        Expr::Cond(x) => lemma_cond_expr(cx, s, x),
        Expr::Call(x) => lemma_call_expr(cx, s, x),
        Expr::New(x) => lemma_new_expr(cx, s, x),
        Expr::Sequence(x) => lemma_seq_expr(cx, s, x),
        Expr::Ident(x) => lemma_ident(cx, s, x),
        Expr::Lit(x) => lemma_lit(cx, s, x),
        Expr::Tpl(x) => lemma_tpl_lit(cx, s, x),
        Expr::Arrow(x) => lemma_arrow_expr(cx, s, x),
        Expr::Class(x) => lemma_class_expr(cx, s, x),
        Expr::Yield(x) => lemma_yield_expr(cx, s, x),
        Expr::MetaProp(x) => lemma_meta_prop_expr(cx, s, x),
        Expr::Await(x) => lemma_await_expr(cx, s, x),
        Expr::Paren(x) => lemma_paren_expr(cx, s, x),
    }
}

pub proof fn lemma_call_expr(cx: &Env, s: State, node: &CallExpr)
    ensures
        kept(s, call_expr(cx, s, node)),
    decreases node.size(), 0nat,
{
    lemma_enter(cx, s, node.span);
    let s = enter(cx, s, node.span);
    lemma_expr_or_super(cx, s, &node.callee);
    let s = expr_or_super(cx, s, &node.callee);
    lemma_list(cx, s, node.span, Some(NodeSeq::ExprOrSpreads(node.args@)), call_format(cx));
    let s = list(cx, s, node.span, Some(NodeSeq::ExprOrSpreads(node.args@)), call_format(cx));
    lemma_leave(cx, s, node.span);
}

pub proof fn lemma_new_expr(cx: &Env, s: State, node: &NewExpr)
    ensures
        kept(s, new_expr(cx, s, node)),
    decreases node.size(), 0nat,
{
    lemma_enter(cx, s, node.span);
    let s = enter(cx, s, node.span);
    let s = s.keyword("new"@).space();
    lemma_expr(cx, s, &*node.callee);
    let s = expr(cx, s, &*node.callee);
    let s = match &node.args {
        Some(x) => {
            lemma_list(cx, s, node.span, Some(NodeSeq::ExprOrSpreads(x@)), call_format(cx));
            list(cx, s, node.span, Some(NodeSeq::ExprOrSpreads(x@)), call_format(cx))
        },
        None => s,
    };
    lemma_leave(cx, s, node.span);
}

pub proof fn lemma_member_expr(cx: &Env, s: State, node: &MemberExpr)
    ensures
        kept(s, member_expr(cx, s, node)),
    decreases node.size(), 0nat,
{
    lemma_enter(cx, s, node.span);
    let s = enter(cx, s, node.span);
    lemma_expr_or_super(cx, s, &node.obj);
    let s = expr_or_super(cx, s, &node.obj);
    let s = if node.computed {
        let s = s.punct("["@);
        lemma_expr(cx, s, &*node.prop);
        let s = expr(cx, s, &*node.prop);
        s.punct("]"@)
    } else {
        let s = if needs_2dots(cx, &node.obj) {
            s.punct("."@)
        } else {
            s
        };
        let s = s.punct("."@);
        lemma_expr(cx, s, &*node.prop);
        expr(cx, s, &*node.prop)
    };
    lemma_leave(cx, s, node.span);
}

pub proof fn lemma_arrow_expr(cx: &Env, s: State, node: &ArrowExpr)
    ensures
        kept(s, arrow_expr(cx, s, node)),
    decreases node.size(), 0nat,
{
    lemma_enter(cx, s, node.span);
    let s = enter(cx, s, node.span);
    let s = if node.is_async {
        s.keyword("async"@).formatting_space(cx)
    } else {
        s
    };
    let s = if node.is_generator {
        s.punct("*"@)
    } else {
        s
    };
    let s = s.punct("("@);
    lemma_list(
        cx,
        s,
        node.span,
        Some(NodeSeq::Pats(node.params@)),
        ListFormat { bits: COMMA_LIST_ELEMENTS },
    );
    let s = list(
        cx,
        s,
        node.span,
        Some(NodeSeq::Pats(node.params@)),
        ListFormat { bits: COMMA_LIST_ELEMENTS },
    );
    let s = s.punct(")"@).punct("=>"@);
    lemma_block_stmt_or_expr(cx, s, &node.body);
    let s = block_stmt_or_expr(cx, s, &node.body);
    lemma_leave(cx, s, node.span);
}

pub proof fn lemma_meta_prop_expr(cx: &Env, s: State, node: &MetaPropExpr)
    ensures
        kept(s, meta_prop_expr(cx, s, node)),
{
    lemma_enter(cx, s, node.span);
    let s = enter(cx, s, node.span);
    lemma_ident(cx, s, &node.meta);
    let s = ident(cx, s, &node.meta);
    let s = s.punct("."@);
    lemma_ident(cx, s, &node.prop);
    let s = ident(cx, s, &node.prop);
    lemma_leave(cx, s, node.span);
}

pub proof fn lemma_seq_expr(cx: &Env, s: State, node: &SeqExpr)
    ensures
        kept(s, seq_expr(cx, s, node)),
    decreases node.size(), 0nat,
{
    lemma_enter(cx, s, node.span);
    let s = enter(cx, s, node.span);
    lemma_list(
        cx,
        s,
        node.span,
        Some(NodeSeq::Exprs(node.exprs@)),
        ListFormat { bits: COMMA_LIST_ELEMENTS },
    );
    let s = list(
        cx,
        s,
        node.span,
        Some(NodeSeq::Exprs(node.exprs@)),
        ListFormat { bits: COMMA_LIST_ELEMENTS },
    );
    lemma_leave(cx, s, node.span);
}

pub proof fn lemma_assign_expr(cx: &Env, s: State, node: &AssignExpr)
    ensures
        kept(s, assign_expr(cx, s, node)),
    decreases node.size(), 0nat,
{
    lemma_enter(cx, s, node.span);
    let s = enter(cx, s, node.span);
    lemma_pat_or_expr(cx, s, &node.left);
    let s = pat_or_expr(cx, s, &node.left);
    let s = s.formatting_space(cx).operator(node.op.text()).formatting_space(cx);
    lemma_expr(cx, s, &*node.right);
    let s = expr(cx, s, &*node.right);
    lemma_leave(cx, s, node.span);
}

pub proof fn lemma_bin_expr(cx: &Env, s: State, node: &BinExpr)
    ensures
        kept(s, bin_expr(cx, s, node)),
    decreases node.size(), 0nat,
{
    lemma_enter(cx, s, node.span);
    let s = enter(cx, s, node.span);
    lemma_expr(cx, s, &*node.left);
    let s = expr(cx, s, &*node.left);
    let s = s.formatting_space(cx).operator_or_word(node.op.is_word(), node.op.text());
    let s = s.formatting_space(cx);
    lemma_expr(cx, s, &*node.right);
    let s = expr(cx, s, &*node.right);
    lemma_leave(cx, s, node.span);
}

pub proof fn lemma_class_expr(cx: &Env, s: State, node: &ClassExpr)
    ensures
        kept(s, class_expr(cx, s, node)),
    decreases node.size(), 0nat,
{
    lemma_enter(cx, s, node.span);
    let s = enter(cx, s, node.span);
    let s = s.keyword("class"@);
    let s = match &node.ident {
        Some(x) => {
            let s = s.space();
            lemma_ident(cx, s, x);
            ident(cx, s, x)
        },
        None => s,
    };
    lemma_class_trailing(cx, s, &node.class);
    let s = class_trailing(cx, s, &node.class);
    lemma_leave(cx, s, node.span);
}

pub proof fn lemma_class_trailing(cx: &Env, s: State, node: &Class)
    ensures
        kept(s, class_trailing(cx, s, node)),
    decreases node.size(), 0nat,
{
    lemma_enter(cx, s, node.span);
    let s = enter(cx, s, node.span);
    let s = match &node.super_class {
        Some(x) => {
            let s = s.space().keyword("extends"@).space();
            lemma_expr(cx, s, &**x);
            expr(cx, s, &**x)
        },
        None => s,
    };
    lemma_list(
        cx,
        s,
        node.span,
        Some(NodeSeq::ClassMethods(node.body@)),
        ListFormat { bits: CLASS_MEMBERS },
    );
    let s = list(
        cx,
        s,
        node.span,
        Some(NodeSeq::ClassMethods(node.body@)),
        ListFormat { bits: CLASS_MEMBERS },
    );
    lemma_leave(cx, s, node.span);
}

pub proof fn lemma_class_method(cx: &Env, s: State, node: &ClassMethod)
    ensures
        kept(s, class_method(cx, s, node)),
    decreases node.size(), 0nat,
{
    lemma_enter(cx, s, node.span);
    let s = enter(cx, s, node.span);
    let s = if node.is_static {
        s.keyword("static"@).space()
    } else {
        s
    };
    let s = match node.kind {
        ClassMethodKind::Constructor => s.keyword("constructor"@),
        ClassMethodKind::Method => {
            let s = if node.function.is_async {
                s.keyword("async"@).space()
            } else {
                s
            };
            let s = if node.function.is_generator {
                s.punct("*"@)
            } else {
                s
            };
            lemma_prop_name(cx, s, &node.key);
            prop_name(cx, s, &node.key)
        },
        ClassMethodKind::Getter => {
            let s = s.keyword("get"@).space();
            lemma_prop_name(cx, s, &node.key);
            prop_name(cx, s, &node.key)
        },
        ClassMethodKind::Setter => {
            let s = s.keyword("set"@).space();
            lemma_prop_name(cx, s, &node.key);
            prop_name(cx, s, &node.key)
        },
    };
    lemma_fn_trailing(cx, s, &node.function);
    let s = fn_trailing(cx, s, &node.function);
    lemma_leave(cx, s, node.span);
}

pub proof fn lemma_prop_name(cx: &Env, s: State, node: &PropName)
    ensures
        kept(s, prop_name(cx, s, node)),
    decreases node.size(), 0nat,
{
    match node {
        PropName::Ident(x) => lemma_ident(cx, s, x),
        PropName::Str(x) => lemma_str_lit(cx, s, x),
        PropName::Num(x) => lemma_num_lit(cx, s, x),
        PropName::Computed(x) => {
            let s = s.punct("["@);
            lemma_expr(cx, s, &**x);
        },
    }
}

pub proof fn lemma_cond_expr(cx: &Env, s: State, node: &CondExpr)
    ensures
        kept(s, cond_expr(cx, s, node)),
    decreases node.size(), 0nat,
{
    lemma_enter(cx, s, node.span);
    let s = enter(cx, s, node.span);
    lemma_expr(cx, s, &*node.test);
    let s = expr(cx, s, &*node.test);
    let s = s.formatting_space(cx).punct("?"@).formatting_space(cx);
    lemma_expr(cx, s, &*node.cons);
    let s = expr(cx, s, &*node.cons);
    let s = s.formatting_space(cx).punct(":"@).formatting_space(cx);
    lemma_expr(cx, s, &*node.alt);
    let s = expr(cx, s, &*node.alt);
    lemma_leave(cx, s, node.span);
}

pub proof fn lemma_fn_expr(cx: &Env, s: State, node: &FnExpr)
    ensures
        kept(s, fn_expr(cx, s, node)),
    decreases node.size(), 0nat,
{
    lemma_enter(cx, s, node.span);
    let s = enter(cx, s, node.span);
    let s = if node.function.is_async {
        s.keyword("async"@).space()
    } else {
        s
    };
    let s = s.keyword("function"@);
    let s = if node.function.is_generator {
        s.punct("*"@)
    } else {
        s
    };
    let s = match &node.ident {
        Some(x) => {
            let s = s.space();
            lemma_ident(cx, s, x);
            ident(cx, s, x)
        },
        None => s,
    };
    lemma_fn_trailing(cx, s, &node.function);
    let s = fn_trailing(cx, s, &node.function);
    lemma_leave(cx, s, node.span);
}

pub proof fn lemma_fn_trailing(cx: &Env, s: State, node: &Function)
    ensures
        kept(s, fn_trailing(cx, s, node)),
    decreases node.size(), 0nat,
{
    lemma_enter(cx, s, node.span);
    let s = enter(cx, s, node.span);
    let s = s.punct("("@);
    lemma_list(
        cx,
        s,
        node.span,
        Some(NodeSeq::Pats(node.params@)),
        ListFormat { bits: COMMA_LIST_ELEMENTS },
    );
    let s = list(
        cx,
        s,
        node.span,
        Some(NodeSeq::Pats(node.params@)),
        ListFormat { bits: COMMA_LIST_ELEMENTS },
    );
    let s = s.punct(")"@).formatting_space(cx);
    lemma_block_stmt(cx, s, &node.body);
    let s = block_stmt(cx, s, &node.body);
    lemma_leave(cx, s, node.span);
}

pub proof fn lemma_block_stmt_or_expr(cx: &Env, s: State, node: &BlockStmtOrExpr)
    ensures
        kept(s, block_stmt_or_expr(cx, s, node)),
    decreases node.size(), 0nat,
{
    match node {
        BlockStmtOrExpr::BlockStmt(x) => lemma_block_stmt(cx, s, x),
        BlockStmtOrExpr::Expr(x) => {
            let s = s.increase_indent();
            lemma_expr(cx, s, &**x);
        },
    }
}

pub proof fn lemma_this_expr(cx: &Env, s: State, node: &ThisExpr)
    ensures
        kept(s, this_expr(cx, s, node)),
{
    lemma_enter(cx, s, node.span);
    let s = enter(cx, s, node.span);
    let s = s.keyword("this"@);
    lemma_leave(cx, s, node.span);
}

pub proof fn lemma_quasi(cx: &Env, s: State, node: &TplElement)
    ensures
        kept(s, quasi(cx, s, node)),
{
    lemma_enter(cx, s, node.span);
    let s = enter(cx, s, node.span);
    let s = s.str_lit(cx, node.span, node.raw@);
    lemma_leave(cx, s, node.span);
}

pub proof fn lemma_unary_expr(cx: &Env, s: State, node: &UnaryExpr)
    ensures
        kept(s, unary_expr(cx, s, node)),
    decreases node.size(), 0nat,
{
    lemma_enter(cx, s, node.span);
    let s = enter(cx, s, node.span);
    let s = s.operator_or_word(node.op.is_word(), node.op.text());
    let s = if needs_space_before_operand(cx, node) {
        s.space()
    } else {
        s
    };
    lemma_expr(cx, s, &*node.arg);
    let s = expr(cx, s, &*node.arg);
    lemma_leave(cx, s, node.span);
}

pub proof fn lemma_update_expr(cx: &Env, s: State, node: &UpdateExpr)
    ensures
        kept(s, update_expr(cx, s, node)),
    decreases node.size(), 0nat,
{
    lemma_enter(cx, s, node.span);
    let s = enter(cx, s, node.span);
    let s = if node.prefix {
        let s = s.operator(node.op.text());
        lemma_expr(cx, s, &*node.arg);
        expr(cx, s, &*node.arg)
    } else {
        lemma_expr(cx, s, &*node.arg);
        let s = expr(cx, s, &*node.arg);
        s.operator(node.op.text())
    };
    lemma_leave(cx, s, node.span);
}

pub proof fn lemma_yield_expr(cx: &Env, s: State, node: &YieldExpr)
    ensures
        kept(s, yield_expr(cx, s, node)),
    decreases node.size(), 0nat,
{
    lemma_enter(cx, s, node.span);
    let s = enter(cx, s, node.span);
    let s = s.keyword("yield"@);
    let s = if node.delegate {
        s.operator("*"@)
    } else {
        s
    };
    let s = match &node.arg {
        Some(x) => {
            let s = s.space();
            lemma_expr(cx, s, &**x);
            expr(cx, s, &**x)
        },
        None => s,
    };
    lemma_leave(cx, s, node.span);
}

pub proof fn lemma_expr_or_spread(cx: &Env, s: State, node: &ExprOrSpread)
    ensures
        kept(s, expr_or_spread(cx, s, node)),
    decreases node.size(), 0nat,
{
    lemma_enter(cx, s, node.span);
    let s = enter(cx, s, node.span);
    let s = if node.spread {
        s.punct("..."@)
    } else {
        s
    };
    lemma_expr(cx, s, &*node.expr);
    let s = expr(cx, s, &*node.expr);
    lemma_leave(cx, s, node.span);
}

pub proof fn lemma_await_expr(cx: &Env, s: State, node: &AwaitExpr)
    ensures
        kept(s, await_expr(cx, s, node)),
    decreases node.size(), 0nat,
{
    lemma_enter(cx, s, node.span);
    let s = enter(cx, s, node.span);
    let s = s.keyword("await"@).space();
    lemma_expr(cx, s, &*node.arg);
    let s = expr(cx, s, &*node.arg);
    lemma_leave(cx, s, node.span);
}

pub proof fn lemma_array_lit(cx: &Env, s: State, node: &ArrayLit)
    ensures
        kept(s, array_lit(cx, s, node)),
    decreases node.size(), 0nat,
{
    lemma_enter(cx, s, node.span);
    let s = enter(cx, s, node.span);
    lemma_list(
        cx,
        s,
        node.span,
        Some(NodeSeq::ArrayElems(node.elems@)),
        ListFormat { bits: ARRAY_LITERAL_ELEMENTS },
    );
    let s = list(
        cx,
        s,
        node.span,
        Some(NodeSeq::ArrayElems(node.elems@)),
        ListFormat { bits: ARRAY_LITERAL_ELEMENTS },
    );
    lemma_leave(cx, s, node.span);
}

pub proof fn lemma_object_lit(cx: &Env, s: State, node: &ObjectLit)
    ensures
        kept(s, object_lit(cx, s, node)),
    decreases node.size(), 0nat,
{
    lemma_enter(cx, s, node.span);
    let s = enter(cx, s, node.span);
    lemma_list(
        cx,
        s,
        node.span,
        Some(NodeSeq::Props(node.props@)),
        ListFormat { bits: OBJECT_LITERAL_PROPERTIES },
    );
    let s = list(
        cx,
        s,
        node.span,
        Some(NodeSeq::Props(node.props@)),
        ListFormat { bits: OBJECT_LITERAL_PROPERTIES },
    );
    lemma_leave(cx, s, node.span);
}

pub proof fn lemma_prop(cx: &Env, s: State, node: &Prop)
    ensures
        kept(s, prop(cx, s, node)),
    decreases node.size(), 0nat,
{
    match node {
        Prop::Shorthand(x) => lemma_ident(cx, s, x),
        Prop::KeyValue(x) => lemma_kv_prop(cx, s, x),
        Prop::Assign(x) => lemma_assign_prop(cx, s, x),
        Prop::Getter(x) => lemma_getter_prop(cx, s, x),
        Prop::Setter(x) => lemma_setter_prop(cx, s, x),
        Prop::Method(x) => lemma_method_prop(cx, s, x),
    }
}

pub proof fn lemma_kv_prop(cx: &Env, s: State, node: &KeyValueProp)
    ensures
        kept(s, kv_prop(cx, s, node)),
    decreases node.size(), 0nat,
{
    lemma_enter(cx, s, node.span);
    let s = enter(cx, s, node.span);
    lemma_prop_name(cx, s, &node.key);
    let s = prop_name(cx, s, &node.key);
    let s = s.punct(":"@).formatting_space(cx);
    lemma_expr(cx, s, &*node.value);
    let s = expr(cx, s, &*node.value);
    lemma_leave(cx, s, node.span);
}

pub proof fn lemma_assign_prop(cx: &Env, s: State, node: &AssignProp)
    ensures
        kept(s, assign_prop(cx, s, node)),
    decreases node.size(), 0nat,
{
    lemma_enter(cx, s, node.span);
    let s = enter(cx, s, node.span);
    lemma_ident(cx, s, &node.key);
    let s = ident(cx, s, &node.key);
    let s = s.punct("="@);
    lemma_expr(cx, s, &*node.value);
    let s = expr(cx, s, &*node.value);
    lemma_leave(cx, s, node.span);
}

pub proof fn lemma_getter_prop(cx: &Env, s: State, node: &GetterProp)
    ensures
        kept(s, getter_prop(cx, s, node)),
    decreases node.size(), 0nat,
{
    lemma_enter(cx, s, node.span);
    let s = enter(cx, s, node.span);
    let s = s.keyword("get"@).space();
    lemma_prop_name(cx, s, &node.key);
    let s = prop_name(cx, s, &node.key);
    let s = s.space().punct("("@).punct(")"@).formatting_space(cx);
    lemma_block_stmt(cx, s, &node.body);
    let s = block_stmt(cx, s, &node.body);
    lemma_leave(cx, s, node.span);
}

pub proof fn lemma_setter_prop(cx: &Env, s: State, node: &SetterProp)
    ensures
        kept(s, setter_prop(cx, s, node)),
    decreases node.size(), 0nat,
{
    lemma_enter(cx, s, node.span);
    let s = enter(cx, s, node.span);
    let s = s.keyword("set"@).space();
    lemma_prop_name(cx, s, &node.key);
    let s = prop_name(cx, s, &node.key);
    let s = s.space().punct("("@);
    lemma_pat(cx, s, &node.param);
    let s = pat(cx, s, &node.param);
    let s = s.punct(")"@);
    lemma_block_stmt(cx, s, &node.body);
    let s = block_stmt(cx, s, &node.body);
    lemma_leave(cx, s, node.span);
}

pub proof fn lemma_method_prop(cx: &Env, s: State, node: &MethodProp)
    ensures
        kept(s, method_prop(cx, s, node)),
    decreases node.size(), 0nat,
{
    lemma_enter(cx, s, node.span);
    let s = enter(cx, s, node.span);
    let s = if node.function.is_async {
        s.keyword("async"@).space()
    } else {
        s
    };
    let s = if node.function.is_generator {
        s.punct("*"@)
    } else {
        s
    };
    lemma_prop_name(cx, s, &node.key);
    let s = prop_name(cx, s, &node.key);
    let s = s.space();
    lemma_fn_trailing(cx, s, &node.function);
    let s = fn_trailing(cx, s, &node.function);
    lemma_leave(cx, s, node.span);
}

pub proof fn lemma_paren_expr(cx: &Env, s: State, node: &ParenExpr)
    ensures
        kept(s, paren_expr(cx, s, node)),
    decreases node.size(), 0nat,
{
    lemma_enter(cx, s, node.span);
    let s = enter(cx, s, node.span);
    let s = s.punct("("@);
    lemma_expr(cx, s, &*node.expr);
    let s = expr(cx, s, &*node.expr);
    let s = s.punct(")"@);
    lemma_leave(cx, s, node.span);
}

pub proof fn lemma_pat(cx: &Env, s: State, node: &Pat)
    ensures
        kept(s, pat(cx, s, node)),
    decreases node.size(), 0nat,
{
    match node {
        Pat::Ident(x) => lemma_ident(cx, s, x),
        Pat::Array(x) => lemma_array_pat(cx, s, x),
        Pat::Rest(x) => lemma_rest_pat(cx, s, x),
        Pat::Object(x) => lemma_object_pat(cx, s, x),
        Pat::Assign(x) => lemma_assign_pat(cx, s, x),
        Pat::Expr(x) => lemma_expr(cx, s, &**x),
    }
}

pub proof fn lemma_rest_pat(cx: &Env, s: State, node: &RestPat)
    ensures
        kept(s, rest_pat(cx, s, node)),
    decreases node.size(), 0nat,
{
    lemma_enter(cx, s, node.span);
    let s = enter(cx, s, node.span);
    let s = s.punct("..."@);
    lemma_pat(cx, s, &*node.arg);
    let s = pat(cx, s, &*node.arg);
    lemma_leave(cx, s, node.span);
}

pub proof fn lemma_prop_or_spread(cx: &Env, s: State, node: &PropOrSpread)
    ensures
        kept(s, prop_or_spread(cx, s, node)),
    decreases node.size(), 0nat,
{
    match node {
        PropOrSpread::Prop(x) => lemma_prop(cx, s, &**x),
        PropOrSpread::Spread(x) => lemma_spread_element(cx, s, x),
    }
}

pub proof fn lemma_spread_element(cx: &Env, s: State, node: &SpreadElement)
    ensures
        kept(s, spread_element(cx, s, node)),
    decreases node.size(), 0nat,
{
    lemma_enter(cx, s, node.span);
    let s = enter(cx, s, node.span);
    let s = s.punct("..."@);
    lemma_expr(cx, s, &*node.expr);
    let s = expr(cx, s, &*node.expr);
    lemma_leave(cx, s, node.span);
}

pub proof fn lemma_pat_or_expr(cx: &Env, s: State, node: &PatOrExpr)
    ensures
        kept(s, pat_or_expr(cx, s, node)),
    decreases node.size(), 0nat,
{
    match node {
        PatOrExpr::Expr(x) => lemma_expr(cx, s, &**x),
        PatOrExpr::Pat(x) => lemma_pat(cx, s, &**x),
    }
}

pub proof fn lemma_array_pat(cx: &Env, s: State, node: &ArrayPat)
    ensures
        kept(s, array_pat(cx, s, node)),
    decreases node.size(), 0nat,
{
    lemma_enter(cx, s, node.span);
    let s = enter(cx, s, node.span);
    lemma_list(
        cx,
        s,
        node.span,
        Some(NodeSeq::ArrayPatElems(node.elems@)),
        ListFormat { bits: ARRAY_BINDING_PATTERN_ELEMENTS },
    );
    let s = list(
        cx,
        s,
        node.span,
        Some(NodeSeq::ArrayPatElems(node.elems@)),
        ListFormat { bits: ARRAY_BINDING_PATTERN_ELEMENTS },
    );
    lemma_leave(cx, s, node.span);
}

pub proof fn lemma_assign_pat(cx: &Env, s: State, node: &AssignPat)
    ensures
        kept(s, assign_pat(cx, s, node)),
    decreases node.size(), 0nat,
{
    lemma_enter(cx, s, node.span);
    let s = enter(cx, s, node.span);
    lemma_pat(cx, s, &*node.left);
    let s = pat(cx, s, &*node.left);
    let s = s.formatting_space(cx).punct("="@).formatting_space(cx);
    lemma_expr(cx, s, &*node.right);
    let s = expr(cx, s, &*node.right);
    lemma_leave(cx, s, node.span);
}

pub proof fn lemma_object_pat(cx: &Env, s: State, node: &ObjectPat)
    ensures
        kept(s, object_pat(cx, s, node)),
    decreases node.size(), 0nat,
{
    lemma_enter(cx, s, node.span);
    let s = enter(cx, s, node.span);
    lemma_list(
        cx,
        s,
        node.span,
        Some(NodeSeq::ObjectPatProps(node.props@)),
        ListFormat { bits: OBJECT_BINDING_PATTERN_ELEMENTS },
    );
    let s = list(
        cx,
        s,
        node.span,
        Some(NodeSeq::ObjectPatProps(node.props@)),
        ListFormat { bits: OBJECT_BINDING_PATTERN_ELEMENTS },
    );
    lemma_leave(cx, s, node.span);
}

pub proof fn lemma_object_pat_prop(cx: &Env, s: State, node: &ObjectPatProp)
    ensures
        kept(s, object_pat_prop(cx, s, node)),
    decreases node.size(), 0nat,
{
    match node {
        ObjectPatProp::KeyValue(x) => lemma_object_kv_pat(cx, s, x),
        ObjectPatProp::Assign(x) => lemma_object_assign_pat(cx, s, x),
        ObjectPatProp::Rest(x) => lemma_rest_pat(cx, s, x),
    }
}

pub proof fn lemma_object_kv_pat(cx: &Env, s: State, node: &KeyValuePatProp)
    ensures
        kept(s, object_kv_pat(cx, s, node)),
    decreases node.size(), 0nat,
{
    lemma_enter(cx, s, node.span);
    let s = enter(cx, s, node.span);
    lemma_prop_name(cx, s, &node.key);
    let s = prop_name(cx, s, &node.key);
    let s = s.punct(":"@).formatting_space(cx);
    lemma_pat(cx, s, &*node.value);
    let s = pat(cx, s, &*node.value);
    lemma_leave(cx, s, node.span);
}

pub proof fn lemma_object_assign_pat(cx: &Env, s: State, node: &AssignPatProp)
    ensures
        kept(s, object_assign_pat(cx, s, node)),
    decreases node.size(), 0nat,
{
    lemma_enter(cx, s, node.span);
    let s = enter(cx, s, node.span);
    lemma_ident(cx, s, &node.key);
    let s = ident(cx, s, &node.key);
    let s = match &node.value {
        Some(x) => {
            let s = s.formatting_space(cx).punct("="@).formatting_space(cx);
            lemma_expr(cx, s, &**x);
            expr(cx, s, &**x)
        },
        None => s,
    };
    lemma_leave(cx, s, node.span);
}

pub proof fn lemma_var_decl_or_pat(cx: &Env, s: State, node: &VarDeclOrPat)
    ensures
        kept(s, var_decl_or_pat(cx, s, node)),
    decreases node.size(), 0nat,
{
    match node {
        VarDeclOrPat::VarDecl(x) => lemma_var_decl(cx, s, x),
        VarDeclOrPat::Pat(x) => lemma_pat(cx, s, x),
    }
}

pub proof fn lemma_decl(cx: &Env, s: State, node: &Decl)
    ensures
        kept(s, decl(cx, s, node)),
    decreases node.size(), 0nat,
{
    match node {
        Decl::Class(x) => lemma_class_decl(cx, s, x),
        Decl::Fn(x) => lemma_fn_decl(cx, s, x),
        Decl::Var(x) => lemma_var_decl(cx, s, x),
    }
}

pub proof fn lemma_class_decl(cx: &Env, s: State, node: &ClassDecl)
    ensures
        kept(s, class_decl(cx, s, node)),
    decreases node.size(), 0nat,
{
    lemma_enter(cx, s, node.span);
    let s = enter(cx, s, node.span);
    let s = s.keyword("class"@).space();
    lemma_ident(cx, s, &node.ident);
    let s = ident(cx, s, &node.ident);
    lemma_class_trailing(cx, s, &node.class);
    let s = class_trailing(cx, s, &node.class);
    lemma_leave(cx, s, node.span);
}

pub proof fn lemma_fn_decl(cx: &Env, s: State, node: &FnDecl)
    ensures
        kept(s, fn_decl(cx, s, node)),
    decreases node.size(), 0nat,
{
    lemma_enter(cx, s, node.span);
    let s = enter(cx, s, node.span);
    let s = if node.function.is_async {
        s.keyword("async"@).space()
    } else {
        s
    };
    let s = s.keyword("function"@);
    let s = if node.function.is_generator {
        s.punct("*"@)
    } else {
        s
    };
    let s = s.space();
    lemma_ident(cx, s, &node.ident);
    let s = ident(cx, s, &node.ident);
    lemma_fn_trailing(cx, s, &node.function);
    let s = fn_trailing(cx, s, &node.function);
    lemma_leave(cx, s, node.span);
}

pub proof fn lemma_var_decl(cx: &Env, s: State, node: &VarDecl)
    ensures
        kept(s, var_decl(cx, s, node)),
    decreases node.size(), 0nat,
{
    lemma_enter(cx, s, node.span);
    let s = enter(cx, s, node.span);
    let s = s.keyword(node.kind.text()).space();
    lemma_list(
        cx,
        s,
        node.span,
        Some(NodeSeq::VarDeclarators(node.decls@)),
        ListFormat { bits: COMMA_LIST_ELEMENTS },
    );
    let s = list(
        cx,
        s,
        node.span,
        Some(NodeSeq::VarDeclarators(node.decls@)),
        ListFormat { bits: COMMA_LIST_ELEMENTS },
    );
    lemma_leave(cx, s, node.span);
}

pub proof fn lemma_var_declarator(cx: &Env, s: State, node: &VarDeclarator)
    ensures
        kept(s, var_declarator(cx, s, node)),
    decreases node.size(), 0nat,
{
    lemma_enter(cx, s, node.span);
    let s = enter(cx, s, node.span);
    lemma_pat(cx, s, &node.name);
    let s = pat(cx, s, &node.name);
    let s = match &node.init {
        Some(x) => {
            let s = s.formatting_space(cx).punct("="@).formatting_space(cx);
            lemma_expr(cx, s, &**x);
            expr(cx, s, &**x)
        },
        None => s,
    };
    lemma_leave(cx, s, node.span);
}

pub proof fn lemma_block_stmt(cx: &Env, s: State, node: &BlockStmt)
    ensures
        kept(s, block_stmt(cx, s, node)),
    decreases node.size(), 0nat,
{
    lemma_enter(cx, s, node.span);
    let s = enter(cx, s, node.span);
    lemma_list(
        cx,
        s,
        node.span,
        Some(NodeSeq::Stmts(node.stmts@)),
        ListFormat { bits: MULTI_LINE_BLOCK_STATEMENTS },
    );
    let s = list(
        cx,
        s,
        node.span,
        Some(NodeSeq::Stmts(node.stmts@)),
        ListFormat { bits: MULTI_LINE_BLOCK_STATEMENTS },
    );
    lemma_leave(cx, s, node.span);
}

pub proof fn lemma_empty_stmt(cx: &Env, s: State, node: &EmptyStmt)
    ensures
        kept(s, empty_stmt(cx, s, node)),
{
    lemma_enter(cx, s, node.span);
    let s = enter(cx, s, node.span);
    let s = s.punct(";"@);
    lemma_leave(cx, s, node.span);
}

pub proof fn lemma_debugger_stmt(cx: &Env, s: State, node: &DebuggerStmt)
    ensures
        kept(s, debugger_stmt(cx, s, node)),
{
    lemma_enter(cx, s, node.span);
    let s = enter(cx, s, node.span);
    let s = s.keyword("debugger"@).semi();
    lemma_leave(cx, s, node.span);
}

pub proof fn lemma_with_stmt(cx: &Env, s: State, node: &WithStmt)
    ensures
        kept(s, with_stmt(cx, s, node)),
    decreases node.size(), 0nat,
{
    lemma_enter(cx, s, node.span);
    let s = enter(cx, s, node.span);
    let s = s.keyword("with"@).formatting_space(cx).punct("("@);
    lemma_expr(cx, s, &*node.obj);
    let s = expr(cx, s, &*node.obj);
    let s = s.punct(")"@);
    lemma_inner_stmt(cx, s, &*node.body);
    let s = inner_stmt(cx, s, &*node.body);
    lemma_leave(cx, s, node.span);
}

pub proof fn lemma_return_stmt(cx: &Env, s: State, node: &ReturnStmt)
    ensures
        kept(s, return_stmt(cx, s, node)),
    decreases node.size(), 0nat,
{
    lemma_enter(cx, s, node.span);
    let s = enter(cx, s, node.span);
    let s = s.keyword("return"@);
    let s = match &node.arg {
        Some(x) => {
            let s = s.space();
            lemma_expr(cx, s, &**x);
            expr(cx, s, &**x)
        },
        None => s,
    };
    let s = s.semi();
    lemma_leave(cx, s, node.span);
}

pub proof fn lemma_labeled_stmt(cx: &Env, s: State, node: &LabeledStmt)
    ensures
        kept(s, labeled_stmt(cx, s, node)),
    decreases node.size(), 0nat,
{
    lemma_enter(cx, s, node.span);
    let s = enter(cx, s, node.span);
    lemma_ident(cx, s, &node.label);
    let s = ident(cx, s, &node.label);
    let s = s.punct(":"@).space();
    lemma_inner_stmt(cx, s, &*node.body);
    let s = inner_stmt(cx, s, &*node.body);
    lemma_leave(cx, s, node.span);
}

pub proof fn lemma_break_stmt(cx: &Env, s: State, node: &BreakStmt)
    ensures
        kept(s, break_stmt(cx, s, node)),
{
    lemma_enter(cx, s, node.span);
    let s = enter(cx, s, node.span);
    let s = s.keyword("break"@);
    let s = match &node.label {
        Some(x) => {
            let s = s.space();
            lemma_ident(cx, s, x);
            ident(cx, s, x)
        },
        None => s,
    };
    let s = s.semi();
    lemma_leave(cx, s, node.span);
}

pub proof fn lemma_continue_stmt(cx: &Env, s: State, node: &ContinueStmt)
    ensures
        kept(s, continue_stmt(cx, s, node)),
{
    lemma_enter(cx, s, node.span);
    let s = enter(cx, s, node.span);
    let s = s.keyword("continue"@);
    let s = match &node.label {
        Some(x) => {
            let s = s.space();
            lemma_ident(cx, s, x);
            ident(cx, s, x)
        },
        None => s,
    };
    let s = s.semi();
    lemma_leave(cx, s, node.span);
}

pub proof fn lemma_if_stmt(cx: &Env, s: State, node: &IfStmt)
    ensures
        kept(s, if_stmt(cx, s, node)),
    decreases node.size(), 0nat,
{
    lemma_enter(cx, s, node.span);
    let s = enter(cx, s, node.span);
    let s = s.keyword("if"@).space().punct("("@);
    lemma_expr(cx, s, &*node.test);
    let s = expr(cx, s, &*node.test);
    let s = s.punct(")"@).space();
    lemma_stmt(cx, s, &*node.cons);
    let s = stmt(cx, s, &*node.cons);
    let s = match &node.alt {
        Some(x) => {
            let s = if *node.cons is Block {
                s.space()
            } else {
                s
            };
            let s = s.keyword("else"@).space();
            lemma_inner_stmt(cx, s, &**x);
            inner_stmt(cx, s, &**x)
        },
        None => s,
    };
    lemma_leave(cx, s, node.span);
}

pub proof fn lemma_switch_stmt(cx: &Env, s: State, node: &SwitchStmt)
    ensures
        kept(s, switch_stmt(cx, s, node)),
    decreases node.size(), 0nat,
{
    lemma_enter(cx, s, node.span);
    let s = enter(cx, s, node.span);
    let s = s.keyword("switch"@).punct("("@);
    lemma_expr(cx, s, &*node.discriminant);
    let s = expr(cx, s, &*node.discriminant);
    let s = s.punct(")"@).punct("{"@);
    lemma_list(
        cx,
        s,
        node.span,
        Some(NodeSeq::SwitchCases(node.cases@)),
        ListFormat { bits: CASE_BLOCK_CLAUSES },
    );
    let s = list(
        cx,
        s,
        node.span,
        Some(NodeSeq::SwitchCases(node.cases@)),
        ListFormat { bits: CASE_BLOCK_CLAUSES },
    );
    let s = s.punct("}"@);
    lemma_leave(cx, s, node.span);
}

pub proof fn lemma_catch_clause(cx: &Env, s: State, node: &CatchClause)
    ensures
        kept(s, catch_clause(cx, s, node)),
    decreases node.size(), 0nat,
{
    lemma_enter(cx, s, node.span);
    let s = enter(cx, s, node.span);
    let s = s.keyword("catch"@).space().punct("("@);
    lemma_pat(cx, s, &node.param);
    let s = pat(cx, s, &node.param);
    let s = s.punct(")"@).space();
    lemma_block_stmt(cx, s, &node.body);
    let s = block_stmt(cx, s, &node.body);
    lemma_leave(cx, s, node.span);
}

pub proof fn lemma_throw_stmt(cx: &Env, s: State, node: &ThrowStmt)
    ensures
        kept(s, throw_stmt(cx, s, node)),
    decreases node.size(), 0nat,
{
    lemma_enter(cx, s, node.span);
    let s = enter(cx, s, node.span);
    let s = s.keyword("throw"@).space();
    lemma_expr(cx, s, &*node.arg);
    let s = expr(cx, s, &*node.arg);
    let s = s.semi();
    lemma_leave(cx, s, node.span);
}

pub proof fn lemma_try_stmt(cx: &Env, s: State, node: &TryStmt)
    ensures
        kept(s, try_stmt(cx, s, node)),
    decreases node.size(), 0nat,
{
    lemma_enter(cx, s, node.span);
    let s = enter(cx, s, node.span);
    let s = s.keyword("try"@);
    lemma_block_stmt(cx, s, &node.block);
    let s = block_stmt(cx, s, &node.block);
    let s = match &node.handler {
        Some(x) => {
            lemma_catch_clause(cx, s, x);
            catch_clause(cx, s, x)
        },
        None => s,
    };
    let s = match &node.finalizer {
        Some(x) => {
            let s = s.keyword("finally"@);
            lemma_block_stmt(cx, s, x);
            block_stmt(cx, s, x)
        },
        None => s,
    };
    lemma_leave(cx, s, node.span);
}

pub proof fn lemma_while_stmt(cx: &Env, s: State, node: &WhileStmt)
    ensures
        kept(s, while_stmt(cx, s, node)),
    decreases node.size(), 0nat,
{
    lemma_enter(cx, s, node.span);
    let s = enter(cx, s, node.span);
    let s = s.keyword("while"@).punct("("@);
    lemma_expr(cx, s, &*node.test);
    let s = expr(cx, s, &*node.test);
    let s = s.punct(")"@);
    lemma_inner_stmt(cx, s, &*node.body);
    let s = inner_stmt(cx, s, &*node.body);
    lemma_leave(cx, s, node.span);
}

pub proof fn lemma_do_while_stmt(cx: &Env, s: State, node: &DoWhileStmt)
    ensures
        kept(s, do_while_stmt(cx, s, node)),
    decreases node.size(), 0nat,
{
    lemma_enter(cx, s, node.span);
    let s = enter(cx, s, node.span);
    let s = s.keyword("do"@).space();
    lemma_inner_stmt(cx, s, &*node.body);
    let s = inner_stmt(cx, s, &*node.body);
    let s = s.formatting_space(cx).keyword("while"@).punct("("@);
    lemma_expr(cx, s, &*node.test);
    let s = expr(cx, s, &*node.test);
    let s = s.punct(")"@).semi();
    lemma_leave(cx, s, node.span);
}

pub proof fn lemma_for_stmt(cx: &Env, s: State, node: &ForStmt)
    ensures
        kept(s, for_stmt(cx, s, node)),
    decreases node.size(), 0nat,
{
    lemma_enter(cx, s, node.span);
    let s = enter(cx, s, node.span);
    let s = s.keyword("for"@).punct("("@);
    let s = match &node.init {
        Some(x) => {
            lemma_var_decl_or_expr(cx, s, x);
            var_decl_or_expr(cx, s, x)
        },
        None => s,
    };
    let s = s.punct(";"@);
    let s = match &node.test {
        Some(x) => {
            let s = s.formatting_space(cx);
            lemma_expr(cx, s, &**x);
            expr(cx, s, &**x)
        },
        None => s,
    };
    let s = s.punct(";"@);
    let s = match &node.update {
        Some(x) => {
            let s = s.formatting_space(cx);
            lemma_expr(cx, s, &**x);
            expr(cx, s, &**x)
        },
        None => s,
    };
    let s = s.punct(")"@);
    lemma_inner_stmt(cx, s, &*node.body);
    let s = inner_stmt(cx, s, &*node.body);
    lemma_leave(cx, s, node.span);
}

pub proof fn lemma_for_in_stmt(cx: &Env, s: State, node: &ForInStmt)
    ensures
        kept(s, for_in_stmt(cx, s, node)),
    decreases node.size(), 0nat,
{
    lemma_enter(cx, s, node.span);
    let s = enter(cx, s, node.span);
    let s = s.keyword("for"@).punct("("@);
    lemma_var_decl_or_pat(cx, s, &node.left);
    let s = var_decl_or_pat(cx, s, &node.left);
    let s = s.space().keyword("in"@).space();
    lemma_expr(cx, s, &*node.right);
    let s = expr(cx, s, &*node.right);
    let s = s.punct(")"@);
    lemma_inner_stmt(cx, s, &*node.body);
    let s = inner_stmt(cx, s, &*node.body);
    lemma_leave(cx, s, node.span);
}

pub proof fn lemma_for_of_stmt(cx: &Env, s: State, node: &ForOfStmt)
    ensures
        kept(s, for_of_stmt(cx, s, node)),
    decreases node.size(), 0nat,
{
    lemma_enter(cx, s, node.span);
    let s = enter(cx, s, node.span);
    let s = s.keyword("for"@).punct("("@);
    lemma_var_decl_or_pat(cx, s, &node.left);
    let s = var_decl_or_pat(cx, s, &node.left);
    let s = s.space().keyword("of"@).space();
    lemma_expr(cx, s, &*node.right);
    let s = expr(cx, s, &*node.right);
    let s = s.punct(")"@);
    lemma_inner_stmt(cx, s, &*node.body);
    let s = inner_stmt(cx, s, &*node.body);
    lemma_leave(cx, s, node.span);
}

pub proof fn lemma_var_decl_or_expr(cx: &Env, s: State, node: &VarDeclOrExpr)
    ensures
        kept(s, var_decl_or_expr(cx, s, node)),
    decreases node.size(), 0nat,
{
    match node {
        VarDeclOrExpr::VarDecl(x) => lemma_var_decl(cx, s, x),
        VarDeclOrExpr::Expr(x) => lemma_expr(cx, s, &**x),
    }
}

/// What a child of a list writes keeps the depth and keeps words apart.
pub proof fn lemma_child(cx: &Env, s: State, c: NodeSeq, i: int)
    ensures
        kept(s, child(cx, s, c, i)),
    decreases c.size(), 0nat,
{
    if 0 <= i < c.len() {
        match c {
            NodeSeq::Stmts(v) => {
                lemma_stmts_size(v, 0, i);
                lemma_inner_stmt(cx, s, &v[i]);
            },
            NodeSeq::ExprOrSpreads(v) => {
                lemma_expr_or_spreads_size(v, 0, i);
                lemma_expr_or_spread(cx, s, &v[i]);
            },
            NodeSeq::ArrayElems(v) => {
                lemma_array_elems_size(v, 0, i);
                match &v[i] {
                    Some(x) => lemma_expr_or_spread(cx, s, x),
                    None => {},
                }
            },
            NodeSeq::Props(v) => {
                lemma_props_size(v, 0, i);
                lemma_prop_or_spread(cx, s, &v[i]);
            },
            NodeSeq::Pats(v) => {
                lemma_pats_size(v, 0, i);
                lemma_pat(cx, s, &v[i]);
            },
            NodeSeq::ArrayPatElems(v) => {
                lemma_array_pat_elems_size(v, 0, i);
                match &v[i] {
                    Some(x) => lemma_pat(cx, s, x),
                    None => {},
                }
            },
            NodeSeq::ObjectPatProps(v) => {
                lemma_object_pat_props_size(v, 0, i);
                lemma_object_pat_prop(cx, s, &v[i]);
            },
            NodeSeq::ClassMethods(v) => {
                lemma_class_methods_size(v, 0, i);
                lemma_class_method(cx, s, &v[i]);
            },
            NodeSeq::SwitchCases(v) => {
                lemma_switch_cases_size(v, 0, i);
                lemma_switch_case(cx, s, &v[i]);
            },
            NodeSeq::VarDeclarators(v) => {
                lemma_var_declarators_size(v, 0, i);
                lemma_var_declarator(cx, s, &v[i]);
            },
            NodeSeq::ImportSpecifics(v) => {
                lemma_import_specifics_size(v, 0, i);
                lemma_import_specific(cx, s, &v[i]);
            },
            NodeSeq::ExportSpecifiers(v) => {
                lemma_export_specifiers_size(v, 0, i);
                lemma_export_specifier(cx, s, &v[i]);
            },
            NodeSeq::Exprs(v) => {
                lemma_exprs_size(v, 0, i);
                lemma_expr(cx, s, &*v[i]);
            },
        }
    }
}

pub proof fn lemma_separator(
    cx: &Env,
    s: State,
    parent: Span,
    c: NodeSeq,
    format: ListFormat,
    start: int,
    i: int,
)
    ensures
        moved(
            s,
            separator(cx, s, parent, c, format, start, i),
            if item_deepens(cx, s, parent, c, format, start, i) {
                1
            } else {
                0
            },
        ),
{
    let prev = c.span_at(i - 1);
    if format.intersects(DELIMITERS_MASK) && prev.hi != parent.hi {
        lemma_leading_comments(cx, s, prev.hi);
    }
}

/// A child of a list, with what precedes and follows it.
pub proof fn lemma_item(
    cx: &Env,
    s: State,
    parent: Span,
    c: NodeSeq,
    format: ListFormat,
    start: int,
    i: int,
)
    ensures
        kept(s, item(cx, s, parent, c, format, start, i)),
    decreases c.size(), 1nat,
{
    let parted = if i > start {
        lemma_separator(cx, s, parent, c, format, start, i);
        separator(cx, s, parent, c, format, start, i)
    } else {
        s
    };
    if !format.intersects(NO_INTERVENING_COMMENTS) && !breaks_before(
        cx,
        parent,
        c,
        format,
        start,
        i,
    ) {
        lemma_trailing_comments(cx, parted, c.span_at(i).hi, false);
    }
    lemma_child(cx, before_child(cx, s, parent, c, format, start, i), c, i);
}

pub proof fn lemma_list_items(
    cx: &Env,
    s: State,
    parent: Span,
    c: NodeSeq,
    format: ListFormat,
    start: int,
    end: int,
    i: int,
)
    ensures
        kept(s, list_items(cx, s, parent, c, format, start, end, i)),
    decreases c.size(), 2nat, end - i,
{
    if start <= i < end {
        lemma_item(cx, s, parent, c, format, start, i);
        lemma_list_items(
            cx,
            item(cx, s, parent, c, format, start, i),
            parent,
            c,
            format,
            start,
            end,
            i + 1,
        );
    }
}

pub proof fn lemma_list_trail(
    cx: &Env,
    s: State,
    parent: Span,
    c: NodeSeq,
    format: ListFormat,
    end: int,
    took: bool,
)
    requires
        took ==> s.wr.indent > 0,
    ensures
        moved(
            s,
            list_trail(cx, s, parent, c, format, end, took),
            if took {
                -1
            } else {
                0
            },
        ),
{
    let last = c.span_at(end - 1);
    let s = if has_trailing_comma(c, format, end) {
        s.punct(","@)
    } else {
        s
    };
    if format.intersects(DELIMITERS_MASK) && last.hi != parent.hi {
        lemma_leading_comments(cx, s, last.hi);
    }
}

/// A list keeps the depth and keeps words apart.
pub proof fn lemma_list5(
    cx: &Env,
    s: State,
    parent: Span,
    children: Option<NodeSeq>,
    format: ListFormat,
    start: int,
    count: int,
)
    ensures
        kept(s, list5(cx, s, parent, children, format, start, count)),
    decreases seq_size(children), 3nat,
{
    let empty = list_is_empty(children, start, count);
    if children is None && format.contains(OPTIONAL_IF_UNDEFINED) {
    } else if empty && format.contains(OPTIONAL_IF_EMPTY) {
    } else {
        if format.intersects(BRACKETS_MASK) && empty {
            lemma_trailing_comments(cx, s.punct(format.spec_opening_bracket()), parent.lo, true);
        }
        let s = list_open(cx, s, parent, format, empty);
        let s = match children {
            Some(c) if !empty => {
                let end = list_end(children, start, count);
                let took = list_deepens(cx, s, parent, c, format, start);
                let s = list_lead(cx, s, parent, c, format, start);
                lemma_list_items(cx, s, parent, c, format, start, end, start);
                let s = list_items(cx, s, parent, c, format, start, end, start);
                lemma_list_trail(cx, s, parent, c, format, end, took);
                list_trail(cx, s, parent, c, format, end, took)
            },
            _ => list_empty_body(cx, s, format),
        };
        if format.intersects(BRACKETS_MASK) && empty {
            lemma_leading_comments(cx, s, parent.hi);
        }
    }
}

pub proof fn lemma_list(
    cx: &Env,
    s: State,
    parent: Span,
    children: Option<NodeSeq>,
    format: ListFormat,
)
    ensures
        kept(s, list(cx, s, parent, children, format)),
    decreases seq_size(children), 4nat,
{
    lemma_list5(cx, s, parent, children, format, 0, seq_len(children) as int);
}

pub proof fn lemma_tpl_parts(cx: &Env, s: State, node: &TplLit, i: int)
    ensures
        kept(s, tpl_parts(cx, s, node, i)),
    decreases node.size(), 0nat, node.spec_quasis().len() + node.spec_exprs().len() - i,
{
    if 0 <= i < node.spec_quasis().len() + node.spec_exprs().len() {
        let s = if i % 2 == 0 {
            if i / 2 < node.spec_quasis().len() {
                lemma_quasi(cx, s, &node.spec_quasis()[i / 2]);
                quasi(cx, s, &node.spec_quasis()[i / 2])
            } else {
                s
            }
        } else if i / 2 < node.spec_exprs().len() {
            let s = s.punct("$"@).punct("{"@);
            lemma_exprs_size(node.spec_exprs(), 0, i / 2);
            lemma_expr(cx, s, &*node.spec_exprs()[i / 2]);
            expr(cx, s, &*node.spec_exprs()[i / 2]).punct("}"@)
        } else {
            s
        };
        lemma_tpl_parts(cx, s, node, i + 1);
    }
}

pub proof fn lemma_tpl_lit(cx: &Env, s: State, node: &TplLit)
    ensures
        kept(s, tpl_lit(cx, s, node)),
    decreases node.size(), 1nat,
{
    lemma_enter(cx, s, node.spec_span());
    let s = enter(cx, s, node.spec_span());
    let s = match node.spec_tag() {
        Some(x) => {
            lemma_expr(cx, s, &*x);
            expr(cx, s, &*x)
        },
        None => s,
    };
    let s = s.punct("`"@);
    lemma_tpl_parts(cx, s, node, 0);
    let s = tpl_parts(cx, s, node, 0).punct("`"@);
    lemma_leave(cx, s, node.spec_span());
}

pub proof fn lemma_switch_case(cx: &Env, s: State, node: &SwitchCase)
    ensures
        kept(s, switch_case(cx, s, node)),
    decreases node.size(), 0nat,
{
    lemma_enter(cx, s, node.span);
    let s = enter(cx, s, node.span);
    let s = match &node.test {
        Some(x) => {
            let s = s.keyword("case"@).space();
            lemma_expr(cx, s, &**x);
            expr(cx, s, &**x)
        },
        None => s.keyword("default"@),
    };
    let s = s.punct(":"@);
    let single = is_single_stmt_case(cx, node);
    let s = if single {
        s.space()
    } else {
        s
    };
    lemma_list(cx, s, node.span, Some(NodeSeq::Stmts(node.cons@)), case_format(single));
    let s = list(cx, s, node.span, Some(NodeSeq::Stmts(node.cons@)), case_format(single));
    lemma_leave(cx, s, node.span);
}

pub proof fn lemma_stmt_body(cx: &Env, s: State, node: &Stmt)
    ensures
        kept(s, stmt_body(cx, s, node)),
    decreases node.size(), 0nat,
{
    match node {
        Stmt::Expr(x) => lemma_expr(cx, s, &**x),
        Stmt::Block(x) => lemma_block_stmt(cx, s, x),
        Stmt::Empty(x) => lemma_empty_stmt(cx, s, x),
        Stmt::Debugger(x) => lemma_debugger_stmt(cx, s, x),
        Stmt::With(x) => lemma_with_stmt(cx, s, x),
        Stmt::Return(x) => lemma_return_stmt(cx, s, x),
        Stmt::Labeled(x) => lemma_labeled_stmt(cx, s, x),
        Stmt::Break(x) => lemma_break_stmt(cx, s, x),
        Stmt::Continue(x) => lemma_continue_stmt(cx, s, x),
        Stmt::If(x) => lemma_if_stmt(cx, s, x),
        Stmt::Switch(x) => lemma_switch_stmt(cx, s, x),
        Stmt::Throw(x) => lemma_throw_stmt(cx, s, x),
        Stmt::Try(x) => lemma_try_stmt(cx, s, x),
        Stmt::While(x) => lemma_while_stmt(cx, s, x),
        Stmt::DoWhile(x) => lemma_do_while_stmt(cx, s, x),
        Stmt::For(x) => lemma_for_stmt(cx, s, x),
        Stmt::ForIn(x) => lemma_for_in_stmt(cx, s, x),
        Stmt::ForOf(x) => lemma_for_of_stmt(cx, s, x),
        Stmt::Decl(x) => lemma_decl(cx, s, x),
    }
}

pub proof fn lemma_inner_stmt_with(cx: &Env, s: State, node: &Stmt, semi_off: bool)
    ensures
        kept(s, inner_stmt_with(cx, s, node, semi_off)),
    decreases node.size(), 1nat,
{
    lemma_stmt_body(cx, s.with_semi_off(semi_off), node);
}

pub proof fn lemma_inner_stmt(cx: &Env, s: State, node: &Stmt)
    ensures
        kept(s, inner_stmt(cx, s, node)),
    decreases node.size(), 2nat,
{
    lemma_inner_stmt_with(cx, s, node, false);
}

pub proof fn lemma_stmt_with(cx: &Env, s: State, node: &Stmt, semi_off: bool)
    ensures
        kept(s, stmt_with(cx, s, node, semi_off)),
    decreases node.size(), 2nat,
{
    lemma_inner_stmt_with(cx, s, node, semi_off);
}

pub proof fn lemma_stmt(cx: &Env, s: State, node: &Stmt)
    ensures
        kept(s, stmt(cx, s, node)),
    decreases node.size(), 3nat,
{
    lemma_stmt_with(cx, s, node, false);
}

pub proof fn lemma_stmts_from(cx: &Env, s: State, v: Seq<Stmt>, i: int)
    ensures
        kept(s, stmts_from(cx, s, v, i)),
    decreases v.len() - i,
{
    if 0 <= i < v.len() {
        lemma_stmt(cx, s, &v[i]);
        lemma_stmts_from(cx, stmt(cx, s, &v[i]), v, i + 1);
    }
}

pub proof fn lemma_script_from(cx: &Env, s: State, v: Seq<Stmt>, i: int)
    ensures
        kept(s, script_from(cx, s, v, i)),
    decreases v.len() - i,
{
    if 0 <= i < v.len() {
        let semi_off = cx.cfg.omit_last_semicolon && i == v.len() - 1;
        lemma_stmt_with(cx, s, &v[i], semi_off);
        lemma_script_from(cx, stmt_with(cx, s, &v[i], semi_off), v, i + 1);
    }
}

/// Whatever a script writes, the indent depth comes back to where it was,
/// whether or not the writer fails on the way, and no two words become
/// neighbours.
pub proof fn lemma_script(cx: &Env, s: State, v: Seq<Stmt>)
    ensures
        kept(s, script(cx, s, v)),
{
    lemma_script_from(cx, s, v, 0);
}

pub proof fn lemma_module_item_with(cx: &Env, s: State, node: &ModuleItem, semi_off: bool)
    ensures
        kept(s, module_item_with(cx, s, node, semi_off)),
{
    match node {
        ModuleItem::Stmt(x) => lemma_stmt_with(cx, s, x, semi_off),
        ModuleItem::ModuleDecl(x) => lemma_module_decl(cx, s.with_semi_off(semi_off), x),
    }
}

pub proof fn lemma_module_item(cx: &Env, s: State, node: &ModuleItem)
    ensures
        kept(s, module_item(cx, s, node)),
{
    lemma_module_item_with(cx, s, node, false);
}

pub proof fn lemma_module_items_from(cx: &Env, s: State, v: Seq<ModuleItem>, i: int)
    ensures
        kept(s, module_items_from(cx, s, v, i)),
    decreases v.len() - i,
{
    if 0 <= i < v.len() {
        let semi_off = cx.cfg.omit_last_semicolon && i == v.len() - 1;
        lemma_module_item_with(cx, s, &v[i], semi_off);
        lemma_module_items_from(cx, module_item_with(cx, s, &v[i], semi_off), v, i + 1);
    }
}

/// Whatever a module writes, the indent depth comes back to where it was,
/// whether or not the writer fails on the way, and no two words become
/// neighbours.
pub proof fn lemma_module(cx: &Env, s: State, node: &Module)
    ensures
        kept(s, module(cx, s, node)),
{
    lemma_module_items_from(cx, s, node.body@, 0);
}

/// What any node writes keeps the depth and keeps words apart.
pub proof fn lemma_node(cx: &Env, s: State, n: Node)
    ensures
        kept(s, node(cx, s, n)),
{
    match n {
        Node::Module(x) => lemma_module(cx, s, x),
        Node::ModuleItem(x) => lemma_module_item(cx, s, x),
        Node::ModuleDecl(x) => lemma_module_decl(cx, s, x),
        Node::ImportDecl(x) => lemma_import_decl(cx, s, x),
        Node::ImportSpecific(x) => lemma_import_specific(cx, s, x),
        Node::ExportSpecifier(x) => lemma_export_specifier(cx, s, x),
        Node::NamedExport(x) => lemma_named_export(cx, s, x),
        Node::ExportAll(x) => lemma_export_all(cx, s, x),
        Node::ExportDefaultDecl(x) => lemma_export_default_decl(cx, s, x),
        Node::Stmt(x) => lemma_stmt(cx, s, x),
        Node::BlockStmt(x) => lemma_block_stmt(cx, s, x),
        Node::SwitchCase(x) => lemma_switch_case(cx, s, x),
        Node::CatchClause(x) => lemma_catch_clause(cx, s, x),
        Node::Decl(x) => lemma_decl(cx, s, x),
        Node::VarDecl(x) => lemma_var_decl(cx, s, x),
        Node::VarDeclarator(x) => lemma_var_declarator(cx, s, x),
        Node::Expr(x) => lemma_expr(cx, s, x),
        Node::ExprOrSpread(x) => lemma_expr_or_spread(cx, s, x),
        Node::ExprOrSuper(x) => lemma_expr_or_super(cx, s, x),
        Node::Lit(x) => lemma_lit(cx, s, x),
        Node::Str(x) => lemma_str_lit(cx, s, x),
        Node::Number(x) => lemma_num_lit(cx, s, x),
        Node::Ident(x) => lemma_ident(cx, s, x),
        Node::TplElement(x) => lemma_quasi(cx, s, x),
        Node::Prop(x) => lemma_prop(cx, s, x),
        Node::PropOrSpread(x) => lemma_prop_or_spread(cx, s, x),
        Node::PropName(x) => lemma_prop_name(cx, s, x),
        Node::Function(x) => lemma_fn_trailing(cx, s, x),
        Node::Class(x) => lemma_class_trailing(cx, s, x),
        Node::ClassMethod(x) => lemma_class_method(cx, s, x),
        Node::Pat(x) => lemma_pat(cx, s, x),
        Node::ObjectPatProp(x) => lemma_object_pat_prop(cx, s, x),
    }
}

/// Unless the statement goes without, `import_decl` writes a semicolon as the last
/// of its own tokens, in the state `t`.
pub proof fn lemma_import_decl_semicolon(cx: &Env, s: State, node: &ImportDecl) -> (t: State)
    requires
        !s.semi_off,
    ensures
        import_decl(cx, s, node) == leave(cx, t.punct(";"@), node.span),
        !t.wr.failed ==> t.punct(";"@).wr.pieces.last() == (Piece {
            class: TokenClass::Punct,
            text: ";"@,
        }),
{
    reveal(WriterState::token);
    lemma_enter(cx, s, node.span);
    let s = enter(cx, s, node.span);
    let s = s.keyword("import"@);
    let s = match &node.default {
        Some(x) => {
            let s = s.space();
            lemma_ident(cx, s, x);
            ident(cx, s, x)
        },
        None => s,
    };
    lemma_import_names(cx, s, node);
    let s = import_names(cx, s, node);
    lemma_import_from(cx, s, node);
    let s = import_from(cx, s, node);
    let s = s.formatting_space(cx);
    lemma_str_lit(cx, s, &node.src);
    let s = str_lit(cx, s, &node.src);
    s
}

/// Unless the statement goes without, `named_export` writes a semicolon as the last
/// of its own tokens, in the state `t`.
pub proof fn lemma_named_export_semicolon(cx: &Env, s: State, node: &NamedExport) -> (t: State)
    requires
        !s.semi_off,
    ensures
        named_export(cx, s, node) == leave(cx, t.punct(";"@), node.span),
        !t.wr.failed ==> t.punct(";"@).wr.pieces.last() == (Piece {
            class: TokenClass::Punct,
            text: ";"@,
        }),
{
    reveal(WriterState::token);
    lemma_enter(cx, s, node.span);
    let s = enter(cx, s, node.span);
    let s = s.keyword("export"@).formatting_space(cx);
    lemma_list(
        cx,
        s,
        node.span,
        Some(NodeSeq::ExportSpecifiers(node.specifiers@)),
        ListFormat { bits: NAMED_IMPORTS_OR_EXPORTS_ELEMENTS },
    );
    let s = list(
        cx,
        s,
        node.span,
        Some(NodeSeq::ExportSpecifiers(node.specifiers@)),
        ListFormat { bits: NAMED_IMPORTS_OR_EXPORTS_ELEMENTS },
    );
    let s = match &node.src {
        Some(x) => {
            let s = s.space().keyword("from"@);
            lemma_str_lit(cx, s, x);
            str_lit(cx, s, x)
        },
        None => s,
    };
    s
}

/// Unless the statement goes without, `export_all` writes a semicolon as the last
/// of its own tokens, in the state `t`.
pub proof fn lemma_export_all_semicolon(cx: &Env, s: State, node: &ExportAll) -> (t: State)
    requires
        !s.semi_off,
    ensures
        export_all(cx, s, node) == leave(cx, t.punct(";"@), node.span),
        !t.wr.failed ==> t.punct(";"@).wr.pieces.last() == (Piece {
            class: TokenClass::Punct,
            text: ";"@,
        }),
{
    reveal(WriterState::token);
    lemma_enter(cx, s, node.span);
    let s = enter(cx, s, node.span);
    let s = s.keyword("export"@).space().punct("*"@).formatting_space(cx).keyword("from"@).space();
    lemma_str_lit(cx, s, &node.src);
    let s = str_lit(cx, s, &node.src);
    s
}

/// Unless the statement goes without, `debugger_stmt` writes a semicolon as the last
/// of its own tokens, in the state `t`.
pub proof fn lemma_debugger_stmt_semicolon(cx: &Env, s: State, node: &DebuggerStmt) -> (t: State)
    requires
        !s.semi_off,
    ensures
        debugger_stmt(cx, s, node) == leave(cx, t.punct(";"@), node.span),
        !t.wr.failed ==> t.punct(";"@).wr.pieces.last() == (Piece {
            class: TokenClass::Punct,
            text: ";"@,
        }),
{
    reveal(WriterState::token);
    lemma_enter(cx, s, node.span);
    let s = enter(cx, s, node.span);
    let s = s.keyword("debugger"@);
    s
}

/// Unless the statement goes without, `return_stmt` writes a semicolon as the last
/// of its own tokens, in the state `t`.
pub proof fn lemma_return_stmt_semicolon(cx: &Env, s: State, node: &ReturnStmt) -> (t: State)
    requires
        !s.semi_off,
    ensures
        return_stmt(cx, s, node) == leave(cx, t.punct(";"@), node.span),
        !t.wr.failed ==> t.punct(";"@).wr.pieces.last() == (Piece {
            class: TokenClass::Punct,
            text: ";"@,
        }),
{
    reveal(WriterState::token);
    lemma_enter(cx, s, node.span);
    let s = enter(cx, s, node.span);
    let s = s.keyword("return"@);
    let s = match &node.arg {
        Some(x) => {
            let s = s.space();
            lemma_expr(cx, s, &**x);
            expr(cx, s, &**x)
        },
        None => s,
    };
    s
}

/// Unless the statement goes without, `break_stmt` writes a semicolon as the last
/// of its own tokens, in the state `t`.
pub proof fn lemma_break_stmt_semicolon(cx: &Env, s: State, node: &BreakStmt) -> (t: State)
    requires
        !s.semi_off,
    ensures
        break_stmt(cx, s, node) == leave(cx, t.punct(";"@), node.span),
        !t.wr.failed ==> t.punct(";"@).wr.pieces.last() == (Piece {
            class: TokenClass::Punct,
            text: ";"@,
        }),
{
    reveal(WriterState::token);
    lemma_enter(cx, s, node.span);
    let s = enter(cx, s, node.span);
    let s = s.keyword("break"@);
    let s = match &node.label {
        Some(x) => {
            let s = s.space();
            lemma_ident(cx, s, x);
            ident(cx, s, x)
        },
        None => s,
    };
    s
}

/// Unless the statement goes without, `continue_stmt` writes a semicolon as the last
/// of its own tokens, in the state `t`.
pub proof fn lemma_continue_stmt_semicolon(cx: &Env, s: State, node: &ContinueStmt) -> (t: State)
    requires
        !s.semi_off,
    ensures
        continue_stmt(cx, s, node) == leave(cx, t.punct(";"@), node.span),
        !t.wr.failed ==> t.punct(";"@).wr.pieces.last() == (Piece {
            class: TokenClass::Punct,
            text: ";"@,
        }),
{
    reveal(WriterState::token);
    lemma_enter(cx, s, node.span);
    let s = enter(cx, s, node.span);
    let s = s.keyword("continue"@);
    let s = match &node.label {
        Some(x) => {
            let s = s.space();
            lemma_ident(cx, s, x);
            ident(cx, s, x)
        },
        None => s,
    };
    s
}

/// Unless the statement goes without, `throw_stmt` writes a semicolon as the last
/// of its own tokens, in the state `t`.
pub proof fn lemma_throw_stmt_semicolon(cx: &Env, s: State, node: &ThrowStmt) -> (t: State)
    requires
        !s.semi_off,
    ensures
        throw_stmt(cx, s, node) == leave(cx, t.punct(";"@), node.span),
        !t.wr.failed ==> t.punct(";"@).wr.pieces.last() == (Piece {
            class: TokenClass::Punct,
            text: ";"@,
        }),
{
    reveal(WriterState::token);
    lemma_enter(cx, s, node.span);
    let s = enter(cx, s, node.span);
    let s = s.keyword("throw"@).space();
    lemma_expr(cx, s, &*node.arg);
    let s = expr(cx, s, &*node.arg);
    s
}

/// Unless the statement goes without, `do_while_stmt` writes a semicolon as the last
/// of its own tokens, in the state `t`.
pub proof fn lemma_do_while_stmt_semicolon(cx: &Env, s: State, node: &DoWhileStmt) -> (t: State)
    requires
        !s.semi_off,
    ensures
        do_while_stmt(cx, s, node) == leave(cx, t.punct(";"@), node.span),
        !t.wr.failed ==> t.punct(";"@).wr.pieces.last() == (Piece {
            class: TokenClass::Punct,
            text: ";"@,
        }),
{
    reveal(WriterState::token);
    lemma_enter(cx, s, node.span);
    let s = enter(cx, s, node.span);
    let s = s.keyword("do"@).space();
    lemma_inner_stmt(cx, s, &*node.body);
    let s = inner_stmt(cx, s, &*node.body);
    let s = s.formatting_space(cx).keyword("while"@).punct("("@);
    lemma_expr(cx, s, &*node.test);
    let s = expr(cx, s, &*node.test);
    let s = s.punct(")"@);
    s
}

/// The statement is of a kind that ends in a semicolon.
pub open spec fn takes_semicolon(node: &Stmt) -> bool {
    match node {
        Stmt::Expr(_) | Stmt::Debugger(_) | Stmt::Return(_) | Stmt::Break(_) | Stmt::Continue(_)
        | Stmt::Throw(_) | Stmt::DoWhile(_) => true,
        Stmt::Decl(d) => d is Var,
        _ => false,
    }
}

/// What a statement writes after its semicolon: the comments that trail it,
/// where the statement has a span of its own.
pub open spec fn after_semicolon(cx: &Env, t: State, node: &Stmt) -> State {
    match node {
        Stmt::Debugger(x) => leave(cx, t, x.span),
        Stmt::Return(x) => leave(cx, t, x.span),
        Stmt::Break(x) => leave(cx, t, x.span),
        Stmt::Continue(x) => leave(cx, t, x.span),
        Stmt::Throw(x) => leave(cx, t, x.span),
        Stmt::DoWhile(x) => leave(cx, t, x.span),
        _ => t,
    }
}

/// A statement of a kind that ends in a semicolon writes it, in the state
/// `t`, unless it goes without.
pub proof fn lemma_stmt_body_semicolon(cx: &Env, s: State, node: &Stmt) -> (t: State)
    requires
        takes_semicolon(node),
        !s.semi_off,
    ensures
        stmt_body(cx, s, node) == after_semicolon(cx, t.punct(";"@), node),
        !t.wr.failed ==> t.punct(";"@).wr.pieces.last() == (Piece {
            class: TokenClass::Punct,
            text: ";"@,
        }),
{
    reveal(WriterState::token);
    match node {
        Stmt::Expr(x) => {
            lemma_expr(cx, s, &**x);
            expr(cx, s, &**x)
        },
        Stmt::Debugger(x) => lemma_debugger_stmt_semicolon(cx, s, x),
        Stmt::Return(x) => lemma_return_stmt_semicolon(cx, s, x),
        Stmt::Break(x) => lemma_break_stmt_semicolon(cx, s, x),
        Stmt::Continue(x) => lemma_continue_stmt_semicolon(cx, s, x),
        Stmt::Throw(x) => lemma_throw_stmt_semicolon(cx, s, x),
        Stmt::DoWhile(x) => lemma_do_while_stmt_semicolon(cx, s, x),
        Stmt::Decl(d) => match d {
            Decl::Var(x) => {
                lemma_var_decl(cx, s, x);
                var_decl(cx, s, x)
            },
            _ => s,
        },
        _ => s,
    }
}

/// The semicolon is always written, never left to the reader of the text: a
/// statement of a kind that ends in a semicolon writes it wherever it
/// stands, whatever was said of semicolons around it. Only the last
/// statement of a script or module may go without, and only if the
/// configuration says so.
pub proof fn lemma_stmt_semicolon(cx: &Env, s: State, node: &Stmt) -> (t: State)
    requires
        takes_semicolon(node),
    ensures
        inner_stmt(cx, s, node) == after_semicolon(cx, t.punct(";"@), node).with_semi_off(
            s.semi_off,
        ),
        stmt(cx, s, node) == inner_stmt(cx, s, node).line(cx),
        !t.wr.failed ==> t.punct(";"@).wr.pieces.last() == (Piece {
            class: TokenClass::Punct,
            text: ";"@,
        }),
{
    lemma_stmt_body_semicolon(cx, s.with_semi_off(false), node)
}

/// In a script or module that is not to lose its last semicolon, every
/// statement is written as `stmt` writes it: with its semicolon.
pub proof fn lemma_script_keeps_semicolons(cx: &Env, s: State, v: Seq<Stmt>, i: int)
    requires
        !cx.cfg.omit_last_semicolon,
    ensures
        script_from(cx, s, v, i) == stmts_from(cx, s, v, i),
    decreases v.len() - i,
{
    if 0 <= i < v.len() {
        lemma_script_keeps_semicolons(cx, stmt(cx, s, &v[i]), v, i + 1);
    }
}

/// A string literal that was read from the source is written as it stood
/// there: where its span is original and the source map has a text for it,
/// the token that is written holds that text.
pub proof fn lemma_str_lit_preserved(cx: &Env, s: State, node: &Str, text: Seq<char>)
    requires
        !node.span.is_synthesized(),
        cx.cm.spec_span_to_snippet(node.span) == Some(text),
        text.len() > 0,
    ensures
        str_text(cx, node) == text,
        ({
            let before = enter(cx, s, node.span);
            let after = before.str_lit(cx, node.span, text);
            &&& str_lit(cx, s, node) == leave(cx, after, node.span)
            &&& !before.wr.failed ==> after.wr.pieces.last() == (Piece {
                class: TokenClass::Str,
                text,
            })
        }),
{
    reveal(WriterState::token);
}

/// A numeric literal that was read from the source is written as it stood
/// there: where its span is original and the source map has a text for it,
/// the token that is written holds that text.
pub proof fn lemma_num_lit_preserved(cx: &Env, s: State, node: &Number, text: Seq<char>)
    requires
        !node.span.is_synthesized(),
        cx.cm.spec_span_to_snippet(node.span) == Some(text),
        text.len() > 0,
    ensures
        num_digits(cx, node) == Some(text),
        source_text(cx, node.span) == Some(text),
        ({
            let before = enter(cx, s, node.span);
            let after = before.number(cx, node.span, text);
            &&& num_lit(cx, s, node) == leave(cx, after, node.span)
            &&& !before.wr.failed ==> after.wr.pieces.last() == (Piece {
                class: TokenClass::Number,
                text,
            })
        }),
{
    reveal(WriterState::token);
}

} // verus!

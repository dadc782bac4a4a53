use ecma_codegen::ast::{Expr, Ident, Pat, UnaryExpr, UnaryOp};
use ecma_codegen::comments::{Comment, CommentGroup, CommentKind, Comments, find_group};
use ecma_codegen::config::Config;
use ecma_codegen::emitter::{Emitter, Nodes};
use ecma_codegen::list::{COMMA_LIST_ELEMENTS, ListFormat, NO_INTERVENING_COMMENTS, PARENTHESIS};
use ecma_codegen::source::SourceMap;
use ecma_codegen::span::Span;
use ecma_codegen::text_writer::JsWriter;

fn text(e: &Emitter) -> String {
    e.wr.as_str().to_string()
}

fn comment(kind: CommentKind, text: &str) -> Comment {
    Comment { kind, text: text.to_string() }
}

fn group(pos: u32, comments: Vec<Comment>) -> CommentGroup {
    CommentGroup { pos, comments }
}

fn emitter_commented(cfg: Config, comments: Comments) -> Emitter {
    Emitter::new(cfg, SourceMap::new(), comments, JsWriter::new("  ", 0))
}

#[test]
fn leading_block_comment() {
    let comments = Comments {
        leading: vec![group(5, vec![comment(CommentKind::Block, " c ")])],
        trailing: vec![],
    };
    let mut e = emitter_commented(Config::default(), comments);
    let node = Ident { span: Span::new(5, 6), sym: "x".to_string() };
    assert!(e.emit_ident(&node).is_ok());
    assert_eq!(text(&e), "/* c */ x");
}

#[test]
fn leading_line_comment_ends_its_line() {
    let comments = Comments {
        leading: vec![group(5, vec![comment(CommentKind::Line, " c")])],
        trailing: vec![],
    };
    let mut e = emitter_commented(Config { minify: true, ..Config::default() }, comments);
    let node = Ident { span: Span::new(5, 6), sym: "x".to_string() };
    assert!(e.emit_ident(&node).is_ok());
    assert_eq!(text(&e), "// c\nx");
}

#[test]
fn trailing_comments_follow_a_space() {
    let comments = Comments {
        leading: vec![],
        trailing: vec![group(
            6,
            vec![comment(CommentKind::Block, "a"), comment(CommentKind::Line, "b")],
        )],
    };
    let mut e = emitter_commented(Config::default(), comments);
    let node = Ident { span: Span::new(5, 6), sym: "x".to_string() };
    assert!(e.emit_ident(&node).is_ok());
    assert_eq!(text(&e), "x /*a*/  //b\n");
}

#[test]
fn trailing_comments_minified() {
    let comments = Comments {
        leading: vec![],
        trailing: vec![group(6, vec![comment(CommentKind::Block, "a")])],
    };
    let mut e = emitter_commented(Config { minify: true, ..Config::default() }, comments);
    let node = Ident { span: Span::new(5, 6), sym: "x".to_string() };
    assert!(e.emit_ident(&node).is_ok());
    assert_eq!(text(&e), "x/*a*/");
}

#[test]
fn comments_are_written_once() {
    let comments = Comments {
        leading: vec![group(5, vec![comment(CommentKind::Block, "c")])],
        trailing: vec![group(6, vec![comment(CommentKind::Block, "t")])],
    };
    let mut e = emitter_commented(Config::default(), comments);
    assert!(e.emit_leading_comments_of_pos(5).is_ok());
    assert!(e.emit_leading_comments_of_pos(5).is_ok());
    assert!(e.emit_trailing_comments_of_pos(6, false).is_ok());
    assert!(e.emit_trailing_comments_of_pos(6, true).is_ok());
    assert_eq!(text(&e), "/*c*/ /*t*/ ");
    assert!(e.pos_of_leading_comments.contains(&5));
    assert!(e.pos_of_trailing_comments.contains(&6));
}

#[test]
fn nested_nodes_share_no_comment() {
    let comments = Comments {
        leading: vec![group(5, vec![comment(CommentKind::Block, "c")])],
        trailing: vec![],
    };
    let mut e = emitter_commented(Config::default(), comments);
    let inner = Box::new(Expr::Ident(Ident { span: Span::new(5, 6), sym: "x".to_string() }));
    let outer = UnaryExpr { span: Span::new(5, 6), op: UnaryOp::Minus, arg: inner };
    assert!(e.emit_unary_expr(&outer).is_ok());
    assert_eq!(text(&e), "/*c*/ -x");
}

#[test]
fn position_zero_has_no_comments() {
    let comments = Comments {
        leading: vec![group(0, vec![comment(CommentKind::Block, "c")])],
        trailing: vec![group(0, vec![comment(CommentKind::Block, "t")])],
    };
    let mut e = emitter_commented(Config::default(), comments);
    assert!(e.emit_leading_comments_of_pos(0).is_ok());
    assert!(e.emit_trailing_comments_of_pos(0, true).is_ok());
    assert_eq!(text(&e), "");
    assert!(e.pos_of_leading_comments.is_empty());
}

#[test]
fn a_position_without_comments_is_still_remembered() {
    let mut e = emitter_commented(Config::default(), Comments::new());
    assert!(e.emit_leading_comments_of_pos(9).is_ok());
    assert_eq!(text(&e), "");
    assert!(e.pos_of_leading_comments.contains(&9));
    assert!(!e.pos_of_trailing_comments.contains(&9));
}

#[test]
fn the_first_group_of_a_position_wins() {
    let groups = vec![
        group(3, vec![comment(CommentKind::Block, "a")]),
        group(5, vec![comment(CommentKind::Block, "b")]),
        group(3, vec![comment(CommentKind::Block, "c")]),
    ];
    assert_eq!(find_group(&groups, 3), Some(0));
    assert_eq!(find_group(&groups, 5), Some(1));
    assert_eq!(find_group(&groups, 4), None);
    assert_eq!(find_group(&Vec::new(), 3), None);
}

#[test]
fn comments_between_list_children() {
    let comments = Comments {
        leading: vec![group(3, vec![comment(CommentKind::Block, "after a")])],
        trailing: vec![group(6, vec![comment(CommentKind::Block, "b")])],
    };
    let mut e = emitter_commented(Config::default(), comments);
    let a = Pat::Ident(Ident { span: Span { lo: 2, hi: 3, ctxt: 1 }, sym: "a".to_string() });
    let b = Pat::Ident(Ident { span: Span { lo: 5, hi: 6, ctxt: 1 }, sym: "b".to_string() });
    let v = vec![a, b];
    let format = ListFormat::from_bits(COMMA_LIST_ELEMENTS);
    assert!(e.emit_list(Span { lo: 1, hi: 9, ctxt: 1 }, Some(Nodes::Pats(&v)), format).is_ok());
    assert_eq!(text(&e), "a/*after a*/ , /*b*/ b");
}

#[test]
fn no_intervening_comments() {
    let comments = Comments {
        leading: vec![],
        trailing: vec![group(6, vec![comment(CommentKind::Block, "b")])],
    };
    let mut e = emitter_commented(Config::default(), comments);
    let b = Pat::Ident(Ident { span: Span { lo: 5, hi: 6, ctxt: 1 }, sym: "b".to_string() });
    let v = vec![b];
    let format = ListFormat::from_bits(COMMA_LIST_ELEMENTS | NO_INTERVENING_COMMENTS);
    assert!(e.emit_list(Span { lo: 1, hi: 9, ctxt: 1 }, Some(Nodes::Pats(&v)), format).is_ok());
    assert_eq!(text(&e), "b /*b*/ ");
}

#[test]
fn comments_inside_empty_brackets() {
    let comments = Comments {
        leading: vec![group(9, vec![comment(CommentKind::Block, "end")])],
        trailing: vec![group(1, vec![comment(CommentKind::Block, "start")])],
    };
    let mut e = emitter_commented(Config::default(), comments);
    let format = ListFormat::from_bits(PARENTHESIS);
    let v: Vec<Pat> = vec![];
    assert!(e.emit_list(Span::new(1, 9), Some(Nodes::Pats(&v)), format).is_ok());
    assert_eq!(text(&e), "( /*start*/ /*end*/ )");
}

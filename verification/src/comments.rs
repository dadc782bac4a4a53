//! The comments of the source, by the byte position they are attached to.
use vstd::prelude::*;

verus! {

#[derive(Clone, Copy, Debug, PartialEq, Eq, Structural)]
pub enum CommentKind {
    /// `// text`
    Line,
    /// `/* text */`
    Block,
}

/// One comment; `text` is what stands between its delimiters.
#[derive(Debug)]
pub struct Comment {
    pub kind: CommentKind,
    pub text: String,
}

/// The comments attached to one position, in source order.
#[derive(Debug)]
pub struct CommentGroup {
    pub pos: u32,
    pub comments: Vec<Comment>,
}

/// The comments that lead and that trail each position.
#[derive(Debug)]
pub struct Comments {
    pub leading: Vec<CommentGroup>,
    pub trailing: Vec<CommentGroup>,
}

/// The first group from `i` on that is attached to `pos`.
pub open spec fn group_from(groups: Seq<CommentGroup>, pos: u32, i: int) -> Option<int>
    decreases groups.len() - i,
{
    if i < 0 || i >= groups.len() {
        None
    } else if groups[i].pos == pos {
        Some(i)
    } else {
        group_from(groups, pos, i + 1)
    }
}

/// The comments of the first group attached to `pos`; none where there is no
/// such group.
pub open spec fn comments_at(groups: Seq<CommentGroup>, pos: u32) -> Seq<Comment> {
    match group_from(groups, pos, 0) {
        Some(k) => groups[k].comments@,
        None => Seq::empty(),
    }
}

/// The index of the first group attached to `pos`.
pub fn find_group(groups: &Vec<CommentGroup>, pos: u32) -> (r: Option<usize>)
    ensures
        r is Some <==> group_from(groups@, pos, 0) is Some,
        r matches Some(k) ==> k < groups@.len() && group_from(groups@, pos, 0) == Some(k as int),
{
    let mut i: usize = 0;
    while i < groups.len()
        invariant
            i <= groups@.len(),
            group_from(groups@, pos, i as int) == group_from(groups@, pos, 0),
        decreases groups@.len() - i,
    {
        if groups[i].pos == pos {
            return Some(i);
        }
        i += 1;
    }
    None
}

impl Comments {
    pub fn new() -> (r: Comments)
        ensures
            r.leading@.len() == 0,
            r.trailing@.len() == 0,
    {
        Comments { leading: Vec::new(), trailing: Vec::new() }
    }

    /// The comments that lead `pos`.
    pub open spec fn leading_at(&self, pos: u32) -> Seq<Comment> {
        comments_at(self.leading@, pos)
    }

    /// The comments that trail `pos`.
    pub open spec fn trailing_at(&self, pos: u32) -> Seq<Comment> {
        comments_at(self.trailing@, pos)
    }
}

} // verus!

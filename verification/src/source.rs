//! The original source text, by byte position: what a span covered, and on
//! which line a position lies.
use vstd::prelude::*;
use vstd::string::*;
use vstd::utf8::*;
use crate::list::{ListFormat, LINES_MASK};
use crate::span::Span;

verus! {

/// One source text, placed at `start_pos` in the space of byte positions.
pub struct SourceFile {
    pub start_pos: u32,
    pub src: String,
}

/// The source texts that spans point into. Position `0` belongs to no file.
pub struct SourceMap {
    pub files: Vec<SourceFile>,
}

/// How many of the first `n` bytes are line feeds.
pub open spec fn line_feeds(bytes: Seq<u8>, n: int) -> nat
    decreases n,
{
    if n <= 0 {
        0
    } else {
        line_feeds(bytes, n - 1) + if bytes[n - 1] == 10u8 {
            1nat
        } else {
            0nat
        }
    }
}

impl SourceFile {
    pub open spec fn bytes(&self) -> Seq<u8> {
        encode_utf8(self.src@)
    }

    /// The position lies in this text or at its end.
    pub open spec fn spec_contains(&self, pos: u32) -> bool {
        self.start_pos <= pos && pos - self.start_pos <= self.bytes().len()
    }

    #[verifier::when_used_as_spec(spec_contains)]
    pub fn contains(&self, pos: u32) -> (r: bool)
        ensures
            r == self.spec_contains(pos),
    {
        self.start_pos <= pos && (pos - self.start_pos) as usize <= self.src.as_str().as_bytes().len()
    }

    /// The text between two positions of this file that both fall between
    /// characters.
    pub open spec fn spec_snippet(&self, lo: u32, hi: u32) -> Option<Seq<char>> {
        let a = lo - self.start_pos;
        let b = hi - self.start_pos;
        if self.spec_contains(lo) && self.spec_contains(hi) && lo <= hi && is_char_boundary(
            self.bytes(),
            a,
        ) && is_char_boundary(self.bytes(), b) {
            Some(decode_utf8(self.bytes().subrange(a, b)))
        } else {
            None
        }
    }

    pub fn snippet(&self, lo: u32, hi: u32) -> (r: Option<String>)
        ensures
            r is Some <==> self.spec_snippet(lo, hi) is Some,
            r matches Some(t) ==> Some(t@) == self.spec_snippet(lo, hi),
    {
        if !(self.contains(lo) && self.contains(hi) && lo <= hi) {
            return None;
        }
        let s = self.src.as_str();
        let a = (lo - self.start_pos) as usize;
        let b = (hi - self.start_pos) as usize;
        if !(s.is_char_boundary(a) && s.is_char_boundary(b)) {
            return None;
        }
        let ghost bytes = self.bytes();
        proof {
            broadcast use
                encode_utf8_valid_utf8,
                valid_utf8_split,
                is_char_boundary_start_end_of_seq,
                is_char_boundary_iff_not_is_continuation_byte,
            ;

            let head = bytes.subrange(0, b as int);
            assert(valid_utf8(head));
            if a < b {
                assert(head[a as int] == bytes[a as int]);
                assert(is_char_boundary(bytes, a as int) <==> !is_continuation_byte(
                    bytes[a as int],
                ));
                assert(is_char_boundary(head, a as int) <==> !is_continuation_byte(
                    head[a as int],
                ));
            } else {
                assert(is_char_boundary(head, head.len() as int));
            }
        }
        let (head, _) = s.split_at(b);
        let (_, mid) = head.split_at(a);
        proof {
            broadcast use encode_utf8_decode_utf8;

            assert(mid.spec_bytes() =~= bytes.subrange(a as int, b as int));
            assert(decode_utf8(encode_utf8(mid@)) == mid@);
        }
        Some(mid.to_owned())
    }

    /// The line of a position of this file, counted from zero.
    pub open spec fn spec_line_of(&self, pos: u32) -> nat {
        line_feeds(self.bytes(), pos - self.start_pos)
    }

    pub fn line_of(&self, pos: u32) -> (r: usize)
        requires
            self.contains(pos),
        ensures
            r == self.spec_line_of(pos),
    {
        let bytes = self.src.as_str().as_bytes();
        let n = (pos - self.start_pos) as usize;
        let mut count: usize = 0;
        let mut i: usize = 0;
        while i < n
            invariant
                i <= n <= bytes@.len(),
                bytes@ == self.bytes(),
                count == line_feeds(bytes@, i as int),
                count <= i,
            decreases n - i,
        {
            if bytes[i] == 10u8 {
                count += 1;
            }
            i += 1;
        }
        count
    }
}

/// A position in one of the files.
pub struct Place {
    /// Which file.
    pub file: nat,
    /// Which line of it, counted from zero.
    pub line: nat,
}

impl SourceMap {
    pub fn new() -> (r: SourceMap)
        ensures
            r.files@.len() == 0,
    {
        SourceMap { files: Vec::new() }
    }

    /// The first file from `i` on that holds `pos`.
    pub open spec fn file_from(&self, pos: u32, i: int) -> Option<int>
        decreases self.files@.len() - i,
    {
        if i < 0 || i >= self.files@.len() {
            None
        } else if self.files@[i].spec_contains(pos) {
            Some(i)
        } else {
            self.file_from(pos, i + 1)
        }
    }

    /// The first file that holds `pos`; none holds position `0`.
    pub open spec fn spec_file_of(&self, pos: u32) -> Option<int> {
        if pos == 0 {
            None
        } else {
            self.file_from(pos, 0)
        }
    }

    pub fn file_of(&self, pos: u32) -> (r: Option<usize>)
        ensures
            r is Some <==> self.spec_file_of(pos) is Some,
            r matches Some(k) ==> self.spec_file_of(pos) == Some(k as int) && k
                < self.files@.len() && self.files@[k as int].spec_contains(pos),
    {
        if pos == 0 {
            return None;
        }
        let mut i: usize = 0;
        while i < self.files.len()
            invariant
                pos != 0,
                i <= self.files@.len(),
                self.file_from(pos, i as int) == self.file_from(pos, 0),
            decreases self.files@.len() - i,
        {
            if self.files[i].contains(pos) {
                return Some(i);
            }
            i += 1;
        }
        None
    }

    /// The source text of a span that lies within one file; nothing for a
    /// span that is ill-formed, leaves its file or cuts a character.
    pub open spec fn spec_span_to_snippet(&self, span: Span) -> Option<Seq<char>> {
        match self.spec_file_of(span.lo) {
            Some(k) => self.files@[k].spec_snippet(span.lo, span.hi),
            None => None,
        }
    }

    pub fn span_to_snippet(&self, span: Span) -> (r: Option<String>)
        ensures
            r is Some <==> self.spec_span_to_snippet(span) is Some,
            r matches Some(t) ==> Some(t@) == self.spec_span_to_snippet(span),
    {
        match self.file_of(span.lo) {
            Some(k) => self.files[k].snippet(span.lo, span.hi),
            None => None,
        }
    }

    /// The file and line of a position.
    pub open spec fn spec_lookup(&self, pos: u32) -> Option<Place> {
        match self.spec_file_of(pos) {
            Some(k) => Some(Place { file: k as nat, line: self.files@[k].spec_line_of(pos) }),
            None => None,
        }
    }

    /// Both positions are known, in one file and on one line.
    pub open spec fn spec_is_on_same_line(&self, lo: u32, hi: u32) -> bool {
        self.spec_lookup(lo) is Some && self.spec_lookup(lo) == self.spec_lookup(hi)
    }

    #[verifier::when_used_as_spec(spec_is_on_same_line)]
    pub fn is_on_same_line(&self, lo: u32, hi: u32) -> (r: bool)
        ensures
            r == self.spec_is_on_same_line(lo, hi),
    {
        match self.file_of(lo) {
            Some(a) => match self.file_of(hi) {
                Some(b) => a == b && self.files[a].line_of(lo) == self.files[b].line_of(hi),
                None => false,
            },
            None => false,
        }
    }

    /// Both spans are original and the two positions are known to the map:
    /// then the lines of the source decide where a line break goes.
    pub open spec fn spec_lines_known(&self, a: Span, pa: u32, b: Span, pb: u32) -> bool {
        !a.is_synthesized() && !b.is_synthesized() && self.spec_file_of(pa) is Some
            && self.spec_file_of(pb) is Some
    }

    #[verifier::when_used_as_spec(spec_lines_known)]
    pub fn lines_known(&self, a: Span, pa: u32, b: Span, pb: u32) -> (r: bool)
        ensures
            r == self.spec_lines_known(a, pa, b, pb),
    {
        !a.is_synthesized() && !b.is_synthesized() && self.file_of(pa).is_some() && self.file_of(
            pb,
        ).is_some()
    }

    /// Whether a line break goes between the opening of a list and its first
    /// child: where the source is known, if the child began on a later line
    /// than its parent; otherwise if the format asks for lines.
    pub open spec fn spec_should_write_leading_line_terminator(
        &self,
        parent: Span,
        first: Span,
        format: ListFormat,
    ) -> bool {
        if self.spec_lines_known(parent, parent.lo, first, first.lo) {
            !self.spec_is_on_same_line(parent.lo, first.lo)
        } else {
            format.intersects(LINES_MASK)
        }
    }

    #[verifier::when_used_as_spec(spec_should_write_leading_line_terminator)]
    pub fn should_write_leading_line_terminator(
        &self,
        parent: Span,
        first: Span,
        format: ListFormat,
    ) -> (r: bool)
        ensures
            r == self.spec_should_write_leading_line_terminator(parent, first, format),
    {
        if self.lines_known(parent, parent.lo, first, first.lo) {
            !self.is_on_same_line(parent.lo, first.lo)
        } else {
            format.intersects(LINES_MASK)
        }
    }

    /// Whether a line break goes between two children: where the source is
    /// known, if the second began on a later line than the first ended;
    /// otherwise if the format asks for lines.
    pub open spec fn spec_should_write_separating_line_terminator(
        &self,
        prev: Span,
        next: Span,
        format: ListFormat,
    ) -> bool {
        if self.spec_lines_known(prev, prev.hi, next, next.lo) {
            !self.spec_is_on_same_line(prev.hi, next.lo)
        } else {
            format.intersects(LINES_MASK)
        }
    }

    #[verifier::when_used_as_spec(spec_should_write_separating_line_terminator)]
    pub fn should_write_separating_line_terminator(
        &self,
        prev: Span,
        next: Span,
        format: ListFormat,
    ) -> (r: bool)
        ensures
            r == self.spec_should_write_separating_line_terminator(prev, next, format),
    {
        if self.lines_known(prev, prev.hi, next, next.lo) {
            !self.is_on_same_line(prev.hi, next.lo)
        } else {
            format.intersects(LINES_MASK)
        }
    }

    /// Whether a line break goes between the last child of a list and its
    /// closing: where the source is known, if the parent ended on a later
    /// line than the child; otherwise if the format asks for lines.
    pub open spec fn spec_should_write_closing_line_terminator(
        &self,
        parent: Span,
        last: Span,
        format: ListFormat,
    ) -> bool {
        if self.spec_lines_known(parent, parent.hi, last, last.hi) {
            !self.spec_is_on_same_line(last.hi, parent.hi)
        } else {
            format.intersects(LINES_MASK)
        }
    }

    #[verifier::when_used_as_spec(spec_should_write_closing_line_terminator)]
    pub fn should_write_closing_line_terminator(
        &self,
        parent: Span,
        last: Span,
        format: ListFormat,
    ) -> (r: bool)
        ensures
            r == self.spec_should_write_closing_line_terminator(parent, last, format),
    {
        if self.lines_known(parent, parent.hi, last, last.hi) {
            !self.is_on_same_line(last.hi, parent.hi)
        } else {
            format.intersects(LINES_MASK)
        }
    }
}

} // verus!

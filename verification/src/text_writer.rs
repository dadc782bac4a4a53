//! The text writer: a buffer that knows the class of what it wrote last, so
//! that two words never run together, and that indents each line on demand.
use vstd::prelude::*;
use vstd::utf8::encode_utf8;

verus! {

/// The lexical class of a piece of output.
#[derive(Clone, Copy, Debug, PartialEq, Eq, Structural)]
pub enum TokenClass {
    /// Indentation or a space.
    Blank,
    Keyword,
    Punct,
    Ident,
    Number,
    Str,
    Operator,
    Regex,
    /// A line terminator. An empty output counts as one: it is a line start.
    Line,
}

impl TokenClass {
    /// Keywords, identifiers and numbers are words: two of them in a row
    /// would read as one.
    pub open spec fn spec_is_word(&self) -> bool {
        *self == TokenClass::Keyword || *self == TokenClass::Ident || *self == TokenClass::Number
    }

    #[verifier::when_used_as_spec(spec_is_word)]
    pub fn is_word(&self) -> (r: bool)
        ensures
            r == self.spec_is_word(),
    {
        match self {
            TokenClass::Keyword | TokenClass::Ident | TokenClass::Number => true,
            _ => false,
        }
    }
}

/// One piece of the output, as it was written.
pub struct Piece {
    pub class: TokenClass,
    pub text: Seq<char>,
}

/// Where a token of the source went: the token that began at byte `src` of
/// the source begins at byte `dst` of the output.
#[derive(Clone, Copy, Debug, PartialEq, Eq, Structural)]
pub struct Mark {
    pub src: u32,
    pub dst: usize,
}

/// Why nothing more is written.
#[derive(Clone, Copy, Debug, PartialEq, Eq, Structural)]
pub enum SinkError {
    /// The indent depth would have passed `u32::MAX`.
    IndentOverflow,
}

/// The text of a sequence of pieces, in order.
pub open spec fn flatten(pieces: Seq<Piece>) -> Seq<char>
    decreases pieces.len(),
{
    if pieces.len() == 0 {
        Seq::empty()
    } else {
        flatten(pieces.drop_last()) + pieces.last().text
    }
}

/// `unit` written `n` times.
pub open spec fn repeat(unit: Seq<char>, n: nat) -> Seq<char>
    decreases n,
{
    if n == 0 {
        Seq::empty()
    } else {
        repeat(unit, (n - 1) as nat) + unit
    }
}

/// Nothing, however often, is nothing.
pub proof fn lemma_repeat_empty(unit: Seq<char>, n: nat)
    requires
        unit.len() == 0,
    ensures
        repeat(unit, n) =~= Seq::empty(),
    decreases n,
{
    if n > 0 {
        lemma_repeat_empty(unit, (n - 1) as nat);
    }
}

/// The pieces at `i` and after it are not both words, and if the second is
/// blank and the first no line break, the second is one space.
pub open spec fn apart_at(pieces: Seq<Piece>, i: int) -> bool {
    &&& !(pieces[i].class.is_word() && pieces[i + 1].class.is_word())
    &&& pieces[i + 1].class == TokenClass::Blank && pieces[i].class != TokenClass::Line
        ==> pieces[i + 1].text == " "@
}

/// No two words are neighbours, and only the indentation of a line may be an
/// empty blank.
pub open spec fn well_spaced(pieces: Seq<Piece>) -> bool {
    forall|i: int| 0 <= i < pieces.len() - 1 ==> #[trigger] apart_at(pieces, i)
}

/// Whether a token of class `next` that starts with `first` must stand off
/// from a piece of class `prev` that ended with `last`: a word after a word,
/// and an operator after an operator that ends as it begins.
pub open spec fn needs_space(
    prev: TokenClass,
    last: Option<char>,
    next: TokenClass,
    first: Option<char>,
) -> bool {
    ||| prev.is_word() && next.is_word()
    ||| prev == TokenClass::Operator && next == TokenClass::Operator && last is Some && last
        == first
}

pub open spec fn first_char(text: Seq<char>) -> Option<char> {
    if text.len() > 0 {
        Some(text[0])
    } else {
        None
    }
}

pub open spec fn last_char(text: Seq<char>) -> Option<char> {
    if text.len() > 0 {
        Some(text.last())
    } else {
        None
    }
}

/// What a writer holds, as a value.
pub struct WriterState {
    /// Everything written so far.
    pub pieces: Seq<Piece>,
    /// The depth in indent stops.
    pub indent: nat,
    /// The text of one indent stop.
    pub unit: Seq<char>,
    /// Where the tokens that came with a source position went.
    pub marks: Seq<Mark>,
    /// Set by the first error. Nothing is written after that and the depth
    /// goes no deeper; it still comes back from where it was.
    pub failed: bool,
}

impl WriterState {
    pub open spec fn text(self) -> Seq<char> {
        flatten(self.pieces)
    }

    pub open spec fn last_class(self) -> TokenClass {
        if self.pieces.len() == 0 {
            TokenClass::Line
        } else {
            self.pieces.last().class
        }
    }

    pub open spec fn last_char(self) -> Option<char> {
        if self.pieces.len() == 0 {
            None
        } else {
            last_char(self.pieces.last().text)
        }
    }

    /// The next write is the first on its line.
    pub open spec fn line_start(self) -> bool {
        self.last_class() == TokenClass::Line
    }

    pub open spec fn push(self, class: TokenClass, text: Seq<char>) -> WriterState {
        WriterState { pieces: self.pieces.push(Piece { class, text }), ..self }
    }

    /// The indentation that is due at a line start.
    pub open spec fn indented(self) -> WriterState {
        if self.line_start() {
            self.push(TokenClass::Blank, repeat(self.unit, self.indent))
        } else {
            self
        }
    }

    /// The separator that is due before a token of class `class`.
    pub open spec fn separated(self, class: TokenClass, text: Seq<char>) -> WriterState {
        if needs_space(self.last_class(), self.last_char(), class, first_char(text)) {
            self.push(TokenClass::Blank, " "@)
        } else {
            self
        }
    }

    /// The length of the output in bytes.
    pub open spec fn byte_len(self) -> usize {
        encode_utf8(self.text()).len() as usize
    }

    /// A mark for the token that comes next, if it has a source position.
    pub open spec fn marked(self, src: Option<u32>) -> WriterState {
        match src {
            Some(p) => WriterState {
                marks: self.marks.push(Mark { src: p, dst: self.byte_len() }),
                ..self
            },
            None => self,
        }
    }

    /// A token: indentation if the line starts here, a space if the previous
    /// piece calls for one, a mark if the token has a source position, then
    /// the text.
    #[verifier::opaque]
    pub open spec fn token(self, class: TokenClass, src: Option<u32>, text: Seq<char>) -> WriterState {
        if self.failed {
            self
        } else {
            self.indented().separated(class, text).marked(src).push(class, text)
        }
    }

    pub open spec fn keyword(self, src: Option<u32>, text: Seq<char>) -> WriterState {
        self.token(TokenClass::Keyword, src, text)
    }

    pub open spec fn punct(self, text: Seq<char>) -> WriterState {
        self.token(TokenClass::Punct, None, text)
    }

    pub open spec fn operator(self, text: Seq<char>) -> WriterState {
        self.token(TokenClass::Operator, None, text)
    }

    pub open spec fn symbol(self, src: Option<u32>, text: Seq<char>) -> WriterState {
        self.token(TokenClass::Ident, src, text)
    }

    pub open spec fn number(self, src: Option<u32>, text: Seq<char>) -> WriterState {
        self.token(TokenClass::Number, src, text)
    }

    pub open spec fn str_lit(self, src: Option<u32>, text: Seq<char>) -> WriterState {
        self.token(TokenClass::Str, src, text)
    }

    pub open spec fn regex(self, text: Seq<char>) -> WriterState {
        self.token(TokenClass::Regex, None, text)
    }

    /// One space, after the indentation if the line starts here.
    #[verifier::opaque]
    pub open spec fn space(self) -> WriterState {
        if self.failed {
            self
        } else {
            self.indented().push(TokenClass::Blank, " "@)
        }
    }

    /// A line terminator.
    #[verifier::opaque]
    pub open spec fn line(self) -> WriterState {
        if self.failed {
            self
        } else {
            self.push(TokenClass::Line, "\n"@)
        }
    }

    /// The depth can go one stop deeper: the writer has not failed and the
    /// counter has room.
    pub open spec fn deepens(self) -> bool {
        !self.failed && self.indent < u32::MAX
    }

    /// One stop deeper; an error at `u32::MAX`, and nothing after an error.
    pub open spec fn increase_indent(self) -> WriterState {
        if self.failed {
            self
        } else if self.indent >= u32::MAX {
            WriterState { failed: true, ..self }
        } else {
            WriterState { indent: self.indent + 1, ..self }
        }
    }

    /// One stop back, whether or not the writer has failed.
    pub open spec fn decrease_indent(self) -> WriterState {
        if self.indent == 0 {
            self
        } else {
            WriterState { indent: (self.indent - 1) as nat, ..self }
        }
    }
}

/// Whatever is written, no two words become neighbours: a token, a space and
/// a line break each keep apart what was apart.
pub proof fn lemma_writing_keeps_words_apart(
    s: WriterState,
    class: TokenClass,
    src: Option<u32>,
    text: Seq<char>,
)
    requires
        well_spaced(s.pieces),
        class != TokenClass::Blank,
    ensures
        well_spaced(s.token(class, src, text).pieces),
        well_spaced(s.space().pieces),
        well_spaced(s.line().pieces),
{
    reveal(WriterState::token);
    reveal(WriterState::space);
    reveal(WriterState::line);
    let blank = Piece { class: TokenClass::Blank, text: repeat(s.unit, s.indent) };
    let space = Piece { class: TokenClass::Blank, text: " "@ };
    let a = s.indented();
    assert(well_spaced(a.pieces)) by {
        if s.line_start() {
            lemma_push_well_spaced(s.pieces, blank);
        }
    }
    let b = a.separated(class, text);
    assert(well_spaced(b.pieces)) by {
        lemma_push_well_spaced(a.pieces, space);
    }
    lemma_push_well_spaced(b.marked(src).pieces, Piece { class, text });
    lemma_push_well_spaced(a.pieces, space);
    lemma_push_well_spaced(s.pieces, Piece { class: TokenClass::Line, text: "\n"@ });
}

/// What a token adds to the text: at a line start the indentation, elsewhere
/// a space where the previous piece calls for one, then the token itself.
pub proof fn lemma_token_text(s: WriterState, class: TokenClass, src: Option<u32>, text: Seq<char>)
    requires
        !s.failed,
    ensures
        s.token(class, src, text).text() == s.text() + (if s.line_start() {
            repeat(s.unit, s.indent)
        } else if needs_space(s.last_class(), s.last_char(), class, first_char(text)) {
            " "@
        } else {
            Seq::empty()
        }) + text,
{
    reveal(WriterState::token);
    let a = s.indented();
    let b = a.separated(class, text);
    let c = b.marked(src);
    if s.line_start() {
        lemma_flatten_push(s.pieces, Piece { class: TokenClass::Blank, text: repeat(s.unit, s.indent) });
        assert(b == a);
    } else if needs_space(s.last_class(), s.last_char(), class, first_char(text)) {
        lemma_flatten_push(a.pieces, Piece { class: TokenClass::Blank, text: " "@ });
    } else {
        assert(s.text() + Seq::<char>::empty() =~= s.text());
    }
    lemma_flatten_push(c.pieces, Piece { class, text });
}

/// Writing text changes neither the depth nor whether the writer has failed.
pub broadcast proof fn lemma_token_keeps_depth(
    s: WriterState,
    class: TokenClass,
    src: Option<u32>,
    text: Seq<char>,
)
    ensures
        (#[trigger] s.token(class, src, text)).indent == s.indent,
        s.token(class, src, text).failed == s.failed,
        s.token(class, src, text).unit == s.unit,
{
    reveal(WriterState::token);
}

pub broadcast proof fn lemma_space_keeps_depth(s: WriterState)
    ensures
        (#[trigger] s.space()).indent == s.indent,
        s.space().failed == s.failed,
        s.space().unit == s.unit,
{
    reveal(WriterState::space);
}

pub broadcast proof fn lemma_line_keeps_depth(s: WriterState)
    ensures
        (#[trigger] s.line()).indent == s.indent,
        s.line().failed == s.failed,
        s.line().unit == s.unit,
{
    reveal(WriterState::line);
}

pub broadcast group group_keeps_depth {
    lemma_token_keeps_depth,
    lemma_space_keeps_depth,
    lemma_line_keeps_depth,
}

pub broadcast proof fn lemma_token_keeps_words_apart(
    s: WriterState,
    class: TokenClass,
    src: Option<u32>,
    text: Seq<char>,
)
    requires
        well_spaced(s.pieces),
        class != TokenClass::Blank,
    ensures
        well_spaced((#[trigger] s.token(class, src, text)).pieces),
{
    lemma_writing_keeps_words_apart(s, class, src, text);
}

pub broadcast proof fn lemma_space_keeps_words_apart(s: WriterState)
    requires
        well_spaced(s.pieces),
    ensures
        well_spaced((#[trigger] s.space()).pieces),
{
    lemma_writing_keeps_words_apart(s, TokenClass::Punct, None, Seq::empty());
}

pub broadcast proof fn lemma_line_keeps_words_apart(s: WriterState)
    requires
        well_spaced(s.pieces),
    ensures
        well_spaced((#[trigger] s.line()).pieces),
{
    lemma_writing_keeps_words_apart(s, TokenClass::Punct, None, Seq::empty());
}

pub broadcast group group_keeps_words_apart {
    lemma_token_keeps_words_apart,
    lemma_space_keeps_words_apart,
    lemma_line_keeps_words_apart,
}

/// In whatever a writer has written, no two words are neighbours: between a
/// keyword, an identifier or a number and the next one stands a piece of
/// another class.
pub proof fn lemma_no_adjacent_words(w: &JsWriter, i: int)
    requires
        w.wf(),
        0 <= i < w@.pieces.len() - 1,
    ensures
        !(w@.pieces[i].class.is_word() && w@.pieces[i + 1].class.is_word()),
{
    assert(apart_at(w@.pieces, i));
}

/// Between a word and the next stands a character: a blank that follows a
/// word is a space, never empty.
pub proof fn lemma_blank_after_word(w: &JsWriter, i: int)
    requires
        w.wf(),
        0 <= i < w@.pieces.len() - 1,
        w@.pieces[i].class.is_word(),
        w@.pieces[i + 1].class == TokenClass::Blank,
    ensures
        w@.pieces[i + 1].text == " "@,
        w@.pieces[i + 1].text.len() == 1,
{
    assert(apart_at(w@.pieces, i));
    reveal_strlit(" ");
}

/// A piece may follow where it or its predecessor is no word, and where it is
/// a space if it is blank and follows anything but a line break.
pub proof fn lemma_push_well_spaced(pieces: Seq<Piece>, p: Piece)
    requires
        well_spaced(pieces),
        pieces.len() > 0 ==> !(pieces.last().class.is_word() && p.class.is_word()),
        pieces.len() > 0 && p.class == TokenClass::Blank && pieces.last().class
            != TokenClass::Line ==> p.text == " "@,
    ensures
        well_spaced(pieces.push(p)),
{
    let q = pieces.push(p);
    assert forall|i: int| 0 <= i < q.len() - 1 implies #[trigger] apart_at(q, i) by {
        if i < pieces.len() - 1 {
            assert(apart_at(pieces, i));
        }
    }
}

pub proof fn lemma_flatten_push(pieces: Seq<Piece>, p: Piece)
    ensures
        flatten(pieces.push(p)) == flatten(pieces) + p.text,
{
    assert(pieces.push(p).drop_last() =~= pieces);
}

/// A writer into memory.
pub struct JsWriter {
    buf: String,
    unit: String,
    indent: u32,
    last: TokenClass,
    last_char: Option<char>,
    marks: Vec<Mark>,
    error: Option<SinkError>,
    log: Ghost<Seq<Piece>>,
}

impl View for JsWriter {
    type V = WriterState;

    closed spec fn view(&self) -> WriterState {
        WriterState {
            pieces: self.log@,
            indent: self.indent as nat,
            unit: self.unit@,
            marks: self.marks@,
            failed: self.error is Some,
        }
    }
}

impl JsWriter {
    /// The buffer holds the pieces, the cached class and character are those
    /// of the last piece, and no two words are neighbours.
    pub closed spec fn wf(&self) -> bool {
        &&& self.buf@ == flatten(self.log@)
        &&& self.last == self@.last_class()
        &&& self.last == TokenClass::Operator ==> self.last_char == self@.last_char()
        &&& well_spaced(self.log@)
    }

    /// An empty writer at depth `indent`, whose stops are `unit` wide.
    pub fn new(unit: &str, indent: u32) -> (w: JsWriter)
        ensures
            w.wf(),
            w@ == (WriterState {
                pieces: Seq::empty(),
                indent: indent as nat,
                unit: unit@,
                marks: Seq::empty(),
                failed: false,
            }),
    {
        JsWriter {
            buf: String::new(),
            unit: unit.to_owned(),
            indent,
            last: TokenClass::Line,
            last_char: None,
            marks: Vec::new(),
            error: None,
            log: Ghost(Seq::empty()),
        }
    }

    /// The text written so far.
    pub fn as_str(&self) -> (r: &str)
        requires
            self.wf(),
        ensures
            r@ == self@.text(),
    {
        self.buf.as_str()
    }

    /// The first error, if there was one.
    pub fn status(&self) -> (r: Result<(), SinkError>)
        ensures
            r is Err <==> self@.failed,
            r matches Err(e) ==> e == SinkError::IndentOverflow,
    {
        match self.error {
            Some(e) => Err(e),
            None => Ok(()),
        }
    }

    /// Where the tokens that came with a source position went, in the order
    /// they were written.
    pub fn marks(&self) -> (r: &Vec<Mark>)
        ensures
            r@ == self@.marks,
    {
        &self.marks
    }

    pub fn indent(&self) -> (r: u32)
        ensures
            r == self@.indent,
    {
        self.indent
    }

    fn push_raw(&mut self, class: TokenClass, text: &str)
        requires
            old(self).wf(),
            !old(self)@.failed,
            old(self)@.pieces.len() > 0 ==> !(old(self)@.last_class().is_word()
                && class.is_word()),
            old(self)@.pieces.len() > 0 && class == TokenClass::Blank && old(self)@.last_class()
                != TokenClass::Line ==> text@ == " "@,
        ensures
            final(self).wf(),
            final(self)@ == old(self)@.push(class, text@),
    {
        let ghost piece = Piece { class, text: text@ };
        proof {
            lemma_flatten_push(self.log@, piece);
            lemma_push_well_spaced(self.log@, piece);
        }
        self.buf.append(text);
        self.last = class;
        self.last_char = None;
        if class == TokenClass::Operator {
            let n = text.unicode_len();
            if n > 0 {
                self.last_char = Some(text.get_char(n - 1));
            }
        }
        self.log = Ghost(self.log@.push(piece));
    }

    fn write_indent(&mut self)
        requires
            old(self).wf(),
            !old(self)@.failed,
        ensures
            final(self).wf(),
            final(self)@ == old(self)@.indented(),
    {
        if self.last == TokenClass::Line {
            let mut pad = String::new();
            if self.unit.as_str().is_empty() {
                proof {
                    lemma_repeat_empty(self.unit@, self.indent as nat);
                }
            } else {
                let mut i: u32 = 0;
                while i < self.indent
                    invariant
                        i <= self.indent,
                        pad@ == repeat(self.unit@, i as nat),
                    decreases self.indent - i,
                {
                    pad.append(self.unit.as_str());
                    i += 1;
                }
            }
            self.push_raw(TokenClass::Blank, pad.as_str());
        }
    }

    fn write_token(&mut self, class: TokenClass, src: Option<u32>, text: &str)
        requires
            old(self).wf(),
            class != TokenClass::Blank,
        ensures
            final(self).wf(),
            final(self)@ == old(self)@.token(class, src, text@),
    {
        reveal(WriterState::token);
        if self.error.is_some() {
            return ;
        }
        self.write_indent();
        let mut gap = self.last.is_word() && class.is_word();
        if self.last == TokenClass::Operator && class == TokenClass::Operator
            && text.unicode_len() > 0 {
            let c = text.get_char(0);
            gap = match self.last_char {
                Some(l) => l == c,
                None => false,
            };
        }
        if gap {
            self.push_raw(TokenClass::Blank, " ");
        }
        if let Some(p) = src {
            self.marks.push(Mark { src: p, dst: self.buf.as_str().len() });
        }
        self.push_raw(class, text);
    }

    pub fn write_keyword(&mut self, src: Option<u32>, text: &str)
        requires
            old(self).wf(),
        ensures
            final(self).wf(),
            final(self)@ == old(self)@.keyword(src, text@),
    {
        self.write_token(TokenClass::Keyword, src, text)
    }

    pub fn write_punct(&mut self, text: &str)
        requires
            old(self).wf(),
        ensures
            final(self).wf(),
            final(self)@ == old(self)@.punct(text@),
    {
        self.write_token(TokenClass::Punct, None, text)
    }

    pub fn write_operator(&mut self, text: &str)
        requires
            old(self).wf(),
        ensures
            final(self).wf(),
            final(self)@ == old(self)@.operator(text@),
    {
        self.write_token(TokenClass::Operator, None, text)
    }

    pub fn write_symbol(&mut self, src: Option<u32>, text: &str)
        requires
            old(self).wf(),
        ensures
            final(self).wf(),
            final(self)@ == old(self)@.symbol(src, text@),
    {
        self.write_token(TokenClass::Ident, src, text)
    }

    pub fn write_num_lit(&mut self, src: Option<u32>, text: &str)
        requires
            old(self).wf(),
        ensures
            final(self).wf(),
            final(self)@ == old(self)@.number(src, text@),
    {
        self.write_token(TokenClass::Number, src, text)
    }

    pub fn write_str_lit(&mut self, src: Option<u32>, text: &str)
        requires
            old(self).wf(),
        ensures
            final(self).wf(),
            final(self)@ == old(self)@.str_lit(src, text@),
    {
        self.write_token(TokenClass::Str, src, text)
    }

    pub fn write_regex(&mut self, text: &str)
        requires
            old(self).wf(),
        ensures
            final(self).wf(),
            final(self)@ == old(self)@.regex(text@),
    {
        self.write_token(TokenClass::Regex, None, text)
    }

    pub fn write_space(&mut self)
        requires
            old(self).wf(),
        ensures
            final(self).wf(),
            final(self)@ == old(self)@.space(),
    {
        reveal(WriterState::space);
        if self.error.is_some() {
            return ;
        }
        self.write_indent();
        self.push_raw(TokenClass::Blank, " ");
    }

    pub fn write_line(&mut self)
        requires
            old(self).wf(),
        ensures
            final(self).wf(),
            final(self)@ == old(self)@.line(),
    {
        reveal(WriterState::line);
        if self.error.is_some() {
            return ;
        }
        self.push_raw(TokenClass::Line, "\n");
    }

    /// One stop deeper, and whether the depth was raised: only then is a
    /// `decrease_indent` owed for it.
    pub fn increase_indent(&mut self) -> (took: bool)
        requires
            old(self).wf(),
        ensures
            final(self).wf(),
            final(self)@ == old(self)@.increase_indent(),
            took == old(self)@.deepens(),
    {
        if self.error.is_some() {
            return false;
        }
        if self.indent == u32::MAX {
            self.error = Some(SinkError::IndentOverflow);
            false
        } else {
            self.indent = self.indent + 1;
            true
        }
    }

    /// One stop back, whether or not the writer has failed. The depth must
    /// not be zero.
    pub fn decrease_indent(&mut self)
        requires
            old(self).wf(),
            old(self)@.indent > 0,
        ensures
            final(self).wf(),
            final(self)@ == old(self)@.decrease_indent(),
    {
        self.indent = self.indent - 1;
    }
}

} // verus!

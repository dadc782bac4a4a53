//! The policies under which a list of children is written.
use vstd::prelude::*;

verus! {

pub const NONE: u32 = 0;

/// The list stays on one line (the default: no line bit is set).
pub const SINGLE_LINE: u32 = 0;

pub const MULTI_LINE: u32 = 0x1;

pub const PREFER_NEW_LINE: u32 = 0x2;

pub const LINES_MASK: u32 = 0x3;

pub const BAR_DELIMITED: u32 = 0x4;

pub const AMPERSAND_DELIMITED: u32 = 0x8;

pub const COMMA_DELIMITED: u32 = 0x10;

pub const DELIMITERS_MASK: u32 = 0x1c;

pub const ALLOW_TRAILING_COMMA: u32 = 0x20;

pub const INDENTED: u32 = 0x40;

pub const SPACE_BETWEEN_BRACES: u32 = 0x80;

pub const SPACE_BETWEEN_SIBLINGS: u32 = 0x100;

pub const CURLY_BRACES: u32 = 0x200;

pub const PARENTHESIS: u32 = 0x400;

pub const ANGLE_BRACKETS: u32 = 0x800;

pub const SQUARE_BRACKETS: u32 = 0x1000;

pub const BRACKETS_MASK: u32 = 0x1e00;

pub const OPTIONAL_IF_UNDEFINED: u32 = 0x2000;

pub const OPTIONAL_IF_EMPTY: u32 = 0x4000;

pub const NO_INTERVENING_COMMENTS: u32 = 0x8000;

pub const NO_SPACE_IF_EMPTY: u32 = 0x1_0000;

/// `f(a, b)`
pub const CALL_ARGUMENTS: u32 = 0x510;

/// `[a, b]`
pub const ARRAY_LITERAL_ELEMENTS: u32 = 0x1130;

/// One property to a line, indented, inside braces.
pub const OBJECT_LITERAL_PROPERTIES: u32 = 0x3f1;

/// `{ a, b as c }`
pub const NAMED_IMPORTS_OR_EXPORTS_ELEMENTS: u32 = 0x1_0390;

/// `[a, b]` as a pattern.
pub const ARRAY_BINDING_PATTERN_ELEMENTS: u32 = 0x1130;

/// `{ a, b: c }` as a pattern.
pub const OBJECT_BINDING_PATTERN_ELEMENTS: u32 = 0x1_03b0;

/// One member to a line, indented, inside braces.
pub const CLASS_MEMBERS: u32 = 0x241;

/// The clauses of a `switch`, one to a line, indented.
pub const CASE_BLOCK_CLAUSES: u32 = 0x41;

/// The statements under one `case`, one to a line, indented.
pub const CASE_OR_DEFAULT_CLAUSE_STATEMENTS: u32 = 0x41;

/// The statements of a block, one to a line, indented, inside braces.
pub const MULTI_LINE_BLOCK_STATEMENTS: u32 = 0x241;

/// The statements of a script or module, one to a line.
pub const SOURCE_FILE_STATEMENTS: u32 = 0x1;

/// `a, b`
pub const COMMA_LIST_ELEMENTS: u32 = 0x110;

/// A set of list policies: one bit for each.
#[derive(Clone, Copy, Debug, PartialEq, Eq, Structural)]
pub struct ListFormat {
    pub bits: u32,
}

impl ListFormat {
    pub fn from_bits(bits: u32) -> (r: ListFormat)
        ensures
            r.bits == bits,
    {
        ListFormat { bits }
    }

    /// Every policy of `flags` is in this set.
    pub open spec fn spec_contains(&self, flags: u32) -> bool {
        self.bits & flags == flags
    }

    #[verifier::when_used_as_spec(spec_contains)]
    pub fn contains(&self, flags: u32) -> (r: bool)
        ensures
            r == self.spec_contains(flags),
    {
        self.bits & flags == flags
    }

    /// Some policy of `flags` is in this set.
    pub open spec fn spec_intersects(&self, flags: u32) -> bool {
        self.bits & flags != 0
    }

    #[verifier::when_used_as_spec(spec_intersects)]
    pub fn intersects(&self, flags: u32) -> (r: bool)
        ensures
            r == self.spec_intersects(flags),
    {
        self.bits & flags != 0
    }

    /// This set with the policies of `flags` added.
    pub fn with(&self, flags: u32) -> (r: ListFormat)
        ensures
            r.bits == self.bits | flags,
    {
        ListFormat { bits: self.bits | flags }
    }

    /// This set with the policies of `flags` taken out.
    pub fn without(&self, flags: u32) -> (r: ListFormat)
        ensures
            r.bits == self.bits & !flags,
    {
        ListFormat { bits: self.bits & !flags }
    }

    /// What is written between two children, before any space or line break.
    /// Where several delimiters are set the comma wins, then the bar.
    pub open spec fn spec_delimiter(&self) -> Seq<char> {
        if self.spec_intersects(COMMA_DELIMITED) {
            ","@
        } else if self.spec_intersects(BAR_DELIMITED) {
            "|"@
        } else if self.spec_intersects(AMPERSAND_DELIMITED) {
            "&"@
        } else {
            ""@
        }
    }

    pub fn delimiter(&self) -> (r: &'static str)
        ensures
            r@ == self.spec_delimiter(),
    {
        if self.intersects(COMMA_DELIMITED) {
            ","
        } else if self.intersects(BAR_DELIMITED) {
            "|"
        } else if self.intersects(AMPERSAND_DELIMITED) {
            "&"
        } else {
            ""
        }
    }

    /// The bar and the ampersand stand off from what precedes them.
    pub open spec fn spec_delimiter_has_leading_space(&self) -> bool {
        !self.spec_intersects(COMMA_DELIMITED) && self.spec_intersects(
            BAR_DELIMITED | AMPERSAND_DELIMITED,
        )
    }

    #[verifier::when_used_as_spec(spec_delimiter_has_leading_space)]
    pub fn delimiter_has_leading_space(&self) -> (r: bool)
        ensures
            r == self.spec_delimiter_has_leading_space(),
    {
        !self.intersects(COMMA_DELIMITED) && self.intersects(BAR_DELIMITED | AMPERSAND_DELIMITED)
    }

    /// The bracket that opens the list; empty where the list has none.
    /// Where several brackets are set the brace wins, then the parenthesis,
    /// then the angle bracket.
    pub open spec fn spec_opening_bracket(&self) -> Seq<char> {
        if self.spec_intersects(CURLY_BRACES) {
            "{"@
        } else if self.spec_intersects(PARENTHESIS) {
            "("@
        } else if self.spec_intersects(ANGLE_BRACKETS) {
            "<"@
        } else if self.spec_intersects(SQUARE_BRACKETS) {
            "["@
        } else {
            ""@
        }
    }

    pub fn opening_bracket(&self) -> (r: &'static str)
        ensures
            r@ == self.spec_opening_bracket(),
    {
        if self.intersects(CURLY_BRACES) {
            "{"
        } else if self.intersects(PARENTHESIS) {
            "("
        } else if self.intersects(ANGLE_BRACKETS) {
            "<"
        } else if self.intersects(SQUARE_BRACKETS) {
            "["
        } else {
            ""
        }
    }

    /// The bracket that closes the list.
    pub open spec fn spec_closing_bracket(&self) -> Seq<char> {
        if self.spec_intersects(CURLY_BRACES) {
            "}"@
        } else if self.spec_intersects(PARENTHESIS) {
            ")"@
        } else if self.spec_intersects(ANGLE_BRACKETS) {
            ">"@
        } else if self.spec_intersects(SQUARE_BRACKETS) {
            "]"@
        } else {
            ""@
        }
    }

    pub fn closing_bracket(&self) -> (r: &'static str)
        ensures
            r@ == self.spec_closing_bracket(),
    {
        if self.intersects(CURLY_BRACES) {
            "}"
        } else if self.intersects(PARENTHESIS) {
            ")"
        } else if self.intersects(ANGLE_BRACKETS) {
            ">"
        } else if self.intersects(SQUARE_BRACKETS) {
            "]"
        } else {
            ""
        }
    }
}

/// Each mask is the union of its policies, and each preset is the union of the
/// policies that its description names.
pub proof fn lemma_catalogue()
    ensures
        LINES_MASK == MULTI_LINE | PREFER_NEW_LINE,
        DELIMITERS_MASK == BAR_DELIMITED | AMPERSAND_DELIMITED | COMMA_DELIMITED,
        BRACKETS_MASK == CURLY_BRACES | PARENTHESIS | ANGLE_BRACKETS | SQUARE_BRACKETS,
        CALL_ARGUMENTS == COMMA_DELIMITED | SPACE_BETWEEN_SIBLINGS | SINGLE_LINE | PARENTHESIS,
        ARRAY_LITERAL_ELEMENTS == COMMA_DELIMITED | SPACE_BETWEEN_SIBLINGS | SINGLE_LINE
            | SQUARE_BRACKETS | ALLOW_TRAILING_COMMA,
        OBJECT_LITERAL_PROPERTIES == COMMA_DELIMITED | SPACE_BETWEEN_SIBLINGS | MULTI_LINE
            | INDENTED | SPACE_BETWEEN_BRACES | CURLY_BRACES | ALLOW_TRAILING_COMMA,
        NAMED_IMPORTS_OR_EXPORTS_ELEMENTS == COMMA_DELIMITED | SPACE_BETWEEN_SIBLINGS
            | SINGLE_LINE | SPACE_BETWEEN_BRACES | CURLY_BRACES | NO_SPACE_IF_EMPTY,
        ARRAY_BINDING_PATTERN_ELEMENTS == ARRAY_LITERAL_ELEMENTS,
        OBJECT_BINDING_PATTERN_ELEMENTS == NAMED_IMPORTS_OR_EXPORTS_ELEMENTS
            | ALLOW_TRAILING_COMMA,
        CLASS_MEMBERS == MULTI_LINE | INDENTED | CURLY_BRACES,
        CASE_BLOCK_CLAUSES == MULTI_LINE | INDENTED,
        CASE_OR_DEFAULT_CLAUSE_STATEMENTS == MULTI_LINE | INDENTED,
        MULTI_LINE_BLOCK_STATEMENTS == MULTI_LINE | INDENTED | CURLY_BRACES,
        SOURCE_FILE_STATEMENTS == MULTI_LINE,
        COMMA_LIST_ELEMENTS == COMMA_DELIMITED | SPACE_BETWEEN_SIBLINGS | SINGLE_LINE,
{
    assert(0x3u32 == 0x1u32 | 0x2u32) by (bit_vector);
    assert(0x1cu32 == 0x4u32 | 0x8u32 | 0x10u32) by (bit_vector);
    assert(0x1e00u32 == 0x200u32 | 0x400u32 | 0x800u32 | 0x1000u32) by (bit_vector);
    assert(0x510u32 == 0x10u32 | 0x100u32 | 0u32 | 0x400u32) by (bit_vector);
    assert(0x1130u32 == 0x10u32 | 0x100u32 | 0u32 | 0x1000u32 | 0x20u32) by (bit_vector);
    assert(0x3f1u32 == 0x10u32 | 0x100u32 | 0x1u32 | 0x40u32 | 0x80u32 | 0x200u32 | 0x20u32)
        by (bit_vector);
    assert(0x1_0390u32 == 0x10u32 | 0x100u32 | 0u32 | 0x80u32 | 0x200u32 | 0x1_0000u32)
        by (bit_vector);
    assert(0x1_03b0u32 == 0x1_0390u32 | 0x20u32) by (bit_vector);
    assert(0x241u32 == 0x1u32 | 0x40u32 | 0x200u32) by (bit_vector);
    assert(0x41u32 == 0x1u32 | 0x40u32) by (bit_vector);
    assert(0x110u32 == 0x10u32 | 0x100u32 | 0u32) by (bit_vector);
}

} // verus!

use ecma_codegen::list::{
    ALLOW_TRAILING_COMMA, AMPERSAND_DELIMITED, ANGLE_BRACKETS, ARRAY_BINDING_PATTERN_ELEMENTS,
    ARRAY_LITERAL_ELEMENTS, BAR_DELIMITED, BRACKETS_MASK, CALL_ARGUMENTS, CASE_BLOCK_CLAUSES,
    CASE_OR_DEFAULT_CLAUSE_STATEMENTS, CLASS_MEMBERS, COMMA_DELIMITED, COMMA_LIST_ELEMENTS,
    CURLY_BRACES, DELIMITERS_MASK, INDENTED, LINES_MASK, ListFormat, MULTI_LINE,
    MULTI_LINE_BLOCK_STATEMENTS, NAMED_IMPORTS_OR_EXPORTS_ELEMENTS, NO_INTERVENING_COMMENTS,
    NO_SPACE_IF_EMPTY, NONE, OBJECT_BINDING_PATTERN_ELEMENTS, OBJECT_LITERAL_PROPERTIES,
    OPTIONAL_IF_EMPTY, OPTIONAL_IF_UNDEFINED, PARENTHESIS, PREFER_NEW_LINE, SINGLE_LINE,
    SOURCE_FILE_STATEMENTS, SPACE_BETWEEN_BRACES, SPACE_BETWEEN_SIBLINGS, SQUARE_BRACKETS,
};

fn f(bits: u32) -> ListFormat {
    ListFormat::from_bits(bits)
}

#[test]
fn contains_asks_for_every_flag() {
    let x = f(COMMA_DELIMITED | INDENTED);
    assert!(x.contains(COMMA_DELIMITED));
    assert!(x.contains(COMMA_DELIMITED | INDENTED));
    assert!(!x.contains(COMMA_DELIMITED | MULTI_LINE));
    assert!(x.contains(NONE));
    assert!(!f(CURLY_BRACES).contains(BRACKETS_MASK));
}

#[test]
fn intersects_asks_for_some_flag() {
    let x = f(COMMA_DELIMITED | INDENTED);
    assert!(x.intersects(DELIMITERS_MASK));
    assert!(x.intersects(COMMA_DELIMITED | MULTI_LINE));
    assert!(!x.intersects(BRACKETS_MASK));
    assert!(!x.intersects(NONE));
}

#[test]
fn with_and_without() {
    let x = f(MULTI_LINE | INDENTED).with(CURLY_BRACES);
    assert_eq!(x.bits, MULTI_LINE | INDENTED | CURLY_BRACES);
    assert_eq!(x.without(MULTI_LINE | INDENTED).bits, CURLY_BRACES);
    assert_eq!(x.without(COMMA_DELIMITED), x);
    assert_eq!(f(CASE_OR_DEFAULT_CLAUSE_STATEMENTS).without(MULTI_LINE | INDENTED).bits, NONE);
}

#[test]
fn brackets() {
    let pairs = [
        (CURLY_BRACES, "{", "}"),
        (PARENTHESIS, "(", ")"),
        (ANGLE_BRACKETS, "<", ">"),
        (SQUARE_BRACKETS, "[", "]"),
        (NONE, "", ""),
        (CURLY_BRACES | SQUARE_BRACKETS, "{", "}"),
        (PARENTHESIS | ANGLE_BRACKETS | SQUARE_BRACKETS, "(", ")"),
        (ANGLE_BRACKETS | SQUARE_BRACKETS, "<", ">"),
    ];
    for (bits, open, close) in pairs {
        assert_eq!(f(bits).opening_bracket(), open);
        assert_eq!(f(bits).closing_bracket(), close);
    }
}

#[test]
fn delimiters() {
    assert_eq!(f(COMMA_DELIMITED).delimiter(), ",");
    assert_eq!(f(BAR_DELIMITED).delimiter(), "|");
    assert_eq!(f(AMPERSAND_DELIMITED).delimiter(), "&");
    assert_eq!(f(NONE).delimiter(), "");
    assert_eq!(f(COMMA_DELIMITED | BAR_DELIMITED).delimiter(), ",");
    assert_eq!(f(BAR_DELIMITED | AMPERSAND_DELIMITED).delimiter(), "|");
    assert!(!f(COMMA_DELIMITED).delimiter_has_leading_space());
    assert!(f(BAR_DELIMITED).delimiter_has_leading_space());
    assert!(f(AMPERSAND_DELIMITED).delimiter_has_leading_space());
    assert!(!f(COMMA_DELIMITED | BAR_DELIMITED).delimiter_has_leading_space());
    assert!(!f(NONE).delimiter_has_leading_space());
}

#[test]
fn masks_cover_their_flags() {
    assert_eq!(LINES_MASK, MULTI_LINE | PREFER_NEW_LINE);
    assert_eq!(DELIMITERS_MASK, BAR_DELIMITED | AMPERSAND_DELIMITED | COMMA_DELIMITED);
    assert_eq!(BRACKETS_MASK, CURLY_BRACES | PARENTHESIS | ANGLE_BRACKETS | SQUARE_BRACKETS);
    assert_eq!(SINGLE_LINE, 0);
}

#[test]
fn flags_are_distinct_bits() {
    let all = [
        MULTI_LINE,
        PREFER_NEW_LINE,
        BAR_DELIMITED,
        AMPERSAND_DELIMITED,
        COMMA_DELIMITED,
        ALLOW_TRAILING_COMMA,
        INDENTED,
        SPACE_BETWEEN_BRACES,
        SPACE_BETWEEN_SIBLINGS,
        CURLY_BRACES,
        PARENTHESIS,
        ANGLE_BRACKETS,
        SQUARE_BRACKETS,
        OPTIONAL_IF_UNDEFINED,
        OPTIONAL_IF_EMPTY,
        NO_INTERVENING_COMMENTS,
        NO_SPACE_IF_EMPTY,
    ];
    let mut seen = 0u32;
    for flag in all {
        assert_eq!(flag.count_ones(), 1);
        assert_eq!(seen & flag, 0);
        seen |= flag;
    }
}

#[test]
fn presets() {
    assert_eq!(CALL_ARGUMENTS, COMMA_DELIMITED | SPACE_BETWEEN_SIBLINGS | PARENTHESIS);
    assert_eq!(
        ARRAY_LITERAL_ELEMENTS,
        COMMA_DELIMITED | SPACE_BETWEEN_SIBLINGS | SQUARE_BRACKETS | ALLOW_TRAILING_COMMA
    );
    assert_eq!(
        OBJECT_LITERAL_PROPERTIES,
        COMMA_DELIMITED | SPACE_BETWEEN_SIBLINGS | MULTI_LINE | INDENTED | SPACE_BETWEEN_BRACES
            | CURLY_BRACES | ALLOW_TRAILING_COMMA
    );
    assert_eq!(
        NAMED_IMPORTS_OR_EXPORTS_ELEMENTS,
        COMMA_DELIMITED | SPACE_BETWEEN_SIBLINGS | SPACE_BETWEEN_BRACES | CURLY_BRACES
            | NO_SPACE_IF_EMPTY
    );
    assert_eq!(CLASS_MEMBERS, MULTI_LINE | INDENTED | CURLY_BRACES);
    assert_eq!(CASE_BLOCK_CLAUSES, MULTI_LINE | INDENTED);
    assert_eq!(CASE_OR_DEFAULT_CLAUSE_STATEMENTS, MULTI_LINE | INDENTED);
    assert_eq!(MULTI_LINE_BLOCK_STATEMENTS, MULTI_LINE | INDENTED | CURLY_BRACES);
    assert_eq!(SOURCE_FILE_STATEMENTS, MULTI_LINE);
    assert_eq!(COMMA_LIST_ELEMENTS, COMMA_DELIMITED | SPACE_BETWEEN_SIBLINGS);
    assert_eq!(ARRAY_BINDING_PATTERN_ELEMENTS, ARRAY_LITERAL_ELEMENTS);
    assert_eq!(
        OBJECT_BINDING_PATTERN_ELEMENTS,
        NAMED_IMPORTS_OR_EXPORTS_ELEMENTS | ALLOW_TRAILING_COMMA
    );
}

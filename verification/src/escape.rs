//! Characters: how a string value is written as a literal, and which
//! characters begin a word.
use vstd::prelude::*;
use vstd::string::*;

verus! {

broadcast use group_string_axioms;

/// `String::push` appends the given character to the end of the string.
pub assume_specification[ String::push ](s: &mut String, c: char)
    ensures
        final(s)@ == old(s)@.push(c),
;

/// A letter or a digit. Beyond ASCII every character that can begin a token
/// is a letter, so each counts as one.
pub open spec fn spec_is_alpha_num(c: char) -> bool {
    let n = c as u32;
    ||| 0x30 <= n <= 0x39
    ||| 0x41 <= n <= 0x5a
    ||| 0x61 <= n <= 0x7a
    ||| n >= 0x80
}

#[verifier::when_used_as_spec(spec_is_alpha_num)]
pub fn is_alpha_num(c: char) -> (r: bool)
    ensures
        r == spec_is_alpha_num(c),
{
    let n = c as u32;
    0x30 <= n && n <= 0x39 || 0x41 <= n && n <= 0x5a || 0x61 <= n && n <= 0x7a || n >= 0x80
}

/// The text starts with a letter or a digit; an empty text starts with
/// nothing.
pub open spec fn spec_begins_with_alpha_num(text: Seq<char>) -> bool {
    text.len() > 0 && spec_is_alpha_num(text[0])
}

pub fn begins_with_alpha_num(text: &str) -> (r: bool)
    ensures
        r == spec_begins_with_alpha_num(text@),
{
    !text.is_empty() && is_alpha_num(text.get_char(0))
}

pub open spec fn hex_digit(n: int) -> char {
    if n == 0 {
        '0'
    } else if n == 1 {
        '1'
    } else if n == 2 {
        '2'
    } else if n == 3 {
        '3'
    } else if n == 4 {
        '4'
    } else if n == 5 {
        '5'
    } else if n == 6 {
        '6'
    } else if n == 7 {
        '7'
    } else if n == 8 {
        '8'
    } else if n == 9 {
        '9'
    } else if n == 10 {
        'a'
    } else if n == 11 {
        'b'
    } else if n == 12 {
        'c'
    } else if n == 13 {
        'd'
    } else if n == 14 {
        'e'
    } else {
        'f'
    }
}

/// The last `digits` hexadecimal digits of `n`.
pub open spec fn hex(n: int, digits: nat) -> Seq<char>
    decreases digits,
{
    if digits == 0 {
        Seq::empty()
    } else {
        hex(n / 16, (digits - 1) as nat).push(hex_digit(n % 16))
    }
}

/// How many hexadecimal digits `n` takes; one for zero.
pub open spec fn hex_width(n: int) -> nat
    decreases n,
{
    if n < 16 {
        1
    } else {
        1 + hex_width(n / 16)
    }
}

/// One character inside a double-quoted string literal: the quote, the
/// backslash and the control characters by their escapes, every other
/// character outside printable ASCII by its code, the rest as it is.
pub open spec fn escape_char(c: char) -> Seq<char> {
    let n = c as u32 as int;
    if c == '"' {
        seq!['\\', '"']
    } else if c == '\\' {
        seq!['\\', '\\']
    } else if c == '\n' {
        seq!['\\', 'n']
    } else if c == '\r' {
        seq!['\\', 'r']
    } else if c == '\t' {
        seq!['\\', 't']
    } else if n == 8 {
        seq!['\\', 'b']
    } else if n == 12 {
        seq!['\\', 'f']
    } else if 0x20 <= n < 0x7f {
        seq![c]
    } else if n < 0x100 {
        seq!['\\', 'x'] + hex(n, 2)
    } else if n < 0x1_0000 {
        seq!['\\', 'u'] + hex(n, 4)
    } else {
        seq!['\\', 'u', '{'] + hex(n, hex_width(n)) + seq!['}']
    }
}

/// The characters of `value`, escaped.
pub open spec fn escape(value: Seq<char>) -> Seq<char>
    decreases value.len(),
{
    if value.len() == 0 {
        Seq::empty()
    } else {
        escape(value.drop_last()) + escape_char(value.last())
    }
}

/// A string literal that denotes `value`.
pub open spec fn quote(value: Seq<char>) -> Seq<char> {
    seq!['"'] + escape(value) + seq!['"']
}

fn hex_digit_of(n: u32) -> (c: char)
    requires
        n < 16,
    ensures
        c == hex_digit(n as int),
{
    match n {
        0 => '0',
        1 => '1',
        2 => '2',
        3 => '3',
        4 => '4',
        5 => '5',
        6 => '6',
        7 => '7',
        8 => '8',
        9 => '9',
        10 => 'a',
        11 => 'b',
        12 => 'c',
        13 => 'd',
        14 => 'e',
        _ => 'f',
    }
}

fn push_hex(out: &mut String, n: u32, digits: u32)
    ensures
        final(out)@ == old(out)@ + hex(n as int, digits as nat),
    decreases digits,
{
    if digits > 0 {
        push_hex(out, n / 16, digits - 1);
        out.push(hex_digit_of(n % 16));
    }
}

fn hex_width_of(n: u32) -> (w: u32)
    ensures
        w == hex_width(n as int),
        1 <= w <= 8,
{
    let mut w: u32 = 1;
    let mut m: u32 = n;
    while m >= 16
        invariant
            1 <= w <= 8,
            w + hex_width(m as int) == 1 + hex_width(n as int),
            m as int * pow16((w - 1) as nat) <= u32::MAX,
        decreases m,
    {
        assert(m as int / 16 * pow16(w as nat) <= m as int * pow16((w - 1) as nat)) by {
            lemma_pow16_step(m as int, (w - 1) as nat);
        }
        assert(w < 8) by {
            lemma_pow16_bound(m as int);
        }
        m = m / 16;
        w = w + 1;
    }
    w
}

/// Sixteen to the power of `k`.
pub open spec fn pow16(k: nat) -> int
    decreases k,
{
    if k == 0 {
        1
    } else {
        16 * pow16((k - 1) as nat)
    }
}

proof fn lemma_pow16_step(m: int, k: nat)
    requires
        m >= 0,
    ensures
        m / 16 * pow16(k + 1) <= m * pow16(k),
        pow16(k) > 0,
    decreases k,
{
    if k > 0 {
        lemma_pow16_step(m, (k - 1) as nat);
    }
    assert(m / 16 * (16 * pow16(k)) <= m * pow16(k)) by (nonlinear_arith)
        requires
            m >= 0,
            pow16(k) > 0,
    ;
}

proof fn lemma_pow16_bound(m: int)
    requires
        m >= 16,
    ensures
        forall|w: nat| w >= 8 ==> m * #[trigger] pow16((w - 1) as nat) > u32::MAX,
{
    assert forall|w: nat| w >= 8 implies m * #[trigger] pow16((w - 1) as nat) > u32::MAX by {
        lemma_pow16_grows((w - 1) as nat);
        assert(m * pow16((w - 1) as nat) > u32::MAX) by (nonlinear_arith)
            requires
                m >= 16,
                pow16((w - 1) as nat) >= 0x1000_0000,
        ;
    }
}

proof fn lemma_pow16_grows(k: nat)
    requires
        k >= 7,
    ensures
        pow16(k) >= 0x1000_0000,
    decreases k,
{
    if k == 7 {
        reveal_with_fuel(pow16, 8);
    } else {
        lemma_pow16_grows((k - 1) as nat);
    }
}

fn push_escaped(out: &mut String, c: char)
    ensures
        final(out)@ == old(out)@ + escape_char(c),
{
    let n = c as u32;
    let ghost before = out@;
    if c == '"' {
        out.push('\\');
        out.push('"');
    } else if c == '\\' {
        out.push('\\');
        out.push('\\');
    } else if c == '\n' {
        out.push('\\');
        out.push('n');
    } else if c == '\r' {
        out.push('\\');
        out.push('r');
    } else if c == '\t' {
        out.push('\\');
        out.push('t');
    } else if n == 8 {
        out.push('\\');
        out.push('b');
    } else if n == 12 {
        out.push('\\');
        out.push('f');
    } else if 0x20 <= n && n < 0x7f {
        out.push(c);
    } else if n < 0x100 {
        out.push('\\');
        out.push('x');
        push_hex(out, n, 2);
    } else if n < 0x1_0000 {
        out.push('\\');
        out.push('u');
        push_hex(out, n, 4);
    } else {
        out.push('\\');
        out.push('u');
        out.push('{');
        push_hex(out, n, hex_width_of(n));
        out.push('}');
    }
    assert(out@ =~= before + escape_char(c));
}

/// The string literal that denotes `value`.
pub fn quote_str(value: &str) -> (r: String)
    ensures
        r@ == quote(value@),
{
    let mut out = String::new();
    out.push('"');
    for c in it: value.chars()
        invariant
            it.seq() == value@,
            out@ == seq!['"'] + escape(value@.take(it.index() as int)),
    {
        proof {
            let k = it.index() as int;
            assert(value@.take(k + 1).drop_last() =~= value@.take(k));
        }
        push_escaped(&mut out, c);
    }
    proof {
        assert(value@.take(value@.len() as int) =~= value@);
    }
    out.push('"');
    assert(out@ =~= quote(value@));
    out
}

/// Whether `c` occurs in `s`.
pub fn contains_char(s: &str, c: char) -> (r: bool)
    ensures
        r == s@.contains(c),
{
    for d in it: s.chars()
        invariant
            it.seq() == s@,
            !s@.take(it.index() as int).contains(c),
    {
        if d == c {
            return true;
        }
        proof {
            let k = it.index() as int;
            assert(s@.take(k + 1) =~= s@.take(k).push(d));
        }
    }
    proof {
        assert(s@.take(s@.len() as int) =~= s@);
    }
    false
}

} // verus!

//! Building blocks for the text that goes on the wire: digits, numbers and
//! JSON strings, each appended to a `String` that the caller owns.

use vstd::prelude::*;
use vstd::string::*;

verus! {

/// `String::push` of the standard library appends one character and leaves
/// what was there before untouched.
pub assume_specification[ String::push ](s: &mut String, ch: char)
    ensures
        final(s)@ == old(s)@.push(ch),
;

/// The character of a digit below sixteen: `0` to `9`, then `a` to `f`.
pub open spec fn digit(d: int) -> char
    recommends
        0 <= d < 16,
{
    if d < 10 {
        ((48 + d) as u8) as char
    } else {
        ((87 + d) as u8) as char
    }
}

/// A natural number in decimal, without leading zeros.
pub open spec fn decimal(n: nat) -> Seq<char>
    decreases n,
{
    if n < 10 {
        seq![digit(n as int)]
    } else {
        decimal(n / 10).push(digit((n % 10) as int))
    }
}

/// An integer in decimal, with a minus sign where it is negative.
pub open spec fn signed_decimal(n: int) -> Seq<char> {
    if n < 0 {
        seq!['-'] + decimal((-n) as nat)
    } else {
        decimal(n as nat)
    }
}

/// A number below one hundred as two digits.
pub open spec fn two_digits(n: int) -> Seq<char>
    recommends
        0 <= n < 100,
{
    seq![digit(n / 10), digit(n % 10)]
}

/// A number below one thousand as three digits.
pub open spec fn three_digits(n: int) -> Seq<char>
    recommends
        0 <= n < 1000,
{
    seq![digit(n / 100), digit(n / 10 % 10), digit(n % 10)]
}

/// A number below ten thousand as four digits.
pub open spec fn four_digits(n: int) -> Seq<char>
    recommends
        0 <= n < 10000,
{
    seq![digit(n / 1000), digit(n / 100 % 10), digit(n / 10 % 10), digit(n % 10)]
}

/// A 32-bit number as eight hexadecimal digits, lower case, most
/// significant first.
pub open spec fn hex8(v: int) -> Seq<char>
    recommends
        0 <= v < 0x1_0000_0000,
{
    seq![
        digit(v / 0x1000_0000 % 16),
        digit(v / 0x100_0000 % 16),
        digit(v / 0x10_0000 % 16),
        digit(v / 0x1_0000 % 16),
        digit(v / 0x1000 % 16),
        digit(v / 0x100 % 16),
        digit(v / 0x10 % 16),
        digit(v % 16),
    ]
}

/// What stands for one character inside a JSON string: a short escape for
/// the quote, the backslash and the common control characters, `\u00XX` for
/// the other characters below the space, and the character itself otherwise.
pub open spec fn escaped_char(c: char) -> Seq<char> {
    if c == '"' {
        seq!['\\', '"']
    } else if c == '\\' {
        seq!['\\', '\\']
    } else if c == '\n' {
        seq!['\\', 'n']
    } else if c == '\r' {
        seq!['\\', 'r']
    } else if c == '\t' {
        seq!['\\', 't']
    } else if c == '\u{8}' {
        seq!['\\', 'b']
    } else if c == '\u{c}' {
        seq!['\\', 'f']
    } else if (c as u32) < 0x20 {
        seq!['\\', 'u', '0', '0', digit((c as u32) as int / 16), digit((c as u32) as int % 16)]
    } else {
        seq![c]
    }
}

/// The characters of a text, each one escaped for a JSON string.
pub open spec fn escaped(s: Seq<char>) -> Seq<char>
    decreases s.len(),
{
    if s.len() == 0 {
        Seq::empty()
    } else {
        escaped(s.drop_last()) + escaped_char(s.last())
    }
}

/// A text as a JSON string: escaped, between double quotes.
pub open spec fn json_string(s: Seq<char>) -> Seq<char> {
    seq!['"'] + escaped(s) + seq!['"']
}

/// The character for a digit below sixteen.
pub fn digit_char(d: u8) -> (c: char)
    requires
        d < 16,
    ensures
        c == digit(d as int),
{
    if d < 10 {
        (48 + d) as char
    } else {
        (87 + d) as char
    }
}

/// Appends a natural number in decimal.
pub fn push_decimal(out: &mut String, n: u64)
    ensures
        final(out)@ == old(out)@ + decimal(n as nat),
    decreases n,
{
    if n >= 10 {
        push_decimal(out, n / 10);
    }
    out.push(digit_char((n % 10) as u8));
}

/// Appends an integer in decimal.
pub fn push_signed_decimal(out: &mut String, n: i64)
    ensures
        final(out)@ == old(out)@ + signed_decimal(n as int),
{
    if n < 0 {
        out.push('-');
        let magnitude: u64 = (0 - (n as i128)) as u64;
        push_decimal(out, magnitude);
    } else {
        push_decimal(out, n as u64);
    }
}

/// Appends a number below one hundred as two digits.
pub fn push_two_digits(out: &mut String, n: u32)
    requires
        n < 100,
    ensures
        final(out)@ == old(out)@ + two_digits(n as int),
{
    out.push(digit_char((n / 10) as u8));
    out.push(digit_char((n % 10) as u8));
}

/// Appends a number below one thousand as three digits.
pub fn push_three_digits(out: &mut String, n: u32)
    requires
        n < 1000,
    ensures
        final(out)@ == old(out)@ + three_digits(n as int),
{
    out.push(digit_char((n / 100) as u8));
    out.push(digit_char((n / 10 % 10) as u8));
    out.push(digit_char((n % 10) as u8));
}

/// Appends a number below ten thousand as four digits.
pub fn push_four_digits(out: &mut String, n: u32)
    requires
        n < 10000,
    ensures
        final(out)@ == old(out)@ + four_digits(n as int),
{
    out.push(digit_char((n / 1000) as u8));
    out.push(digit_char((n / 100 % 10) as u8));
    out.push(digit_char((n / 10 % 10) as u8));
    out.push(digit_char((n % 10) as u8));
}

/// Appends a 32-bit number as eight hexadecimal digits.
pub fn push_hex8(out: &mut String, v: u32)
    ensures
        final(out)@ == old(out)@ + hex8(v as int),
{
    out.push(digit_char((v / 0x1000_0000 % 16) as u8));
    out.push(digit_char((v / 0x100_0000 % 16) as u8));
    out.push(digit_char((v / 0x10_0000 % 16) as u8));
    out.push(digit_char((v / 0x1_0000 % 16) as u8));
    out.push(digit_char((v / 0x1000 % 16) as u8));
    out.push(digit_char((v / 0x100 % 16) as u8));
    out.push(digit_char((v / 0x10 % 16) as u8));
    out.push(digit_char((v % 16) as u8));
}

/// Appends what stands for one character inside a JSON string.
pub fn push_escaped_char(out: &mut String, c: char)
    ensures
        final(out)@ == old(out)@ + escaped_char(c),
{
    if c == '"' {
        out.push('\\');
        out.push('"');
    } else if c == '\\' {
        out.push('\\');
        out.push('\\');
    } else if c == '\n' {
        out.push('\\');
        out.push('n');
    } else if c == '\r' {
        out.push('\\');
        out.push('r');
    } else if c == '\t' {
        out.push('\\');
        out.push('t');
    } else if c == '\u{8}' {
        out.push('\\');
        out.push('b');
    } else if c == '\u{c}' {
        out.push('\\');
        out.push('f');
    } else if (c as u32) < 0x20 {
        let code: u32 = c as u32;
        out.push('\\');
        out.push('u');
        out.push('0');
        out.push('0');
        out.push(digit_char((code / 16) as u8));
        out.push(digit_char((code % 16) as u8));
    } else {
        out.push(c);
    }
}

/// Appends a text as a JSON string.
pub fn push_json_string(out: &mut String, s: &str)
    ensures
        final(out)@ == old(out)@ + json_string(s@),
{
    out.push('"');
    for c in it: s.chars()
        invariant
            it.seq() == s@,
            out@ == old(out)@ + seq!['"'] + escaped(s@.take(it.index() as int)),
    {
        proof {
            let k = it.index() as int;
            assert(s@.take(k + 1).drop_last() == s@.take(k));
            assert(s@.take(k + 1).last() == c);
        }
        push_escaped_char(out, c);
    }
    proof {
        assert(s@.take(s@.len() as int) == s@);
    }
    out.push('"');
}

} // verus!

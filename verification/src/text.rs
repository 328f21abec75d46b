//! Text at the edge of the engine: decimal numerals, blanks for what a
//! terminal cannot show, and lines of input.

use vstd::prelude::*;
use vstd::slice::slice_subrange;

verus! {

/// `String::push` of the standard library.
///
/// Trusted: the call appends the given character to the end of the string
/// and changes nothing else of it.
pub assume_specification[ String::push ](s: &mut String, ch: char)
    ensures
        final(s)@ == old(s)@.push(ch),
;

/// The character that stands for the digit `d`.
pub open spec fn digit_char(d: int) -> char {
    (48 + d) as char
}

/// The decimal numeral of `n`, without leading zeros.
pub open spec fn decimal_text(n: nat) -> Seq<char>
    decreases n,
{
    if n < 10 {
        seq![digit_char(n as int)]
    } else {
        decimal_text(n / 10).push(digit_char((n % 10) as int))
    }
}

fn digit_to_char(d: u8) -> (c: char)
    requires
        d < 10,
    ensures
        c == digit_char(d as int),
{
    (48 + d) as char
}

/// Appends the decimal numeral of `n` to `out`.
pub fn push_decimal(out: &mut String, n: u8)
    ensures
        final(out)@ == old(out)@ + decimal_text(n as nat),
{
    proof {
        reveal_with_fuel(decimal_text, 3);
    }
    if n >= 100 {
        out.push(digit_to_char(n / 100));
    }
    if n >= 10 {
        out.push(digit_to_char((n / 10) % 10));
    }
    out.push(digit_to_char(n % 10));
    assert(out@ =~= old(out)@ + decimal_text(n as nat));
}

/// The code point of a character reduced to one byte, by keeping its low
/// eight bits. For a character below 256 this is its code.
pub open spec fn low_byte(c: char) -> u8 {
    ((c as int) % 256) as u8
}

/// Reduces a character to one byte.
pub fn char_to_byte(c: char) -> (b: u8)
    ensures
        b == low_byte(c),
{
    ((c as u32) % 256) as u8
}

/// Whether a byte is the code of something a terminal does not show as a
/// glyph: a control character or the space (up to 32), or one of the codes
/// from 128 to 157.
pub open spec fn is_blank_code(b: u8) -> bool {
    b <= 32 || (128 <= b && b <= 157)
}

/// What is shown for the character `c`: a space if the low byte of `c` is
/// a blank code, and `c` itself otherwise.
pub open spec fn printable(c: char) -> char {
    if is_blank_code(low_byte(c)) {
        ' '
    } else {
        c
    }
}

/// The character to show for `c`.
pub fn printable_char(c: char) -> (p: char)
    ensures
        p == printable(c),
{
    let byte = char_to_byte(c);
    if byte <= 32 || (byte >= 128 && byte <= 157) {
        ' '
    } else {
        c
    }
}

/// Whether a byte is the code of a decimal digit.
pub open spec fn is_digit(b: u8) -> bool {
    48 <= b && b <= 57
}

/// Whether every byte of `s` is a decimal digit.
pub open spec fn all_digits(s: Seq<u8>) -> bool {
    forall|i: int| 0 <= i < s.len() ==> is_digit(#[trigger] s[i])
}

/// The value of a digit, and `0` for any other byte.
pub open spec fn digit_value(b: u8) -> nat {
    if is_digit(b) {
        (b - 48) as nat
    } else {
        0
    }
}

/// The number that a sequence of digits denotes in base ten.
pub open spec fn decimal_value(s: Seq<u8>) -> nat
    decreases s.len(),
{
    if s.len() == 0 {
        0
    } else {
        decimal_value(s.drop_last()) * 10 + digit_value(s.last())
    }
}

/// A line without the plus sign that may lead it.
pub open spec fn unsigned_part(s: Seq<u8>) -> Seq<u8> {
    if s.len() > 0 && s[0] == 43 {
        s.drop_first()
    } else {
        s
    }
}

/// The byte that a line denotes: the line is an optional plus sign and
/// then one or more decimal digits and nothing else, and the number is at
/// most 255. Any other line denotes nothing.
pub open spec fn parsed_u8(s: Seq<u8>) -> Option<u8> {
    let digits = unsigned_part(s);
    if digits.len() > 0 && all_digits(digits) && decimal_value(digits) <= 255 {
        Some(decimal_value(digits) as u8)
    } else {
        None
    }
}

proof fn lemma_decimal_value_of_prefix(s: Seq<u8>, k: int)
    requires
        0 <= k <= s.len(),
    ensures
        decimal_value(s.take(k)) <= decimal_value(s),
    decreases s.len(),
{
    if k == s.len() {
        assert(s.take(k) =~= s);
    } else {
        lemma_decimal_value_of_prefix(s.drop_last(), k);
        assert(s.drop_last().take(k) =~= s.take(k));
    }
}

/// Reads a line as a number from 0 to 255.
pub fn parse_u8(line: &[u8]) -> (r: Option<u8>)
    ensures
        r == parsed_u8(line@),
{
    let n = line.len();
    let start: usize = if n > 0 && line[0] == 43 {
        1
    } else {
        0
    };
    let ghost digits = unsigned_part(line@);
    assert(digits =~= line@.subrange(start as int, n as int));
    if start == n {
        return None;
    }
    let mut value: u32 = 0;
    let mut i: usize = start;
    assert(digits.take(0) =~= Seq::<u8>::empty());
    while i < n
        invariant
            start <= i <= n,
            n == line@.len(),
            digits == line@.subrange(start as int, n as int),
            digits == unsigned_part(line@),
            all_digits(digits.take(i - start)),
            value == decimal_value(digits.take(i - start)),
            value <= 255,
        decreases n - i,
    {
        let b = line[i];
        let ghost seen = digits.take(i - start);
        let ghost grown = digits.take(i + 1 - start);
        assert(digits[i - start] == b);
        if b < 48 || b > 57 {
            return None;
        }
        let next: u32 = value * 10 + (b - 48) as u32;
        proof {
            assert(grown.drop_last() =~= seen);
            assert(grown.last() == b);
            assert forall|j: int| 0 <= j < grown.len() implies is_digit(#[trigger] grown[j]) by {
                if j < seen.len() {
                    assert(grown[j] == seen[j]);
                }
            }
        }
        if next > 255 {
            proof {
                lemma_decimal_value_of_prefix(digits, i + 1 - start);
            }
            return None;
        }
        value = next;
        i = i + 1;
    }
    assert(digits.take(n - start) =~= digits);
    Some(value as u8)
}

/// A line without the terminator at its end: without a final line feed,
/// and without the carriage return before that line feed if there is one.
/// A line that does not end in a line feed is left as it is.
pub open spec fn without_line_ending(s: Seq<u8>) -> Seq<u8> {
    if s.len() >= 2 && s[s.len() - 2] == 13 && s[s.len() - 1] == 10 {
        s.take(s.len() - 2)
    } else if s.len() >= 1 && s[s.len() - 1] == 10 {
        s.take(s.len() - 1)
    } else {
        s
    }
}

/// Removes the line terminator from the end of a line, if it has one.
pub fn strip_line_ending(line: &[u8]) -> (r: &[u8])
    ensures
        r@ == without_line_ending(line@),
{
    let n = line.len();
    if n >= 2 && line[n - 2] == 13 && line[n - 1] == 10 {
        slice_subrange(line, 0, n - 2)
    } else if n >= 1 && line[n - 1] == 10 {
        slice_subrange(line, 0, n - 1)
    } else {
        line
    }
}

} // verus!

//! Reading unsigned numbers out of lines of text.
//!
//! A line as it comes from a console still carries its line ending and
//! whatever blanks the user typed around the number. [`parse_unsigned`] strips
//! the surrounding white space and reads what is left as a decimal `u32`.

use vstd::prelude::*;

verus! {

/// Why a line of text does not hold an unsigned number.
#[derive(Clone, Copy, Debug, PartialEq, Eq, Structural)]
pub enum ParseError {
    /// The trimmed text is not an optional `+` followed by one or more decimal
    /// digits.
    NotANumber,
    /// The text is a numeral, but its value is above `u32::MAX`.
    OutOfRange,
}

/// Whether `c` has the Unicode property `White_Space`.
pub open spec fn is_whitespace(c: char) -> bool {
    ||| '\u{9}' <= c <= '\u{d}'
    ||| c == ' '
    ||| c == '\u{85}'
    ||| c == '\u{a0}'
    ||| c == '\u{1680}'
    ||| '\u{2000}' <= c <= '\u{200a}'
    ||| c == '\u{2028}'
    ||| c == '\u{2029}'
    ||| c == '\u{202f}'
    ||| c == '\u{205f}'
    ||| c == '\u{3000}'
}

/// `s` without its leading white space.
pub open spec fn trim_start(s: Seq<char>) -> Seq<char>
    decreases s.len(),
{
    if s.len() > 0 && is_whitespace(s.first()) {
        trim_start(s.drop_first())
    } else {
        s
    }
}

/// `s` without its trailing white space.
pub open spec fn trim_end(s: Seq<char>) -> Seq<char>
    decreases s.len(),
{
    if s.len() > 0 && is_whitespace(s.last()) {
        trim_end(s.drop_last())
    } else {
        s
    }
}

/// `s` without the white space at either end.
pub open spec fn trimmed(s: Seq<char>) -> Seq<char> {
    trim_end(trim_start(s))
}

/// Whether `c` is one of the ten decimal digits.
pub open spec fn is_digit(c: char) -> bool {
    '0' <= c <= '9'
}

/// The number that the decimal digit `c` stands for.
pub open spec fn digit_value(c: char) -> nat
    recommends
        is_digit(c),
{
    (c as u32 - '0' as u32) as nat
}

/// The number that a string of decimal digits spells, read left to right.
pub open spec fn decimal_value(digits: Seq<char>) -> nat
    decreases digits.len(),
{
    if digits.len() == 0 {
        0
    } else {
        10 * decimal_value(digits.drop_last()) + digit_value(digits.last())
    }
}

/// The digits of a numeral: the text itself, or what follows its `+` sign.
pub open spec fn numeral_digits(t: Seq<char>) -> Seq<char> {
    if t.len() > 0 && t.first() == '+' {
        t.drop_first()
    } else {
        t
    }
}

/// Whether `t` is an unsigned numeral: an optional `+`, then at least one
/// decimal digit, and nothing else.
pub open spec fn is_numeral(t: Seq<char>) -> bool {
    let digits = numeral_digits(t);
    &&& digits.len() > 0
    &&& forall|i: int| 0 <= i < digits.len() ==> is_digit(#[trigger] digits[i])
}

/// What a line of text reads as: the value of its trimmed text if that is a
/// numeral within `u32`, and otherwise the reason why not.
pub open spec fn parsed_unsigned(text: Seq<char>) -> Result<u32, ParseError> {
    let t = trimmed(text);
    let value = decimal_value(numeral_digits(t));
    if !is_numeral(t) {
        Err(ParseError::NotANumber)
    } else if value > u32::MAX {
        Err(ParseError::OutOfRange)
    } else {
        Ok(value as u32)
    }
}

fn char_is_whitespace(c: char) -> (b: bool)
    ensures
        b == is_whitespace(c),
{
    ('\u{9}' <= c && c <= '\u{d}') || c == ' ' || c == '\u{85}' || c == '\u{a0}' || c
        == '\u{1680}' || ('\u{2000}' <= c && c <= '\u{200a}') || c == '\u{2028}' || c
        == '\u{2029}' || c == '\u{202f}' || c == '\u{205f}' || c == '\u{3000}'
}

/// The characters of `text`, one by one.
pub(crate) fn chars_of(text: &str) -> (chars: Vec<char>)
    ensures
        chars@ == text@,
{
    let mut chars: Vec<char> = Vec::new();
    for c in it: text.chars()
        invariant
            it.seq() == text@,
            chars@ == it.seq().take(it.index() as int),
    {
        chars.push(c);
    }
    chars
}

/// Where the trimmed text lies within `chars`: from `bounds.0` up to, and
/// without, `bounds.1`.
pub(crate) fn trim_bounds(chars: &Vec<char>) -> (bounds: (usize, usize))
    ensures
        bounds.0 <= bounds.1 <= chars@.len(),
        chars@.subrange(bounds.0 as int, bounds.1 as int) == trimmed(chars@),
{
    let len: usize = chars.len();
    let mut start: usize = 0;
    assert(chars@.skip(0) == chars@);
    while start < len && char_is_whitespace(chars[start])
        invariant
            len == chars@.len(),
            start <= len,
            trim_start(chars@) == trim_start(chars@.skip(start as int)),
        decreases len - start,
    {
        assert(chars@.skip(start as int).drop_first() == chars@.skip(start + 1));
        start += 1;
    }
    let ghost rest = chars@.skip(start as int);
    assert(rest == chars@.subrange(start as int, len as int));
    let mut end: usize = len;
    while end > start && char_is_whitespace(chars[end - 1])
        invariant
            len == chars@.len(),
            start <= end <= len,
            trim_end(rest) == trim_end(chars@.subrange(start as int, end as int)),
        decreases end,
    {
        assert(chars@.subrange(start as int, end as int).drop_last() == chars@.subrange(
            start as int,
            end - 1,
        ));
        end -= 1;
    }
    (start, end)
}

/// Reads a line of text as an unsigned number.
///
/// White space around the number is ignored. What is left must be an optional
/// `+` followed by decimal digits, with a value that fits `u32`.
pub fn parse_unsigned(text: &str) -> (result: Result<u32, ParseError>)
    ensures
        result == parsed_unsigned(text@),
{
    let chars = chars_of(text);
    let (start, end) = trim_bounds(&chars);
    let ghost t = trimmed(text@);
    let first: usize = if start < end && chars[start] == '+' {
        start + 1
    } else {
        start
    };
    let ghost digits = numeral_digits(t);
    assert(digits == chars@.subrange(first as int, end as int));
    if first == end {
        return Err(ParseError::NotANumber);
    }
    let mut value: u32 = 0;
    let mut overflow = false;
    let mut i: usize = first;
    while i < end
        invariant
            first <= i <= end <= chars@.len(),
            digits == chars@.subrange(first as int, end as int),
            digits == numeral_digits(trimmed(text@)),
            forall|k: int| 0 <= k < i - first ==> is_digit(#[trigger] digits[k]),
            !overflow ==> value == decimal_value(digits.take(i - first)),
            overflow ==> decimal_value(digits.take(i - first)) > u32::MAX,
        decreases end - i,
    {
        let c = chars[i];
        assert(c == digits[i - first]);
        if !('0' <= c && c <= '9') {
            return Err(ParseError::NotANumber);
        }
        let d: u32 = (c as u32) - ('0' as u32);
        assert(digits.take(i - first + 1).drop_last() == digits.take(i - first));
        assert(digits.take(i - first + 1).last() == c);
        if !overflow {
            let next: u64 = (value as u64) * 10 + (d as u64);
            if next > u32::MAX as u64 {
                overflow = true;
            } else {
                value = next as u32;
            }
        }
        i += 1;
    }
    assert(digits.take(end - first) == digits);
    if overflow {
        Err(ParseError::OutOfRange)
    } else {
        Ok(value)
    }
}

} // verus!

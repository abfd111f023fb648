//! Texts taken character by character, and numbers read from them.

use vstd::prelude::*;
use vstd::string::StrSliceExecFns;
use vstd::utf8::{decode_utf8, valid_utf8};

verus! {

/// Calls `String::from_utf8`, which turns bytes into the text they encode
/// and fails where the bytes are not valid UTF-8.
#[verifier::external_body]
pub(crate) fn string_from_utf8(bytes: Vec<u8>) -> (text: Option<String>)
    ensures
        text is Some <==> valid_utf8(bytes@),
        text matches Some(t) ==> t@ == decode_utf8(bytes@),
{
    String::from_utf8(bytes).ok()
}

/// Copies the characters of a text into a vector.
pub fn to_chars(text: &str) -> (chars: Vec<char>)
    ensures
        chars@ == text@,
{
    let len: usize = text.unicode_len();
    let mut chars: Vec<char> = Vec::new();
    let mut i: usize = 0;
    while i < len
        invariant
            0 <= i <= len,
            len == text@.len(),
            chars@ == text@.take(i as int),
        decreases len - i,
    {
        chars.push(text.get_char(i));
        assert(chars@ =~= text@.take(i as int + 1));
        i = i + 1;
    }
    assert(text@.take(len as int) =~= text@);
    chars
}

/// The value of a decimal digit, or `None` for any other character.
pub open spec fn spec_digit(c: char) -> Option<u8> {
    if c == '0' {
        Some(0u8)
    } else if c == '1' {
        Some(1u8)
    } else if c == '2' {
        Some(2u8)
    } else if c == '3' {
        Some(3u8)
    } else if c == '4' {
        Some(4u8)
    } else if c == '5' {
        Some(5u8)
    } else if c == '6' {
        Some(6u8)
    } else if c == '7' {
        Some(7u8)
    } else if c == '8' {
        Some(8u8)
    } else if c == '9' {
        Some(9u8)
    } else {
        None
    }
}

/// Returns the value of a decimal digit, or `None` for any other
/// character.
pub fn digit(c: char) -> (d: Option<u8>)
    ensures
        d == spec_digit(c),
        d matches Some(v) ==> v <= 9,
{
    if c == '0' {
        Some(0)
    } else if c == '1' {
        Some(1)
    } else if c == '2' {
        Some(2)
    } else if c == '3' {
        Some(3)
    } else if c == '4' {
        Some(4)
    } else if c == '5' {
        Some(5)
    } else if c == '6' {
        Some(6)
    } else if c == '7' {
        Some(7)
    } else if c == '8' {
        Some(8)
    } else if c == '9' {
        Some(9)
    } else {
        None
    }
}

/// Whether every character of a text is a decimal digit.
pub open spec fn all_digits(text: Seq<char>) -> bool {
    forall|i: int| 0 <= i < text.len() ==> spec_digit(#[trigger] text[i]) is Some
}

/// The number a text of decimal digits stands for.
pub open spec fn decimal_value(text: Seq<char>) -> nat
    decreases text.len(),
{
    if text.len() == 0 {
        0
    } else {
        decimal_value(text.drop_last()) * 10 + match spec_digit(text.last()) {
            Some(d) => d as nat,
            None => 0,
        }
    }
}

/// Why a text is not a number of 32 bits.
#[derive(Clone, Copy, Debug, PartialEq, Eq, Structural)]
pub enum ParseIntError {
    /// The text is empty.
    Empty,
    /// The text holds a character that is not a digit, or nothing but a
    /// sign.
    InvalidDigit,
    /// The number is too large.
    PosOverflow,
}

/// The number of 32 bits a text stands for: decimal digits, with a plus
/// sign in front of them if one likes.
pub open spec fn spec_parse_u32(text: Seq<char>) -> Result<u32, ParseIntError> {
    if text.len() == 0 {
        Err(ParseIntError::Empty)
    } else {
        let digits = if text[0] == '+' {
            text.drop_first()
        } else {
            text
        };
        if digits.len() == 0 || !all_digits(digits) {
            Err(ParseIntError::InvalidDigit)
        } else if decimal_value(digits) > u32::MAX {
            Err(ParseIntError::PosOverflow)
        } else {
            Ok(decimal_value(digits) as u32)
        }
    }
}

/// What reading a text of digits gives.
#[derive(Clone, Copy, Debug, PartialEq, Eq, Structural)]
pub enum Digits {
    /// The number the digits stand for.
    Value(u64),
    /// The digits stand for a number above the limit that was asked for.
    TooLarge,
    /// A character is not a digit.
    Invalid,
}

/// What reading a text of digits gives, for numbers up to `limit`.
pub open spec fn spec_read_digits(text: Seq<char>, limit: u64) -> Digits {
    if !all_digits(text) {
        Digits::Invalid
    } else if decimal_value(text) > limit {
        Digits::TooLarge
    } else {
        Digits::Value(decimal_value(text) as u64)
    }
}

/// Reads the number that a text of decimal digits stands for, as long as
/// it stays within `limit`. The empty text stands for 0.
pub fn read_digits(text: &Vec<char>, limit: u64) -> (r: Digits)
    requires
        limit <= 1_000_000_000_000_000_000,
    ensures
        r == spec_read_digits(text@, limit),
{
    let n: usize = text.len();
    let mut value: u64 = 0;
    let mut too_large: bool = false;
    let mut i: usize = 0;
    while i < n
        invariant
            0 <= i <= n,
            n == text.len(),
            limit <= 1_000_000_000_000_000_000,
            all_digits(text@.take(i as int)),
            !too_large ==> value == decimal_value(text@.take(i as int)) && value <= limit,
            too_large ==> decimal_value(text@.take(i as int)) > limit,
        decreases n - i,
    {
        let d = match digit(text[i]) {
            Some(d) => d,
            None => {
                assert(spec_digit(text@[i as int]) is None);
                return Digits::Invalid;
            },
        };
        proof {
            let longer = text@.take(i as int + 1);
            assert(longer.drop_last() =~= text@.take(i as int));
            assert(longer.last() == text@[i as int]);
            assert forall|k: int| 0 <= k < longer.len() implies spec_digit(
                #[trigger] longer[k],
            ) is Some by {
                if k < i {
                    assert(longer[k] == text@.take(i as int)[k]);
                }
            }
        }
        if !too_large {
            value = value * 10 + d as u64;
            if value > limit {
                too_large = true;
            }
        }
        i = i + 1;
    }
    proof {
        assert(text@.take(n as int) =~= text@);
    }
    if too_large {
        Digits::TooLarge
    } else {
        Digits::Value(value)
    }
}

/// Copies the characters of a text from index `from` up to index `to`.
pub fn slice(text: &Vec<char>, from: usize, to: usize) -> (part: Vec<char>)
    requires
        from <= to <= text.len(),
    ensures
        part@ == text@.subrange(from as int, to as int),
{
    let mut part: Vec<char> = Vec::new();
    let mut i: usize = from;
    while i < to
        invariant
            from <= i <= to <= text.len(),
            part@ == text@.subrange(from as int, i as int),
        decreases to - i,
    {
        part.push(text[i]);
        assert(part@ =~= text@.subrange(from as int, i as int + 1));
        i = i + 1;
    }
    part
}

/// Where a character first occurs in a text at or after index `from`, or
/// the length of the text where it does not.
pub open spec fn spec_find(text: Seq<char>, c: char, from: int) -> int
    decreases text.len() - from,
{
    if from >= text.len() {
        text.len() as int
    } else if text[from] == c {
        from
    } else {
        spec_find(text, c, from + 1)
    }
}

/// Finds where a character first occurs in a text at or after index
/// `from`. Returns the length of the text where it does not occur.
pub fn find(text: &Vec<char>, c: char, from: usize) -> (at: usize)
    requires
        from <= text.len(),
    ensures
        at == spec_find(text@, c, from as int),
        from <= at <= text.len(),
{
    let mut at: usize = from;
    while at < text.len() && text[at] != c
        invariant
            from <= at <= text.len(),
            spec_find(text@, c, from as int) == spec_find(text@, c, at as int),
        decreases text.len() - at,
    {
        at = at + 1;
    }
    at
}

/// Reads a number of 32 bits from a text.
pub fn parse_u32(text: &Vec<char>) -> (r: Result<u32, ParseIntError>)
    ensures
        r == spec_parse_u32(text@),
{
    let n: usize = text.len();
    if n == 0 {
        return Err(ParseIntError::Empty);
    }
    let start: usize = if text[0] == '+' {
        1
    } else {
        0
    };
    let digits = slice(text, start, n);
    proof {
        if start == 1 {
            assert(digits@ =~= text@.drop_first());
        } else {
            assert(digits@ =~= text@);
        }
    }
    if digits.len() == 0 {
        return Err(ParseIntError::InvalidDigit);
    }
    match read_digits(&digits, 0xFFFF_FFFF) {
        Digits::Invalid => Err(ParseIntError::InvalidDigit),
        Digits::TooLarge => Err(ParseIntError::PosOverflow),
        Digits::Value(value) => Ok(value as u32),
    }
}

} // verus!

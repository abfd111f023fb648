//! Spans of time and the texts they are written as.

use crate::chars::{
    all_digits, decimal_value, find, read_digits, slice, spec_find, spec_read_digits, Digits,
};
use vstd::prelude::*;

verus! {

/// A span of time, counted in nanoseconds.
#[derive(Clone, Copy, Debug, PartialEq, Eq, Structural)]
pub struct TimeSpan {
    /// The length of the span in nanoseconds. Negative for a span that
    /// runs backwards.
    pub nanoseconds: i64,
}

/// A time of a run, measured both ways a run is timed.
#[derive(Clone, Copy, Debug, PartialEq, Eq, Structural)]
pub struct Time {
    /// The time by the clock on the wall.
    pub real_time: Option<TimeSpan>,
    /// The time by the clock of the game.
    pub game_time: Option<TimeSpan>,
}

/// Why a text is not a span of time.
#[derive(Clone, Copy, Debug, PartialEq, Eq, Structural)]
pub enum ParseError {
    /// A part of the text is not a decimal number.
    Number,
    /// The span is longer than a [`TimeSpan`] can hold.
    Overflow,
}

/// The number of nanoseconds in a second.
pub const NANOSECONDS: u64 = 1_000_000_000;

/// The longest span a [`TimeSpan`] can hold, in nanoseconds.
pub const LONGEST: u64 = 0x7FFF_FFFF_FFFF_FFFF;

impl TimeSpan {
    /// The span of no length.
    pub fn zero() -> (span: TimeSpan)
        ensures
            span.nanoseconds == 0,
    {
        TimeSpan { nanoseconds: 0 }
    }

    /// A span of the given number of nanoseconds.
    pub fn from_nanoseconds(nanoseconds: i64) -> (span: TimeSpan)
        ensures
            span.nanoseconds == nanoseconds,
    {
        TimeSpan { nanoseconds }
    }
}

impl Time {
    /// A time of which only the real time is known.
    pub fn from_real_time(span: TimeSpan) -> (time: Time)
        ensures
            time == (Time { real_time: Some(span), game_time: None }),
    {
        Time { real_time: Some(span), game_time: None }
    }
}

/// Ten to the power of `n`, for `n` up to 9.
pub open spec fn power_of_ten(n: int) -> int {
    if n <= 0 {
        1
    } else if n == 1 {
        10
    } else if n == 2 {
        100
    } else if n == 3 {
        1_000
    } else if n == 4 {
        10_000
    } else if n == 5 {
        100_000
    } else if n == 6 {
        1_000_000
    } else if n == 7 {
        10_000_000
    } else if n == 8 {
        100_000_000
    } else {
        1_000_000_000
    }
}

/// The nanoseconds that the digits after a decimal point stand for. Digits
/// after the ninth are too fine to count and are dropped.
pub open spec fn fraction_nanoseconds(digits: Seq<char>) -> int {
    let counted = if digits.len() > 9 {
        9
    } else {
        digits.len() as int
    };
    decimal_value(digits.take(counted)) * power_of_ten(9 - counted)
}

/// The digits in front of the decimal point of a number.
pub open spec fn whole_part(number: Seq<char>) -> Seq<char> {
    number.take(spec_find(number, '.', 0))
}

/// The digits after the decimal point of a number. Empty where there is
/// no decimal point.
pub open spec fn fraction_part(number: Seq<char>) -> Seq<char> {
    let dot = spec_find(number, '.', 0);
    if dot < number.len() {
        number.skip(dot + 1)
    } else {
        Seq::empty()
    }
}

/// The nanoseconds that a decimal number of seconds stands for. A number
/// is made of digits, with a decimal point among them if one likes, and has
/// at least one digit.
pub open spec fn spec_parse_number(number: Seq<char>) -> Result<int, ParseError> {
    let whole = whole_part(number);
    let fraction = fraction_part(number);
    if whole.len() + fraction.len() == 0 || !all_digits(whole) || !all_digits(fraction) {
        Err(ParseError::Number)
    } else if decimal_value(whole) * NANOSECONDS + fraction_nanoseconds(fraction) > LONGEST {
        Err(ParseError::Overflow)
    } else {
        Ok(decimal_value(whole) * NANOSECONDS + fraction_nanoseconds(fraction))
    }
}

/// The nanoseconds that the numbers of a text stand for from index `from`
/// on, where the numbers before stand for `before`. The numbers are
/// separated by colons, and each counts sixty times the one after it.
pub open spec fn spec_parse_parts(text: Seq<char>, from: int, before: int) -> Result<
    int,
    ParseError,
>
    decreases text.len() - from,
{
    let end = spec_find(text, ':', from);
    if from > text.len() || end < from {
        Err(ParseError::Number)
    } else {
        match spec_parse_number(text.subrange(from, end)) {
            Err(e) => Err(e),
            Ok(number) => {
                let total = 60 * before + number;
                if total > LONGEST {
                    Err(ParseError::Overflow)
                } else if end >= text.len() {
                    Ok(total)
                } else {
                    spec_parse_parts(text, end + 1, total)
                }
            },
        }
    }
}

/// Whether a text starts with a minus sign, be it the hyphen or the true
/// minus sign.
pub open spec fn is_negative(text: Seq<char>) -> bool {
    text.len() > 0 && (text[0] == '-' || text[0] == '\u{2212}')
}

/// The span of time a text stands for: hours, minutes and seconds
/// separated by colons, or fewer numbers than that, with a minus sign in
/// front for a span that runs backwards.
pub open spec fn spec_parse_time_span(text: Seq<char>) -> Result<TimeSpan, ParseError> {
    let from = if is_negative(text) {
        1int
    } else {
        0int
    };
    match spec_parse_parts(text, from, 0) {
        Err(e) => Err(e),
        Ok(total) => Ok(
            TimeSpan {
                nanoseconds: if is_negative(text) {
                    (-total) as i64
                } else {
                    total as i64
                },
            },
        ),
    }
}

/// Reads the nanoseconds that the digits after a decimal point stand for.
fn read_fraction(digits: &Vec<char>) -> (r: Option<u64>)
    ensures
        r is Some <==> all_digits(digits@),
        r matches Some(v) ==> v == fraction_nanoseconds(digits@) && v < NANOSECONDS,
{
    let counted: usize = if digits.len() > 9 {
        9
    } else {
        digits.len()
    };
    let head = slice(digits, 0, counted);
    let tail = slice(digits, counted, digits.len());
    assert(head@ =~= digits@.take(counted as int));
    let value: u64 = match read_digits(&head, 999_999_999) {
        Digits::Value(value) => value,
        Digits::TooLarge => {
            proof {
                lemma_short_number(head@);
            }
            return None;
        },
        Digits::Invalid => {
            assert(!all_digits(digits@)) by {
                if all_digits(digits@) {
                    assert forall|i: int| 0 <= i < head@.len() implies crate::chars::spec_digit(
                        #[trigger] head@[i],
                    ) is Some by {
                        assert(head@[i] == digits@[i]);
                    }
                }
            }
            return None;
        },
    };
    match read_digits(&tail, 0) {
        Digits::Invalid => {
            assert(!all_digits(digits@)) by {
                if all_digits(digits@) {
                    assert forall|i: int| 0 <= i < tail@.len() implies crate::chars::spec_digit(
                        #[trigger] tail@[i],
                    ) is Some by {
                        assert(tail@[i] == digits@[i + counted]);
                    }
                }
            }
            return None;
        },
        _ => {},
    }
    assert(all_digits(digits@)) by {
        assert forall|i: int| 0 <= i < digits@.len() implies crate::chars::spec_digit(
            #[trigger] digits@[i],
        ) is Some by {
            if i < counted {
                assert(digits@[i] == head@[i]);
            } else {
                assert(digits@[i] == tail@[i - counted]);
            }
        }
    }
    proof {
        lemma_short_number(head@);
    }
    let scale: u64 = if counted == 0 {
        1_000_000_000
    } else if counted == 1 {
        100_000_000
    } else if counted == 2 {
        10_000_000
    } else if counted == 3 {
        1_000_000
    } else if counted == 4 {
        100_000
    } else if counted == 5 {
        10_000
    } else if counted == 6 {
        1_000
    } else if counted == 7 {
        100
    } else if counted == 8 {
        10
    } else {
        1
    };
    assert(value * scale < 1_000_000_000) by (nonlinear_arith)
        requires
            value < power_of_ten(counted as int),
            scale * power_of_ten(counted as int) == 1_000_000_000,
            scale > 0,
    ;
    Some(value * scale)
}

/// A number of `n` digits is smaller than ten to the power of `n`.
proof fn lemma_short_number(digits: Seq<char>)
    requires
        digits.len() <= 9,
    ensures
        decimal_value(digits) < power_of_ten(digits.len() as int),
    decreases digits.len(),
{
    if digits.len() > 0 {
        lemma_short_number(digits.drop_last());
    }
}

/// Reads the nanoseconds that a decimal number of seconds stands for.
fn parse_number(number: &Vec<char>) -> (r: Result<u64, ParseError>)
    ensures
        match r {
            Ok(v) => spec_parse_number(number@) == Ok::<int, ParseError>(v as int) && v <= LONGEST,
            Err(e) => spec_parse_number(number@) == Err::<int, ParseError>(e),
        },
{
    let dot: usize = find(number, '.', 0);
    let whole = slice(number, 0, dot);
    let fraction = if dot < number.len() {
        slice(number, dot + 1, number.len())
    } else {
        Vec::new()
    };
    assert(whole@ =~= whole_part(number@));
    assert(fraction@ =~= fraction_part(number@));
    if whole.len() == 0 && fraction.len() == 0 {
        return Err(ParseError::Number);
    }
    let seconds = read_digits(&whole, 10_000_000_000);
    if let Digits::Invalid = seconds {
        return Err(ParseError::Number);
    }
    let nanoseconds: u64 = match read_fraction(&fraction) {
        Some(nanoseconds) => nanoseconds,
        None => {
            return Err(ParseError::Number);
        },
    };
    match seconds {
        Digits::Value(seconds) => {
            let total: u128 = seconds as u128 * 1_000_000_000 + nanoseconds as u128;
            if total > 0x7FFF_FFFF_FFFF_FFFF {
                Err(ParseError::Overflow)
            } else {
                Ok(total as u64)
            }
        },
        _ => Err(ParseError::Overflow),
    }
}

/// Reads the span of time a text stands for.
pub fn parse_time_span(text: &Vec<char>) -> (r: Result<TimeSpan, ParseError>)
    ensures
        r == spec_parse_time_span(text@),
{
    let n: usize = text.len();
    let negative: bool = n > 0 && (text[0] == '-' || text[0] == '\u{2212}');
    let mut from: usize = if negative {
        1
    } else {
        0
    };
    let ghost start = from as int;
    let mut total: u64 = 0;
    loop
        invariant_except_break
            spec_parse_parts(text@, start, 0) == spec_parse_parts(text@, from as int, total as int),
        invariant
            n == text.len(),
            0 <= from <= n,
            total <= LONGEST,
            negative == is_negative(text@),
            start == (if negative {
                1int
            } else {
                0int
            }),
        ensures
            spec_parse_parts(text@, start, 0) == Ok::<int, ParseError>(total as int),
        decreases n - from,
    {
        let end: usize = find(text, ':', from);
        let number = slice(text, from, end);
        let value: u64 = match parse_number(&number) {
            Ok(value) => value,
            Err(e) => {
                return Err(e);
            },
        };
        let sum: u128 = 60 * (total as u128) + value as u128;
        if sum > 0x7FFF_FFFF_FFFF_FFFF {
            return Err(ParseError::Overflow);
        }
        total = sum as u64;
        if end >= n {
            break ;
        }
        from = end + 1;
    }
    if negative {
        Ok(TimeSpan { nanoseconds: -(total as i64) })
    } else {
        Ok(TimeSpan { nanoseconds: total as i64 })
    }
}

} // verus!

use vstd::prelude::*;

verus! {

/// Whether a character is one of the ten decimal digits.
pub open spec fn is_digit(c: char) -> bool {
    48 <= c as u32 <= 57
}

/// The number that a run of decimal digits stands for.
pub open spec fn digits_value(digits: Seq<char>) -> int
    decreases digits.len(),
{
    if digits.len() == 0 {
        0
    } else {
        digits_value(digits.drop_last()) * 10 + (digits.last() as u32 - 48)
    }
}

/// The integer that a text stands for: an optional `+` or `-`, then one decimal
/// digit or more and nothing else, where the number fits in 64 bits.
pub open spec fn integer_of_text(text: Seq<char>) -> Option<i64> {
    let negative = text.len() > 0 && text[0] == '-';
    let signed = text.len() > 0 && (text[0] == '-' || text[0] == '+');
    let digits = if signed {
        text.skip(1)
    } else {
        text
    };
    let value = if negative {
        -digits_value(digits)
    } else {
        digits_value(digits)
    };
    if digits.len() > 0 && (forall|i: int| 0 <= i < digits.len() ==> is_digit(#[trigger] digits[i]))
        && i64::MIN <= value <= i64::MAX {
        Some(value as i64)
    } else {
        None
    }
}

/// Whether a calendar date exists for this number of seconds since the Unix
/// epoch: the calendar runs from the first second of the year -262143 to the
/// last second of the year 262142.
pub open spec fn date_exists(secs: i64) -> bool {
    -8_334_601_228_800 <= secs <= 8_210_266_876_799
}

/// Calls `str::parse::<i64>`. Not proved: that it reads an optional sign and
/// decimal digits as `integer_of_text` says, and fails on every other text and
/// on a number that does not fit.
#[verifier::external_body]
fn integer_from_text(text: &str) -> (r: Option<i64>)
    ensures
        r == integer_of_text(text@),
{
    match text.parse::<i64>() {
        Ok(n) => Some(n),
        Err(_) => None,
    }
}

/// Calls `chrono::DateTime::from_timestamp` with no nanoseconds. Not proved:
/// that it returns a date exactly for the seconds between the two ends of its
/// calendar, which are those of `date_exists`.
#[verifier::external_body]
fn date_from_seconds(secs: i64) -> (r: bool)
    ensures
        r == date_exists(secs),
{
    chrono::DateTime::from_timestamp(secs, 0).is_some()
}

/// The date that a timestamp in text form stands for, as seconds since the
/// epoch: the text must be an integer, and the integer must have a date.
pub open spec fn dated(text: Seq<char>) -> Option<i64> {
    match integer_of_text(text) {
        Some(secs) => if date_exists(secs) {
            Some(secs)
        } else {
            None
        },
        None => None,
    }
}

/// Reads a timestamp and checks that a date exists for it.
pub fn parse_date(text: &str) -> (r: Option<i64>)
    ensures
        r == dated(text@),
{
    match integer_from_text(text) {
        Some(secs) => if date_from_seconds(secs) {
            Some(secs)
        } else {
            None
        },
        None => None,
    }
}

} // verus!

//! Calendar dates and the timestamps of a post: midnight UTC of the post's
//! day plus a number of seconds, written as RFC 3339.

use vstd::prelude::*;
use crate::decimal::{digit_char, lemma_four_digits, lemma_two_digits, zero_padded};
use crate::error::ExtractError;

verus! {

/// The first year that a date can have.
pub const MIN_YEAR: i32 = -262143;

/// The last year that a date can have.
pub const MAX_YEAR: i32 = 262142;

/// A minute's seconds: an offset below this stays within the first minute.
pub const SECONDS_PER_MINUTE: u32 = 60;

/// Leap years of the proleptic Gregorian calendar, which has a year zero.
pub open spec fn is_leap_year(year: int) -> bool {
    year % 4 == 0 && (year % 100 != 0 || year % 400 == 0)
}

/// How many days the month has in that year.
pub open spec fn days_in_month(year: int, month: int) -> int {
    if month == 2 {
        if is_leap_year(year) {
            29
        } else {
            28
        }
    } else if month == 4 || month == 6 || month == 9 || month == 11 {
        30
    } else {
        31
    }
}

/// Year, month and day name a day of the calendar, in a year that a date can
/// have.
pub open spec fn is_calendar_date(year: int, month: int, day: int) -> bool {
    &&& MIN_YEAR <= year <= MAX_YEAR
    &&& 1 <= month <= 12
    &&& 1 <= day <= days_in_month(year, month)
}

/// The year of a timestamp: four digits from 0 to 9999, and otherwise a sign
/// and at least four digits.
pub open spec fn year_text(year: int) -> Seq<char> {
    if 0 <= year <= 9999 {
        zero_padded(year as nat, 4)
    } else if year < 0 {
        seq!['-'] + zero_padded((-year) as nat, 4)
    } else {
        seq!['+'] + zero_padded(year as nat, 4)
    }
}

/// What stands between the day and the seconds: the hour and the minute of
/// midnight.
pub open spec fn midnight_text() -> Seq<char> {
    seq!['T', '0', '0', ':', '0', '0', ':']
}

/// The UTC offset of every timestamp: zero.
pub open spec fn utc_offset_text() -> Seq<char> {
    seq!['+', '0', '0', ':', '0', '0']
}

/// The timestamp of `seconds` past midnight UTC on the given day, such as
/// `2023-04-01T00:00:05+00:00`.
pub open spec fn timestamp_text(year: int, month: int, day: int, seconds: int) -> Seq<char> {
    year_text(year) + seq!['-'] + zero_padded(month as nat, 2) + seq!['-'] + zero_padded(
        day as nat,
        2,
    ) + midnight_text() + zero_padded(seconds as nat, 2) + utc_offset_text()
}

/// Calls chrono: `NaiveDate::from_ymd_opt`, `NaiveDate::and_hms_opt` with hour
/// and minute zero, `DateTime::<Utc>::from_naive_utc_and_offset` and
/// `DateTime::to_rfc3339`.
///
/// Believed of them, not proved: a date is made exactly of the days of the
/// proleptic Gregorian calendar in the years `MIN_YEAR` to `MAX_YEAR`, a time
/// exactly of seconds below sixty, and the text is the date with two-digit
/// month and day, `T`, the time with two digits each, and `+00:00`; the year
/// has four digits from 0 to 9999 and a sign before it otherwise.
#[verifier::external_body]
fn utc_rfc3339(year: i32, month: u32, day: u32, seconds: u32) -> (text: Option<String>)
    ensures
        match text {
            Some(written) => {
                &&& is_calendar_date(year as int, month as int, day as int)
                &&& seconds < SECONDS_PER_MINUTE
                &&& written@ == timestamp_text(year as int, month as int, day as int, seconds as int)
            },
            None => !(is_calendar_date(year as int, month as int, day as int) && seconds
                < SECONDS_PER_MINUTE),
        },
{
    let date = chrono::NaiveDate::from_ymd_opt(year, month, day)?;
    let time = date.and_hms_opt(0, 0, seconds)?;
    Some(chrono::DateTime::<chrono::Utc>::from_naive_utc_and_offset(time, chrono::Utc).to_rfc3339())
}

/// The timestamp of `seconds` past midnight UTC on the given day.
///
/// Fails with `InvalidCalendarDate` where year, month and day name no day of
/// the calendar.
pub fn build_post_time(year: i32, month: u32, day: u32, seconds: u32) -> (time: Result<
    String,
    ExtractError,
>)
    requires
        seconds < SECONDS_PER_MINUTE,
    ensures
        match time {
            Ok(written) => {
                &&& is_calendar_date(year as int, month as int, day as int)
                &&& written@ == timestamp_text(year as int, month as int, day as int, seconds as int)
            },
            Err(ExtractError::InvalidCalendarDate { year: y, month: m, day: d }) => {
                &&& !is_calendar_date(year as int, month as int, day as int)
                &&& y == year
                &&& m == month
                &&& d == day
            },
            Err(_) => false,
        },
{
    match utc_rfc3339(year, month, day, seconds) {
        Some(written) => Ok(written),
        None => Err(ExtractError::InvalidCalendarDate { year, month, day }),
    }
}

/// A timestamp tells its seconds: on one day, different seconds give
/// different texts.
pub proof fn lemma_timestamp_tells_seconds(year: int, month: int, day: int, s1: int, s2: int)
    requires
        0 <= s1 < SECONDS_PER_MINUTE,
        0 <= s2 < SECONDS_PER_MINUTE,
        timestamp_text(year, month, day, s1) == timestamp_text(year, month, day, s2),
    ensures
        s1 == s2,
{
    let before = year_text(year) + seq!['-'] + zero_padded(month as nat, 2) + seq!['-']
        + zero_padded(day as nat, 2) + midnight_text();
    let t1 = timestamp_text(year, month, day, s1);
    let t2 = timestamp_text(year, month, day, s2);
    let w1 = zero_padded(s1 as nat, 2);
    let w2 = zero_padded(s2 as nat, 2);
    lemma_two_digits(s1 as nat);
    lemma_two_digits(s2 as nat);
    assert(t1 == before + w1 + utc_offset_text());
    assert(t2 == before + w2 + utc_offset_text());
    let at = before.len() as int;
    assert(t1[at] == w1[0]);
    assert(t1[at + 1] == w1[1]);
    assert(t2[at] == w2[0]);
    assert(t2[at + 1] == w2[1]);
    assert(digit_char(s1 / 10) == digit_char(s2 / 10));
    assert(digit_char(s1 % 10) == digit_char(s2 % 10));
}

/// A timestamp written out, for the years that have four digits:
/// `YYYY-MM-DDT00:00:SS+00:00` with every place filled.
pub proof fn lemma_timestamp_shape(year: int, month: int, day: int, seconds: int)
    requires
        0 <= year <= 9999,
        0 <= month <= 99,
        0 <= day <= 99,
        0 <= seconds <= 99,
    ensures
        timestamp_text(year, month, day, seconds) == seq![
            digit_char(year / 1000),
            digit_char(year / 100 % 10),
            digit_char(year / 10 % 10),
            digit_char(year % 10),
            '-',
            digit_char(month / 10),
            digit_char(month % 10),
            '-',
            digit_char(day / 10),
            digit_char(day % 10),
            'T',
            '0',
            '0',
            ':',
            '0',
            '0',
            ':',
            digit_char(seconds / 10),
            digit_char(seconds % 10),
            '+',
            '0',
            '0',
            ':',
            '0',
            '0',
        ],
{
    lemma_four_digits(year as nat);
    lemma_two_digits(month as nat);
    lemma_two_digits(day as nat);
    lemma_two_digits(seconds as nat);
    assert(timestamp_text(year, month, day, seconds) =~= seq![
        digit_char(year / 1000),
        digit_char(year / 100 % 10),
        digit_char(year / 10 % 10),
        digit_char(year % 10),
        '-',
        digit_char(month / 10),
        digit_char(month % 10),
        '-',
        digit_char(day / 10),
        digit_char(day % 10),
        'T',
        '0',
        '0',
        ':',
        '0',
        '0',
        ':',
        digit_char(seconds / 10),
        digit_char(seconds % 10),
        '+',
        '0',
        '0',
        ':',
        '0',
        '0',
    ]);
}

} // verus!

//! Calendar time in UTC, from seconds of Unix time.

use vstd::prelude::*;
use crate::text::{padded, push_padded};

verus! {

/// Whether `year` is a leap year of the Gregorian calendar.
pub open spec fn is_leap_year(year: int) -> bool {
    year % 4 == 0 && (year % 100 != 0 || year % 400 == 0)
}

/// The number of days of `year`.
pub open spec fn days_in_year(year: int) -> int {
    if is_leap_year(year) {
        366
    } else {
        365
    }
}

/// The number of days of the month `month`, counted from 1, in `year`.
pub open spec fn days_in_month(year: int, month: int) -> int {
    if month == 2 {
        if is_leap_year(year) {
            29
        } else {
            28
        }
    } else if month == 4 || month == 6 || month == 9 || month == 11 {
        30
    } else {
        31
    }
}

/// The days from the start of 1970 to the start of `year`.
pub open spec fn days_before_year(year: int) -> int
    decreases year - 1970,
{
    if year <= 1970 {
        0
    } else {
        days_before_year(year - 1) + days_in_year(year - 1)
    }
}

/// The days from the start of `year` to the start of its month `month`.
pub open spec fn days_before_month(year: int, month: int) -> int
    decreases month,
{
    if month <= 1 {
        0
    } else {
        days_before_month(year, month - 1) + days_in_month(year, month - 1)
    }
}

/// Whether the day `days` days after the first of January 1970 is the
/// `day`th of the month `month` of `year`.
pub open spec fn is_civil_date(days: int, year: int, month: int, day: int) -> bool {
    &&& year >= 1970
    &&& 1 <= month <= 12
    &&& 1 <= day <= days_in_month(year, month)
    &&& days_before_year(year) + days_before_month(year, month) + day - 1 == days
}

/// A date of the calendar.
#[derive(Clone, Copy, Debug, PartialEq, Eq, Structural)]
pub struct CivilDate {
    pub year: u64,
    pub month: u64,
    pub day: u64,
}

/// The largest number of whole days that a count of seconds in 64 bits
/// reaches.
pub const MAX_DAYS: u64 = 213503982334601;

/// A year has as many days as its twelve months together.
pub proof fn lemma_year_is_twelve_months(year: int)
    ensures
        days_before_month(year, 13) == days_in_year(year),
{
    reveal_with_fuel(days_before_month, 14);
}

/// The start of a later year is no earlier than the end of an earlier one.
pub proof fn lemma_years_follow(year: int, later: int)
    requires
        1970 <= year < later,
    ensures
        days_before_year(year) + days_in_year(year) <= days_before_year(later),
    decreases later - year,
{
    if later > year + 1 {
        lemma_years_follow(year, later - 1);
    }
}

/// The start of a later month is no earlier than the end of an earlier one,
/// and the year ends with its twelfth month.
pub proof fn lemma_months_follow(year: int, month: int, later: int)
    requires
        1 <= month < later <= 13,
    ensures
        days_before_month(year, month) + days_in_month(year, month) <= days_before_month(
            year,
            later,
        ),
    decreases later - month,
{
    if later > month + 1 {
        lemma_months_follow(year, month, later - 1);
    }
}

/// No month starts before its year.
pub proof fn lemma_months_start_in_year(year: int, month: int)
    ensures
        days_before_month(year, month) >= 0,
    decreases month,
{
    if month > 1 {
        lemma_months_start_in_year(year, month - 1);
    }
}

/// A day has one date: the year, the month and the day of the month are
/// determined by the number of the day.
pub proof fn lemma_civil_date_is_unique(
    days: int,
    year: int,
    month: int,
    day: int,
    other_year: int,
    other_month: int,
    other_day: int,
)
    requires
        is_civil_date(days, year, month, day),
        is_civil_date(days, other_year, other_month, other_day),
    ensures
        year == other_year,
        month == other_month,
        day == other_day,
{
    lemma_year_is_twelve_months(year);
    lemma_year_is_twelve_months(other_year);
    lemma_months_follow(year, month, 13);
    lemma_months_follow(other_year, other_month, 13);
    lemma_months_start_in_year(year, month);
    lemma_months_start_in_year(other_year, other_month);
    if year < other_year {
        lemma_years_follow(year, other_year);
    } else if other_year < year {
        lemma_years_follow(other_year, year);
    } else if month < other_month {
        lemma_months_follow(year, month, other_month);
    } else if other_month < month {
        lemma_months_follow(year, other_month, month);
    }
}

/// The date of the day `days` days after the first of January 1970.
pub fn civil_date(days: u64) -> (date: CivilDate)
    requires
        days <= MAX_DAYS,
    ensures
        is_civil_date(days as int, date.year as int, date.month as int, date.day as int),
{
    let mut year: u64 = 1970;
    let mut remaining: u64 = days;
    loop
        invariant
            days <= MAX_DAYS,
            1970 <= year,
            year - 1970 <= days - remaining,
            remaining <= days,
            days_before_year(year as int) + remaining == days,
        ensures
            remaining < days_in_year(year as int),
        decreases remaining,
    {
        let leap = year % 4 == 0 && (year % 100 != 0 || year % 400 == 0);
        let length: u64 = if leap {
            366
        } else {
            365
        };
        if remaining < length {
            break ;
        }
        remaining = remaining - length;
        year = year + 1;
    }
    let leap = year % 4 == 0 && (year % 100 != 0 || year % 400 == 0);
    let mut month: u64 = 1;
    proof {
        lemma_year_is_twelve_months(year as int);
    }
    loop
        invariant
            1 <= month <= 12,
            leap == is_leap_year(year as int),
            days_before_year(year as int) + days_before_month(year as int, month as int)
                + remaining == days,
            days_before_month(year as int, month as int) + remaining < days_before_month(
                year as int,
                13,
            ),
        ensures
            remaining < days_in_month(year as int, month as int),
        decreases 13 - month,
    {
        let length: u64 = if month == 2 {
            if leap {
                29
            } else {
                28
            }
        } else if month == 4 || month == 6 || month == 9 || month == 11 {
            30
        } else {
            31
        };
        if remaining < length {
            break ;
        }
        proof {
            if month == 12 {
                assert(days_before_month(year as int, 13) == days_before_month(year as int, 12)
                    + days_in_month(year as int, 12));
            }
        }
        remaining = remaining - length;
        month = month + 1;
    }
    CivilDate { year, month, day: remaining + 1 }
}

/// The text of a point in time: year, month and day, then hour, minute and
/// second, each number with at least the digits of its place.
pub open spec fn iso_text(date: CivilDate, second_of_day: int) -> Seq<char> {
    padded(date.year as nat, 4) + seq!['-'] + padded(date.month as nat, 2) + seq!['-'] + padded(
        date.day as nat,
        2,
    ) + seq!['T'] + padded((second_of_day / 3600) as nat, 2) + seq![':'] + padded(
        ((second_of_day % 3600) / 60) as nat,
        2,
    ) + seq![':'] + padded((second_of_day % 60) as nat, 2) + seq!['Z']
}

/// Whether `text` is the ISO 8601 form, in UTC, of the point in time `secs`
/// seconds after the start of Unix time. There is one such text, since a
/// day has one date.
pub open spec fn is_timestamp_of(text: Seq<char>, secs: int) -> bool {
    exists|date: CivilDate|
        is_civil_date(secs / 86400, date.year as int, date.month as int, date.day as int) && text
            == #[trigger] iso_text(date, secs % 86400)
}

/// Writes a point in time, given in seconds of Unix time, in the ISO 8601
/// form `YYYY-MM-DDTHH:MM:SSZ`.
pub fn iso_timestamp(secs: u64) -> (text: String)
    ensures
        is_timestamp_of(text@, secs as int),
{
    let days = secs / 86400;
    let second_of_day = secs % 86400;
    let date = civil_date(days);
    let mut text = String::new();
    push_padded(&mut text, date.year, 4);
    text.push('-');
    push_padded(&mut text, date.month, 2);
    text.push('-');
    push_padded(&mut text, date.day, 2);
    text.push('T');
    push_padded(&mut text, second_of_day / 3600, 2);
    text.push(':');
    push_padded(&mut text, (second_of_day % 3600) / 60, 2);
    text.push(':');
    push_padded(&mut text, second_of_day % 60, 2);
    text.push('Z');
    assert(text@ =~= iso_text(date, second_of_day as int));
    text
}

} // verus!

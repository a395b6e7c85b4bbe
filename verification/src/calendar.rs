//! Instants as civil date and time in UTC, and their RFC 3339 notation.
//!
//! An instant is a count of seconds since the epoch, 1970-01-01T00:00:00 UTC, in the
//! proleptic Gregorian calendar. RFC 3339 writes years with four digits, so the instants
//! that have a notation are those of the years 0000 to 9999.

use vstd::prelude::*;
use crate::text::{padded_digits, push_char, push_padded, push_text};

verus! {

/// Seconds in a day.
pub const SECONDS_PER_DAY: i64 = 86_400;

/// Days from 0000-01-01 to the epoch.
pub const EPOCH_DAY: i64 = 719_528;

/// Days from 0000-01-01 to 10000-01-01.
pub const DAYS_IN_ALL_YEARS: i64 = 3_652_425;

/// The first instant that has a notation: 0000-01-01T00:00:00.
pub const FIRST_SECOND: i64 = -62_167_219_200;

/// The last instant that has a notation: 9999-12-31T23:59:59.
pub const LAST_SECOND: i64 = 253_402_300_799;

/// The first day that has a notation, as a count of days since the epoch.
pub const FIRST_DAY: i64 = -719_528;

/// The last day that has a notation, as a count of days since the epoch.
pub const LAST_DAY: i64 = 2_932_896;

/// Whether `year` is a leap year of the Gregorian calendar.
pub open spec fn is_leap_year(year: int) -> bool {
    year % 4 == 0 && (year % 100 != 0 || year % 400 == 0)
}

/// The number of days of `year`.
pub open spec fn year_length(year: int) -> int {
    if is_leap_year(year) {
        366
    } else {
        365
    }
}

/// The number of days of month `month` (1 to 12) of `year`.
pub open spec fn month_length(year: int, month: int) -> int {
    if month == 2 {
        if is_leap_year(year) {
            29
        } else {
            28
        }
    } else if month == 4 || month == 6 || month == 9 || month == 11 {
        30
    } else {
        31
    }
}

/// The number of days from 0000-01-01 to the first day of `year`, for `year >= 0`.
pub open spec fn days_before_year(year: int) -> int
    decreases year,
{
    if year <= 0 {
        0
    } else {
        days_before_year(year - 1) + year_length(year - 1)
    }
}

/// The number of days from the first day of `year` to the first day of its month
/// `month`.
pub open spec fn days_before_month(year: int, month: int) -> int
    decreases month,
{
    if month <= 1 {
        0
    } else {
        days_before_month(year, month - 1) + month_length(year, month - 1)
    }
}

/// The count of days from the epoch to the given day of the calendar.
pub open spec fn day_number(year: int, month: int, day: int) -> int {
    days_before_year(year) + days_before_month(year, month) + (day - 1) - EPOCH_DAY
}

/// Whether `seconds` is an instant of the years 0000 to 9999.
pub open spec fn has_notation(seconds: int) -> bool {
    FIRST_SECOND <= seconds <= LAST_SECOND
}

/// A date and a time of day.
#[derive(Clone, Copy, Debug, PartialEq, Eq, Structural)]
pub struct CivilTime {
    pub year: u16,
    pub month: u8,
    pub day: u8,
    pub hour: u8,
    pub minute: u8,
    pub second: u8,
}

impl CivilTime {
    /// Whether the fields name a day of the calendar in the years 0000 to 9999 and a
    /// time of that day.
    pub open spec fn valid(self) -> bool {
        &&& self.year <= 9999
        &&& 1 <= self.month <= 12
        &&& 1 <= self.day <= month_length(self.year as int, self.month as int)
        &&& self.hour < 24
        &&& self.minute < 60
        &&& self.second < 60
    }

    /// The instant that the fields name, in seconds since the epoch.
    pub open spec fn instant(self) -> int {
        day_number(self.year as int, self.month as int, self.day as int) * SECONDS_PER_DAY
            + self.hour * 3600 + self.minute * 60 + self.second
    }

    /// Whether this is the civil time in UTC of the instant `seconds`.
    pub open spec fn is_time_of(self, seconds: int) -> bool {
        self.valid() && self.instant() == seconds
    }

    /// The RFC 3339 notation: date and time joined by `T`, each number in two digits
    /// but the year in four, then the offset of UTC, `+00:00`.
    pub open spec fn notation(self) -> Seq<char> {
        padded_digits(self.year as nat, 4) + seq!['-'] + padded_digits(self.month as nat, 2)
            + seq!['-'] + padded_digits(self.day as nat, 2) + seq!['T'] + padded_digits(
            self.hour as nat,
            2,
        ) + seq![':'] + padded_digits(self.minute as nat, 2) + seq![':'] + padded_digits(
            self.second as nat,
            2,
        ) + "+00:00"@
    }

    /// Writes the RFC 3339 notation.
    pub fn to_rfc3339(&self) -> (text: String)
        ensures
            text@ == self.notation(),
    {
        let mut out = String::new();
        push_padded(&mut out, self.year as u128, 4);
        push_char(&mut out, '-');
        push_padded(&mut out, self.month as u128, 2);
        push_char(&mut out, '-');
        push_padded(&mut out, self.day as u128, 2);
        push_char(&mut out, 'T');
        push_padded(&mut out, self.hour as u128, 2);
        push_char(&mut out, ':');
        push_padded(&mut out, self.minute as u128, 2);
        push_char(&mut out, ':');
        push_padded(&mut out, self.second as u128, 2);
        push_text(&mut out, "+00:00");
        assert(out@ =~= self.notation());
        out
    }
}

/// The civil time in UTC of the instant `seconds`, for an instant that has a notation.
pub open spec fn civil_time(seconds: int) -> CivilTime {
    choose|t: CivilTime| t.is_time_of(seconds)
}

/// The RFC 3339 notation in UTC of the instant `seconds`, or `None` for an instant
/// outside the years 0000 to 9999.
pub open spec fn rfc3339(seconds: int) -> Option<Seq<char>> {
    if has_notation(seconds) {
        Some(civil_time(seconds).notation())
    } else {
        None
    }
}

/// The closed form of `days_before_year`: 365 days a year, and one more for each leap
/// year that went before.
pub proof fn lemma_days_before_year(year: int)
    requires
        year >= 0,
    ensures
        days_before_year(year) == 365 * year + (year + 3) / 4 - (year + 99) / 100 + (year + 399)
            / 400,
    decreases year,
{
    if year > 0 {
        lemma_days_before_year(year - 1);
    }
}

/// Later years start later.
pub proof fn lemma_years_ordered(earlier: int, later: int)
    requires
        0 <= earlier <= later,
    ensures
        days_before_year(earlier) <= days_before_year(later),
        earlier < later ==> days_before_year(earlier) + year_length(earlier) <= days_before_year(
            later,
        ),
        days_before_year(later) <= 366 * later,
    decreases later,
{
    if later > 0 {
        if earlier < later {
            lemma_years_ordered(earlier, later - 1);
        } else {
            lemma_years_ordered(earlier - 1, later - 1);
        }
    }
}

/// Later months start later, and the twelve months fill the year.
pub proof fn lemma_months_ordered(year: int, earlier: int, later: int)
    requires
        1 <= earlier <= later <= 13,
    ensures
        days_before_month(year, earlier) <= days_before_month(year, later),
        earlier < later ==> days_before_month(year, earlier) + month_length(year, earlier)
            <= days_before_month(year, later),
        days_before_month(year, 13) == year_length(year),
        days_before_month(year, 1) == 0,
    decreases later,
{
    reveal_with_fuel(days_before_month, 14);
    if earlier < later {
        lemma_months_ordered(year, earlier, later - 1);
    }
}

/// An instant has one civil time only.
pub proof fn lemma_civil_time_unique(seconds: int, a: CivilTime, b: CivilTime)
    requires
        a.is_time_of(seconds),
        b.is_time_of(seconds),
    ensures
        a == b,
{
    let day_a = day_number(a.year as int, a.month as int, a.day as int);
    let day_b = day_number(b.year as int, b.month as int, b.day as int);
    let rest_a = a.hour * 3600 + a.minute * 60 + a.second;
    let rest_b = b.hour * 3600 + b.minute * 60 + b.second;
    assert(0 <= rest_a < 86400 && 0 <= rest_b < 86400);
    assert(day_a == day_b) by {
        assert(day_a * 86400 + rest_a == day_b * 86400 + rest_b);
        if day_a < day_b {
            assert(day_a * 86400 + 86400 <= day_b * 86400) by (nonlinear_arith)
                requires
                    day_a + 1 <= day_b,
            ;
        }
        if day_b < day_a {
            assert(day_b * 86400 + 86400 <= day_a * 86400) by (nonlinear_arith)
                requires
                    day_b + 1 <= day_a,
            ;
        }
    }
    assert(rest_a == rest_b);
    lemma_date_unique(
        a.year as int,
        a.month as int,
        a.day as int,
        b.year as int,
        b.month as int,
        b.day as int,
    );
    assert(a.hour == b.hour && a.minute == b.minute && a.second == b.second);
}

/// A day has one date only.
pub proof fn lemma_date_unique(y1: int, m1: int, d1: int, y2: int, m2: int, d2: int)
    requires
        0 <= y1,
        0 <= y2,
        1 <= m1 <= 12,
        1 <= m2 <= 12,
        1 <= d1 <= month_length(y1, m1),
        1 <= d2 <= month_length(y2, m2),
        day_number(y1, m1, d1) == day_number(y2, m2, d2),
    ensures
        y1 == y2,
        m1 == m2,
        d1 == d2,
{
    lemma_day_within_year(y1, m1, d1);
    lemma_day_within_year(y2, m2, d2);
    if y1 < y2 {
        lemma_years_ordered(y1, y2);
    }
    if y2 < y1 {
        lemma_years_ordered(y2, y1);
    }
    if m1 < m2 {
        lemma_months_ordered(y1, m1, m2);
    }
    if m2 < m1 {
        lemma_months_ordered(y1, m2, m1);
    }
}

/// The days of a year lie between its first day and the first day of the next.
pub proof fn lemma_day_within_year(year: int, month: int, day: int)
    requires
        1 <= month <= 12,
        1 <= day <= month_length(year, month),
    ensures
        0 <= days_before_month(year, month) + (day - 1) < year_length(year),
{
    lemma_months_ordered(year, 1, month);
    lemma_months_ordered(year, month, 13);
}

/// The number of days from 0000-01-01 to the first day of `year`.
fn year_start(year: i64) -> (days: i64)
    requires
        0 <= year <= 10000,
    ensures
        days == days_before_year(year as int),
{
    proof {
        lemma_days_before_year(year as int);
    }
    365 * year + (year + 3) / 4 - (year + 99) / 100 + (year + 399) / 400
}

/// Whether `year` is a leap year.
fn leap_year(year: i64) -> (leap: bool)
    requires
        0 <= year,
    ensures
        leap == is_leap_year(year as int),
{
    year % 4 == 0 && (year % 100 != 0 || year % 400 == 0)
}

/// The number of days of month `month` of `year`.
fn days_in_month(year: i64, month: i64) -> (days: i64)
    requires
        0 <= year,
    ensures
        days == month_length(year as int, month as int),
{
    if month == 2 {
        if leap_year(year) {
            29
        } else {
            28
        }
    } else if month == 4 || month == 6 || month == 9 || month == 11 {
        30
    } else {
        31
    }
}

/// Milliseconds in a day.
pub const MILLISECONDS_PER_DAY: i64 = 86_400_000;

/// The day on which the instant of `milliseconds` since the epoch falls, as a count of
/// days since the epoch: the quotient by the milliseconds of a day, rounded down.
pub open spec fn day_of_milliseconds(milliseconds: int) -> int {
    milliseconds / (MILLISECONDS_PER_DAY as int)
}

/// The day on which the instant of `milliseconds` since the epoch falls.
pub fn days_from_milliseconds(milliseconds: i64) -> (days: i64)
    ensures
        days == day_of_milliseconds(milliseconds as int),
{
    if milliseconds >= 0 {
        milliseconds / MILLISECONDS_PER_DAY
    } else {
        let before: i64 = -(milliseconds + 1);
        -(before / MILLISECONDS_PER_DAY) - 1
    }
}

/// The civil time in UTC of the instant `seconds`, or `None` for an instant outside the
/// years 0000 to 9999.
pub fn civil_from_seconds(seconds: i64) -> (time: Option<CivilTime>)
    ensures
        time is Some <==> has_notation(seconds as int),
        time matches Some(t) ==> t.is_time_of(seconds as int) && t == civil_time(seconds as int),
{
    if seconds < FIRST_SECOND || seconds > LAST_SECOND {
        return None;
    }
    let since_year_zero: i64 = seconds - FIRST_SECOND;
    let day_index: i64 = since_year_zero / SECONDS_PER_DAY;
    let second_of_day: i64 = since_year_zero % SECONDS_PER_DAY;
    assert(0 <= day_index < DAYS_IN_ALL_YEARS);

    let mut year: i64 = day_index / 366;
    proof {
        lemma_years_ordered(year as int, year as int);
        lemma_years_ordered(0, 10000);
        lemma_days_before_year(10000);
    }
    while year_start(year + 1) <= day_index
        invariant
            0 <= year <= 9999,
            0 <= day_index < DAYS_IN_ALL_YEARS,
            days_before_year(year as int) <= day_index,
            days_before_year(10000) == DAYS_IN_ALL_YEARS,
        decreases 10000 - year,
    {
        year = year + 1;
        proof {
            if year >= 10000 {
                lemma_years_ordered(10000, year as int);
            }
        }
    }
    let mut rest: i64 = day_index - year_start(year);
    let mut month: i64 = 1;
    proof {
        lemma_months_ordered(year as int, 1, 1);
        lemma_months_ordered(year as int, 1, 13);
    }
    while rest >= days_in_month(year, month)
        invariant
            0 <= year <= 9999,
            1 <= month <= 12,
            0 <= rest,
            days_before_month(year as int, month as int) + rest == day_index - days_before_year(
                year as int,
            ),
            day_index - days_before_year(year as int) < year_length(year as int),
        decreases 13 - month,
    {
        proof {
            lemma_months_ordered(year as int, month as int, 13);
            lemma_months_ordered(year as int, month as int + 1, 13);
            reveal_with_fuel(days_before_month, 2);
        }
        rest = rest - days_in_month(year, month);
        month = month + 1;
    }
    let hour: i64 = second_of_day / 3600;
    let minute: i64 = (second_of_day % 3600) / 60;
    let second: i64 = second_of_day % 60;
    let t = CivilTime {
        year: year as u16,
        month: month as u8,
        day: (rest + 1) as u8,
        hour: hour as u8,
        minute: minute as u8,
        second: second as u8,
    };
    proof {
        lemma_days_before_year(1970);
        assert(t.valid());
        assert(t.instant() == seconds) by {
            let n = day_number(t.year as int, t.month as int, t.day as int);
            assert(n == day_index - EPOCH_DAY);
            assert(since_year_zero == day_index * 86400 + second_of_day);
            assert(second_of_day == hour * 3600 + minute * 60 + second);
            assert(n * 86400 == day_index * 86400 - EPOCH_DAY * 86400) by (nonlinear_arith)
                requires
                    n == day_index - EPOCH_DAY,
            ;
        }
        assert(t.is_time_of(seconds as int));
        lemma_civil_time_unique(seconds as int, t, civil_time(seconds as int));
    }
    Some(t)
}

} // verus!

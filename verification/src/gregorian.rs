//! The proleptic Gregorian calendar as mathematics: which dates exist, how
//! many days precede each of them, and the facts about that count on which
//! the rest of the crate relies.

use vstd::prelude::*;

verus! {

/// First year of the supported calendar: the first of which chrono's
/// `NaiveDate` holds every day.
pub const MIN_YEAR: i32 = -262143;

/// Last year of the supported calendar: the last of which chrono's
/// `NaiveDate` holds every day.
pub const MAX_YEAR: i32 = 262142;

/// Whether `year` has a 29th of February.
pub open spec fn is_leap_year(year: int) -> bool {
    year % 4 == 0 && (year % 100 != 0 || year % 400 == 0)
}

/// Length of a month; meaningful for months 1 to 12.
pub open spec fn days_in_month(year: int, month: int) -> int {
    if month == 2 {
        if is_leap_year(year) {
            29
        } else {
            28
        }
    } else if month == 4 || month == 6 || month == 9 || month == 11 {
        30
    } else {
        31
    }
}

/// Length of a year.
pub open spec fn days_in_year(year: int) -> int {
    if is_leap_year(year) {
        366
    } else {
        365
    }
}

/// Whether year, month and day name a day of the Gregorian calendar.
pub open spec fn is_calendar_date(year: int, month: int, day: int) -> bool {
    1 <= month <= 12 && 1 <= day <= days_in_month(year, month)
}

/// Whether the date exists and its year lies in the supported span.
pub open spec fn date_exists(year: int, month: int, day: int) -> bool {
    is_calendar_date(year, month, day) && MIN_YEAR <= year <= MAX_YEAR
}

/// Days of `year` that lie before the first of `month`, for the months 1 to
/// 12; for 13, the days of the whole year.
pub open spec fn days_before_month(year: int, month: int) -> int {
    let in_common_year: int = if month <= 1 {
        0
    } else if month == 2 {
        31
    } else if month == 3 {
        59
    } else if month == 4 {
        90
    } else if month == 5 {
        120
    } else if month == 6 {
        151
    } else if month == 7 {
        181
    } else if month == 8 {
        212
    } else if month == 9 {
        243
    } else if month == 10 {
        273
    } else if month == 11 {
        304
    } else if month == 12 {
        334
    } else {
        365
    };
    if month > 2 && is_leap_year(year) {
        in_common_year + 1
    } else {
        in_common_year
    }
}

/// Days from 0001-01-01 up to, and not including, the first of January of
/// `year`; negative for years before 1.
pub open spec fn days_before_year(year: int) -> int {
    let y = year - 1;
    365 * y + y / 4 - y / 100 + y / 400
}

/// Position of a date on the line of days: 0001-01-01 is day 1, and each
/// following day is one more.
pub open spec fn day_number(year: int, month: int, day: int) -> int {
    days_before_year(year) + days_before_month(year, month) + day
}

/// Day number of the first supported day.
pub open spec fn min_day_number() -> int {
    day_number(MIN_YEAR as int, 1, 1)
}

/// Day number of the last supported day.
pub open spec fn max_day_number() -> int {
    day_number(MAX_YEAR as int, 12, 31)
}

/// Weekday of a date, 0 for Sunday up to 6 for Saturday. Day 1 is a Monday.
pub open spec fn weekday_index(year: int, month: int, day: int) -> int {
    day_number(year, month, day) % 7
}

/// The month after `(year, month)`.
pub open spec fn following_month(year: int, month: int) -> (int, int) {
    if month == 12 {
        (year + 1, 1)
    } else {
        (year, month + 1)
    }
}

/// The month before `(year, month)`.
pub open spec fn preceding_month(year: int, month: int) -> (int, int) {
    if month == 1 {
        (year - 1, 12)
    } else {
        (year, month - 1)
    }
}

/// The day that comes `days` days after a day, for up to 28 days: a day of
/// the same month where the month is long enough, else of the month after it.
pub open spec fn days_later(year: int, month: int, day: int, days: int) -> (int, int, int) {
    if day + days <= days_in_month(year, month) {
        (year, month, day + days)
    } else {
        let after = following_month(year, month);
        (after.0, after.1, day + days - days_in_month(year, month))
    }
}

/// The day that comes `days` days before a day, for up to 28 days: a day of
/// the same month where the day lies far enough into it, else of the month
/// before it.
pub open spec fn days_earlier(year: int, month: int, day: int, days: int) -> (int, int, int) {
    if day - days >= 1 {
        (year, month, day - days)
    } else {
        let before = preceding_month(year, month);
        (before.0, before.1, days_in_month(before.0, before.1) + day - days)
    }
}

/// The days before a month are the days of the months before it: none
/// before January, and with each month the days of that month more.
pub proof fn lemma_days_before_month(year: int, month: int)
    requires
        1 <= month <= 12,
    ensures
        days_before_month(year, 1) == 0,
        days_before_month(year, month + 1) == days_before_month(year, month) + days_in_month(
            year,
            month,
        ),
        days_before_month(year, 13) == days_in_year(year),
{
}

/// A year is as long as the distance between two first days of January.
pub proof fn lemma_year_length(year: int)
    ensures
        days_before_year(year + 1) == days_before_year(year) + days_in_year(year),
{
    let fours = year / 4 - (year - 1) / 4;
    let hundreds = year / 100 - (year - 1) / 100;
    let four_hundreds = year / 400 - (year - 1) / 400;
    assert(fours == if year % 4 == 0 { 1int } else { 0int });
    assert(hundreds == if year % 100 == 0 { 1int } else { 0int });
    assert(four_hundreds == if year % 400 == 0 { 1int } else { 0int });
    assert(year % 400 == 0 ==> year % 100 == 0);
    assert(year % 100 == 0 ==> year % 4 == 0);
    assert(days_before_year(year + 1) - days_before_year(year) == 365 + fours - hundreds
        + four_hundreds);
}

/// The first of the following month comes `days_in_month` days after the
/// first of a month.
pub proof fn lemma_month_length(year: int, month: int)
    requires
        1 <= month <= 12,
    ensures
        day_number(following_month(year, month).0, following_month(year, month).1, 1)
            == day_number(year, month, 1) + days_in_month(year, month),
{
    lemma_year_length(year);
}

/// Later years start later, by at least 365 days a year.
pub proof fn lemma_years_ordered(a: int, b: int)
    requires
        a <= b,
    ensures
        days_before_year(a) + 365 * (b - a) <= days_before_year(b),
    decreases b - a,
{
    if a < b {
        lemma_years_ordered(a, b - 1);
        lemma_year_length(b - 1);
    }
}

/// `days_later` names a day of the calendar, and the one that many days on.
pub proof fn lemma_days_later(year: int, month: int, day: int, days: int)
    requires
        is_calendar_date(year, month, day),
        0 <= days <= 28,
    ensures
        ({
            let later = days_later(year, month, day, days);
            &&& is_calendar_date(later.0, later.1, later.2)
            &&& day_number(later.0, later.1, later.2) == day_number(year, month, day) + days
        }),
{
    lemma_month_length(year, month);
}

/// `days_earlier` names a day of the calendar, and the one that many days
/// back.
pub proof fn lemma_days_earlier(year: int, month: int, day: int, days: int)
    requires
        is_calendar_date(year, month, day),
        0 <= days <= 28,
    ensures
        ({
            let earlier = days_earlier(year, month, day, days);
            &&& is_calendar_date(earlier.0, earlier.1, earlier.2)
            &&& day_number(earlier.0, earlier.1, earlier.2) == day_number(year, month, day) - days
        }),
{
    let before = preceding_month(year, month);
    lemma_month_length(before.0, before.1);
}

/// Going on by some days and back by as many, or back and then on, ends on
/// the day where it began.
pub proof fn lemma_days_there_and_back(year: int, month: int, day: int, days: int)
    requires
        is_calendar_date(year, month, day),
        0 <= days <= 28,
    ensures
        ({
            let later = days_later(year, month, day, days);
            days_earlier(later.0, later.1, later.2, days) == (year, month, day)
        }),
        ({
            let earlier = days_earlier(year, month, day, days);
            days_later(earlier.0, earlier.1, earlier.2, days) == (year, month, day)
        }),
{
}

/// A day of a year outside the supported span has its day number outside
/// the span of day numbers.
pub proof fn lemma_day_number_outside_span(year: int, month: int, day: int)
    requires
        is_calendar_date(year, month, day),
        !(MIN_YEAR <= year <= MAX_YEAR),
    ensures
        !(min_day_number() <= day_number(year, month, day) <= max_day_number()),
{
    if year > MAX_YEAR {
        lemma_day_number_ordered(MAX_YEAR as int, 12, 31, year, month, day);
    } else {
        lemma_day_number_ordered(year, month, day, MIN_YEAR as int, 1, 1);
    }
}

/// Whether the first date comes before the second, by year, month, day.
pub open spec fn date_before(y1: int, m1: int, d1: int, y2: int, m2: int, d2: int) -> bool {
    y1 < y2 || (y1 == y2 && (m1 < m2 || (m1 == m2 && d1 < d2)))
}

/// The day number orders dates as year, month and day do.
pub proof fn lemma_day_number_ordered(y1: int, m1: int, d1: int, y2: int, m2: int, d2: int)
    requires
        is_calendar_date(y1, m1, d1),
        is_calendar_date(y2, m2, d2),
        date_before(y1, m1, d1, y2, m2, d2),
    ensures
        day_number(y1, m1, d1) < day_number(y2, m2, d2),
{
    if y1 < y2 {
        lemma_year_length(y1);
        lemma_years_ordered(y1 + 1, y2);
    }
}

/// Two dates with the same day number are the same date.
pub proof fn lemma_day_number_injective(y1: int, m1: int, d1: int, y2: int, m2: int, d2: int)
    requires
        is_calendar_date(y1, m1, d1),
        is_calendar_date(y2, m2, d2),
        day_number(y1, m1, d1) == day_number(y2, m2, d2),
    ensures
        y1 == y2 && m1 == m2 && d1 == d2,
{
    if date_before(y1, m1, d1, y2, m2, d2) {
        lemma_day_number_ordered(y1, m1, d1, y2, m2, d2);
    } else if date_before(y2, m2, d2, y1, m1, d1) {
        lemma_day_number_ordered(y2, m2, d2, y1, m1, d1);
    }
}

/// Every supported date has its day number between the two ends.
pub proof fn lemma_day_number_in_span(year: int, month: int, day: int)
    requires
        date_exists(year, month, day),
    ensures
        min_day_number() <= day_number(year, month, day) <= max_day_number(),
{
    if date_before(MIN_YEAR as int, 1, 1, year, month, day) {
        lemma_day_number_ordered(MIN_YEAR as int, 1, 1, year, month, day);
    }
    if date_before(year, month, day, MAX_YEAR as int, 12, 31) {
        lemma_day_number_ordered(year, month, day, MAX_YEAR as int, 12, 31);
    }
}

/// Tests `is_leap_year`.
pub fn is_leap(year: i32) -> (r: bool)
    ensures
        r == is_leap_year(year as int),
{
    // The leap years repeat every 400 years, so the test may be made that
    // many centuries later, where no year is below zero.
    let later: i64 = year as i64 + 400 * 5368710;
    assert(later % 4 == year as int % 4);
    assert(later % 100 == year as int % 100);
    assert(later % 400 == year as int % 400);
    later % 4 == 0 && (later % 100 != 0 || later % 400 == 0)
}

/// Computes `days_in_month`.
pub fn month_length(year: i32, month: u32) -> (r: u32)
    ensures
        r == days_in_month(year as int, month as int),
{
    if month == 2 {
        if is_leap(year) {
            29
        } else {
            28
        }
    } else if month == 4 || month == 6 || month == 9 || month == 11 {
        30
    } else {
        31
    }
}

/// Tests `is_calendar_date`.
pub fn is_date(year: i32, month: u32, day: u32) -> (r: bool)
    ensures
        r == is_calendar_date(year as int, month as int, day as int),
{
    1 <= month && month <= 12 && 1 <= day && day <= month_length(year, month)
}

/// The quotient rounded down, for a divisor above zero.
fn floor_div(a: i64, b: i64) -> (r: i64)
    requires
        b > 0,
        a > i64::MIN + b,
    ensures
        r == a / b,
{
    if a >= 0 {
        a / b
    } else {
        let q = (-a + b - 1) / b;
        assert(-(q as int) == (a as int) / (b as int)) by (nonlinear_arith)
            requires
                a < 0,
                b > 0,
                q as int == (-(a as int) + b - 1) / (b as int),
        ;
        -q
    }
}

/// Computes `day_number` for a month of the twelve.
pub fn day_number_of(year: i32, month: u32, day: u32) -> (r: i64)
    requires
        1 <= month <= 12,
    ensures
        r == day_number(year as int, month as int, day as int),
{
    let y: i64 = year as i64 - 1;
    let before_year: i64 = 365 * y + floor_div(y, 4) - floor_div(y, 100) + floor_div(y, 400);
    let mut before_month: i64 = 0;
    let mut m: u32 = 1;
    while m < month
        invariant
            1 <= m <= month <= 12,
            before_month == days_before_month(year as int, m as int),
            0 <= before_month <= 31 * (m - 1),
        decreases month - m,
    {
        proof {
            lemma_days_before_month(year as int, m as int);
        }
        before_month = before_month + month_length(year, m) as i64;
        m += 1;
    }
    before_year + before_month + day as i64
}

} // verus!

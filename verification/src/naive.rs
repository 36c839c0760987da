//! The calls into chrono. Each function here hands plain numbers to chrono's
//! `NaiveDate` and hands plain numbers back; what it promises is taken on
//! trust from chrono and stated over the calendar of `gregorian`.

use chrono::Datelike;
use crate::gregorian::{date_exists, day_number, max_day_number, min_day_number, weekday_index};
use vstd::prelude::*;

verus! {

/// Whether `NaiveDate::from_ymd_opt` makes a date of the three numbers.
/// chrono makes one exactly for the days of the proleptic Gregorian calendar
/// whose year lies between its own first and last year.
#[verifier::external_body]
pub(crate) fn naive_date_exists(year: i32, month: u32, day: u32) -> (r: bool)
    ensures
        r == date_exists(year as int, month as int, day as int),
{
    chrono::NaiveDate::from_ymd_opt(year, month, day).is_some()
}

/// `NaiveDate::checked_add_days`: the date `days` days after the given one,
/// or `None` when that day lies after chrono's last date.
#[verifier::external_body]
pub(crate) fn naive_checked_add_days(year: i32, month: u32, day: u32, days: u64) -> (r: Option<
    (i32, u32, u32),
>)
    requires
        date_exists(year as int, month as int, day as int),
    ensures
        match r {
            Some((y, m, d)) => date_exists(y as int, m as int, d as int) && day_number(
                y as int,
                m as int,
                d as int,
            ) == day_number(year as int, month as int, day as int) + days,
            None => day_number(year as int, month as int, day as int) + days > max_day_number(),
        },
{
    let start = chrono::NaiveDate::from_ymd_opt(year, month, day)?;
    let moved = start.checked_add_days(chrono::Days::new(days))?;
    Some((moved.year(), moved.month(), moved.day()))
}

/// `NaiveDate::checked_sub_days`: the date `days` days before the given one,
/// or `None` when that day lies before chrono's first date.
#[verifier::external_body]
pub(crate) fn naive_checked_sub_days(year: i32, month: u32, day: u32, days: u64) -> (r: Option<
    (i32, u32, u32),
>)
    requires
        date_exists(year as int, month as int, day as int),
    ensures
        match r {
            Some((y, m, d)) => date_exists(y as int, m as int, d as int) && day_number(
                y as int,
                m as int,
                d as int,
            ) == day_number(year as int, month as int, day as int) - days,
            None => day_number(year as int, month as int, day as int) - days < min_day_number(),
        },
{
    let start = chrono::NaiveDate::from_ymd_opt(year, month, day)?;
    let moved = start.checked_sub_days(chrono::Days::new(days))?;
    Some((moved.year(), moved.month(), moved.day()))
}

/// `NaiveDate::weekday` followed by `Weekday::number_from_sunday`: 1 for a
/// Sunday up to 7 for a Saturday.
#[verifier::external_body]
pub(crate) fn naive_number_from_sunday(year: i32, month: u32, day: u32) -> (r: u32)
    requires
        date_exists(year as int, month as int, day as int),
    ensures
        r == weekday_index(year as int, month as int, day as int) + 1,
{
    chrono::NaiveDate::from_ymd_opt(year, month, day).unwrap().weekday().number_from_sunday()
}

/// `NaiveDate::signed_duration_since` followed by `TimeDelta::num_days`: how
/// many days the first date lies after the second, negative when it lies
/// before it.
#[verifier::external_body]
pub(crate) fn naive_days_since(
    year: i32,
    month: u32,
    day: u32,
    from_year: i32,
    from_month: u32,
    from_day: u32,
) -> (r: i64)
    requires
        date_exists(year as int, month as int, day as int),
        date_exists(from_year as int, from_month as int, from_day as int),
    ensures
        r == day_number(year as int, month as int, day as int) - day_number(
            from_year as int,
            from_month as int,
            from_day as int,
        ),
{
    let date = chrono::NaiveDate::from_ymd_opt(year, month, day).unwrap();
    let from = chrono::NaiveDate::from_ymd_opt(from_year, from_month, from_day).unwrap();
    date.signed_duration_since(from).num_days()
}

/// `Local::now` followed by `DateTime::date_naive`: year, month and day of
/// the machine's clock in its own time zone. Nothing is promised of them.
#[verifier::external_body]
pub(crate) fn local_clock_date() -> (r: (i32, u32, u32)) {
    let date = chrono::Local::now().date_naive();
    (date.year(), date.month(), date.day())
}

} // verus!

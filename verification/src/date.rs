//! Days of the calendar: making them, moving by days, weekdays, order and
//! text.

use crate::format::{fmt_twodigit, two_digit_text, weekday_name_text};
use crate::gregorian::{
    date_before, date_exists, day_number, days_earlier, days_later, lemma_day_number_in_span,
    lemma_day_number_injective, lemma_day_number_ordered, lemma_days_earlier, lemma_days_later,
    max_day_number, min_day_number, weekday_index,
};
use crate::naive::{
    local_clock_date, naive_checked_add_days, naive_checked_sub_days, naive_date_exists,
    naive_number_from_sunday,
};
use crate::text::{decimal_string, decimal_text};
use vstd::prelude::*;

verus! {

/// A day of the calendar. The fields are open; a value is a real date when
/// `wf` holds, and every function below that takes a date asks for that.
#[derive(Clone, Copy, Debug, PartialEq, Eq, PartialOrd, Ord, Structural)]
pub struct RicalDate {
    pub year: i32,
    pub month: u32,
    pub day: u32,
}

/// The three numbers that `RicalDate::new` turned down.
#[derive(Clone, Copy, Debug, PartialEq, Eq, Structural)]
pub struct InvalidDate {
    pub year: i32,
    pub month: u32,
    pub day: u32,
}

/// How one date lies to another in time.
#[derive(Clone, Copy, Debug, PartialEq, Eq, Structural)]
pub enum DateOrder {
    Less,
    Equal,
    Greater,
}

impl RicalDate {
    /// The date exists in the supported calendar.
    pub open spec fn wf(&self) -> bool {
        date_exists(self.year as int, self.month as int, self.day as int)
    }

    /// Where the date lies on the line of days.
    pub open spec fn day_number(&self) -> int {
        day_number(self.year as int, self.month as int, self.day as int)
    }

    /// Year, month and day as numbers.
    pub open spec fn numbers(&self) -> (int, int, int) {
        (self.year as int, self.month as int, self.day as int)
    }

    /// The weekday, 0 for Sunday up to 6 for Saturday.
    pub open spec fn weekday_index(&self) -> int {
        weekday_index(self.year as int, self.month as int, self.day as int)
    }

    /// Tests `wf`.
    pub fn is_wf(&self) -> (r: bool)
        ensures
            r == self.wf(),
    {
        naive_date_exists(self.year, self.month, self.day)
    }

    /// Makes a date, or says that no such day exists: month 0 or 13, day 0,
    /// a day past the month's end, a year outside the supported span.
    pub fn new(year: i32, month: u32, day: u32) -> (r: Result<RicalDate, InvalidDate>)
        ensures
            date_exists(year as int, month as int, day as int) ==> r == Ok::<
                RicalDate,
                InvalidDate,
            >(RicalDate { year, month, day }),
            !date_exists(year as int, month as int, day as int) ==> r == Err::<
                RicalDate,
                InvalidDate,
            >(InvalidDate { year, month, day }),
    {
        if naive_date_exists(year, month, day) {
            Ok(RicalDate { year, month, day })
        } else {
            Err(InvalidDate { year, month, day })
        }
    }

    /// The date that the machine's clock shows in its own time zone. What
    /// the clock shows is checked like any other three numbers.
    pub fn today() -> (r: Result<RicalDate, InvalidDate>)
        ensures
            match r {
                Ok(date) => date.wf(),
                Err(rejected) => !date_exists(
                    rejected.year as int,
                    rejected.month as int,
                    rejected.day as int,
                ),
            },
    {
        let (year, month, day) = local_clock_date();
        RicalDate::new(year, month, day)
    }

    /// The date `days` days later, or `None` when that day lies after the
    /// last supported one.
    pub fn checked_add_days(&self, days: u64) -> (r: Option<RicalDate>)
        requires
            self.wf(),
        ensures
            r is Some <==> self.day_number() + days <= max_day_number(),
            r matches Some(date) ==> date.wf() && date.day_number() == self.day_number() + days,
            r matches Some(date) ==> (days <= 28 ==> date.numbers() == days_later(
                self.year as int,
                self.month as int,
                self.day as int,
                days as int,
            )),
            r == date_at_offset(*self, days as int),
    {
        match naive_checked_add_days(self.year, self.month, self.day, days) {
            Some((year, month, day)) => {
                proof {
                    lemma_day_number_in_span(year as int, month as int, day as int);
                    lemma_date_at_offset(*self, days as int, RicalDate { year, month, day });
                    if days <= 28 {
                        lemma_is_days_later(*self, days as int, RicalDate { year, month, day });
                    }
                }
                Some(RicalDate { year, month, day })
            },
            None => {
                proof {
                    lemma_no_date_outside_span(*self, days as int);
                }
                None
            },
        }
    }

    /// The date `days` days earlier, or `None` when that day lies before the
    /// first supported one.
    pub fn checked_sub_days(&self, days: u64) -> (r: Option<RicalDate>)
        requires
            self.wf(),
        ensures
            r is Some <==> self.day_number() - days >= min_day_number(),
            r matches Some(date) ==> date.wf() && date.day_number() == self.day_number() - days,
            r matches Some(date) ==> (days <= 28 ==> date.numbers() == days_earlier(
                self.year as int,
                self.month as int,
                self.day as int,
                days as int,
            )),
            r == date_at_offset(*self, -(days as int)),
    {
        match naive_checked_sub_days(self.year, self.month, self.day, days) {
            Some((year, month, day)) => {
                proof {
                    lemma_day_number_in_span(year as int, month as int, day as int);
                    lemma_date_at_offset(*self, -(days as int), RicalDate { year, month, day });
                    if days <= 28 {
                        lemma_is_days_earlier(*self, days as int, RicalDate { year, month, day });
                    }
                }
                Some(RicalDate { year, month, day })
            },
            None => {
                proof {
                    lemma_no_date_outside_span(*self, -(days as int));
                }
                None
            },
        }
    }

    /// The date `days` days later; months and years roll over as the
    /// calendar has them.
    pub fn add_days(&self, days: u64) -> (r: RicalDate)
        requires
            self.wf(),
            self.day_number() + days <= max_day_number(),
        ensures
            r.wf(),
            r.day_number() == self.day_number() + days,
            days <= 28 ==> r.numbers() == days_later(
                self.year as int,
                self.month as int,
                self.day as int,
                days as int,
            ),
            Some(r) == date_at_offset(*self, days as int),
    {
        match self.checked_add_days(days) {
            Some(date) => date,
            None => vstd::pervasive::unreached(),
        }
    }

    /// The date `days` days earlier.
    pub fn sub_days(&self, days: u64) -> (r: RicalDate)
        requires
            self.wf(),
            self.day_number() - days >= min_day_number(),
        ensures
            r.wf(),
            r.day_number() == self.day_number() - days,
            days <= 28 ==> r.numbers() == days_earlier(
                self.year as int,
                self.month as int,
                self.day as int,
                days as int,
            ),
            Some(r) == date_at_offset(*self, -(days as int)),
    {
        match self.checked_sub_days(days) {
            Some(date) => date,
            None => vstd::pervasive::unreached(),
        }
    }

    /// The weekday, 0 for Sunday up to 6 for Saturday.
    pub fn weekday(&self) -> (r: u32)
        requires
            self.wf(),
        ensures
            r == self.weekday_index(),
            r < 7,
    {
        naive_number_from_sunday(self.year, self.month, self.day) - 1
    }

    /// Orders two dates by year, then month, then day.
    pub fn compare(&self, other: &RicalDate) -> (r: DateOrder)
        ensures
            r == if date_before(
                self.year as int,
                self.month as int,
                self.day as int,
                other.year as int,
                other.month as int,
                other.day as int,
            ) {
                DateOrder::Less
            } else if *self == *other {
                DateOrder::Equal
            } else {
                DateOrder::Greater
            },
    {
        if self.year < other.year || (self.year == other.year && (self.month < other.month || (
        self.month == other.month && self.day < other.day))) {
            DateOrder::Less
        } else if self.year == other.year && self.month == other.month && self.day == other.day {
            DateOrder::Equal
        } else {
            DateOrder::Greater
        }
    }

    /// The date as `YYYY/MM/DD`: the year as it is, month and day with two
    /// digits.
    pub fn format(&self) -> (r: String)
        ensures
            r@ == date_text(self.year as int, self.month as int, self.day as int),
    {
        let mut out = decimal_string(self.year as i64);
        out.append("/");
        out.append(fmt_twodigit(self.month as i64).as_str());
        out.append("/");
        out.append(fmt_twodigit(self.day as i64).as_str());
        proof {
            reveal_strlit("/");
            assert("/"@ =~= seq!['/']);
        }
        out
    }

    /// The English name of the date's weekday.
    pub fn weekday_name(&self) -> (r: String)
        requires
            self.wf(),
        ensures
            r@ == weekday_name_text(self.weekday_index()),
    {
        let weekday = self.weekday();
        let name = if weekday == 0 {
            "Sunday"
        } else if weekday == 1 {
            "Monday"
        } else if weekday == 2 {
            "Tuesday"
        } else if weekday == 3 {
            "Wednesday"
        } else if weekday == 4 {
            "Thursday"
        } else if weekday == 5 {
            "Friday"
        } else {
            "Saturday"
        };
        String::from_str(name)
    }
}

/// The text of `RicalDate::format`.
pub open spec fn date_text(year: int, month: int, day: int) -> Seq<char> {
    decimal_text(year) + seq!['/'] + two_digit_text(month) + seq!['/'] + two_digit_text(day)
}

/// The date that lies `offset` days from a date, later for a positive
/// offset and earlier for a negative one; `None` where the supported calendar
/// has no such day.
pub open spec fn date_at_offset(date: RicalDate, offset: int) -> Option<RicalDate> {
    if exists|arrival: RicalDate|
        arrival.wf() && #[trigger] arrival.day_number() == date.day_number() + offset {
        Some(
            choose|arrival: RicalDate|
                arrival.wf() && #[trigger] arrival.day_number() == date.day_number() + offset,
        )
    } else {
        None
    }
}

/// `date_at_offset` is the one date at that distance.
pub proof fn lemma_date_at_offset(date: RicalDate, offset: int, arrival: RicalDate)
    requires
        arrival.wf(),
        arrival.day_number() == date.day_number() + offset,
    ensures
        date_at_offset(date, offset) == Some(arrival),
{
    let chosen = choose|other: RicalDate|
        other.wf() && #[trigger] other.day_number() == date.day_number() + offset;
    lemma_day_number_injective(
        chosen.year as int,
        chosen.month as int,
        chosen.day as int,
        arrival.year as int,
        arrival.month as int,
        arrival.day as int,
    );
}

/// The date that lies up to 28 days after a date is the one that
/// `days_later` names.
pub proof fn lemma_is_days_later(date: RicalDate, days: int, arrival: RicalDate)
    requires
        date.wf(),
        arrival.wf(),
        0 <= days <= 28,
        arrival.day_number() == date.day_number() + days,
    ensures
        arrival.numbers() == days_later(
            date.year as int,
            date.month as int,
            date.day as int,
            days,
        ),
{
    let later = days_later(date.year as int, date.month as int, date.day as int, days);
    lemma_days_later(date.year as int, date.month as int, date.day as int, days);
    lemma_day_number_injective(
        later.0,
        later.1,
        later.2,
        arrival.year as int,
        arrival.month as int,
        arrival.day as int,
    );
}

/// The date that lies up to 28 days before a date is the one that
/// `days_earlier` names.
pub proof fn lemma_is_days_earlier(date: RicalDate, days: int, arrival: RicalDate)
    requires
        date.wf(),
        arrival.wf(),
        0 <= days <= 28,
        arrival.day_number() == date.day_number() - days,
    ensures
        arrival.numbers() == days_earlier(
            date.year as int,
            date.month as int,
            date.day as int,
            days,
        ),
{
    let earlier = days_earlier(date.year as int, date.month as int, date.day as int, days);
    lemma_days_earlier(date.year as int, date.month as int, date.day as int, days);
    lemma_day_number_injective(
        earlier.0,
        earlier.1,
        earlier.2,
        arrival.year as int,
        arrival.month as int,
        arrival.day as int,
    );
}

/// Outside the supported calendar `date_at_offset` finds nothing.
pub proof fn lemma_no_date_outside_span(date: RicalDate, offset: int)
    requires
        !(min_day_number() <= date.day_number() + offset <= max_day_number()),
    ensures
        date_at_offset(date, offset) is None,
{
    assert forall|arrival: RicalDate|
        arrival.wf() implies #[trigger] arrival.day_number() != date.day_number() + offset by {
        lemma_day_number_in_span(arrival.year as int, arrival.month as int, arrival.day as int);
    }
}

/// Year, month and day order dates as time does: the earlier date has the
/// smaller day number, and only equal dates share one.
pub proof fn lemma_compare_follows_days(a: RicalDate, b: RicalDate)
    requires
        a.wf(),
        b.wf(),
    ensures
        date_before(
            a.year as int,
            a.month as int,
            a.day as int,
            b.year as int,
            b.month as int,
            b.day as int,
        ) <==> a.day_number() < b.day_number(),
        a == b <==> a.day_number() == b.day_number(),
{
    let (ay, am, ad) = (a.year as int, a.month as int, a.day as int);
    let (by, bm, bd) = (b.year as int, b.month as int, b.day as int);
    if date_before(ay, am, ad, by, bm, bd) {
        lemma_day_number_ordered(ay, am, ad, by, bm, bd);
    } else if date_before(by, bm, bd, ay, am, ad) {
        lemma_day_number_ordered(by, bm, bd, ay, am, ad);
    }
}

} // verus!

//! The grid of a month, and movement over it.

use crate::date::{date_at_offset, lemma_date_at_offset, lemma_no_date_outside_span, RicalDate};
use crate::gregorian::{
    day_number, days_earlier, days_in_month, days_later, following_month, is_calendar_date,
    lemma_day_number_in_span, lemma_day_number_outside_span, lemma_days_earlier,
    lemma_days_later, lemma_days_there_and_back, lemma_month_length, max_day_number,
    min_day_number, weekday_index, MAX_YEAR, MIN_YEAR,
};
use crate::naive::naive_days_since;
use vstd::prelude::*;

verus! {

/// The month after `(year, month)`: January of the next year after a
/// December.
pub fn next_month(year: i32, month: u32) -> (r: (i32, u32))
    requires
        month == 12 ==> year < i32::MAX,
        month < u32::MAX,
    ensures
        r.0 == following_month(year as int, month as int).0,
        r.1 == following_month(year as int, month as int).1,
{
    if month == 12 {
        (year + 1, 1)
    } else {
        (year, month + 1)
    }
}

/// Whether the month, and the first day of the month after it, lie in the
/// supported calendar.
pub open spec fn month_in_span(year: int, month: int) -> bool {
    &&& 1 <= month <= 12
    &&& MIN_YEAR <= year <= MAX_YEAR
    &&& !(year == MAX_YEAR && month == 12)
}

/// Tests `month_in_span`.
pub fn is_month_in_span(year: i32, month: u32) -> (r: bool)
    ensures
        r == month_in_span(year as int, month as int),
{
    1 <= month && month <= 12 && MIN_YEAR <= year && year <= MAX_YEAR && !(year == MAX_YEAR
        && month == 12)
}

/// The number of days of a month, found as the distance from its first day
/// to the first day of the month after it.
pub fn get_days_in_month(year: i32, month: u32) -> (r: u32)
    requires
        month_in_span(year as int, month as int),
    ensures
        r == days_in_month(year as int, month as int),
{
    let (after_year, after_month) = next_month(year, month);
    proof {
        lemma_month_length(year as int, month as int);
    }
    let days = naive_days_since(after_year, after_month, 1, year, month, 1);
    days as u32
}

/// The sign that fills a cell of the month grid in which no day of the month
/// falls.
pub const OUTSIDE_MONTH: i32 = -1;

/// Weekday of the first day of a month, 0 for Sunday.
pub open spec fn first_weekday(year: int, month: int) -> int {
    weekday_index(year, month, 1)
}

/// The row of a grid in which day `day` stands, where the first day stands
/// in column `first`.
pub open spec fn grid_row(first: int, day: int) -> int {
    (first + day - 1) / 7
}

/// The column of a grid in which day `day` stands, where the first day
/// stands in column `first`.
pub open spec fn grid_column(first: int, day: int) -> int {
    (first + day - 1) % 7
}

/// What stands in a cell of a grid of `days` days whose first day stands in
/// column `first`: the day that falls there, or `OUTSIDE_MONTH`.
pub open spec fn grid_cell(first: int, days: int, row: int, column: int) -> int {
    let day = row * 7 + column - first + 1;
    if 1 <= day <= days {
        day
    } else {
        OUTSIDE_MONTH as int
    }
}

/// The row of the month grid in which a day of the month stands.
pub open spec fn frame_row_of(year: int, month: int, day: int) -> int {
    grid_row(first_weekday(year, month), day)
}

/// The number of week rows of a month's grid.
pub open spec fn frame_rows(year: int, month: int) -> int {
    frame_row_of(year, month, days_in_month(year, month)) + 1
}

/// What stands in a cell of a month's grid: the day of the month that falls
/// on that week row and weekday column, or `OUTSIDE_MONTH`.
pub open spec fn frame_cell(year: int, month: int, row: int, column: int) -> int {
    grid_cell(first_weekday(year, month), days_in_month(year, month), row, column)
}

/// Whether `frame` is the grid of the month: `frame_rows` rows of seven
/// cells, Sunday first, each cell as `frame_cell` has it.
pub open spec fn is_calendar_frame(frame: Seq<Vec<i32>>, year: int, month: int) -> bool {
    &&& frame.len() == frame_rows(year, month)
    &&& forall|row: int| 0 <= row < frame.len() ==> (#[trigger] frame[row])@.len() == 7
    &&& forall|row: int, column: int|
        0 <= row < frame.len() && 0 <= column < 7 ==> #[trigger] frame[row]@[column] == frame_cell(
            year,
            month,
            row,
            column,
        )
}

/// A row of seven cells that hold no day.
fn empty_week() -> (r: Vec<i32>)
    ensures
        r@.len() == 7,
        forall|column: int| 0 <= column < 7 ==> r@[column] == OUTSIDE_MONTH,
{
    let mut week: Vec<i32> = Vec::new();
    let mut filled: usize = 0;
    while filled < 7
        invariant
            filled <= 7,
            week@.len() == filled,
            forall|column: int| 0 <= column < filled ==> week@[column] == OUTSIDE_MONTH,
        decreases 7 - filled,
    {
        week.push(OUTSIDE_MONTH);
        filled += 1;
    }
    week
}

/// The grid of a month: one row for each week that holds a day of the month,
/// seven cells a row with Sunday first, each day of the month in the column of
/// its weekday and `OUTSIDE_MONTH` in the cells before the first and after the
/// last.
pub fn get_calendar_frame(year: i32, month: u32) -> (r: Vec<Vec<i32>>)
    requires
        month_in_span(year as int, month as int),
    ensures
        is_calendar_frame(r@, year as int, month as int),
{
    let mut res: Vec<Vec<i32>> = Vec::new();
    let days = get_days_in_month(year, month);
    let ghost first = first_weekday(year as int, month as int);
    let mut date: u32 = 1;
    while date <= days
        invariant
            month_in_span(year as int, month as int),
            days == days_in_month(year as int, month as int),
            first == first_weekday(year as int, month as int),
            0 <= first < 7,
            1 <= date <= days + 1,
            date == 1 ==> res@.len() == 0,
            date > 1 ==> res@.len() == (first + date - 2) / 7 + 1,
            forall|row: int| 0 <= row < res@.len() ==> (#[trigger] res@[row])@.len() == 7,
            forall|row: int, column: int|
                0 <= row < res@.len() && 0 <= column < 7 ==> #[trigger] res@[row]@[column] == ({
                    let day = row * 7 + column - first + 1;
                    if 1 <= day < date {
                        day
                    } else {
                        OUTSIDE_MONTH as int
                    }
                }),
        decreases days + 1 - date,
    {
        let weekday = RicalDate { year, month, day: date }.weekday();
        assert(weekday == (first + date - 1) % 7);
        if res.len() == 0 || weekday == 0 {
            res.push(empty_week());
        }
        let last_week_index = res.len() - 1;
        assert(last_week_index == (first + date - 1) / 7);
        let mut week = res.pop().unwrap();
        week.set(weekday as usize, date as i32);
        res.push(week);
        date += 1;
    }
    res
}

/// A step on the month grid.
#[derive(Clone, Copy, Debug, PartialEq, Eq, Structural)]
pub enum GridDirection {
    Left,
    Right,
    Up,
    Down,
}

impl GridDirection {
    /// The step in days: one to the sides, a week up and down; earlier is
    /// negative.
    pub open spec fn day_offset(self) -> int {
        match self {
            GridDirection::Left => -1,
            GridDirection::Right => 1,
            GridDirection::Up => -7,
            GridDirection::Down => 7,
        }
    }

    /// The step that undoes this one.
    pub open spec fn opposite(self) -> GridDirection {
        match self {
            GridDirection::Left => GridDirection::Right,
            GridDirection::Right => GridDirection::Left,
            GridDirection::Up => GridDirection::Down,
            GridDirection::Down => GridDirection::Up,
        }
    }
}

/// Where a step over the grid leads from a day of the calendar: a day back
/// or forth to the sides, a week back or forth up and down, into the month
/// before or after where the month ends before.
pub open spec fn grid_step(year: int, month: int, day: int, direction: GridDirection) -> (
    int,
    int,
    int,
) {
    match direction {
        GridDirection::Left => days_earlier(year, month, day, 1),
        GridDirection::Right => days_later(year, month, day, 1),
        GridDirection::Up => days_earlier(year, month, day, 7),
        GridDirection::Down => days_later(year, month, day, 7),
    }
}

/// The date at which a step from a date arrives; `None` where the step
/// leaves the supported calendar.
pub open spec fn navigated(date: RicalDate, direction: GridDirection) -> Option<RicalDate> {
    let arrival = grid_step(date.year as int, date.month as int, date.day as int, direction);
    if MIN_YEAR <= arrival.0 <= MAX_YEAR {
        Some(RicalDate { year: arrival.0 as i32, month: arrival.1 as u32, day: arrival.2 as u32 })
    } else {
        None
    }
}

/// Whether a step from the date stays inside the supported calendar.
pub open spec fn can_navigate(date: RicalDate, direction: GridDirection) -> bool {
    navigated(date, direction) is Some
}

/// Moves over the month grid: a day back or forth for left and right, a week
/// back or forth for up and down, into the neighbouring month or year where
/// the step leads there. `None` when the step would leave the supported
/// calendar.
pub fn checked_grid_navigation(current_date: &RicalDate, direction: GridDirection) -> (r: Option<
    RicalDate,
>)
    requires
        current_date.wf(),
    ensures
        r == navigated(*current_date, direction),
        r matches Some(date) ==> date.wf(),
{
    proof {
        lemma_navigated(*current_date, direction);
        lemma_day_number_in_span(
            current_date.year as int,
            current_date.month as int,
            current_date.day as int,
        );
    }
    match direction {
        GridDirection::Left => current_date.checked_sub_days(1),
        GridDirection::Right => current_date.checked_add_days(1),
        GridDirection::Up => current_date.checked_sub_days(7),
        GridDirection::Down => current_date.checked_add_days(7),
    }
}

/// Moves over the month grid: a day back or forth for left and right, a week
/// back or forth for up and down, into the neighbouring month or year where
/// the step leads there.
pub fn calendar_grid_navigation(current_date: &RicalDate, direction: GridDirection) -> (r:
    RicalDate)
    requires
        current_date.wf(),
        can_navigate(*current_date, direction),
    ensures
        Some(r) == navigated(*current_date, direction),
        r.wf(),
{
    match checked_grid_navigation(current_date, direction) {
        Some(date) => date,
        None => vstd::pervasive::unreached(),
    }
}

/// A step arrives at a day of the calendar, at the distance in days that is
/// the step's; and it stays in the supported calendar exactly where the day
/// at that distance lies in it.
pub proof fn lemma_navigated(date: RicalDate, direction: GridDirection)
    requires
        date.wf(),
    ensures
        ({
            let arrival = grid_step(
                date.year as int,
                date.month as int,
                date.day as int,
                direction,
            );
            &&& is_calendar_date(arrival.0, arrival.1, arrival.2)
            &&& day_number(arrival.0, arrival.1, arrival.2) == date.day_number()
                + direction.day_offset()
        }),
        navigated(date, direction) matches Some(arrival) ==> arrival.wf() && arrival.day_number()
            == date.day_number() + direction.day_offset(),
        can_navigate(date, direction) <==> min_day_number() <= date.day_number()
            + direction.day_offset() <= max_day_number(),
        navigated(date, direction) == date_at_offset(date, direction.day_offset()),
{
    let (y, m, d) = (date.year as int, date.month as int, date.day as int);
    lemma_days_later(y, m, d, 1);
    lemma_days_later(y, m, d, 7);
    lemma_days_earlier(y, m, d, 1);
    lemma_days_earlier(y, m, d, 7);
    let arrival = grid_step(y, m, d, direction);
    if MIN_YEAR <= arrival.0 <= MAX_YEAR {
        lemma_day_number_in_span(arrival.0, arrival.1, arrival.2);
        lemma_date_at_offset(date, direction.day_offset(), navigated(date, direction)->0);
    } else {
        lemma_day_number_outside_span(arrival.0, arrival.1, arrival.2);
        lemma_no_date_outside_span(date, direction.day_offset());
    }
}

/// A step and then the opposite step lead back to the day they started
/// from: left and then right, right and then left, up and then down, down and
/// then up. This holds of every day of the calendar.
pub proof fn lemma_step_round_trip(year: int, month: int, day: int, direction: GridDirection)
    requires
        is_calendar_date(year, month, day),
    ensures
        ({
            let there = grid_step(year, month, day, direction);
            grid_step(there.0, there.1, there.2, direction.opposite()) == (year, month, day)
        }),
{
    lemma_days_there_and_back(year, month, day, 1);
    lemma_days_there_and_back(year, month, day, 7);
}

/// A step and then the opposite step lead back to the date they started
/// from, wherever the first step stays in the supported calendar.
pub proof fn lemma_navigation_round_trip(start: RicalDate, direction: GridDirection)
    requires
        start.wf(),
        can_navigate(start, direction),
    ensures
        navigated(navigated(start, direction)->0, direction.opposite()) == Some(start),
{
    lemma_step_round_trip(start.year as int, start.month as int, start.day as int, direction);
    lemma_navigated(start, direction);
}

/// From a date in a year that is neither the first nor the last supported
/// one, every step can be taken.
pub proof fn lemma_inner_years_can_navigate(date: RicalDate, direction: GridDirection)
    requires
        date.wf(),
        MIN_YEAR < date.year < MAX_YEAR,
    ensures
        can_navigate(date, direction),
{
}

/// The grid of a month has four to six rows and holds every day of the
/// month once: day `d` stands in row `frame_row_of(d)` and in the column of
/// its weekday, every cell that holds a day holds it there, and read row
/// by row the days come in rising order.
pub proof fn lemma_frame_holds_each_day_once(year: int, month: int)
    requires
        1 <= month <= 12,
    ensures
        4 <= frame_rows(year, month) <= 6,
        forall|day: int|
            1 <= day <= days_in_month(year, month) ==> 0 <= #[trigger] frame_row_of(
                year,
                month,
                day,
            ) < frame_rows(year, month) && frame_cell(
                year,
                month,
                frame_row_of(year, month, day),
                weekday_index(year, month, day),
            ) == day,
        forall|row: int, column: int|
            0 <= row < frame_rows(year, month) && 0 <= column < 7 && #[trigger] frame_cell(
                year,
                month,
                row,
                column,
            ) != OUTSIDE_MONTH ==> {
                let day = frame_cell(year, month, row, column);
                &&& 1 <= day <= days_in_month(year, month)
                &&& row == frame_row_of(year, month, day)
                &&& column == weekday_index(year, month, day)
            },
        forall|row: int, column: int, later_row: int, later_column: int|
            0 <= row && 0 <= column < 7 && 0 <= later_column < 7 && (row < later_row || (row
                == later_row && column < later_column)) && #[trigger] frame_cell(
                year,
                month,
                row,
                column,
            ) != OUTSIDE_MONTH && #[trigger] frame_cell(year, month, later_row, later_column)
                != OUTSIDE_MONTH ==> frame_cell(year, month, row, column) < frame_cell(
                year,
                month,
                later_row,
                later_column,
            ),
{
    let first = first_weekday(year, month);
    let days = days_in_month(year, month);
    lemma_grid_holds_each_day_once(first, days);
    assert forall|day: int| 1 <= day <= days implies 0 <= #[trigger] frame_row_of(
        year,
        month,
        day,
    ) < frame_rows(year, month) && frame_cell(
        year,
        month,
        frame_row_of(year, month, day),
        weekday_index(year, month, day),
    ) == day by {
        lemma_weekday_in_month(year, month, day);
        assert(grid_cell(first, days, grid_row(first, day), grid_column(first, day)) == day);
    }
    assert forall|row: int, column: int|
        0 <= row < frame_rows(year, month) && 0 <= column < 7 && #[trigger] frame_cell(
            year,
            month,
            row,
            column,
        ) != OUTSIDE_MONTH implies {
        let day = frame_cell(year, month, row, column);
        &&& 1 <= day <= days_in_month(year, month)
        &&& row == frame_row_of(year, month, day)
        &&& column == weekday_index(year, month, day)
    } by {
        let day = grid_cell(first, days, row, column);
        lemma_weekday_in_month(year, month, day);
    }
    assert forall|row: int, column: int, later_row: int, later_column: int|
        0 <= row && 0 <= column < 7 && 0 <= later_column < 7 && (row < later_row || (row
            == later_row && column < later_column)) && #[trigger] frame_cell(
            year,
            month,
            row,
            column,
        ) != OUTSIDE_MONTH && #[trigger] frame_cell(year, month, later_row, later_column)
            != OUTSIDE_MONTH implies frame_cell(year, month, row, column) < frame_cell(
        year,
        month,
        later_row,
        later_column,
    ) by {
        assert(grid_cell(first, days, row, column) < grid_cell(
            first,
            days,
            later_row,
            later_column,
        ));
    }
}

/// The weekday of a day of a month is as many columns on from the weekday
/// of the first as the day is days on, around the week.
pub proof fn lemma_weekday_in_month(year: int, month: int, day: int)
    ensures
        weekday_index(year, month, day) == grid_column(first_weekday(year, month), day),
{
    let first_number = day_number(year, month, 1);
    assert(day_number(year, month, day) == first_number + day - 1);
    assert((first_number + day - 1) % 7 == (first_number % 7 + day - 1) % 7);
}

/// A grid of 28 to 31 days that starts in one of the seven columns has four
/// to six rows; each day stands in its row and column and in no other cell;
/// and the days rise along the rows.
proof fn lemma_grid_holds_each_day_once(first: int, days: int)
    requires
        0 <= first < 7,
        28 <= days <= 31,
    ensures
        4 <= grid_row(first, days) + 1 <= 6,
        forall|day: int|
            1 <= day <= days ==> 0 <= #[trigger] grid_row(first, day) <= grid_row(first, days)
                && 0 <= grid_column(first, day) < 7 && grid_cell(
                first,
                days,
                grid_row(first, day),
                grid_column(first, day),
            ) == day,
        forall|row: int, column: int|
            0 <= column < 7 && #[trigger] grid_cell(first, days, row, column) != OUTSIDE_MONTH
                ==> {
                let day = grid_cell(first, days, row, column);
                &&& 1 <= day <= days
                &&& row == grid_row(first, day)
                &&& column == grid_column(first, day)
            },
        forall|row: int, column: int, later_row: int, later_column: int|
            0 <= column < 7 && 0 <= later_column < 7 && (row < later_row || (row == later_row
                && column < later_column)) && #[trigger] grid_cell(first, days, row, column)
                != OUTSIDE_MONTH && #[trigger] grid_cell(first, days, later_row, later_column)
                != OUTSIDE_MONTH ==> grid_cell(first, days, row, column) < grid_cell(
                first,
                days,
                later_row,
                later_column,
            ),
{
}

} // verus!

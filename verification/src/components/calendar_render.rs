//! What the calendar screen shows: the sizes of its panes, the marks and
//! colours of days and tasks, and the texts of its lines.

use crate::date::{date_text, DateOrder, RicalDate};
use crate::format::{
    fmt_timerange, fmt_twodigit, get_month_name, month_name_text, timerange_text, two_digit_text,
    weekday_name_text,
};
use crate::gregorian::{date_before, days_in_month, lemma_day_number_in_span, max_day_number};
use crate::state::CalendarPane;
use crate::text::{decimal_string, decimal_text};
use crate::types::TaskDataWithId;
use vstd::prelude::*;

verus! {

/// The cells that the month grid takes from the left edge.
pub const CALENDAR_WIDTH: u16 = 30;

/// The rows above the two panes.
pub const CALENDAR_MARGIN_TOP: u16 = 2;

/// The least width of the tasks pane.
pub const TASKS_PANE_WIDTH_MIN: u16 = 24;

/// The greatest width of the tasks pane.
pub const TASKS_PANE_WIDTH_MAX: u16 = 90;

/// The cells that a day takes in the month grid.
pub const DATE_SQUARE_WIDTH: u16 = 4;

/// The greatest height of the terminal at which the days of the grid are
/// drawn with one row less.
pub const MINI_HEIGHT_BREAKPOINT: u16 = 29;

/// How many days the tasks pane lists at most.
pub const DAYS_DISPLAYED: u64 = 7;

/// The cells of the column of times in the tasks pane.
pub const COL_TIME_WIDTH: u16 = 13;

/// The cells that the program draws on: all of a row but the last.
pub fn get_viewport_width(terminal_width: u16) -> (r: u16)
    ensures
        r == if terminal_width == 0 {
            0int
        } else {
            terminal_width - 1
        },
{
    if terminal_width == 0 {
        0
    } else {
        terminal_width - 1
    }
}

/// Whether the terminal is so low that the days of the grid are drawn with
/// one row less.
pub fn is_mini_mode(terminal_height: u16) -> (r: bool)
    ensures
        r == (terminal_height <= MINI_HEIGHT_BREAKPOINT),
{
    terminal_height <= MINI_HEIGHT_BREAKPOINT
}

/// The rows of a day of the grid.
pub fn date_height(mini_mode: bool) -> (r: u16)
    ensures
        r == if mini_mode {
            3u16
        } else {
            4u16
        },
{
    if mini_mode {
        3
    } else {
        4
    }
}

/// The width of the tasks pane: what the grid and one cell more leave of the
/// viewport, and neither less than the least nor more than the greatest
/// width.
pub open spec fn pane_width(viewport_width: u16) -> int {
    let left = if viewport_width > CALENDAR_WIDTH + 1 {
        viewport_width - CALENDAR_WIDTH - 1
    } else {
        0
    };
    if left < TASKS_PANE_WIDTH_MIN {
        TASKS_PANE_WIDTH_MIN as int
    } else if left > TASKS_PANE_WIDTH_MAX {
        TASKS_PANE_WIDTH_MAX as int
    } else {
        left
    }
}

/// The width of the tasks pane in a viewport.
pub fn tasks_pane_width(viewport_width: u16) -> (r: u16)
    ensures
        r == pane_width(viewport_width),
        TASKS_PANE_WIDTH_MIN <= r <= TASKS_PANE_WIDTH_MAX,
{
    let left: u16 = if viewport_width > CALENDAR_WIDTH + 1 {
        viewport_width - CALENDAR_WIDTH - 1
    } else {
        0
    };
    if left < TASKS_PANE_WIDTH_MIN {
        TASKS_PANE_WIDTH_MIN
    } else if left > TASKS_PANE_WIDTH_MAX {
        TASKS_PANE_WIDTH_MAX
    } else {
        left
    }
}

/// The cells of the column of titles in a tasks pane: what the times, the
/// mark beside them and the box for the tick leave of the pane.
pub fn title_column_width(tasks_pane_width: u16) -> (r: u16)
    requires
        tasks_pane_width >= TASKS_PANE_WIDTH_MIN,
    ensures
        r == tasks_pane_width - COL_TIME_WIDTH - 6,
{
    tasks_pane_width - COL_TIME_WIDTH - 6
}

/// The mark of a task without times.
pub const CANDY_UNTIMED: char = '\u{2022}';

/// The mark of a task with a start and no end.
pub const CANDY_OPEN_END: char = '\u{25BC}';

/// The mark that stands for a task in the grid. A task with a start and no
/// end has a mark of its own, and so has a task without both times; for the
/// others the mark grows with the time that the task takes: up to a quarter
/// of an hour, half an hour, three quarters, an hour, two hours, and more.
pub open spec fn candy_of(start_min: Option<i32>, end_min: Option<i32>) -> char {
    if start_min is Some && end_min is None {
        CANDY_OPEN_END
    } else if start_min is Some && end_min is Some {
        let duration = end_min->0 - start_min->0;
        if duration <= 15 {
            '\u{2582}'
        } else if duration <= 30 {
            '\u{2583}'
        } else if duration <= 45 {
            '\u{2584}'
        } else if duration <= 60 {
            '\u{2585}'
        } else if duration <= 120 {
            '\u{2586}'
        } else {
            '\u{2588}'
        }
    } else {
        CANDY_UNTIMED
    }
}

/// The mark that stands for a task in the grid.
pub fn task_candy(task: &TaskDataWithId) -> (r: char)
    ensures
        r == candy_of(task.start_min, task.end_min),
{
    match (task.start_min, task.end_min) {
        (Some(_), None) => CANDY_OPEN_END,
        (Some(start), Some(end)) => {
            let duration: i64 = end as i64 - start as i64;
            if duration <= 15 {
                '\u{2582}'
            } else if duration <= 30 {
                '\u{2583}'
            } else if duration <= 45 {
                '\u{2584}'
            } else if duration <= 60 {
                '\u{2585}'
            } else if duration <= 120 {
                '\u{2586}'
            } else {
                '\u{2588}'
            }
        },
        _ => CANDY_UNTIMED,
    }
}

/// The colour of a task's mark.
#[derive(Clone, Copy, Debug, PartialEq, Eq, Structural)]
pub enum CandyPaint {
    Complete,
    Overdue,
    Open,
}

/// The colour of a task's mark: that of a task ticked off, else that of a
/// task of a day gone by, else that of an open task.
pub fn candy_paint(complete: bool, overdue: bool) -> (r: CandyPaint)
    ensures
        r == if complete {
            CandyPaint::Complete
        } else if overdue {
            CandyPaint::Overdue
        } else {
            CandyPaint::Open
        },
{
    if complete {
        CandyPaint::Complete
    } else if overdue {
        CandyPaint::Overdue
    } else {
        CandyPaint::Open
    }
}

/// Where the mark of the `index`-th task of a day stands in the day's square
/// at `(x, y)`: two marks a row below the day's number, one cell in. `None`
/// where that place lies off the screen's numbering.
pub fn candy_position(x: u16, y: u16, index: u16) -> (r: Option<(u16, u16)>)
    ensures
        r == if 1 + x + index % 2 <= u16::MAX && y + 1 + index / 2 <= u16::MAX {
            Some(((1 + x + index % 2) as u16, (y + 1 + index / 2) as u16))
        } else {
            None
        },
{
    let column: u32 = 1 + x as u32 + (index % 2) as u32;
    let row: u32 = y as u32 + 1 + (index / 2) as u32;
    if column <= 0xFFFF && row <= 0xFFFF {
        Some((column as u16, row as u16))
    } else {
        None
    }
}

/// How many marks a day's square has room for: two in each row below the
/// day's number.
pub fn max_tasks_displayed(date_height: u16) -> (r: u16)
    requires
        1 <= date_height <= 0x8000,
    ensures
        r == (date_height - 1) * 2,
{
    (date_height - 1) * 2
}

/// Whether a day lies before today.
pub fn is_overdue(date: &RicalDate, today: &RicalDate) -> (r: bool)
    ensures
        r == date_before(
            date.year as int,
            date.month as int,
            date.day as int,
            today.year as int,
            today.month as int,
            today.day as int,
        ),
{
    match date.compare(today) {
        DateOrder::Less => true,
        _ => false,
    }
}

/// What is written in a square of the grid: the day with two digits between
/// two blanks, and two dashes for a cell outside the month.
pub open spec fn square_text(day: Option<u32>) -> Seq<char> {
    match day {
        Some(d) => seq![' '] + two_digit_text(d as int) + seq![' '],
        None => " -- "@,
    }
}

/// What is written in a square of the grid.
pub fn date_square_text(day: Option<u32>) -> (r: String)
    ensures
        r@ == square_text(day),
{
    match day {
        Some(d) => {
            proof {
                reveal_strlit(" ");
                assert(" "@ =~= seq![' ']);
            }
            String::from_str(" ").concat(fmt_twodigit(d as i64).as_str()).concat(" ")
        },
        None => String::from_str(" -- "),
    }
}

/// How a day is set off from the others where it is drawn.
#[derive(Clone, Copy, Debug, PartialEq, Eq, Structural)]
pub enum DatePaint {
    /// Held back: a cell outside the month, and the line of a day in the
    /// tasks pane that nothing sets off.
    Dim,
    /// Today, selected, in the pane that takes the keys.
    SelectedTodayFocused,
    /// Today, selected, in the other pane.
    SelectedToday,
    /// A selected day in the pane that takes the keys.
    SelectedFocused,
    /// A selected day in the other pane.
    Selected,
    /// Today, not selected.
    Today,
    /// Any other day.
    Plain,
}

/// How a day is set off: a cell outside the month first, then the selected
/// day, today apart from other days, then today, then the rest. `focused`
/// says whether the pane in which the day is drawn takes the keys.
pub open spec fn paint_of(
    in_month: bool,
    is_selected: bool,
    is_today: bool,
    focused: bool,
) -> DatePaint {
    if !in_month {
        DatePaint::Dim
    } else if is_selected && is_today {
        if focused {
            DatePaint::SelectedTodayFocused
        } else {
            DatePaint::SelectedToday
        }
    } else if is_selected {
        if focused {
            DatePaint::SelectedFocused
        } else {
            DatePaint::Selected
        }
    } else if is_today {
        DatePaint::Today
    } else {
        DatePaint::Plain
    }
}

/// How a square of the grid is set off. The grid is in focus in the month
/// pane.
pub fn date_square_paint(
    in_month: bool,
    is_selected: bool,
    is_today: bool,
    pane: CalendarPane,
) -> (r: DatePaint)
    ensures
        r == paint_of(in_month, is_selected, is_today, pane == CalendarPane::Month),
{
    let focused = match pane {
        CalendarPane::Month => true,
        CalendarPane::Tasks => false,
    };
    date_paint(in_month, is_selected, is_today, focused)
}

/// How the line of a day in the tasks pane is set off. The line counts as
/// selected while its day is and none of its tasks is. The tasks pane is in
/// focus when it takes the keys. A line that nothing sets off is held back.
pub fn date_title_paint(
    is_selected: bool,
    selected_task_id: Option<i64>,
    is_today: bool,
    pane: CalendarPane,
) -> (r: DatePaint)
    ensures
        r == match paint_of(
            true,
            is_selected && selected_task_id is None,
            is_today,
            pane == CalendarPane::Tasks,
        ) {
            DatePaint::Plain => DatePaint::Dim,
            other => other,
        },
{
    let focused = match pane {
        CalendarPane::Month => false,
        CalendarPane::Tasks => true,
    };
    match date_paint(true, is_selected && selected_task_id.is_none(), is_today, focused) {
        DatePaint::Plain => DatePaint::Dim,
        other => other,
    }
}

fn date_paint(in_month: bool, is_selected: bool, is_today: bool, focused: bool) -> (r: DatePaint)
    ensures
        r == paint_of(in_month, is_selected, is_today, focused),
{
    if !in_month {
        DatePaint::Dim
    } else if is_selected && is_today {
        if focused {
            DatePaint::SelectedTodayFocused
        } else {
            DatePaint::SelectedToday
        }
    } else if is_selected {
        if focused {
            DatePaint::SelectedFocused
        } else {
            DatePaint::Selected
        }
    } else if is_today {
        DatePaint::Today
    } else {
        DatePaint::Plain
    }
}

/// Whether a task of the tasks pane is the selected one: its day is
/// selected, and its number is the selected number.
pub fn is_task_selected(
    is_selected: bool,
    selected_task_id: Option<i64>,
    task: &TaskDataWithId,
) -> (r: bool)
    ensures
        r == (is_selected && selected_task_id == Some(task.task_id)),
{
    is_selected && match selected_task_id {
        Some(id) => task.task_id == id,
        None => false,
    }
}

/// The box that shows whether a task is ticked off.
pub fn checkbox(complete: bool) -> (r: String)
    ensures
        r@ == if complete {
            "[x]"@
        } else {
            "[ ]"@
        },
{
    if complete {
        String::from_str("[x]")
    } else {
        String::from_str("[ ]")
    }
}

/// The text of the column of times for a task: a blank, then the task's
/// span of time.
pub fn time_column_text(task: &TaskDataWithId) -> (r: String)
    ensures
        r@ == seq![' '] + timerange_text(task.start_min, task.end_min),
{
    proof {
        reveal_strlit(" ");
        assert(" "@ =~= seq![' ']);
    }
    String::from_str(" ").concat(fmt_timerange(task.start_min, task.end_min).as_str())
}

/// The line that heads a day in the tasks pane: the date, a dash, the
/// weekday, between two blanks.
pub open spec fn date_title_text(date: RicalDate) -> Seq<char> {
    " "@ + date_text(date.year as int, date.month as int, date.day as int) + " - "@
        + weekday_name_text(date.weekday_index()) + " "@
}

/// The line that heads a day in the tasks pane.
pub fn date_title(date: &RicalDate) -> (r: String)
    requires
        date.wf(),
    ensures
        r@ == date_title_text(*date),
{
    String::from_str(" ").concat(date.format().as_str()).concat(" - ").concat(
        date.weekday_name().as_str(),
    ).concat(" ")
}

/// The line that heads the month grid: year and month in digits, a dash,
/// the month's name, between two blanks.
pub open spec fn calendar_title_text(year: int, month: int) -> Seq<char> {
    " "@ + decimal_text(year) + "/"@ + two_digit_text(month) + " - "@ + month_name_text(month)
        + " "@
}

/// The line that heads the month grid.
pub fn calendar_title(year: i32, month: u32) -> (r: String)
    requires
        1 <= month <= 12,
    ensures
        r@ == calendar_title_text(year as int, month as int),
{
    String::from_str(" ").concat(decimal_string(year as i64).as_str()).concat("/").concat(
        fmt_twodigit(month as i64).as_str(),
    ).concat(" - ").concat(get_month_name(month).as_str()).concat(" ")
}

/// How many days the tasks pane lists from a selected day on: the days that
/// are left of the month, the selected day among them, and a week of them at
/// most.
pub open spec fn upcoming_count(selected: RicalDate) -> int {
    let left = days_in_month(selected.year as int, selected.month as int) - selected.day + 1;
    if left < DAYS_DISPLAYED {
        left
    } else {
        DAYS_DISPLAYED as int
    }
}

/// The days that the tasks pane lists from a selected day on: that day and
/// the days of its month after it, one by one.
pub open spec fn upcoming(selected: RicalDate) -> Seq<RicalDate> {
    Seq::new(
        upcoming_count(selected) as nat,
        |i: int| RicalDate { day: (selected.day + i) as u32, ..selected },
    )
}

/// The days that the tasks pane lists from the selected day on.
pub fn upcoming_dates(selected: &RicalDate) -> (r: Vec<RicalDate>)
    requires
        selected.wf(),
    ensures
        r@ == upcoming(*selected),
        forall|i: int| 0 <= i < r@.len() ==> (#[trigger] r@[i]).wf(),
{
    let mut dates: Vec<RicalDate> = Vec::new();
    let mut date_offset: u64 = 0;
    let mut in_month = true;
    while in_month && date_offset < DAYS_DISPLAYED
        invariant
            selected.wf(),
            date_offset <= DAYS_DISPLAYED,
            dates@.len() == date_offset,
            date_offset <= upcoming_count(*selected),
            !in_month ==> date_offset == upcoming_count(*selected),
            forall|i: int|
                0 <= i < dates@.len() ==> #[trigger] dates@[i] == (RicalDate {
                    day: (selected.day + i) as u32,
                    ..*selected
                }) && dates@[i].wf(),
        decreases DAYS_DISPLAYED - date_offset + if in_month { 1int } else { 0int },
    {
        match selected.checked_add_days(date_offset) {
            Some(date) => {
                if date.month != selected.month {
                    in_month = false;
                } else {
                    dates.push(date);
                    date_offset += 1;
                }
            },
            None => {
                proof {
                    if selected.day + date_offset <= days_in_month(
                        selected.year as int,
                        selected.month as int,
                    ) {
                        lemma_stays_in_month(*selected, date_offset as int);
                    }
                }
                in_month = false;
            },
        }
    }
    assert(dates@ =~= upcoming(*selected));
    dates
}

/// A day of the month of a supported date is a supported date, as many
/// days on as its number is higher.
proof fn lemma_stays_in_month(selected: RicalDate, days: int)
    requires
        selected.wf(),
        0 <= days,
        selected.day + days <= days_in_month(selected.year as int, selected.month as int),
    ensures
        selected.day_number() + days <= max_day_number(),
{
    lemma_day_number_in_span(
        selected.year as int,
        selected.month as int,
        selected.day as int + days,
    );
}

} // verus!

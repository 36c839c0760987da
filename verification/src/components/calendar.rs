//! The calendar screen: the month grid, the tasks of the selected day, and
//! the forms that open over them.

use crate::api::{fetch_choice, ApiHandler, CacheType, CachedMonths};
use crate::components::edit_task_form;
use crate::components::edit_task_form::edit_task_step;
use crate::components::menu::is_plain_char;
use crate::components::new_task_form;
use crate::components::new_task_form::new_task_step;
use crate::date::RicalDate;
use crate::grid::{checked_grid_navigation, navigated, GridDirection};
use crate::keys::{key_pressed, KeyCode, KeyInfo, KeyModifiers};
use crate::state::{
    CalendarPane, CalendarState, CalendarView, FormState, FormView, MenuState, MenuView,
    ScreenState, ScreenStep, ScreenView, StepView,
};
use crate::types::{day_slot, TaskDataWithId, TaskDataWithIdView};
use vstd::prelude::*;

verus! {

/// What a key asks of the calendar.
#[derive(Clone, Copy, Debug, PartialEq, Eq, Structural)]
pub enum CalAction {
    Move(GridDirection),
    SwitchToMonth,
    SwitchToTasks,
    SelectTaskUp,
    SelectTaskDown,
    StartNewTask,
    Nothing,
}

/// A key without a modifier.
pub open spec fn is_plain_key(key: KeyInfo, code: KeyCode) -> bool {
    key.modifiers == KeyModifiers::Plain && key.code == code
}

/// What a key asks of the calendar in a pane.
///
/// In the month pane `h`, `j`, `k`, `l` and the arrows move over the grid,
/// `o` opens the form for a new task, and enter goes to the tasks pane. In
/// the tasks pane `j` and `k` and the down and up arrows go through the
/// tasks, `b` and `w` go a day back and forth, `o` opens the form for a new
/// task, and escape goes back to the month pane.
pub open spec fn calendar_action(pane: CalendarPane, key: KeyInfo) -> CalAction {
    match pane {
        CalendarPane::Month => if is_plain_char(key, 'j') || is_plain_key(key, KeyCode::Down) {
            CalAction::Move(GridDirection::Down)
        } else if is_plain_char(key, 'k') || is_plain_key(key, KeyCode::Up) {
            CalAction::Move(GridDirection::Up)
        } else if is_plain_char(key, 'h') || is_plain_key(key, KeyCode::Left) {
            CalAction::Move(GridDirection::Left)
        } else if is_plain_char(key, 'l') || is_plain_key(key, KeyCode::Right) {
            CalAction::Move(GridDirection::Right)
        } else if is_plain_char(key, 'o') {
            CalAction::StartNewTask
        } else if is_plain_key(key, KeyCode::Enter) {
            CalAction::SwitchToTasks
        } else {
            CalAction::Nothing
        },
        CalendarPane::Tasks => if is_plain_char(key, 'j') || is_plain_key(key, KeyCode::Down) {
            CalAction::SelectTaskDown
        } else if is_plain_char(key, 'k') || is_plain_key(key, KeyCode::Up) {
            CalAction::SelectTaskUp
        } else if is_plain_char(key, 'b') {
            CalAction::Move(GridDirection::Left)
        } else if is_plain_char(key, 'w') {
            CalAction::Move(GridDirection::Right)
        } else if is_plain_char(key, 'o') {
            CalAction::StartNewTask
        } else if is_plain_key(key, KeyCode::Esc) {
            CalAction::SwitchToMonth
        } else {
            CalAction::Nothing
        },
    }
}

/// The selected day.
pub open spec fn selected_date(calendar: CalendarView) -> RicalDate {
    RicalDate { year: calendar.year, month: calendar.month, day: calendar.day }
}

/// The calendar with another day and task selected.
pub open spec fn with_selection(
    calendar: CalendarView,
    date: RicalDate,
    task_id: Option<i64>,
) -> CalendarView {
    CalendarView { year: date.year, month: date.month, day: date.day, task_id, ..calendar }
}

/// The calendar with another task of the same day selected, or none.
pub open spec fn with_task(calendar: CalendarView, task_id: Option<i64>) -> CalendarView {
    CalendarView { task_id, ..calendar }
}

/// The tasks of a day as memory has them; `None` where it does not hold the
/// day's month.
pub open spec fn remembered_tasks(cached: CachedMonths, date: RicalDate) -> Option<
    Seq<TaskDataWithIdView>,
> {
    match fetch_choice(cached, date.year, date.month as i32, CacheType::PreferCache) {
        Some(month) => Some(day_slot(month, date.day as int)),
        None => None,
    }
}

/// Whether `index` is the place of the first task with the number `id`.
pub open spec fn is_task_position(tasks: Seq<TaskDataWithIdView>, id: i64, index: int) -> bool {
    &&& 0 <= index < tasks.len()
    &&& tasks[index].task_id == id
    &&& forall|before: int| 0 <= before < index ==> (#[trigger] tasks[before]).task_id != id
}

/// The place of the first task with the number `id`, if there is one.
pub open spec fn task_position(tasks: Seq<TaskDataWithIdView>, id: i64) -> Option<int> {
    if exists|index: int| is_task_position(tasks, id, index) {
        Some(choose|index: int| is_task_position(tasks, id, index))
    } else {
        None
    }
}

/// The calendar after a step over the grid: the day at the step's end with
/// no task selected, and the calendar as it was where the supported calendar
/// ends before that day.
pub open spec fn after_move(calendar: CalendarView, direction: GridDirection) -> CalendarView {
    match navigated(selected_date(calendar), direction) {
        Some(date) => with_selection(calendar, date, None),
        None => calendar,
    }
}

/// What follows when the selection goes up in the tasks pane. From a task
/// it goes to the task above, and from the first task to the day itself. From
/// the day it goes to the day before: to its last task, or to that day itself
/// where it has none. Where memory lacks a month that is needed, the month is
/// to be fetched first.
pub open spec fn select_task_up(calendar: CalendarView, cached: CachedMonths) -> StepView {
    let selected = selected_date(calendar);
    match remembered_tasks(cached, selected) {
        None => StepView::FetchMonth { year: selected.year, month: selected.month as i32 },
        Some(tasks) => match calendar.task_id {
            Some(id) => match task_position(tasks, id) {
                Some(index) => if index > 0 {
                    StepView::Done(
                        ScreenView::Calendar(with_task(calendar, Some(tasks[index - 1].task_id))),
                    )
                } else {
                    StepView::Done(ScreenView::Calendar(with_task(calendar, None)))
                },
                None => StepView::Done(ScreenView::Calendar(with_task(calendar, None))),
            },
            None => match navigated(selected, GridDirection::Left) {
                None => StepView::Done(ScreenView::Calendar(calendar)),
                Some(previous) => match remembered_tasks(cached, previous) {
                    None => StepView::FetchMonth {
                        year: previous.year,
                        month: previous.month as i32,
                    },
                    Some(previous_tasks) => StepView::Done(
                        ScreenView::Calendar(
                            with_selection(
                                calendar,
                                previous,
                                if previous_tasks.len() > 0 {
                                    Some(previous_tasks.last().task_id)
                                } else {
                                    None
                                },
                            ),
                        ),
                    ),
                },
            },
        },
    }
}

/// The calendar on the day after the selected one with no task selected,
/// and the calendar as it was where the supported calendar ends there.
pub open spec fn on_next_day(calendar: CalendarView) -> CalendarView {
    match navigated(selected_date(calendar), GridDirection::Right) {
        Some(next) => with_selection(calendar, next, None),
        None => calendar,
    }
}

/// What follows when the selection goes down in the tasks pane. From the
/// day it goes to the day's first task, from a task to the task below, and
/// from the last task, or from a day without tasks, to the next day. A
/// selected task that the day does not hold is let go of. Where memory lacks
/// the day's month, the month is to be fetched first.
pub open spec fn select_task_down(calendar: CalendarView, cached: CachedMonths) -> StepView {
    let selected = selected_date(calendar);
    match remembered_tasks(cached, selected) {
        None => StepView::FetchMonth { year: selected.year, month: selected.month as i32 },
        Some(tasks) => match calendar.task_id {
            Some(id) => match task_position(tasks, id) {
                Some(index) => if index == tasks.len() - 1 {
                    StepView::Done(ScreenView::Calendar(on_next_day(calendar)))
                } else {
                    StepView::Done(
                        ScreenView::Calendar(with_task(calendar, Some(tasks[index + 1].task_id))),
                    )
                },
                None => StepView::Done(ScreenView::Calendar(with_task(calendar, None))),
            },
            None => if tasks.len() > 0 {
                StepView::Done(ScreenView::Calendar(with_task(calendar, Some(tasks[0].task_id))))
            } else {
                StepView::Done(ScreenView::Calendar(on_next_day(calendar)))
            },
        },
    }
}

/// Control and `m`: the key that leaves the calendar for the menu.
pub open spec fn is_menu_key(key: KeyInfo) -> bool {
    key.modifiers == KeyModifiers::Control && key.code == KeyCode::Char('m')
}

/// What a key does on the calendar. An open form takes the key. Else
/// control and `m` lead to the main menu, and every other key does what
/// `calendar_action` reads from it.
pub open spec fn calendar_step(
    calendar: CalendarView,
    key: KeyInfo,
    cached: CachedMonths,
) -> StepView {
    if calendar.making_new_task is Some {
        new_task_step(calendar, key)
    } else if calendar.editing_task is Some {
        edit_task_step(calendar, key)
    } else if is_menu_key(key) {
        StepView::Done(ScreenView::Menu(MenuView::MainMenu))
    } else {
        match calendar_action(calendar.pane, key) {
            CalAction::Move(direction) => StepView::Done(
                ScreenView::Calendar(after_move(calendar, direction)),
            ),
            CalAction::SwitchToTasks => StepView::Done(
                ScreenView::Calendar(CalendarView { pane: CalendarPane::Tasks, ..calendar }),
            ),
            CalAction::SwitchToMonth => StepView::Done(
                ScreenView::Calendar(CalendarView { pane: CalendarPane::Month, ..calendar }),
            ),
            CalAction::StartNewTask => StepView::Done(
                ScreenView::Calendar(
                    CalendarView { making_new_task: Some(FormView::blank(4)), ..calendar },
                ),
            ),
            CalAction::SelectTaskUp => select_task_up(calendar, cached),
            CalAction::SelectTaskDown => select_task_down(calendar, cached),
            CalAction::Nothing => StepView::Done(ScreenView::Calendar(calendar)),
        }
    }
}

/// What a key asks of the calendar in a pane.
pub fn action_for(pane: CalendarPane, key: &KeyInfo) -> (r: CalAction)
    ensures
        r == calendar_action(pane, *key),
{
    match pane {
        CalendarPane::Month => {
            if key_pressed(key, KeyModifiers::Plain, KeyCode::Char('j')) || key_pressed(
                key,
                KeyModifiers::Plain,
                KeyCode::Down,
            ) {
                CalAction::Move(GridDirection::Down)
            } else if key_pressed(key, KeyModifiers::Plain, KeyCode::Char('k')) || key_pressed(
                key,
                KeyModifiers::Plain,
                KeyCode::Up,
            ) {
                CalAction::Move(GridDirection::Up)
            } else if key_pressed(key, KeyModifiers::Plain, KeyCode::Char('h')) || key_pressed(
                key,
                KeyModifiers::Plain,
                KeyCode::Left,
            ) {
                CalAction::Move(GridDirection::Left)
            } else if key_pressed(key, KeyModifiers::Plain, KeyCode::Char('l')) || key_pressed(
                key,
                KeyModifiers::Plain,
                KeyCode::Right,
            ) {
                CalAction::Move(GridDirection::Right)
            } else if key_pressed(key, KeyModifiers::Plain, KeyCode::Char('o')) {
                CalAction::StartNewTask
            } else if key_pressed(key, KeyModifiers::Plain, KeyCode::Enter) {
                CalAction::SwitchToTasks
            } else {
                CalAction::Nothing
            }
        },
        CalendarPane::Tasks => {
            if key_pressed(key, KeyModifiers::Plain, KeyCode::Char('j')) || key_pressed(
                key,
                KeyModifiers::Plain,
                KeyCode::Down,
            ) {
                CalAction::SelectTaskDown
            } else if key_pressed(key, KeyModifiers::Plain, KeyCode::Char('k')) || key_pressed(
                key,
                KeyModifiers::Plain,
                KeyCode::Up,
            ) {
                CalAction::SelectTaskUp
            } else if key_pressed(key, KeyModifiers::Plain, KeyCode::Char('b')) {
                CalAction::Move(GridDirection::Left)
            } else if key_pressed(key, KeyModifiers::Plain, KeyCode::Char('w')) {
                CalAction::Move(GridDirection::Right)
            } else if key_pressed(key, KeyModifiers::Plain, KeyCode::Char('o')) {
                CalAction::StartNewTask
            } else if key_pressed(key, KeyModifiers::Plain, KeyCode::Esc) {
                CalAction::SwitchToMonth
            } else {
                CalAction::Nothing
            }
        },
    }
}

/// The place of the first task with the number `id`.
pub fn find_task(tasks: &Vec<TaskDataWithId>, id: i64) -> (r: Option<usize>)
    ensures
        match r {
            Some(index) => task_position(tasks.deep_view(), id) == Some(index as int),
            None => task_position(tasks.deep_view(), id) is None,
        },
{
    let mut i: usize = 0;
    while i < tasks.len()
        invariant
            i <= tasks.len(),
            forall|before: int|
                0 <= before < i ==> (#[trigger] tasks.deep_view()[before]).task_id != id,
        decreases tasks.len() - i,
    {
        assert(tasks.deep_view()[i as int] == tasks@[i as int]@);
        if tasks[i].task_id == id {
            proof {
                assert(is_task_position(tasks.deep_view(), id, i as int));
                let chosen = choose|index: int| is_task_position(tasks.deep_view(), id, index);
                assert(is_task_position(tasks.deep_view(), id, chosen));
                if chosen < i {
                    assert(tasks.deep_view()[chosen].task_id != id);
                }
                if i < chosen {
                    assert(tasks.deep_view()[i as int].task_id != id);
                }
            }
            return Some(i);
        }
        i += 1;
    }
    assert forall|index: int| !is_task_position(tasks.deep_view(), id, index) by {
        if 0 <= index < tasks.deep_view().len() {
            assert(tasks.deep_view()[index].task_id != id);
        }
    }
    None
}

fn with_selection_of(currstate: &CalendarState, date: &RicalDate, task_id: Option<i64>) -> (r:
    CalendarState)
    requires
        currstate.wf(),
        date.wf(),
    ensures
        r@ == with_selection(currstate@, *date, task_id),
        r.wf(),
{
    let kept = currstate.clone();
    CalendarState {
        year: date.year,
        month: date.month,
        day: date.day,
        task_id,
        pane: kept.pane,
        making_new_task: kept.making_new_task,
        editing_task: kept.editing_task,
    }
}

fn with_task_of(currstate: &CalendarState, task_id: Option<i64>) -> (r: CalendarState)
    requires
        currstate.wf(),
    ensures
        r@ == with_task(currstate@, task_id),
        r.wf(),
{
    let kept = currstate.clone();
    CalendarState {
        year: kept.year,
        month: kept.month,
        day: kept.day,
        task_id,
        pane: kept.pane,
        making_new_task: kept.making_new_task,
        editing_task: kept.editing_task,
    }
}

fn with_pane_of(currstate: &CalendarState, pane: CalendarPane) -> (r: CalendarState)
    requires
        currstate.wf(),
    ensures
        r@ == (CalendarView { pane, ..currstate@ }),
        r.wf(),
{
    let kept = currstate.clone();
    CalendarState {
        year: kept.year,
        month: kept.month,
        day: kept.day,
        task_id: kept.task_id,
        pane,
        making_new_task: kept.making_new_task,
        editing_task: kept.editing_task,
    }
}

fn next_day_of(currstate: &CalendarState, selected: &RicalDate) -> (r: CalendarState)
    requires
        currstate.wf(),
        *selected == selected_date(currstate@),
    ensures
        r@ == on_next_day(currstate@),
        r.wf(),
{
    match checked_grid_navigation(selected, GridDirection::Right) {
        Some(next) => with_selection_of(currstate, &next, None),
        None => currstate.clone(),
    }
}

/// A key on the calendar. `api_handler` is read for the tasks that the
/// session remembers, and is not changed.
pub fn handle_input(currstate: &CalendarState, key: &KeyInfo, api_handler: &ApiHandler) -> (r:
    ScreenStep)
    requires
        currstate.wf(),
    ensures
        r@ == calendar_step(currstate@, *key, api_handler.cached()),
        r@.wf(),
{
    if currstate.making_new_task.is_some() {
        return new_task_form::handle_input(currstate, key);
    }
    if currstate.editing_task.is_some() {
        return edit_task_form::handle_input(currstate, key);
    }
    if key_pressed(key, KeyModifiers::Control, KeyCode::Char('m')) {
        return ScreenStep::Done(ScreenState::Menu(MenuState::MainMenu));
    }
    let action = action_for(currstate.pane, key);
    let selected = RicalDate { year: currstate.year, month: currstate.month, day: currstate.day };
    match action {
        CalAction::Move(dir) => {
            match checked_grid_navigation(&selected, dir) {
                Some(res) => ScreenStep::Done(
                    ScreenState::Calendar(with_selection_of(currstate, &res, None)),
                ),
                None => ScreenStep::Done(ScreenState::Calendar(currstate.clone())),
            }
        },
        CalAction::SwitchToTasks => ScreenStep::Done(
            ScreenState::Calendar(with_pane_of(currstate, CalendarPane::Tasks)),
        ),
        CalAction::SwitchToMonth => ScreenStep::Done(
            ScreenState::Calendar(with_pane_of(currstate, CalendarPane::Month)),
        ),
        CalAction::StartNewTask => {
            let kept = currstate.clone();
            ScreenStep::Done(
                ScreenState::Calendar(
                    CalendarState {
                        year: kept.year,
                        month: kept.month,
                        day: kept.day,
                        task_id: kept.task_id,
                        pane: kept.pane,
                        making_new_task: Some(FormState::<4>::new()),
                        editing_task: kept.editing_task,
                    },
                ),
            )
        },
        CalAction::SelectTaskUp => {
            let date_tasks = match api_handler.fetch_tasks_at_date(
                &selected,
                CacheType::PreferCache,
            ) {
                Some(tasks) => tasks,
                None => {
                    return ScreenStep::FetchMonth {
                        year: selected.year,
                        month: selected.month as i32,
                    };
                },
            };
            match currstate.task_id {
                Some(id) => {
                    match find_task(&date_tasks, id) {
                        Some(index) => {
                            if index > 0 {
                                assert(date_tasks.deep_view()[index - 1] == date_tasks@[index
                                    - 1]@);
                                ScreenStep::Done(
                                    ScreenState::Calendar(
                                        with_task_of(
                                            currstate,
                                            Some(date_tasks[index - 1].task_id),
                                        ),
                                    ),
                                )
                            } else {
                                ScreenStep::Done(
                                    ScreenState::Calendar(with_task_of(currstate, None)),
                                )
                            }
                        },
                        None => ScreenStep::Done(
                            ScreenState::Calendar(with_task_of(currstate, None)),
                        ),
                    }
                },
                None => {
                    let res = match checked_grid_navigation(&selected, GridDirection::Left) {
                        Some(res) => res,
                        None => {
                            return ScreenStep::Done(ScreenState::Calendar(currstate.clone()));
                        },
                    };
                    let date_tasks_prev = match api_handler.fetch_tasks_at_date(
                        &res,
                        CacheType::PreferCache,
                    ) {
                        Some(tasks) => tasks,
                        None => {
                            return ScreenStep::FetchMonth {
                                year: res.year,
                                month: res.month as i32,
                            };
                        },
                    };
                    if date_tasks_prev.len() > 0 {
                        assert(date_tasks_prev.deep_view().last() == date_tasks_prev@[
                            date_tasks_prev@.len() - 1]@);
                        ScreenStep::Done(
                            ScreenState::Calendar(
                                with_selection_of(
                                    currstate,
                                    &res,
                                    Some(date_tasks_prev[date_tasks_prev.len() - 1].task_id),
                                ),
                            ),
                        )
                    } else {
                        ScreenStep::Done(
                            ScreenState::Calendar(with_selection_of(currstate, &res, None)),
                        )
                    }
                },
            }
        },
        CalAction::SelectTaskDown => {
            let date_tasks = match api_handler.fetch_tasks_at_date(
                &selected,
                CacheType::PreferCache,
            ) {
                Some(tasks) => tasks,
                None => {
                    return ScreenStep::FetchMonth {
                        year: selected.year,
                        month: selected.month as i32,
                    };
                },
            };
            match currstate.task_id {
                Some(id) => {
                    match find_task(&date_tasks, id) {
                        Some(index) => {
                            if index == date_tasks.len() - 1 {
                                ScreenStep::Done(
                                    ScreenState::Calendar(next_day_of(currstate, &selected)),
                                )
                            } else {
                                assert(date_tasks.deep_view()[index + 1] == date_tasks@[index
                                    + 1]@);
                                ScreenStep::Done(
                                    ScreenState::Calendar(
                                        with_task_of(
                                            currstate,
                                            Some(date_tasks[index + 1].task_id),
                                        ),
                                    ),
                                )
                            }
                        },
                        None => ScreenStep::Done(
                            ScreenState::Calendar(with_task_of(currstate, None)),
                        ),
                    }
                },
                None => {
                    if date_tasks.len() > 0 {
                        assert(date_tasks.deep_view()[0] == date_tasks@[0]@);
                        ScreenStep::Done(
                            ScreenState::Calendar(
                                with_task_of(currstate, Some(date_tasks[0].task_id)),
                            ),
                        )
                    } else {
                        ScreenStep::Done(ScreenState::Calendar(next_day_of(currstate, &selected)))
                    }
                },
            }
        },
        CalAction::Nothing => ScreenStep::Done(ScreenState::Calendar(currstate.clone())),
    }
}

} // verus!

//! The form that changes a stored task.

use crate::components::form;
use crate::components::form::{
    field, form_step, placed, placed_at, FormDecorationParameters, FormRenderParameters,
    FormResult, FormResultView,
};
use crate::components::inputtext::InputMode;
use crate::components::new_task_form::{as_task_minutes, time_verdict, validate_time};
use crate::keys::KeyInfo;
use crate::shorthand::{shorthand_minutes, time_shorthand_to_mins};
use crate::state::{
    CalendarState, CalendarView, EditTaskState, EditTaskView, ScreenState, ScreenStep,
    ScreenView, StepView,
};
use crate::styles::Styles;
use crate::text::{i32_value, parse_i32, same_text};
use crate::types::{TaskDataView, TaskDataWithId, TaskDataWithIdView};
use vstd::prelude::*;

verus! {

/// What the check of a number field says: an integer from `low` to `high`
/// may stay, and `fallback` takes the place of anything else.
pub open spec fn number_verdict(
    text: Seq<char>,
    low: int,
    high: int,
    fallback: Seq<char>,
) -> Result<(), Seq<char>> {
    match i32_value(text) {
        Some(value) => if low <= value <= high {
            Ok(())
        } else {
            Err(fallback)
        },
        None => Err(fallback),
    }
}

/// What the check of the field for the tick says: `Yes` and `No` may stay,
/// and `No` takes the place of anything else.
pub open spec fn yes_no_verdict(text: Seq<char>) -> Result<(), Seq<char>> {
    if text == "Yes"@ || text == "No"@ {
        Ok(())
    } else {
        Err("No"@)
    }
}

/// The names of the fields.
pub open spec fn edit_task_labels() -> Seq<Seq<char>> {
    seq![
        "year"@,
        "month"@,
        "day"@,
        "start_shorthand"@,
        "end_shorthand"@,
        "title"@,
        "description"@,
        "complete"@,
    ]
}

/// What the check of a field of the form says of a text. The year is any
/// integer, 2000 in its place; the month one of 1 to 12 and the day one of 1
/// to 31, 1 in their place; the two times are shorthand times; title and
/// description are anything; the tick is `Yes` or `No`.
pub open spec fn edit_task_verdict(field: int, text: Seq<char>) -> Result<(), Seq<char>> {
    if field == 0 {
        number_verdict(text, i32::MIN as int, i32::MAX as int, "2000"@)
    } else if field == 1 {
        number_verdict(text, 1, 12, "1"@)
    } else if field == 2 {
        number_verdict(text, 1, 31, "1"@)
    } else if field == 3 || field == 4 {
        time_verdict(text)
    } else if field == 7 {
        yes_no_verdict(text)
    } else {
        Ok(())
    }
}

/// The number that a handed-in field holds, `fallback` where it holds none.
pub open spec fn number_or(text: Seq<char>, fallback: i32) -> i32 {
    match i32_value(text) {
        Some(value) => value,
        None => fallback,
    }
}

/// The task that the handed-in values make of the task under edit.
pub open spec fn edited_task_from(
    task_id: i64,
    values: Seq<(Seq<char>, Seq<char>)>,
) -> TaskDataWithIdView {
    TaskDataWithIdView {
        data: TaskDataView {
            year: number_or(values[0].1, 2000),
            month: number_or(values[1].1, 1),
            day: number_or(values[2].1, 1),
            start_min: as_task_minutes(shorthand_minutes(values[3].1)),
            end_min: as_task_minutes(shorthand_minutes(values[4].1)),
            title: values[5].1,
            description: Some(values[6].1),
            complete: values[7].1 == "Yes"@,
        },
        task_id,
    }
}

/// What a key does on the calendar while the form for a task under edit is
/// open. The form takes the key. While it goes on, the calendar keeps it;
/// when it is cancelled, the calendar drops it with all that was typed; when
/// it is handed in, the task is to be updated.
pub open spec fn edit_task_step(calendar: CalendarView, key: KeyInfo) -> StepView
    recommends
        calendar.editing_task is Some,
{
    let edit = calendar.editing_task->0;
    let form = edit.form;
    let verdict = edit_task_verdict(
        form.form_pos as int,
        form.fields[form.form_pos as int].contents,
    );
    let (next, result) = form_step(form, key, edit_task_labels(), Some(verdict));
    match result {
        FormResultView::InProgress => StepView::Done(
            ScreenView::Calendar(
                CalendarView {
                    editing_task: Some(EditTaskView { form: next, task_id: edit.task_id }),
                    ..calendar
                },
            ),
        ),
        FormResultView::CancelAll => StepView::Done(
            ScreenView::Calendar(CalendarView { editing_task: None, ..calendar }),
        ),
        FormResultView::Submit(values) => StepView::UpdateTask(
            edited_task_from(edit.task_id, values),
        ),
    }
}

/// The line that tells of an edit that the service did not take.
pub open spec fn update_failure_lines() -> Seq<Seq<char>> {
    seq!["The edit could not be saved. Make sure you entered valid times"@]
}

/// The calendar after the service answered an update. Where it took the
/// edit, the form is gone, and the selected task is let go of if the edit
/// moved it to another day. Where it did not, a message stands over the
/// form, which holds what it held.
pub open spec fn edit_task_after_update(calendar: CalendarView, outcome: Option<bool>) -> ScreenView
    recommends
        calendar.editing_task is Some,
{
    match outcome {
        Some(date_changed) => ScreenView::Calendar(
            CalendarView {
                task_id: if date_changed {
                    None
                } else {
                    calendar.task_id
                },
                editing_task: None,
                ..calendar
            },
        ),
        None => ScreenView::Calendar(
            CalendarView {
                editing_task: Some(
                    EditTaskView {
                        task_id: calendar.editing_task->0.task_id,
                        form: calendar.editing_task->0.form.with_message(update_failure_lines()),
                    },
                ),
                ..calendar
            },
        ),
    }
}

/// The check of a number field.
pub fn validate_number(input: &str, low: i32, high: i32, fallback: &str) -> (r: Result<(), String>)
    ensures
        form::verdict_view(Some(r)) == Some(
            number_verdict(input@, low as int, high as int, fallback@),
        ),
{
    match parse_i32(input) {
        Some(value) => if low <= value && value <= high {
            Ok(())
        } else {
            Err(String::from_str(fallback))
        },
        None => Err(String::from_str(fallback)),
    }
}

/// The check of the field for the tick.
pub fn validate_yes_no(input: &str) -> (r: Result<(), String>)
    ensures
        form::verdict_view(Some(r)) == Some(yes_no_verdict(input@)),
{
    if same_text(input, "Yes") || same_text(input, "No") {
        Ok(())
    } else {
        Err(String::from_str("No"))
    }
}

/// The check of field `field` of the form.
pub fn validate_field(field: usize, input: &str) -> (r: Result<(), String>)
    ensures
        form::verdict_view(Some(r)) == Some(edit_task_verdict(field as int, input@)),
{
    if field == 0 {
        validate_number(input, i32::MIN, i32::MAX, "2000")
    } else if field == 1 {
        validate_number(input, 1, 12, "1")
    } else if field == 2 {
        validate_number(input, 1, 31, "1")
    } else if field == 3 || field == 4 {
        validate_time(input)
    } else if field == 7 {
        validate_yes_no(input)
    } else {
        Ok(())
    }
}

fn number_or_else(text: &str, fallback: i32) -> (r: i32)
    ensures
        r == number_or(text@, fallback),
{
    match parse_i32(text) {
        Some(value) => value,
        None => fallback,
    }
}

/// A key on the calendar while the form for a task under edit is open.
pub fn handle_input(currstate: &CalendarState, key: &KeyInfo) -> (r: ScreenStep)
    requires
        currstate.wf(),
        currstate.editing_task is Some,
    ensures
        r@ == edit_task_step(currstate@, *key),
        r@.wf(),
{
    let formstate = match &currstate.editing_task {
        Some(edit) => edit,
        None => vstd::pervasive::unreached(),
    };
    let form = &formstate.form;
    let text = form.fields[form.form_pos].contents.as_str();
    assert(form.fields@[form.form_pos as int]@ == form@.fields[form.form_pos as int]);
    let verdict = validate_field(form.form_pos, text);
    let labels = [
        "year",
        "month",
        "day",
        "start_shorthand",
        "end_shorthand",
        "title",
        "description",
        "complete",
    ];
    assert(form::labels_view(labels) =~= edit_task_labels());
    let res = form::step(form, key, labels, Some(verdict));
    let kept = currstate.clone();
    match res.1 {
        FormResult::InProgress => ScreenStep::Done(
            ScreenState::Calendar(
                CalendarState {
                    year: kept.year,
                    month: kept.month,
                    day: kept.day,
                    task_id: kept.task_id,
                    pane: kept.pane,
                    making_new_task: kept.making_new_task,
                    editing_task: Some(EditTaskState { form: res.0, task_id: formstate.task_id }),
                },
            ),
        ),
        FormResult::CancelAll => ScreenStep::Done(
            ScreenState::Calendar(
                CalendarState {
                    year: kept.year,
                    month: kept.month,
                    day: kept.day,
                    task_id: kept.task_id,
                    pane: kept.pane,
                    making_new_task: kept.making_new_task,
                    editing_task: None,
                },
            ),
        ),
        FormResult::Submit(result) => {
            let ghost values = Seq::new(result@.len(), |i: int| (result@[i].0@, result@[i].1@));
            assert(res.1@ == FormResultView::Submit(values));
            assert(values.len() == form@.fields.len());
            assert(values[0].1 == result@[0].1@);
            assert(values[1].1 == result@[1].1@);
            assert(values[2].1 == result@[2].1@);
            assert(values[3].1 == result@[3].1@);
            assert(values[4].1 == result@[4].1@);
            assert(values[5].1 == result@[5].1@);
            assert(values[6].1 == result@[6].1@);
            assert(values[7].1 == result@[7].1@);
            let start_min = time_shorthand_to_mins(result[3].1.as_str());
            let end_min = time_shorthand_to_mins(result[4].1.as_str());
            let year = number_or_else(result[0].1.as_str(), 2000);
            let month = number_or_else(result[1].1.as_str(), 1);
            let day = number_or_else(result[2].1.as_str(), 1);
            let complete = same_text(result[7].1.as_str(), "Yes");
            let new_task = TaskDataWithId {
                year,
                month,
                day,
                start_min,
                end_min,
                title: result[5].1.clone(),
                description: Some(result[6].1.clone()),
                complete,
                task_id: formstate.task_id,
            };
            ScreenStep::UpdateTask(new_task)
        },
    }
}

/// The calendar after the service answered the update of a task:
/// `Some(date_changed)` where it took the edit, `None` where it did not.
pub fn after_update(currstate: &CalendarState, outcome: Option<bool>) -> (r: ScreenState)
    requires
        currstate.wf(),
        currstate.editing_task is Some,
    ensures
        r@ == edit_task_after_update(currstate@, outcome),
        r.wf(),
{
    let kept = currstate.clone();
    match outcome {
        Some(date_changed) => ScreenState::Calendar(
            CalendarState {
                year: kept.year,
                month: kept.month,
                day: kept.day,
                task_id: if date_changed {
                    None
                } else {
                    kept.task_id
                },
                pane: kept.pane,
                making_new_task: kept.making_new_task,
                editing_task: None,
            },
        ),
        None => {
            let edit = match &currstate.editing_task {
                Some(edit) => edit,
                None => vstd::pervasive::unreached(),
            };
            let mut lines: Vec<String> = Vec::new();
            lines.push(
                String::from_str("The edit could not be saved. Make sure you entered valid times"),
            );
            assert(lines.deep_view() =~= update_failure_lines());
            ScreenState::Calendar(
                CalendarState {
                    year: kept.year,
                    month: kept.month,
                    day: kept.day,
                    task_id: kept.task_id,
                    pane: kept.pane,
                    making_new_task: kept.making_new_task,
                    editing_task: Some(
                        EditTaskState {
                            task_id: edit.task_id,
                            form: edit.form.with_message(lines),
                        },
                    ),
                },
            )
        },
    }
}

/// The placing of a field at the left edge with a gap of its own behind
/// its name.
pub open spec fn placed_with(margin_top: u16, width: u16, gap: u16) -> Styles {
    Styles { gap: Some(gap), ..placed_at(0, margin_top, width) }
}

fn placed_with_gap(margin_top: u16, width: u16, gap: u16) -> (r: Styles)
    ensures
        r == placed_with(margin_top, width, gap),
{
    Styles {
        margin_left: 0,
        margin_top,
        width: Some(width),
        active: false,
        last_in_row: None,
        gap: Some(gap),
        wrap_text: false,
        height: None,
    }
}

/// How the form for a task under edit is drawn: the date in three rows,
/// start and end in one row, title and description, and the tick.
pub fn render(currstate: &CalendarState) -> (r: FormRenderParameters<8>)
    ensures
        r.wf(),
        r.title@ == "Edit Task"@,
        r.names() == seq![
            "Year"@,
            "Month"@,
            "Day"@,
            "Start"@,
            "End"@,
            "Title"@,
            "Descr"@,
            "Complete"@,
        ],
        forall|i: int| 0 <= i < 8 ==> r.modes()[i] == InputMode::Normal,
        r.placings() == seq![
            placed_with(4, 14, 2),
            placed_with(5, 14, 1),
            placed_with(6, 14, 3),
            placed_at(0, 8, 14),
            placed_at(18, 8, 12),
            placed_at(0, 10, 40),
            placed_at(0, 11, 40),
            placed_at(0, 13, 7),
        ],
        r.decorations() == seq![("    "@, 14u16, 8u16, false)],
        r.clear_lines@ == seq![7u16, 9u16, 12u16, 14u16],
        r.hint_y == 15,
{
    let mut fields = Vec::new();
    fields.push(field("Year", placed_with_gap(4, 14, 2), InputMode::Normal));
    fields.push(field("Month", placed_with_gap(5, 14, 1), InputMode::Normal));
    fields.push(field("Day", placed_with_gap(6, 14, 3), InputMode::Normal));
    fields.push(field("Start", placed(0, 8, 14), InputMode::Normal));
    fields.push(field("End", placed(18, 8, 12), InputMode::Normal));
    fields.push(field("Title", placed(0, 10, 40), InputMode::Normal));
    fields.push(field("Descr", placed(0, 11, 40), InputMode::Normal));
    fields.push(field("Complete", placed(0, 13, 7), InputMode::Normal));
    let mut decoration_strings = Vec::new();
    decoration_strings.push(
        FormDecorationParameters {
            text: String::from_str("    "),
            x: 14,
            y: 8,
            clear_rest_of_line: false,
        },
    );
    let mut clear_lines: Vec<u16> = Vec::new();
    clear_lines.push(7);
    clear_lines.push(9);
    clear_lines.push(12);
    clear_lines.push(14);
    let r = FormRenderParameters::<8> {
        title: String::from_str("Edit Task"),
        hint_y: 15,
        fields,
        decoration_strings,
        clear_lines,
    };
    assert(r.names() =~= seq![
        "Year"@,
        "Month"@,
        "Day"@,
        "Start"@,
        "End"@,
        "Title"@,
        "Descr"@,
        "Complete"@,
    ]);
    assert(r.placings() =~= seq![
        placed_with(4, 14, 2),
        placed_with(5, 14, 1),
        placed_with(6, 14, 3),
        placed_at(0, 8, 14),
        placed_at(18, 8, 12),
        placed_at(0, 10, 40),
        placed_at(0, 11, 40),
        placed_at(0, 13, 7),
    ]);
    assert(r.decorations() =~= seq![("    "@, 14u16, 8u16, false)]);
    assert(r.clear_lines@ =~= seq![7u16, 9u16, 12u16, 14u16]);
    r
}

/// Escape on the form drops it: the calendar is as it was but for the form,
/// which is gone with everything that was typed into it.
pub proof fn lemma_escape_discards_edit(calendar: CalendarView)
    requires
        calendar.editing_task is Some,
    ensures
        edit_task_step(calendar, form::escape_key()) == StepView::Done(
            ScreenView::Calendar(CalendarView { editing_task: None, ..calendar }),
        ),
{
}

} // verus!

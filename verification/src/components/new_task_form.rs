//! The form that makes a new task on the selected day.

use crate::api::{display_error, failure_text, RequestFailure};
use crate::components::form;
use crate::components::form::{
    field, form_step, placed, placed_at, FormDecorationParameters, FormRenderParameters,
    FormResult, FormResultView,
};
use crate::components::inputtext::InputMode;
use crate::date::{date_text, RicalDate};
use crate::format::weekday_name_text;
use crate::keys::KeyInfo;
use crate::shorthand::{shorthand_minutes, time_shorthand_to_mins};
use crate::state::{CalendarState, CalendarView, ScreenState, ScreenStep, ScreenView, StepView};
use crate::styles::Styles;
use crate::types::{TaskData, TaskDataView};
use vstd::prelude::*;

verus! {

/// What the check of a time field says: a shorthand time may stay, and an
/// empty field takes the place of anything else.
pub open spec fn time_verdict(text: Seq<char>) -> Result<(), Seq<char>> {
    if shorthand_minutes(text) is Some {
        Ok(())
    } else {
        Err(Seq::empty())
    }
}

/// The check of a time field.
pub fn validate_time(input: &str) -> (r: Result<(), String>)
    ensures
        form::verdict_view(Some(r)) == Some(time_verdict(input@)),
{
    match time_shorthand_to_mins(input) {
        Some(_) => Ok(()),
        None => Err(String::new()),
    }
}

/// A minute of the day as a task holds it.
pub open spec fn as_task_minutes(minutes: Option<int>) -> Option<i32> {
    match minutes {
        Some(m) => Some(m as i32),
        None => None,
    }
}

/// The names of the fields: start, end, title, description.
pub open spec fn new_task_labels() -> Seq<Seq<char>> {
    seq!["start_shorthand"@, "end_shorthand"@, "title"@, "description"@]
}

/// What the check of a field of the form says of a text: the two time
/// fields take shorthand times, title and description take anything.
pub open spec fn new_task_verdict(field: int, text: Seq<char>) -> Result<(), Seq<char>> {
    if field == 0 || field == 1 {
        time_verdict(text)
    } else {
        Ok(())
    }
}

/// The task that the handed-in values make on the selected day: start and
/// end as the shorthand times say, none where a field holds none; not ticked
/// off.
pub open spec fn new_task_from(
    calendar: CalendarView,
    values: Seq<(Seq<char>, Seq<char>)>,
) -> TaskDataView {
    TaskDataView {
        year: calendar.year,
        month: calendar.month as i32,
        day: calendar.day as i32,
        start_min: as_task_minutes(shorthand_minutes(values[0].1)),
        end_min: as_task_minutes(shorthand_minutes(values[1].1)),
        title: values[2].1,
        description: Some(values[3].1),
        complete: false,
    }
}

/// What a key does on the calendar while the form for a new task is open.
/// The form takes the key. While it goes on, the calendar keeps it; when it
/// is cancelled, the calendar drops it with all that was typed; when it is
/// handed in, the task is to be posted.
pub open spec fn new_task_step(calendar: CalendarView, key: KeyInfo) -> StepView
    recommends
        calendar.making_new_task is Some,
{
    let form = calendar.making_new_task->0;
    let verdict = new_task_verdict(
        form.form_pos as int,
        form.fields[form.form_pos as int].contents,
    );
    let (next, result) = form_step(form, key, new_task_labels(), Some(verdict));
    match result {
        FormResultView::InProgress => StepView::Done(
            ScreenView::Calendar(CalendarView { making_new_task: Some(next), ..calendar }),
        ),
        FormResultView::CancelAll => StepView::Done(
            ScreenView::Calendar(CalendarView { making_new_task: None, ..calendar }),
        ),
        FormResultView::Submit(values) => StepView::PostTask(new_task_from(calendar, values)),
    }
}

/// The lines that tell of a task that the service did not take.
pub open spec fn post_failure_lines(failure: Seq<char>) -> Seq<Seq<char>> {
    seq![
        "Could not create task:"@,
        "  - "@ + failure,
        "Check that you entered valid times"@,
    ]
}

/// The calendar after the service answered a post: without the form where
/// it took the task, and with a message over the form where it did not. The
/// form under the message holds what it held.
pub open spec fn new_task_after_post(
    calendar: CalendarView,
    failure: Option<Seq<char>>,
) -> ScreenView
    recommends
        calendar.making_new_task is Some,
{
    match failure {
        None => ScreenView::Calendar(CalendarView { making_new_task: None, ..calendar }),
        Some(text) => ScreenView::Calendar(
            CalendarView {
                making_new_task: Some(
                    calendar.making_new_task->0.with_message(post_failure_lines(text)),
                ),
                ..calendar
            },
        ),
    }
}

/// A key on the calendar while the form for a new task is open.
pub fn handle_input(currstate: &CalendarState, key: &KeyInfo) -> (r: ScreenStep)
    requires
        currstate.wf(),
        currstate.making_new_task is Some,
    ensures
        r@ == new_task_step(currstate@, *key),
        r@.wf(),
{
    let formstate = match &currstate.making_new_task {
        Some(form) => form,
        None => vstd::pervasive::unreached(),
    };
    let text = formstate.fields[formstate.form_pos].contents.as_str();
    assert(formstate.fields@[formstate.form_pos as int]@
        == formstate@.fields[formstate.form_pos as int]);
    let verdict = if formstate.form_pos <= 1 {
        validate_time(text)
    } else {
        Ok(())
    };
    let labels = ["start_shorthand", "end_shorthand", "title", "description"];
    assert(form::labels_view(labels) =~= new_task_labels());
    let res = form::step(formstate, key, labels, Some(verdict));
    let kept = currstate.clone();
    match res.1 {
        FormResult::InProgress => ScreenStep::Done(
            ScreenState::Calendar(
                CalendarState {
                    year: kept.year,
                    month: kept.month,
                    day: kept.day,
                    task_id: kept.task_id,
                    pane: kept.pane,
                    making_new_task: Some(res.0),
                    editing_task: kept.editing_task,
                },
            ),
        ),
        FormResult::CancelAll => ScreenStep::Done(
            ScreenState::Calendar(
                CalendarState {
                    year: kept.year,
                    month: kept.month,
                    day: kept.day,
                    task_id: kept.task_id,
                    pane: kept.pane,
                    making_new_task: None,
                    editing_task: kept.editing_task,
                },
            ),
        ),
        FormResult::Submit(result) => {
            let ghost values = Seq::new(result@.len(), |i: int| (result@[i].0@, result@[i].1@));
            assert(res.1@ == FormResultView::Submit(values));
            assert(values.len() == formstate@.fields.len());
            assert(values[0].1 == result@[0].1@);
            assert(values[1].1 == result@[1].1@);
            assert(values[2].1 == result@[2].1@);
            assert(values[3].1 == result@[3].1@);
            let start_min = time_shorthand_to_mins(result[0].1.as_str());
            let end_min = time_shorthand_to_mins(result[1].1.as_str());
            let new_task = TaskData {
                year: currstate.year,
                month: currstate.month as i32,
                day: currstate.day as i32,
                start_min,
                end_min,
                title: result[2].1.clone(),
                description: Some(result[3].1.clone()),
                complete: false,
            };
            ScreenStep::PostTask(new_task)
        },
    }
}

/// The calendar after the service answered the post of a new task.
pub fn after_post(currstate: &CalendarState, outcome: Result<(), RequestFailure>) -> (r:
    ScreenState)
    requires
        currstate.wf(),
        currstate.making_new_task is Some,
    ensures
        r@ == new_task_after_post(
            currstate@,
            match outcome {
                Ok(_) => None,
                Err(err) => Some(
                    failure_text(
                        err.is_timeout,
                        err.is_connect,
                        err.is_request,
                        err.is_body,
                        err.is_status,
                        err.status@,
                    ),
                ),
            },
        ),
        r.wf(),
{
    let kept = currstate.clone();
    let making_new_task = match outcome {
        Ok(_) => None,
        Err(err) => {
            let mut lines: Vec<String> = Vec::new();
            lines.push(String::from_str("Could not create task:"));
            lines.push(String::from_str("  - ").concat(display_error(&err).as_str()));
            lines.push(String::from_str("Check that you entered valid times"));
            assert(lines.deep_view() =~= post_failure_lines(
                failure_text(
                    err.is_timeout,
                    err.is_connect,
                    err.is_request,
                    err.is_body,
                    err.is_status,
                    err.status@,
                ),
            ));
            match &currstate.making_new_task {
                Some(form) => Some(form.with_message(lines)),
                None => vstd::pervasive::unreached(),
            }
        },
    };
    ScreenState::Calendar(
        CalendarState {
            year: kept.year,
            month: kept.month,
            day: kept.day,
            task_id: kept.task_id,
            pane: kept.pane,
            making_new_task,
            editing_task: kept.editing_task,
        },
    )
}

/// The task that the form makes is one that the service stores, unless it
/// has an end and no start: the day is the selected day of the calendar, and
/// the two times are minutes of the day.
pub proof fn lemma_new_task_is_storable(
    calendar: CalendarView,
    values: Seq<(Seq<char>, Seq<char>)>,
)
    requires
        calendar.wf(),
    ensures
        new_task_from(calendar, values).storable() <==> !(new_task_from(
            calendar,
            values,
        ).end_min is Some && new_task_from(calendar, values).start_min is None),
{
}

/// Escape on the form drops it: the calendar is as it was but for the form,
/// which is gone with everything that was typed into it.
pub proof fn lemma_escape_discards_new_task(calendar: CalendarView)
    requires
        calendar.making_new_task is Some,
    ensures
        new_task_step(calendar, form::escape_key()) == StepView::Done(
            ScreenView::Calendar(CalendarView { making_new_task: None, ..calendar }),
        ),
{
}

/// The line over the fields that names the day of the new task: the date,
/// a dash, the weekday.
pub open spec fn day_line(date: RicalDate) -> Seq<char> {
    date_text(date.year as int, date.month as int, date.day as int) + " - "@ + weekday_name_text(
        date.weekday_index(),
    )
}

/// How the form for a new task is drawn: the day on top, start and end in
/// one row, the title, and the description on three wrapped rows.
pub fn render(currstate: &CalendarState) -> (r: FormRenderParameters<4>)
    requires
        currstate.wf(),
    ensures
        r.wf(),
        r.title@ == "New Task"@,
        r.names() == seq!["Start"@, "End"@, "Title"@, "Descr"@],
        r.modes() == seq![
            InputMode::Normal,
            InputMode::Normal,
            InputMode::Normal,
            InputMode::Normal,
        ],
        r.placings() == seq![
            placed_at(0, 5, 14),
            placed_at(18, 5, 12),
            placed_at(0, 7, 40),
            Styles { wrap_text: true, height: Some(3), ..placed_at(0, 8, 40) },
        ],
        r.decorations() == seq![
            (
                day_line(
                    RicalDate { year: currstate.year, month: currstate.month, day: currstate.day },
                ),
                0u16,
                4u16,
                true,
            ),
            ("    "@, 14u16, 5u16, false),
        ],
        r.clear_lines@ == seq![6u16, 11u16],
        r.hint_y == 12,
{
    let currdate = RicalDate { year: currstate.year, month: currstate.month, day: currstate.day };
    let mut fields = Vec::new();
    fields.push(field("Start", placed(0, 5, 14), InputMode::Normal));
    fields.push(field("End", placed(18, 5, 12), InputMode::Normal));
    fields.push(field("Title", placed(0, 7, 40), InputMode::Normal));
    fields.push(
        field(
            "Descr",
            Styles {
                margin_left: 0,
                margin_top: 8,
                width: Some(40),
                active: false,
                last_in_row: None,
                gap: None,
                wrap_text: true,
                height: Some(3),
            },
            InputMode::Normal,
        ),
    );
    let mut decoration_strings = Vec::new();
    decoration_strings.push(
        FormDecorationParameters {
            text: currdate.format().concat(" - ").concat(currdate.weekday_name().as_str()),
            x: 0,
            y: 4,
            clear_rest_of_line: true,
        },
    );
    decoration_strings.push(
        FormDecorationParameters {
            text: String::from_str("    "),
            x: 14,
            y: 5,
            clear_rest_of_line: false,
        },
    );
    let mut clear_lines: Vec<u16> = Vec::new();
    clear_lines.push(6);
    clear_lines.push(11);
    let r = FormRenderParameters::<4> {
        title: String::from_str("New Task"),
        hint_y: 12,
        fields,
        decoration_strings,
        clear_lines,
    };
    assert(r.names() =~= seq!["Start"@, "End"@, "Title"@, "Descr"@]);
    assert(r.modes() =~= seq![
        InputMode::Normal,
        InputMode::Normal,
        InputMode::Normal,
        InputMode::Normal,
    ]);
    assert(r.placings() =~= seq![
        placed_at(0, 5, 14),
        placed_at(18, 5, 12),
        placed_at(0, 7, 40),
        Styles { wrap_text: true, height: Some(3), ..placed_at(0, 8, 40) },
    ]);
    assert(r.decorations() =~= seq![
        (day_line(currdate), 0u16, 4u16, true),
        ("    "@, 14u16, 5u16, false),
    ]);
    assert(r.clear_lines@ =~= seq![6u16, 11u16]);
    r
}

} // verus!

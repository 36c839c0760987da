//! A form of several fields: moving between them, checking a field when the
//! focus leaves it, cancelling, and handing in what was typed.

use crate::components::inputtext;
use crate::components::inputtext::{line_after_key, InputMode};
use crate::keys::{key_pressed, KeyCode, KeyInfo, KeyModifiers};
use crate::state::{clone_fields, FormState, FormView, TextInputState, TextInputView};
use crate::styles::Styles;
use vstd::prelude::*;

verus! {

/// What a key asks of a form.
#[derive(Clone, Copy, Debug, PartialEq, Eq, Structural)]
pub enum FormAction {
    CancelAll,
    NextField,
    PrevField,
    Submit,
    NormalTyping,
}

/// What became of a form after a key.
#[derive(Debug, PartialEq, Eq)]
pub enum FormResult {
    InProgress,
    /// The name of each field with what it held, in the order of the fields.
    Submit(Vec<(String, String)>),
    CancelAll,
}

/// What a `FormResult` holds.
pub enum FormResultView {
    InProgress,
    Submit(Seq<(Seq<char>, Seq<char>)>),
    CancelAll,
}

impl View for FormResult {
    type V = FormResultView;

    open spec fn view(&self) -> FormResultView {
        match self {
            FormResult::InProgress => FormResultView::InProgress,
            FormResult::Submit(values) => FormResultView::Submit(
                Seq::new(values@.len(), |i: int| (values@[i].0@, values@[i].1@)),
            ),
            FormResult::CancelAll => FormResultView::CancelAll,
        }
    }
}

/// What a check of a field's text said: the text may stay, or this other
/// text is to stand in its place.
pub open spec fn verdict_view(verdict: Option<Result<(), String>>) -> Option<
    Result<(), Seq<char>>,
> {
    match verdict {
        None => None,
        Some(Ok(_)) => Some(Ok(())),
        Some(Err(fallback)) => Some(Err(fallback@)),
    }
}

/// The names of the fields as texts.
pub open spec fn labels_view<const N: usize>(label_names: [&str; N]) -> Seq<Seq<char>> {
    Seq::new(N as nat, |i: int| label_names@[i]@)
}

/// The key that cancels.
pub open spec fn is_escape(key: KeyInfo) -> bool {
    key.modifiers == KeyModifiers::Plain && key.code == KeyCode::Esc
}

/// What a key asks of a form of `count` fields with the focus on field
/// `form_pos`. Escape cancels. Enter hands the form in from the last field
/// and goes to the next field from any other. The up arrow goes a field back,
/// tab and the down arrow go a field on, where there is one. Every other
/// key, and an arrow at the end of its way, belongs to the text of the field.
pub open spec fn form_action(form_pos: int, count: int, key: KeyInfo) -> FormAction {
    if key.modifiers != KeyModifiers::Plain {
        FormAction::NormalTyping
    } else if key.code == KeyCode::Esc {
        FormAction::CancelAll
    } else if key.code == KeyCode::Enter {
        if form_pos == count - 1 {
            FormAction::Submit
        } else {
            FormAction::NextField
        }
    } else if key.code == KeyCode::Up {
        if form_pos > 0 {
            FormAction::PrevField
        } else {
            FormAction::NormalTyping
        }
    } else if key.code == KeyCode::Tab || key.code == KeyCode::Down {
        if form_pos != count - 1 {
            FormAction::NextField
        } else {
            FormAction::NormalTyping
        }
    } else {
        FormAction::NormalTyping
    }
}

/// Whether the key makes the focus leave its field or hands the form in, so
/// that the field's text is checked.
pub open spec fn checks_field(form: FormView, key: KeyInfo) -> bool {
    form.error_message is None && (match form_action(
        form.form_pos as int,
        form.fields.len() as int,
        key,
    ) {
        FormAction::Submit | FormAction::NextField | FormAction::PrevField => true,
        _ => false,
    })
}

/// The fields after the one with the focus was checked. Where nothing
/// checks, they stay as they are. Where the check lets the text stand, its
/// cursor goes to the end. Where the check turns the text down, the text that
/// the check gave stands in its place, the cursor at its end.
pub open spec fn validated_fields(form: FormView, verdict: Option<Result<(), Seq<char>>>) -> Seq<
    TextInputView,
> {
    match verdict {
        None => form.fields,
        Some(Ok(_)) => form.fields.update(
            form.form_pos as int,
            TextInputView::at_end(form.fields[form.form_pos as int].contents),
        ),
        Some(Err(fallback)) => form.fields.update(
            form.form_pos as int,
            TextInputView::at_end(fallback),
        ),
    }
}

/// The name of each field with the text that it holds.
pub open spec fn named_values(labels: Seq<Seq<char>>, fields: Seq<TextInputView>) -> Seq<
    (Seq<char>, Seq<char>),
> {
    Seq::new(fields.len(), |i: int| (labels[i], fields[i].contents))
}

/// The form and the result after a key. `verdict` is what the check of the
/// focused field's text says; it is read only where `checks_field` holds.
///
/// While the form shows a message, the keys neither move the focus nor
/// type: escape cancels, and every other key takes the message away, so
/// that the form goes on with the fields and the focus that it had. Else
/// the key's `form_action` decides: cancelling and handing in leave the form
/// as it is, the latter with the checked fields as its result; a move to
/// another field keeps the checked fields; and typing changes the text of
/// the focused field alone.
pub open spec fn form_step(
    form: FormView,
    key: KeyInfo,
    labels: Seq<Seq<char>>,
    verdict: Option<Result<(), Seq<char>>>,
) -> (FormView, FormResultView) {
    if form.error_message is Some {
        if is_escape(key) {
            (form, FormResultView::CancelAll)
        } else {
            (FormView { error_message: None, ..form }, FormResultView::InProgress)
        }
    } else {
        match form_action(form.form_pos as int, form.fields.len() as int, key) {
            FormAction::CancelAll => (form, FormResultView::CancelAll),
            FormAction::Submit => (
                form,
                FormResultView::Submit(named_values(labels, validated_fields(form, verdict))),
            ),
            FormAction::NextField => (
                FormView {
                    form_pos: (form.form_pos + 1) as usize,
                    fields: validated_fields(form, verdict),
                    ..form
                },
                FormResultView::InProgress,
            ),
            FormAction::PrevField => (
                FormView {
                    form_pos: (form.form_pos - 1) as usize,
                    fields: validated_fields(form, verdict),
                    ..form
                },
                FormResultView::InProgress,
            ),
            FormAction::NormalTyping => (
                FormView {
                    fields: form.fields.update(
                        form.form_pos as int,
                        line_after_key(form.fields[form.form_pos as int], key),
                    ),
                    ..form
                },
                FormResultView::InProgress,
            ),
        }
    }
}

/// What a key asks of the form.
pub fn action_for<const N: usize>(currstate: &FormState<N>, key: &KeyInfo) -> (r: FormAction)
    requires
        currstate.wf(),
    ensures
        r == form_action(currstate.form_pos as int, N as int, *key),
{
    let num_fields = currstate.fields.len();
    if key_pressed(key, KeyModifiers::Plain, KeyCode::Esc) {
        FormAction::CancelAll
    } else if key_pressed(key, KeyModifiers::Plain, KeyCode::Enter) {
        if currstate.form_pos == num_fields - 1 {
            FormAction::Submit
        } else {
            FormAction::NextField
        }
    } else if key_pressed(key, KeyModifiers::Plain, KeyCode::Up) {
        if currstate.form_pos > 0 {
            FormAction::PrevField
        } else {
            FormAction::NormalTyping
        }
    } else if key_pressed(key, KeyModifiers::Plain, KeyCode::Tab) || key_pressed(
        key,
        KeyModifiers::Plain,
        KeyCode::Down,
    ) {
        if currstate.form_pos != num_fields - 1 {
            FormAction::NextField
        } else {
            FormAction::NormalTyping
        }
    } else {
        FormAction::NormalTyping
    }
}

/// Whether the key makes the form check the text of the focused field.
pub fn key_checks_field<const N: usize>(currstate: &FormState<N>, key: &KeyInfo) -> (r: bool)
    requires
        currstate.wf(),
    ensures
        r == checks_field(currstate@, *key),
{
    if currstate.error_message.is_some() {
        return false;
    }
    match action_for(currstate, key) {
        FormAction::Submit | FormAction::NextField | FormAction::PrevField => true,
        _ => false,
    }
}

/// The fields of the form after the focused one was checked with the given
/// outcome.
pub fn apply_verdict<const N: usize>(
    currstate: &FormState<N>,
    verdict: Option<Result<(), String>>,
) -> (r: Vec<TextInputState>)
    requires
        currstate.wf(),
    ensures
        r.deep_view() == validated_fields(currstate@, verdict_view(verdict)),
        forall|i: int| 0 <= i < r@.len() ==> (#[trigger] r@[i]).wf(),
        r@.len() == N,
{
    let mut res_all = clone_fields(&currstate.fields);
    assert(res_all@.len() == currstate.fields.deep_view().len());
    assert forall|i: int| 0 <= i < res_all@.len() implies (#[trigger] res_all@[i]).wf() by {
        assert(res_all@[i]@ == res_all.deep_view()[i]);
        assert(currstate@.fields[i].wf());
    }
    let valid_contents = match verdict {
        None => {
            return res_all;
        },
        Some(Ok(_)) => currstate.fields[currstate.form_pos].contents.clone(),
        Some(Err(changed_contents)) => changed_contents,
    };
    let valid_input = TextInputState::from_contents(valid_contents);
    res_all.set(currstate.form_pos, valid_input);
    assert(currstate.fields@[currstate.form_pos as int]@ == currstate@.fields[currstate.form_pos
        as int]);
    assert(res_all.deep_view() =~= validated_fields(currstate@, verdict_view(verdict)));
    res_all
}

/// Whether `verdict` is an answer that the validator of the focused field
/// gives on the text of that field.
pub open spec fn is_answer<const N: usize, F: Fn(&str) -> Result<(), String>>(
    checks: [F; N],
    form: FormView,
    verdict: Result<(), String>,
) -> bool {
    exists|text: &str|
        text@ == form.fields[form.form_pos as int].contents && #[trigger] call_ensures(
            checks@[form.form_pos as int],
            (text,),
            verdict,
        )
}

/// The fields of the form after the focused one was checked by its
/// validator. Without validators the fields stay as they are.
pub fn validate_selected<const N: usize, F: Fn(&str) -> Result<(), String>>(
    currstate: &FormState<N>,
    validators: &Option<[F; N]>,
) -> (r: Vec<TextInputState>)
    requires
        currstate.wf(),
        validators matches Some(checks) ==> forall|text: &str|
            #[trigger] call_requires(checks@[currstate.form_pos as int], (text,)),
    ensures
        validators is None ==> r.deep_view() == validated_fields(currstate@, None),
        validators matches Some(checks) ==> exists|verdict: Result<(), String>|
            #[trigger] is_answer(*checks, currstate@, verdict) && r.deep_view()
                == validated_fields(currstate@, verdict_view(Some(verdict))),
        forall|i: int| 0 <= i < r@.len() ==> (#[trigger] r@[i]).wf(),
        r@.len() == N,
{
    match validators {
        None => apply_verdict(currstate, None),
        Some(checks) => {
            let text = currstate.fields[currstate.form_pos].contents.as_str();
            let verdict = (checks[currstate.form_pos])(text);
            proof {
                let focused = currstate.form_pos as int;
                assert(currstate.fields@[focused]@ == currstate@.fields[focused]);
                assert(call_ensures(checks@[focused], (text,), verdict));
                assert(is_answer(*checks, currstate@, verdict));
            }
            apply_verdict(currstate, Some(verdict))
        },
    }
}

/// One key on a form, with the outcome of the check of the focused field
/// given by the caller. The outcome is read where `checks_field` holds of
/// the key, and only there.
pub fn step<const N: usize>(
    currstate: &FormState<N>,
    key: &KeyInfo,
    label_names: [&str; N],
    verdict: Option<Result<(), String>>,
) -> (r: (FormState<N>, FormResult))
    requires
        currstate.wf(),
    ensures
        (r.0@, r.1@) == form_step(
            currstate@,
            *key,
            labels_view(label_names),
            verdict_view(verdict),
        ),
        r.0.wf(),
{
    if currstate.error_message.is_some() {
        if key_pressed(key, KeyModifiers::Plain, KeyCode::Esc) {
            return (currstate.clone(), FormResult::CancelAll);
        } else {
            let dismissed = FormState {
                form_pos: currstate.form_pos,
                fields: clone_fields(&currstate.fields),
                error_message: None,
            };
            return (dismissed, FormResult::InProgress);
        }
    }
    let action = action_for(currstate, key);
    let kept = currstate.clone();
    match action {
        FormAction::CancelAll => (kept, FormResult::CancelAll),
        FormAction::Submit => {
            let final_validated_fields = apply_verdict(currstate, verdict);
            let mut results: Vec<(String, String)> = Vec::new();
            let mut i: usize = 0;
            while i < N
                invariant
                    i <= N,
                    final_validated_fields@.len() == N,
                    results@.len() == i,
                    forall|k: int|
                        0 <= k < i ==> (#[trigger] results@[k]).0@ == label_names@[k]@
                            && results@[k].1@ == final_validated_fields@[k].contents@,
                decreases N - i,
            {
                let this_value = final_validated_fields[i].contents.clone();
                results.push((String::from_str(label_names[i]), this_value));
                i += 1;
            }
            let result = FormResult::Submit(results);
            assert(result@ =~= FormResultView::Submit(
                named_values(
                    labels_view(label_names),
                    validated_fields(currstate@, verdict_view(verdict)),
                ),
            )) by {
                assert forall|k: int| 0 <= k < N implies final_validated_fields@[k].contents@
                    == validated_fields(currstate@, verdict_view(verdict))[k].contents by {
                    assert(final_validated_fields.deep_view()[k] == final_validated_fields@[k]@);
                }
                assert(Seq::new(results@.len(), |i: int| (results@[i].0@, results@[i].1@))
                    =~= named_values(
                    labels_view(label_names),
                    validated_fields(currstate@, verdict_view(verdict)),
                ));
            }
            (kept, result)
        },
        FormAction::NextField => {
            let fields = apply_verdict(currstate, verdict);
            assert forall|i: int| 0 <= i < fields@.len() implies (#[trigger] fields.deep_view()[
                i]).wf() by {
                assert(fields@[i].wf());
            }
            (
                FormState {
                    form_pos: currstate.form_pos + 1,
                    fields,
                    error_message: kept.error_message,
                },
                FormResult::InProgress,
            )
        },
        FormAction::PrevField => {
            let fields = apply_verdict(currstate, verdict);
            assert forall|i: int| 0 <= i < fields@.len() implies (#[trigger] fields.deep_view()[
                i]).wf() by {
                assert(fields@[i].wf());
            }
            (
                FormState {
                    form_pos: currstate.form_pos - 1,
                    fields,
                    error_message: kept.error_message,
                },
                FormResult::InProgress,
            )
        },
        FormAction::NormalTyping => {
            let selected = &currstate.fields[currstate.form_pos];
            assert(selected@ == currstate@.fields[currstate.form_pos as int]);
            let res_selected = inputtext::handle_input(selected, key);
            let mut res_all = kept.fields;
            res_all.set(currstate.form_pos, res_selected);
            assert(res_all.deep_view() =~= currstate@.fields.update(
                currstate.form_pos as int,
                line_after_key(currstate@.fields[currstate.form_pos as int], *key),
            ));
            assert forall|i: int| 0 <= i < res_all@.len() implies (
            #[trigger] res_all.deep_view()[i]).wf() by {
                if i != currstate.form_pos {
                    assert(res_all.deep_view()[i] == currstate@.fields[i]);
                }
            }
            (
                FormState {
                    form_pos: currstate.form_pos,
                    fields: res_all,
                    error_message: kept.error_message,
                },
                FormResult::InProgress,
            )
        },
    }
}

/// One key on a form. Where the key makes the focus leave its field, or
/// hands the form in, the validator of that field is asked about the field's
/// text, and `step` does the rest with its answer; every other key goes to
/// `step` without one.
pub fn handle_input<const N: usize, F: Fn(&str) -> Result<(), String>>(
    currstate: &FormState<N>,
    key: &KeyInfo,
    label_names: [&str; N],
    validators: Option<[F; N]>,
) -> (r: (FormState<N>, FormResult))
    requires
        currstate.wf(),
        validators matches Some(checks) ==> forall|text: &str|
            #[trigger] call_requires(checks@[currstate.form_pos as int], (text,)),
    ensures
        r.0.wf(),
        validators is None || !checks_field(currstate@, *key) ==> (r.0@, r.1@) == form_step(
            currstate@,
            *key,
            labels_view(label_names),
            None,
        ),
        validators matches Some(checks) ==> (checks_field(currstate@, *key) ==> exists|
            verdict: Result<(), String>,
        |
            #[trigger] is_answer(checks, currstate@, verdict) && (r.0@, r.1@) == form_step(
                currstate@,
                *key,
                labels_view(label_names),
                verdict_view(Some(verdict)),
            )),
{
    match validators {
        Some(checks) => {
            if key_checks_field(currstate, key) {
                let text = currstate.fields[currstate.form_pos].contents.as_str();
                let verdict = (checks[currstate.form_pos])(text);
                proof {
                    let focused = currstate.form_pos as int;
                    assert(currstate.fields@[focused]@ == currstate@.fields[focused]);
                    assert(call_ensures(checks@[focused], (text,), verdict));
                    assert(is_answer(checks, currstate@, verdict));
                }
                step(currstate, key, label_names, Some(verdict))
            } else {
                step(currstate, key, label_names, None)
            }
        },
        None => step(currstate, key, label_names, None),
    }
}

/// The enter key without a modifier.
pub open spec fn enter_key() -> KeyInfo {
    KeyInfo { modifiers: KeyModifiers::Plain, code: KeyCode::Enter }
}

/// The escape key without a modifier.
pub open spec fn escape_key() -> KeyInfo {
    KeyInfo { modifiers: KeyModifiers::Plain, code: KeyCode::Esc }
}

/// Enter on a field that is not the last moves the focus one field on and
/// throws nothing away: the form goes on with as many fields as before, every
/// field but the one that was left is as it was, and that one keeps its text
/// too unless its check gave another.
pub proof fn lemma_enter_advances_focus(
    form: FormView,
    labels: Seq<Seq<char>>,
    verdict: Option<Result<(), Seq<char>>>,
)
    requires
        form.wf(form.fields.len() as int),
        form.fields.len() <= usize::MAX,
        form.error_message is None,
        form.form_pos + 1 < form.fields.len(),
    ensures
        ({
            let (next, result) = form_step(form, enter_key(), labels, verdict);
            &&& result == FormResultView::InProgress
            &&& next.form_pos == form.form_pos + 1
            &&& next.fields.len() == form.fields.len()
            &&& next.error_message is None
            &&& forall|i: int|
                0 <= i < form.fields.len() && i != form.form_pos ==> next.fields[i]
                    == form.fields[i]
            &&& !(verdict matches Some(Err(_))) ==> next.fields[form.form_pos as int].contents
                == form.fields[form.form_pos as int].contents
        }),
{
}

/// A check that turns a text down puts its own text in the field, exactly:
/// whichever key made the focus leave the field or handed the form in, the
/// field then holds the text that the check gave, and so does the value that
/// is handed in for it.
pub proof fn lemma_rejected_text_is_replaced(
    form: FormView,
    key: KeyInfo,
    labels: Seq<Seq<char>>,
    fallback: Seq<char>,
)
    requires
        form.wf(form.fields.len() as int),
        checks_field(form, key),
    ensures
        validated_fields(form, Some(Err(fallback)))[form.form_pos as int] == TextInputView::at_end(
            fallback,
        ),
        ({
            let (next, result) = form_step(form, key, labels, Some(Err(fallback)));
            match result {
                FormResultView::Submit(values) => values[form.form_pos as int].1 == fallback,
                FormResultView::InProgress => next.fields[form.form_pos as int].contents
                    == fallback,
                FormResultView::CancelAll => false,
            }
        }),
{
}

/// Escape cancels a form from every field, and while a message is shown:
/// the result is `CancelAll`, whatever the fields hold.
pub proof fn lemma_escape_cancels(
    form: FormView,
    labels: Seq<Seq<char>>,
    verdict: Option<Result<(), Seq<char>>>,
)
    ensures
        form_step(form, escape_key(), labels, verdict) == (form, FormResultView::CancelAll),
{
}

/// A key other than escape takes a message away and changes nothing else:
/// the form goes on with the fields and the focus that it had when the
/// message came over it.
pub proof fn lemma_message_is_dismissed(
    form: FormView,
    lines: Seq<Seq<char>>,
    key: KeyInfo,
    labels: Seq<Seq<char>>,
    verdict: Option<Result<(), Seq<char>>>,
)
    requires
        form.error_message is None,
        !is_escape(key),
    ensures
        form_step(form.with_message(lines), key, labels, verdict) == (
            form,
            FormResultView::InProgress,
        ),
{
}

/// Typing changes the text of the focused field alone, and leaves the
/// focus where it is.
pub proof fn lemma_typing_stays_in_field(
    form: FormView,
    key: KeyInfo,
    labels: Seq<Seq<char>>,
    verdict: Option<Result<(), Seq<char>>>,
)
    requires
        form.wf(form.fields.len() as int),
        form.error_message is None,
        form_action(form.form_pos as int, form.fields.len() as int, key)
            == FormAction::NormalTyping,
    ensures
        ({
            let (next, result) = form_step(form, key, labels, verdict);
            &&& result == FormResultView::InProgress
            &&& next.form_pos == form.form_pos
            &&& next.fields.len() == form.fields.len()
            &&& forall|i: int|
                0 <= i < form.fields.len() && i != form.form_pos ==> next.fields[i]
                    == form.fields[i]
            &&& next.fields[form.form_pos as int] == line_after_key(
                form.fields[form.form_pos as int],
                key,
            )
        }),
{
}


/// How one field of a form is drawn.
#[derive(Debug, PartialEq, Eq)]
pub struct FormFieldParameters {
    pub name: String,
    pub styles: Styles,
    pub input_mode: InputMode,
}

/// A text that is drawn beside the fields of a form.
#[derive(Debug, PartialEq, Eq)]
pub struct FormDecorationParameters {
    pub text: String,
    pub x: u16,
    pub y: u16,
    pub clear_rest_of_line: bool,
}

/// How a form is drawn.
#[derive(Debug, PartialEq, Eq)]
pub struct FormRenderParameters<const N: usize> {
    /// The line at the top of the form.
    pub title: String,
    /// The row of the hint on what enter does; nothing is drawn below it.
    pub hint_y: u16,
    /// One entry for each field of the form, in the order of the fields.
    pub fields: Vec<FormFieldParameters>,
    /// Texts that are drawn beside the fields.
    pub decoration_strings: Vec<FormDecorationParameters>,
    /// The rows that are left blank.
    pub clear_lines: Vec<u16>,
}

/// The first row that belongs to the fields of a form; the rows above it
/// hold the way back and the title.
pub const FIRST_FIELD_ROW: u16 = 4;

impl<const N: usize> FormRenderParameters<N> {
    /// Whether a row lies between the title and the hint.
    pub open spec fn is_field_row(&self, row: u16) -> bool {
        FIRST_FIELD_ROW <= row < self.hint_y
    }

    /// There is one entry for each of the `N` fields, and every field, every
    /// text beside them and every blank row lies between the title and the
    /// hint.
    pub open spec fn wf(&self) -> bool {
        &&& self.fields@.len() == N
        &&& forall|i: int|
            0 <= i < self.fields@.len() ==> self.is_field_row(
                (#[trigger] self.fields@[i]).styles.margin_top,
            )
        &&& forall|i: int|
            0 <= i < self.decoration_strings@.len() ==> self.is_field_row(
                (#[trigger] self.decoration_strings@[i]).y,
            )
        &&& forall|i: int|
            0 <= i < self.clear_lines@.len() ==> self.is_field_row(#[trigger] self.clear_lines@[i])
    }

    /// The names of the fields, in order.
    pub open spec fn names(&self) -> Seq<Seq<char>> {
        Seq::new(self.fields@.len(), |i: int| self.fields@[i].name@)
    }

    /// How each field shows its text, in order.
    pub open spec fn modes(&self) -> Seq<InputMode> {
        Seq::new(self.fields@.len(), |i: int| self.fields@[i].input_mode)
    }

    /// The placing of each field, in order.
    pub open spec fn placings(&self) -> Seq<Styles> {
        Seq::new(self.fields@.len(), |i: int| self.fields@[i].styles)
    }

    /// The texts beside the fields: each with its column, its row, and
    /// whether the row is cleared behind it.
    pub open spec fn decorations(&self) -> Seq<(Seq<char>, u16, u16, bool)> {
        Seq::new(
            self.decoration_strings@.len(),
            |i: int|
                (
                    self.decoration_strings@[i].text@,
                    self.decoration_strings@[i].x,
                    self.decoration_strings@[i].y,
                    self.decoration_strings@[i].clear_rest_of_line,
                ),
        )
    }
}

/// The placing of a field at a row and a column with a width.
pub open spec fn placed_at(margin_left: u16, margin_top: u16, width: u16) -> Styles {
    Styles { margin_left, margin_top, width: Some(width), ..Styles::plain() }
}

/// A field with a name, a placing, and its text shown as it is.
pub fn field(name: &str, styles: Styles, input_mode: InputMode) -> (r: FormFieldParameters)
    ensures
        r.name@ == name@,
        r.styles == styles,
        r.input_mode == input_mode,
{
    FormFieldParameters { name: String::from_str(name), styles, input_mode }
}

/// A placing at a row and a column with a width.
pub fn placed(margin_left: u16, margin_top: u16, width: u16) -> (r: Styles)
    ensures
        r == placed_at(margin_left, margin_top, width),
{
    Styles {
        margin_left,
        margin_top,
        width: Some(width),
        active: false,
        last_in_row: None,
        gap: None,
        wrap_text: false,
        height: None,
    }
}

/// The hint on what enter does: it hands the form in from the last field,
/// and goes to the next field from every other.
pub open spec fn hint_text(form_pos: int, count: int) -> Seq<char> {
    if form_pos == count - 1 {
        "(enter) Submit"@
    } else {
        "(enter) Next field"@
    }
}

/// The hint that is drawn below the fields of a form.
pub fn hint<const N: usize>(currstate: &FormState<N>) -> (r: String)
    requires
        currstate.wf(),
    ensures
        r@ == hint_text(currstate.form_pos as int, N as int),
{
    if currstate.form_pos == currstate.fields.len() - 1 {
        String::from_str("(enter) Submit")
    } else {
        String::from_str("(enter) Next field")
    }
}

} // verus!

//! The page on which the user makes an account.

use crate::api::{display_error, failure_text, RequestFailure};
use crate::components::form;
use crate::components::form::{
    field, form_step, placed, placed_at, FormRenderParameters, FormResult, FormResultView,
};
use crate::components::inputtext::InputMode;
use crate::keys::KeyInfo;
use crate::state::{
    FormState, FormView, MenuState, MenuView, ScreenState, ScreenStep, ScreenView, StepView,
};
use crate::text::same_text;
use vstd::prelude::*;

verus! {

/// The names of the fields.
pub open spec fn signup_labels() -> Seq<Seq<char>> {
    seq!["username"@, "password"@, "confirmpw"@]
}

/// The line that tells of two passwords that differ.
pub open spec fn mismatch_lines() -> Seq<Seq<char>> {
    seq!["Your passwords don't match! Be careful when typing"@]
}

/// What a key does on the signup page. The form takes the key, and nothing
/// checks its fields. While it goes on, the page keeps it; when it is
/// cancelled, the main menu comes back; when it is handed in, the account is
/// to be made if the password was typed the same twice, and a message says so
/// if it was not.
pub open spec fn signup_step(form: FormView, key: KeyInfo) -> StepView {
    let (next, result) = form_step(form, key, signup_labels(), None);
    match result {
        FormResultView::InProgress => StepView::Done(ScreenView::Menu(MenuView::Signup(next))),
        FormResultView::CancelAll => StepView::Done(ScreenView::Menu(MenuView::MainMenu)),
        FormResultView::Submit(values) => if values[2].1 != values[1].1 {
            StepView::Done(
                ScreenView::Menu(MenuView::Signup(FormView::message(3, mismatch_lines()))),
            )
        } else {
            StepView::Signup { username: values[0].1, password: values[1].1 }
        },
    }
}

/// The lines that tell of an account that was made.
pub open spec fn signup_success_lines(username: Seq<char>) -> Seq<Seq<char>> {
    seq![
        "You've successfully signed up as "@ + username + "!"@,
        "Go back to the menu (esc) and log in to access your calendar"@,
    ]
}

/// The lines that tell of an account that was not made.
pub open spec fn signup_failure_lines(failure: Seq<char>) -> Seq<Seq<char>> {
    seq![
        "Signing up failed:"@,
        "  - "@ + failure,
        "Make sure you entered a unique username, and that you're "@ + "connected to the server"@,
        "as specified in 'rical_frontend/.env'"@,
    ]
}

/// The signup page after the service answered: a message in either case,
/// over empty fields where the account was made, and over the form as it was
/// where it was not.
pub open spec fn screen_after_signup(
    form: FormView,
    username: Seq<char>,
    failure: Option<Seq<char>>,
) -> ScreenView {
    ScreenView::Menu(
        MenuView::Signup(
            match failure {
                None => FormView::message(3, signup_success_lines(username)),
                Some(text) => form.with_message(signup_failure_lines(text)),
            },
        ),
    )
}

/// A key on the signup page.
pub fn handle_input(currstate: &FormState<3>, key: &KeyInfo) -> (r: ScreenStep)
    requires
        currstate.wf(),
    ensures
        r@ == signup_step(currstate@, *key),
        r@.wf(),
{
    let labels = ["username", "password", "confirmpw"];
    assert(form::labels_view(labels) =~= signup_labels());
    let res = form::step(currstate, key, labels, None);
    match res.1 {
        FormResult::InProgress => ScreenStep::Done(ScreenState::Menu(MenuState::Signup(res.0))),
        FormResult::CancelAll => ScreenStep::Done(ScreenState::Menu(MenuState::MainMenu)),
        FormResult::Submit(result) => {
            let ghost values = Seq::new(result@.len(), |i: int| (result@[i].0@, result@[i].1@));
            assert(res.1@ == FormResultView::Submit(values));
            assert(values.len() == currstate@.fields.len());
            assert(values[0].1 == result@[0].1@);
            assert(values[1].1 == result@[1].1@);
            assert(values[2].1 == result@[2].1@);
            if !same_text(result[2].1.as_str(), result[1].1.as_str()) {
                let mut lines: Vec<String> = Vec::new();
                lines.push(
                    String::from_str("Your passwords don't match! Be careful when typing"),
                );
                assert(lines.deep_view() =~= mismatch_lines());
                return ScreenStep::Done(
                    ScreenState::Menu(
                        MenuState::Signup(FormState::<3>::from_result_message(lines)),
                    ),
                );
            }
            ScreenStep::Signup { username: result[0].1.clone(), password: result[1].1.clone() }
        },
    }
}

/// The signup page after the service answered.
pub fn after_signup(
    currstate: &FormState<3>,
    username: &str,
    outcome: Result<(), RequestFailure>,
) -> (r: ScreenState)
    requires
        currstate.wf(),
    ensures
        r@ == screen_after_signup(
            currstate@,
            username@,
            match outcome {
                Ok(_) => None,
                Err(err) => Some(
                    failure_text(
                        err.is_timeout,
                        err.is_connect,
                        err.is_request,
                        err.is_body,
                        err.is_status,
                        err.status@,
                    ),
                ),
            },
        ),
        r.wf(),
{
    let mut lines: Vec<String> = Vec::new();
    match outcome {
        Ok(_) => {
            lines.push(
                String::from_str("You've successfully signed up as ").concat(username).concat("!"),
            );
            lines.push(
                String::from_str("Go back to the menu (esc) and log in to access your calendar"),
            );
            assert(lines.deep_view() =~= signup_success_lines(username@));
            ScreenState::Menu(MenuState::Signup(FormState::<3>::from_result_message(lines)))
        },
        Err(err) => {
            lines.push(String::from_str("Signing up failed:"));
            lines.push(String::from_str("  - ").concat(display_error(&err).as_str()));
            let advice = String::from_str(
                "Make sure you entered a unique username, and that you're ",
            );
            lines.push(advice.concat("connected to the server"));
            lines.push(String::from_str("as specified in 'rical_frontend/.env'"));
            assert(lines.deep_view() =~= signup_failure_lines(
                failure_text(
                    err.is_timeout,
                    err.is_connect,
                    err.is_request,
                    err.is_body,
                    err.is_status,
                    err.status@,
                ),
            ));
            ScreenState::Menu(MenuState::Signup(currstate.with_message(lines)))
        },
    }
}

/// How the signup page is drawn: the name over the password and the
/// password once more, the characters of both hidden.
pub fn render(currstate: &FormState<3>) -> (r: FormRenderParameters<3>)
    ensures
        r.wf(),
        r.title@ == "Sign up"@,
        r.names() == seq!["New username"@, "New password"@, "^ Confirm pw"@],
        r.modes() == seq![InputMode::Normal, InputMode::Password, InputMode::Password],
        r.placings() == seq![placed_at(0, 4, 38), placed_at(0, 5, 38), placed_at(0, 6, 38)],
        r.decorations().len() == 0,
        r.clear_lines@ == seq![7u16],
        r.hint_y == 8,
{
    let mut fields = Vec::new();
    fields.push(field("New username", placed(0, 4, 38), InputMode::Normal));
    fields.push(field("New password", placed(0, 5, 38), InputMode::Password));
    fields.push(field("^ Confirm pw", placed(0, 6, 38), InputMode::Password));
    let mut clear_lines: Vec<u16> = Vec::new();
    clear_lines.push(7);
    let r = FormRenderParameters::<3> {
        title: String::from_str("Sign up"),
        hint_y: 8,
        fields,
        decoration_strings: Vec::new(),
        clear_lines,
    };
    assert(r.names() =~= seq!["New username"@, "New password"@, "^ Confirm pw"@]);
    assert(r.modes() =~= seq![InputMode::Normal, InputMode::Password, InputMode::Password]);
    assert(r.placings() =~= seq![placed_at(0, 4, 38), placed_at(0, 5, 38), placed_at(0, 6, 38)]);
    assert(r.clear_lines@ =~= seq![7u16]);
    r
}

} // verus!

//! The page on which the user logs in.

use crate::api::ApiHandler;
use crate::components::form;
use crate::components::form::{
    field, form_step, placed, placed_at, FormRenderParameters, FormResult, FormResultView,
};
use crate::components::inputtext::InputMode;
use crate::keys::KeyInfo;
use crate::state::{
    CalendarState, CalendarView, FormState, FormView, MenuState, MenuView, ScreenState,
    ScreenStep, ScreenView, StepView,
};
use vstd::prelude::*;

verus! {

/// The names of the fields.
pub open spec fn login_labels() -> Seq<Seq<char>> {
    seq!["username"@, "password"@]
}

/// What a key does on the login page. The form takes the key, and nothing
/// checks its fields. While it goes on, the page keeps it; when it is
/// cancelled, the main menu comes back; when it is handed in, the session is
/// to log in with what the two fields hold.
pub open spec fn login_step(form: FormView, key: KeyInfo) -> StepView {
    let (next, result) = form_step(form, key, login_labels(), None);
    match result {
        FormResultView::InProgress => StepView::Done(ScreenView::Menu(MenuView::Login(next))),
        FormResultView::CancelAll => StepView::Done(ScreenView::Menu(MenuView::MainMenu)),
        FormResultView::Submit(values) => StepView::Login {
            username: values[0].1,
            password: values[1].1,
        },
    }
}

/// The lines that tell of a login that the service turned down.
pub open spec fn login_failure_lines() -> Seq<Seq<char>> {
    seq![
        "Login failed. Make sure your username and password are correct."@,
        "If you don't have an account, sign up first!"@,
    ]
}

/// The screen after the service answered a login: the calendar where it
/// gave a token, and the login page with a message over its fields, which
/// stay as they are, where it gave none.
pub open spec fn screen_after_login(form: FormView, logged_in: bool) -> ScreenView {
    if logged_in {
        ScreenView::Calendar(CalendarView::opening())
    } else {
        ScreenView::Menu(MenuView::Login(form.with_message(login_failure_lines())))
    }
}

/// A key on the login page.
pub fn handle_input(currstate: &FormState<2>, key: &KeyInfo) -> (r: ScreenStep)
    requires
        currstate.wf(),
    ensures
        r@ == login_step(currstate@, *key),
        r@.wf(),
{
    let labels = ["username", "password"];
    assert(form::labels_view(labels) =~= login_labels());
    let res = form::step(currstate, key, labels, None);
    match res.1 {
        FormResult::InProgress => ScreenStep::Done(ScreenState::Menu(MenuState::Login(res.0))),
        FormResult::CancelAll => ScreenStep::Done(ScreenState::Menu(MenuState::MainMenu)),
        FormResult::Submit(result) => {
            let ghost values = Seq::new(result@.len(), |i: int| (result@[i].0@, result@[i].1@));
            assert(res.1@ == FormResultView::Submit(values));
            assert(values.len() == currstate@.fields.len());
            assert(values[0].1 == result@[0].1@);
            assert(values[1].1 == result@[1].1@);
            ScreenStep::Login { username: result[0].1.clone(), password: result[1].1.clone() }
        },
    }
}

/// The screen after the service answered a login. A token is kept in the
/// session, which remembers the same months as before.
pub fn after_login(
    currstate: &FormState<2>,
    token: Option<String>,
    api_handler: &mut ApiHandler,
) -> (r: ScreenState)
    requires
        currstate.wf(),
    ensures
        r@ == screen_after_login(currstate@, token is Some),
        r.wf(),
        final(api_handler).cached() == old(api_handler).cached(),
        final(api_handler).token() == match token {
            Some(text) => Some(text@),
            None => old(api_handler).token(),
        },
{
    match token {
        Some(text) => {
            api_handler.set_auth_token(text);
            ScreenState::Calendar(CalendarState::new())
        },
        None => {
            let mut lines: Vec<String> = Vec::new();
            lines.push(
                String::from_str("Login failed. Make sure your username and password are correct."),
            );
            lines.push(String::from_str("If you don't have an account, sign up first!"));
            assert(lines.deep_view() =~= login_failure_lines());
            ScreenState::Menu(MenuState::Login(currstate.with_message(lines)))
        },
    }
}

/// How the login page is drawn: the name over the password, whose
/// characters are hidden.
pub fn render(currstate: &FormState<2>) -> (r: FormRenderParameters<2>)
    ensures
        r.wf(),
        r.title@ == "Login"@,
        r.names() == seq!["Username"@, "Password"@],
        r.modes() == seq![InputMode::Normal, InputMode::Password],
        r.placings() == seq![placed_at(0, 4, 38), placed_at(0, 5, 38)],
        r.decorations().len() == 0,
        r.clear_lines@ == seq![6u16],
        r.hint_y == 7,
{
    let mut fields = Vec::new();
    fields.push(field("Username", placed(0, 4, 38), InputMode::Normal));
    fields.push(field("Password", placed(0, 5, 38), InputMode::Password));
    let mut clear_lines: Vec<u16> = Vec::new();
    clear_lines.push(6);
    let r = FormRenderParameters::<2> {
        title: String::from_str("Login"),
        hint_y: 7,
        fields,
        decoration_strings: Vec::new(),
        clear_lines,
    };
    assert(r.names() =~= seq!["Username"@, "Password"@]);
    assert(r.modes() =~= seq![InputMode::Normal, InputMode::Password]);
    assert(r.placings() =~= seq![placed_at(0, 4, 38), placed_at(0, 5, 38)]);
    assert(r.clear_lines@ =~= seq![6u16]);
    r
}

} // verus!

//! The menu and its pages.

use crate::components::login;
use crate::components::login::login_step;
use crate::components::signup;
use crate::components::signup::signup_step;
use crate::keys::{key_pressed, KeyCode, KeyInfo, KeyModifiers};
use crate::state::{
    FormState, FormView, MenuState, MenuView, ScreenState, ScreenStep, ScreenView, StepView,
};
use vstd::prelude::*;

verus! {

/// A character key without a modifier.
pub open spec fn is_plain_char(key: KeyInfo, c: char) -> bool {
    key.modifiers == KeyModifiers::Plain && key.code == KeyCode::Char(c)
}

/// The page that a key opens from the main menu: `l` the login page, `s`
/// the signup page, `a` the page about the program; any other key stays.
pub open spec fn main_menu_choice(key: KeyInfo) -> MenuView {
    if is_plain_char(key, 'l') {
        MenuView::Login(FormView::blank(2))
    } else if is_plain_char(key, 's') {
        MenuView::Signup(FormView::blank(3))
    } else if is_plain_char(key, 'a') {
        MenuView::About
    } else {
        MenuView::MainMenu
    }
}

/// What a key does on the menu. The main menu opens a page; the page about
/// the program goes back on escape; the two forms take the key themselves.
pub open spec fn menu_step(menu: MenuView, key: KeyInfo) -> StepView {
    match menu {
        MenuView::MainMenu => StepView::Done(ScreenView::Menu(main_menu_choice(key))),
        MenuView::About => if key.modifiers == KeyModifiers::Plain && key.code == KeyCode::Esc {
            StepView::Done(ScreenView::Menu(MenuView::MainMenu))
        } else {
            StepView::Done(ScreenView::Menu(menu))
        },
        MenuView::Login(form) => login_step(form, key),
        MenuView::Signup(form) => signup_step(form, key),
    }
}

/// A key on the main menu.
pub fn handle_input_mainmenu(key: &KeyInfo) -> (r: MenuState)
    ensures
        r@ == main_menu_choice(*key),
        r.wf(),
{
    if key_pressed(key, KeyModifiers::Plain, KeyCode::Char('l')) {
        MenuState::Login(FormState::<2>::new())
    } else if key_pressed(key, KeyModifiers::Plain, KeyCode::Char('s')) {
        MenuState::Signup(FormState::<3>::new())
    } else if key_pressed(key, KeyModifiers::Plain, KeyCode::Char('a')) {
        MenuState::About
    } else {
        MenuState::MainMenu
    }
}

/// A key on the menu.
pub fn handle_input(currstate: &MenuState, key: &KeyInfo) -> (r: ScreenStep)
    requires
        currstate.wf(),
    ensures
        r@ == menu_step(currstate@, *key),
        r@.wf(),
{
    match currstate {
        MenuState::MainMenu => ScreenStep::Done(ScreenState::Menu(handle_input_mainmenu(key))),
        MenuState::About => {
            if key_pressed(key, KeyModifiers::Plain, KeyCode::Esc) {
                ScreenStep::Done(ScreenState::Menu(MenuState::MainMenu))
            } else {
                ScreenStep::Done(ScreenState::Menu(currstate.clone()))
            }
        },
        MenuState::Login(login_state) => login::handle_input(login_state, key),
        MenuState::Signup(signup_state) => signup::handle_input(signup_state, key),
    }
}

/// The lines of the main menu.
pub open spec fn main_menu_text() -> Seq<Seq<char>> {
    seq![
        "Rical API"@,
        "(l) Log in"@,
        "(s) Sign up instantly"@,
        ""@,
        "Rical Local (no syncing)"@,
        "(Local database support coming soon!)"@,
        ""@,
        "System"@,
        "(a) About"@,
        "(^C) Quit"@,
    ]
}

/// The lines of the main menu, from the top row down.
pub fn render_mainmenu() -> (r: Vec<String>)
    ensures
        r.deep_view() == main_menu_text(),
{
    let mut lines: Vec<String> = Vec::new();
    lines.push(String::from_str("Rical API"));
    lines.push(String::from_str("(l) Log in"));
    lines.push(String::from_str("(s) Sign up instantly"));
    lines.push(String::from_str(""));
    lines.push(String::from_str("Rical Local (no syncing)"));
    lines.push(String::from_str("(Local database support coming soon!)"));
    lines.push(String::from_str(""));
    lines.push(String::from_str("System"));
    lines.push(String::from_str("(a) About"));
    lines.push(String::from_str("(^C) Quit"));
    assert(lines.deep_view() =~= main_menu_text());
    lines
}

/// The lines of the page about the program.
pub open spec fn about_text(version: Seq<char>) -> Seq<Seq<char>> {
    seq![
        "(esc) back"@,
        ""@,
        "Rical Frontend v"@ + version,
        ""@,
        "By Cadecraft and any other Rical contributors (MIT license)"@,
    ]
}

/// The lines of the page about the program, from the top row down.
pub fn render_about(version: &str) -> (r: Vec<String>)
    ensures
        r.deep_view() == about_text(version@),
{
    let mut lines: Vec<String> = Vec::new();
    lines.push(String::from_str("(esc) back"));
    lines.push(String::from_str(""));
    lines.push(String::from_str("Rical Frontend v").concat(version));
    lines.push(String::from_str(""));
    lines.push(String::from_str("By Cadecraft and any other Rical contributors (MIT license)"));
    assert(lines.deep_view() =~= about_text(version@));
    lines
}

} // verus!

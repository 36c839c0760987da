//! The top of the program: the keys that every screen shares, and the
//! screen that takes all others.

use crate::api::{ApiHandler, CachedMonths};
use crate::components::calendar;
use crate::components::calendar::calendar_step;
use crate::components::menu;
use crate::components::menu::menu_step;
use crate::keys::{key_pressed, KeyCode, KeyInfo, KeyModifiers};
use crate::state::{RicalState, ScreenState, ScreenStep, ScreenView, StepView};
use vstd::prelude::*;

verus! {

/// Control with `c` or `q`: the keys that end the program.
pub open spec fn is_quit_key(key: KeyInfo) -> bool {
    key.modifiers == KeyModifiers::Control && (key.code == KeyCode::Char('c') || key.code
        == KeyCode::Char('q'))
}

/// What a key does to the program. The keys that end it work on every
/// screen; every other key goes to the screen that is shown.
pub open spec fn root_step(screen: ScreenView, key: KeyInfo, cached: CachedMonths) -> StepView {
    if is_quit_key(key) {
        StepView::Done(ScreenView::ShouldQuit)
    } else {
        match screen {
            ScreenView::Calendar(calendar) => calendar_step(calendar, key, cached),
            ScreenView::Menu(menu) => menu_step(menu, key),
            ScreenView::ShouldQuit => StepView::Done(screen),
        }
    }
}

/// A key on the program. `api_handler` is read for the tasks that the
/// session remembers, and is not changed.
pub fn handle_input(currstate: &RicalState, key: &KeyInfo, api_handler: &ApiHandler) -> (r:
    ScreenStep)
    requires
        currstate.screen_state.wf(),
    ensures
        r@ == root_step(currstate@, *key, api_handler.cached()),
        r@.wf(),
{
    if key_pressed(key, KeyModifiers::Control, KeyCode::Char('c')) || key_pressed(
        key,
        KeyModifiers::Control,
        KeyCode::Char('q'),
    ) {
        return ScreenStep::Done(ScreenState::ShouldQuit);
    }
    match &currstate.screen_state {
        ScreenState::Calendar(contents) => calendar::handle_input(contents, key, api_handler),
        ScreenState::Menu(contents) => menu::handle_input(contents, key),
        ScreenState::ShouldQuit => ScreenStep::Done(ScreenState::ShouldQuit),
    }
}

} // verus!

//! The keys of the keyboard, as far as the program tells them apart.

use vstd::prelude::*;

verus! {

/// The keys that the program tells apart. `Other` stands for every key that
/// it does not.
#[derive(Clone, Copy, Debug, PartialEq, Eq, Structural)]
pub enum KeyCode {
    Char(char),
    Backspace,
    Delete,
    Left,
    Right,
    Up,
    Down,
    Home,
    End,
    Enter,
    Esc,
    Tab,
    Other,
}

/// What was held down with a key: nothing, shift alone, control alone, or
/// anything else.
#[derive(Clone, Copy, Debug, PartialEq, Eq, Structural)]
pub enum KeyModifiers {
    Plain,
    Shift,
    Control,
    Other,
}

/// One press of a key.
#[derive(Clone, Copy, Debug, PartialEq, Eq, Structural)]
pub struct KeyInfo {
    pub modifiers: KeyModifiers,
    pub code: KeyCode,
}

/// Whether the press is that of `code` with exactly `modifiers` held down.
pub fn key_pressed(key: &KeyInfo, modifiers: KeyModifiers, code: KeyCode) -> (r: bool)
    ensures
        r == (key.code == code && key.modifiers == modifiers),
{
    key.code == code && key.modifiers == modifiers
}

} // verus!

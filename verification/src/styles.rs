//! Where and how wide a field is drawn.

use vstd::prelude::*;

verus! {

/// The placing of one field on the screen.
#[derive(Clone, Copy, Debug, PartialEq, Eq, Structural)]
pub struct Styles {
    pub margin_left: u16,
    pub margin_top: u16,
    pub width: Option<u16>,
    pub active: bool,
    /// Whether the field is the last in its row, so that the rest of the
    /// row may be cleared behind it.
    pub last_in_row: Option<bool>,
    pub gap: Option<u16>,
    pub wrap_text: bool,
    pub height: Option<u16>,
}

impl Styles {
    /// The placing from which the others are made: the top left corner,
    /// nothing else set.
    pub open spec fn plain() -> Styles {
        Styles {
            margin_left: 0,
            margin_top: 0,
            width: None,
            active: false,
            last_in_row: None,
            gap: None,
            wrap_text: false,
            height: None,
        }
    }

    /// The placing from which the others are made.
    pub fn new() -> (r: Styles)
        ensures
            r == Styles::plain(),
    {
        Styles {
            margin_left: 0,
            margin_top: 0,
            width: None,
            active: false,
            last_in_row: None,
            gap: None,
            wrap_text: false,
            height: None,
        }
    }
}

} // verus!

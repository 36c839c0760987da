//! The calendar engine of a terminal task planner.
//!
//! - `gregorian`: the calendar as mathematics, on which every contract about
//!   dates rests.
//! - `date`, `grid`: days, the week rows of a month, and steps over them.
//! - `shorthand`, `format`, `text`: times as people type them, and the texts
//!   that the program writes.
//! - `types`, `api`: tasks, a month of them split by day, and the months that
//!   a session remembers of the task service.
//! - `keys`, `state`, `styles`, `components`: the screens as values, and what
//!   each of them does with a key.
//!
//! Nothing here reads a key, draws, or talks to the service; all that is
//! read from the machine is the date of today. A handler takes a state and a
//! key and gives back the next state, or says what is to be asked of the
//! service first.

pub mod api;
pub mod components;
pub mod date;
pub mod format;
pub mod gregorian;
pub mod grid;
pub mod keys;
mod naive;
pub mod shorthand;
pub mod state;
pub mod styles;
pub mod text;
pub mod types;

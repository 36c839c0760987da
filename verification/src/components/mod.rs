//! What each screen does with a key, and what it shows.

pub mod calendar;
pub mod calendar_render;
pub mod edit_task_form;
pub mod form;
pub mod inputtext;
pub mod login;
pub mod menu;
pub mod new_task_form;
pub mod root;
pub mod signup;
pub mod text;

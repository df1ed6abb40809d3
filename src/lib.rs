//! Navigation and input-resolution core of a terminal Kanban board: screen
//! layouts and their focus rings, logical keys and their normalisation, and
//! the table that binds keys to user actions.

mod text;

pub mod action;
pub mod focus;
pub mod key;
pub mod keybindings;
pub mod status;
pub mod ui_mode;

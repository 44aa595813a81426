//! A task list edited from the keyboard: the state of the editor, the
//! transitions that key presses cause, and the screen that shows the state.

pub mod guarantees;
pub mod keys;
pub mod layout;
pub mod screen;
pub mod state;
pub mod text;

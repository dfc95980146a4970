//! The state and decision layer behind the user interface: window and dialog
//! state, input parsing, and the wiring of edits into the history engine.

pub mod dbc_window;
pub mod dialogs;
pub mod menu;
pub mod message_create_window;
pub mod signal_edit_window;
pub mod state;
pub mod view;

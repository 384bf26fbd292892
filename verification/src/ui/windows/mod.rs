//! Windows and dialogs.
pub mod main_window;
pub mod settings_window;

//! What the GTK front end decides: labels, styles, and which status to show.
pub mod components;
pub mod format;
pub mod windows;

//! Offline-first Pomodoro tracking with two-way Notion sync: the verified core.
//!
//! Timestamps are milliseconds since the Unix epoch (UTC); calendar dates are
//! day numbers counted from the Common Era (see `calendar`).
pub mod calendar;
pub mod collate;
pub mod domain;
pub mod text;
pub mod infrastructure;
pub mod application;
pub mod json;
pub mod ui;

//! Use cases: settings, task edits, the timer service and Notion sync.
pub mod settings_service;
pub mod sync_service;
pub mod task_service;
pub mod timer_service;

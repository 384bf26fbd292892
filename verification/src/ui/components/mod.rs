pub mod conflict_dialog;
pub mod sync_controller;
pub mod task_detail;
pub mod task_list;
pub mod timer_view;

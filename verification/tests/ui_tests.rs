//! What the window shows: choices, labels, rows, styling and messages.
use notion_pomodoro_tracker::calendar::Date;
use notion_pomodoro_tracker::domain::pomodoro::{Timer, TimerConfig, TimerEvent};
use notion_pomodoro_tracker::domain::sync_state::{ConflictResolution, RemoteTask, SyncReport, SyncStatus};
use notion_pomodoro_tracker::domain::task::Task;
use notion_pomodoro_tracker::domain::time_session::{SessionKind, TimeSession};
use notion_pomodoro_tracker::infrastructure::secret_store::SecretError;
use notion_pomodoro_tracker::ui::components::conflict_dialog::{conflict_body, resolution_for};
use notion_pomodoro_tracker::ui::components::sync_controller::{current_status, sync_gate, SyncGate};
use notion_pomodoro_tracker::ui::components::task_detail::{
    done_label, due_label, heading_prefix_end, list_prefix_end, markdown_styling, priority_at,
    priority_choices, progress_text, session_rows, status_at, status_choices, sync_info_text,
    TextStyle,
};
use notion_pomodoro_tracker::ui::components::task_list::{
    current_filter, dropdown_items, dropdown_value, filter_options, new_task_title, pomodoro_badge,
    reselect, row_marker, row_subtitle, same_values,
};
use notion_pomodoro_tracker::ui::components::timer_view::timer_display;
use notion_pomodoro_tracker::ui::windows::main_window::{sync_failed_toast, sync_toasts, timer_notice};
use notion_pomodoro_tracker::ui::windows::settings_window::{
    apply_mappings, preselect, properties_for, row_items, selected_name, validation_request,
    MappingField, MappingSelections,
};
use notion_pomodoro_tracker::application::settings_service::PropertyMappings;

const MINUTE: i64 = 60_000;

fn strings(v: &[&str]) -> Vec<String> {
    v.iter().map(|s| s.to_string()).collect()
}

fn task(title: &str) -> Task {
    Task::new_local(title, 1_000)
}

#[test]
fn status_choices_sorted_with_current_selected() {
    let c = status_choices(&strings(&["To Do", "Done", "To Do"]), "Blocked");
    assert_eq!(c.values, strings(&["Blocked", "Done", "To Do"]));
    assert_eq!(c.selected, 0);
    let c = status_choices(&strings(&["b", "a"]), "b");
    assert_eq!((c.values, c.selected), (strings(&["a", "b"]), 1));
}

#[test]
fn priority_choices_start_with_none() {
    let c = priority_choices(&strings(&["Low", "High"]), &Some("Medium".into()));
    assert_eq!(c.labels, strings(&["None", "High", "Low", "Medium"]));
    assert_eq!(c.values[0], None);
    assert_eq!(c.values[3].as_deref(), Some("Medium"));
    assert_eq!(c.selected, 3);
    let c = priority_choices(&vec![], &None);
    assert_eq!((c.labels, c.selected), (strings(&["None"]), 0));
    assert_eq!(priority_at(&c.values, 0), None);
    assert_eq!(priority_at(&c.values, 7), None);
    assert_eq!(status_at(&strings(&["x"]), 0), "x");
    assert_eq!(status_at(&strings(&["x"]), 1), "");
}

#[test]
fn header_labels() {
    assert_eq!(due_label(None), "No date");
    assert_eq!(due_label(Date::parse_iso("2026-07-15")), "Jul 15, 2026");
    assert_eq!(progress_text(3, 125), "🍅 3 pomodoros   ·   ⏱ 2h 05m tracked");
    assert_eq!(progress_text(0, 59), "🍅 0 pomodoros   ·   ⏱ 0h 59m tracked");
    assert_eq!(done_label(true), "Reopen Task");
    assert_eq!(done_label(false), "Mark Done");
}

#[test]
fn sync_info_line() {
    let mut t = task("T");
    assert_eq!(sync_info_text(&t), "Local-only task · never synced");
    t.notion_page_id = Some("p".into());
    t.dirty = true;
    t.last_synced_at = Some(chrono::DateTime::parse_from_rfc3339("2026-07-01T10:05:00Z").unwrap().timestamp_millis());
    assert_eq!(sync_info_text(&t), "Notion task · last synced 2026-07-01 10:05 UTC · changes pending");
}

#[test]
fn session_rows_show_kind_minutes_and_start() {
    let at = chrono::DateTime::parse_from_rfc3339("2026-01-01T09:00:00Z").unwrap().timestamp_millis();
    let mut sessions = vec![
        TimeSession::new("t", at, at + 25 * MINUTE, 25, SessionKind::Pomodoro),
        TimeSession::new("t", at, at, -5, SessionKind::Manual),
    ];
    let rows = session_rows(&sessions);
    assert_eq!(rows[0].title, "Pomodoro — 25 min");
    assert_eq!(rows[0].subtitle, "2026-01-01 09:00 UTC");
    assert_eq!(rows[1].title, "Manual entry — -5 min");
    while sessions.len() < 40 {
        sessions.push(TimeSession::new("t", at, at, 1, SessionKind::Manual));
    }
    assert_eq!(session_rows(&sessions).len(), 30);
}

#[test]
fn prefix_ends() {
    assert_eq!(heading_prefix_end("## Title", 0), 3);
    assert_eq!(heading_prefix_end("x\n# A", 2), 4);
    assert_eq!(list_prefix_end("- item", 0), 2);
    assert_eq!(list_prefix_end("  12. item", 0), 6);
    assert_eq!(list_prefix_end("- [x] done", 0), 6);
    assert_eq!(list_prefix_end("plain", 0), 0);
    assert_eq!(list_prefix_end("12 apples", 0), 0);
    assert_eq!(list_prefix_end("ab", 9), 9);
}

#[test]
fn styling_marks_syntax() {
    let runs: Vec<(TextStyle, usize, usize)> =
        markdown_styling("# Hi **b**").into_iter().map(|r| (r.style, r.start, r.end)).collect();
    assert_eq!(
        runs,
        vec![
            (TextStyle::Marker, 0, 2),
            (TextStyle::H1, 2, 10),
            (TextStyle::Bold, 5, 10),
            (TextStyle::Marker, 5, 7),
            (TextStyle::Marker, 8, 10),
        ]
    );
    // Offsets count characters, not bytes.
    let runs: Vec<(TextStyle, usize, usize)> =
        markdown_styling("é `c`").into_iter().map(|r| (r.style, r.start, r.end)).collect();
    assert_eq!(runs, vec![(TextStyle::Mono, 2, 5)]);
    assert!(markdown_styling("").is_empty());
    assert_eq!(TextStyle::Marker.tag_name(), "marker");
}

#[test]
fn sidebar_filter_and_rows() {
    let values = strings(&["Doing", "Done"]);
    assert_eq!(dropdown_value(0, &values), None);
    assert_eq!(dropdown_value(2, &values).as_deref(), Some("Done"));
    assert_eq!(dropdown_value(3, &values), None);
    let f = current_filter(1, 0, &values, &vec![], "q".into(), true);
    assert_eq!(f.status.as_deref(), Some("Doing"));
    assert_eq!(f.priority, None);
    assert_eq!(f.search.as_deref(), Some("q"));
    assert!(f.include_done);
    assert_eq!(dropdown_items(&values), strings(&["All", "Doing", "Done"]));
    assert!(same_values(&values, &strings(&["Doing", "Done"])));
    assert!(!same_values(&values, &strings(&["Doing"])));
    assert_eq!(reselect(&values, &Some("Done".into())), Some(2));
    assert_eq!(reselect(&values, &Some("Gone".into())), None);

    let mut a = task("A");
    a.status = "Doing".into();
    a.priority = Some("High".into());
    a.due_date = Date::parse_iso("2026-07-15");
    let mut b = task("B");
    b.priority = Some("High".into());
    let o = filter_options(&vec![a.clone(), b.clone()]);
    assert_eq!(o.statuses, strings(&["Doing", "To Do"]));
    assert_eq!(o.priorities, strings(&["High"]));

    assert_eq!(row_subtitle(&a), "Doing · due 2026-07-15 · High");
    assert_eq!(row_subtitle(&task("C")), "To Do");
    assert_eq!(pomodoro_badge(0), None);
    assert_eq!(pomodoro_badge(3).as_deref(), Some("3 🍅"));
    assert!(row_marker(&b).is_none());
    b.dirty = true;
    assert_eq!(row_marker(&b).unwrap().icon, "document-edit-symbolic");
    b.conflict_remote_json = Some("{}".into());
    assert_eq!(row_marker(&b).unwrap().icon, "dialog-warning-symbolic");
    assert_eq!(new_task_title("  "), None);
    assert_eq!(new_task_title(" x ").as_deref(), Some(" x "));
}

#[test]
fn timer_panel() {
    let cfg = TimerConfig::default();
    let mut timer = Timer::default();
    let d = timer_display(&timer, &cfg, 0, false);
    assert_eq!((d.time.as_str(), d.phase, d.cycle.as_str()), ("25:00", "Ready", "0 of 4 pomodoros until long break"));
    assert!(d.start_visible && !d.start_enabled && !d.stop_visible);
    timer.start("t", 0);
    let d = timer_display(&timer, &cfg, 61_500, true);
    assert_eq!((d.time.as_str(), d.phase), ("23:58", "Focus"));
    assert!(d.pause_visible && d.stop_visible && d.complete_visible && !d.start_visible);
    timer.pause(2 * MINUTE);
    let d = timer_display(&timer, &cfg, 9 * MINUTE, true);
    assert_eq!((d.time.as_str(), d.phase), ("23:00", "Focus — paused"));
    assert!(d.resume_visible && !d.pause_visible && d.complete_visible);
}

#[test]
fn settings_dialog_rows() {
    let props = vec![
        ("Name".to_string(), "title".to_string()),
        ("State".to_string(), "select".to_string()),
        ("Stage".to_string(), "status".to_string()),
        ("Count".to_string(), "number".to_string()),
    ];
    let status = properties_for(&props, MappingField::Status);
    assert_eq!(status, strings(&["State", "Stage"]));
    assert_eq!(properties_for(&props, MappingField::DueDate), Vec::<String>::new());
    assert_eq!(row_items(&status, MappingField::Status), strings(&["State", "Stage"]));
    let counts = properties_for(&props, MappingField::PomodoroCount);
    assert_eq!(row_items(&counts, MappingField::PomodoroCount), strings(&["(none)", "Count"]));
    assert_eq!(preselect(&status, "Stage", MappingField::Status), Some(1));
    assert_eq!(preselect(&counts, "Count", MappingField::PomodoroCount), Some(1));
    assert_eq!(preselect(&counts, "Other", MappingField::PomodoroCount), None);
    assert_eq!(selected_name(&counts, MappingField::PomodoroCount, 0), "");
    assert_eq!(selected_name(&counts, MappingField::PomodoroCount, 1), "Count");
    assert_eq!(selected_name(&vec![], MappingField::Title, 0), "");

    let sel = || MappingSelections {
        title: "Name".into(),
        status: "State".into(),
        due_date: String::new(),
        priority: String::new(),
        pomodoro_count: "Count".into(),
        tracked_minutes: String::new(),
        last_synced: String::new(),
    };
    let mut m = PropertyMappings::default();
    apply_mappings(&mut m, &vec![], sel());
    assert_eq!(m, PropertyMappings::default());
    apply_mappings(&mut m, &props, sel());
    assert_eq!((m.status.as_str(), m.status_type.as_str()), ("State", "select"));
    assert_eq!(m.due_date, "");
    let mut other = sel();
    other.status = "Missing".into();
    apply_mappings(&mut m, &props, other);
    assert_eq!(m.status_type, "status");

    assert_eq!(validation_request("tok", &None, " db "), Ok(("tok".to_string(), "db".to_string())));
    assert_eq!(validation_request("", &Some("kept".into()), "db"), Ok(("kept".to_string(), "db".to_string())));
    assert_eq!(validation_request("", &None, "db"), Err("Enter a token and database ID first".to_string()));
}

#[test]
fn window_messages() {
    let report = SyncReport {
        pulled_new: 2,
        pulled_updated: 1,
        pushed: 3,
        deleted: 0,
        conflicts: 1,
        errors: vec!["push 'x' failed: boom".into()],
    };
    assert_eq!(
        sync_toasts(&report),
        strings(&[
            "Synced — 2 new, 1 updated, 3 pushed",
            "1 task(s) in conflict — open them to resolve",
            "push 'x' failed: boom",
        ])
    );
    assert_eq!(sync_toasts(&SyncReport::default()), strings(&["Synced — 0 new, 0 updated, 0 pushed"]));
    assert_eq!(sync_failed_toast("offline"), "Sync failed: offline");
    let n = timer_notice(&TimerEvent::PomodoroCompleted { task_id: "t".into(), minutes: 25 }, Some("Write"));
    assert_eq!((n.id, n.title, n.body.as_str()), ("pomodoro-done", "Pomodoro complete 🍅", "25 focused minutes on “Write”. Break time!"));
    let n = timer_notice(&TimerEvent::PomodoroCompleted { task_id: "t".into(), minutes: 5 }, None);
    assert_eq!(n.body, "5 focused minutes on “task”. Break time!");
    let n = timer_notice(&TimerEvent::BreakFinished { was_long: true }, None);
    assert_eq!((n.id, n.title, n.body.as_str()), ("break-done", "Long break over", "Ready for the next pomodoro?"));
}

#[test]
fn conflict_dialog_text() {
    let mut t = task("Local");
    t.pomodoro_count = 2;
    t.tracked_minutes = 50;
    let r = RemoteTask {
        page_id: "p".into(),
        title: "Remote".into(),
        status: None,
        due_date: None,
        priority: None,
        pomodoro_count: Some(3),
        tracked_minutes: None,
        last_edited: 0,
    };
    assert_eq!(
        conflict_body(&t, &r),
        "Local version\n  Local · To Do · 2 pomodoros · 50 min\n\nNotion version\n  Remote · — · 3 pomodoros · — min\n\nWhich one should win? The other side will be overwritten."
    );
    assert_eq!(resolution_for("local"), Some(ConflictResolution::KeepLocal));
    assert_eq!(resolution_for("notion"), Some(ConflictResolution::KeepNotion));
    assert_eq!(resolution_for("cancel"), None);
}

#[test]
fn sync_status_and_gate() {
    assert_eq!(current_status(true, &Some("x".into()), true, true), SyncStatus::Syncing);
    assert_eq!(current_status(false, &Some("x".into()), true, true), SyncStatus::Failed("x".into()));
    assert_eq!(current_status(false, &None, true, false), SyncStatus::Pending);
    assert_eq!(current_status(false, &None, false, true), SyncStatus::Synced);
    assert_eq!(current_status(false, &None, false, false), SyncStatus::Offline);
    assert_eq!(SyncStatus::Failed("boom".into()).label(), "Sync failed: boom");

    assert!(matches!(sync_gate(true, "db", Ok(Some("t".into()))), SyncGate::Busy));
    assert!(matches!(sync_gate(false, " ", Ok(Some("t".into()))),
        SyncGate::Refused(m) if m == "Notion is not configured — open Settings"));
    assert!(matches!(sync_gate(false, "db", Ok(Some(String::new()))),
        SyncGate::Refused(m) if m == "No Notion token stored — open Settings"));
    assert!(matches!(sync_gate(false, "db", Ok(None)),
        SyncGate::Refused(m) if m == "No Notion token stored — open Settings"));
    assert!(matches!(sync_gate(false, "db", Err(SecretError::Keyring("locked".into()))),
        SyncGate::Refused(m) if m == "keyring: keyring error: locked"));
    assert!(matches!(sync_gate(false, "db", Ok(Some("t".into()))), SyncGate::Start(t) if t == "t"));
}

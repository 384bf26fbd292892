//! Task edits, and the query that lists tasks, against an in-memory SQLite
//! database built from the library's schema.
use notion_pomodoro_tracker::application::task_service::{
    add_manual_time, create, edit_description, edit_fields, rename, set_done, TaskFilter,
};
use notion_pomodoro_tracker::calendar::Date;
use notion_pomodoro_tracker::domain::task::Task;
use notion_pomodoro_tracker::domain::time_session::SessionKind;
use notion_pomodoro_tracker::infrastructure::sqlite::migrations;
use notion_pomodoro_tracker::infrastructure::sqlite::task_repo::{like_pattern, list_query};

fn now() -> i64 {
    chrono::Utc::now().timestamp_millis()
}

fn db() -> rusqlite::Connection {
    let conn = rusqlite::Connection::open_in_memory().unwrap();
    for step in migrations(0) {
        conn.execute_batch(step).unwrap();
    }
    conn
}

fn insert(conn: &rusqlite::Connection, t: &Task) {
    conn.execute(
        "INSERT INTO tasks (id, title, status, due_date, priority, done, dirty, created_at, updated_at)
         VALUES (?1, ?2, ?3, ?4, ?5, ?6, ?7, ?8, ?9)",
        (
            t.id.as_str(),
            t.title.as_str(),
            t.status.as_str(),
            t.due_date.map(|d| d.to_iso_string()),
            t.priority.as_deref(),
            t.done,
            t.dirty,
            t.created_at.to_string(),
            t.updated_at.to_string(),
        ),
    )
    .unwrap();
}

/// Titles of the tasks `filter` lists.
fn list(conn: &rusqlite::Connection, filter: &TaskFilter) -> Vec<String> {
    let q = list_query(filter);
    let mut stmt = conn.prepare(&q.sql).unwrap();
    let rows = stmt
        .query_map(rusqlite::params_from_iter(q.args.iter()), |r| r.get::<_, String>(2))
        .unwrap();
    rows.map(|r| r.unwrap()).collect()
}

#[test]
fn create_list_edit_done_round_trip() {
    let conn = db();
    let mut task = create("  Write report ", now());
    assert_eq!(task.title, "Write report");
    assert!(!task.dirty);

    rename(&mut task, "Write the report", now());
    set_done(&mut task, true, now());
    insert(&conn, &task);

    let all = list(&conn, &TaskFilter { include_done: true, ..Default::default() });
    assert_eq!(all.len(), 1);
    assert_eq!(all[0], "Write the report");
    assert!(task.done);
    assert!(task.dirty, "local edits must set the dirty flag");

    let open = list(&conn, &TaskFilter::default());
    assert!(open.is_empty(), "done tasks hidden by default");
}

#[test]
fn search_filter_matches_title() {
    let conn = db();
    insert(&conn, &create("Fix login bug", now()));
    insert(&conn, &create("Write docs", now()));
    let found = list(&conn, &TaskFilter { search: Some("login".into()), ..Default::default() });
    assert_eq!(found.len(), 1);
    assert_eq!(found[0], "Fix login bug");
}

#[test]
fn manual_time_adjusts_but_never_negative() {
    let mut task = create("T", now());
    let a = add_manual_time(&mut task, 30, now());
    let b = add_manual_time(&mut task, -100, now());
    assert_eq!(task.tracked_minutes, 0);
    assert_eq!(vec![a.minutes, b.minutes], vec![30, -100]);
    assert_eq!(a.kind, SessionKind::Manual);
    assert_eq!(b.task_id, task.id);
}

#[test]
fn filters_combine_and_order() {
    let conn = db();
    let mut a = create("A", 1);
    a.status = "Doing".into();
    a.priority = Some("High".into());
    a.due_date = Date::parse_iso("2026-07-20");
    let mut b = create("B", 2);
    b.status = "Doing".into();
    b.due_date = Date::parse_iso("2026-07-10");
    let c = create("C 100%_done", 3);
    for t in [&a, &b, &c] {
        insert(&conn, t);
    }
    assert_eq!(list(&conn, &TaskFilter::default()), vec!["B", "A", "C 100%_done"]);
    let doing = TaskFilter { status: Some("Doing".into()), ..Default::default() };
    assert_eq!(list(&conn, &doing), vec!["B", "A"]);
    let high = TaskFilter { priority: Some("High".into()), ..Default::default() };
    assert_eq!(list(&conn, &high), vec!["A"]);
    let soon = TaskFilter { due_on_or_before: Date::parse_iso("2026-07-15"), ..Default::default() };
    assert_eq!(list(&conn, &soon), vec!["B"]);
    // `%` and `_` in a search match themselves only.
    let literal = TaskFilter { search: Some("0%_".into()), ..Default::default() };
    assert_eq!(list(&conn, &literal), vec!["C 100%_done"]);
    let blank = TaskFilter { search: Some("  ".into()), ..Default::default() };
    assert_eq!(list(&conn, &blank).len(), 3);
}

#[test]
fn like_pattern_escapes_specials() {
    assert_eq!(like_pattern("a_b%c\\"), Some("%a\\_b\\%c\\\\%".to_string()));
    assert_eq!(like_pattern(" \t"), None);
}

#[test]
fn edits_report_whether_anything_changed() {
    let mut task = create("T", 1);
    assert!(edit_description(&mut task, "# Notes", 2));
    assert!(task.desc_dirty && task.dirty);
    assert_eq!(task.updated_at, 2);
    let before = task.clone();
    assert!(!edit_description(&mut task, "# Notes", 3));
    assert_eq!(task, before);

    let mut t2 = create("T", 1);
    let status = t2.status.clone();
    assert!(!edit_fields(&mut t2, " T ", &status, None, None, 5));
    assert!(!t2.dirty);
    assert!(edit_fields(&mut t2, "T", "Doing", Some("Low".into()), None, 6));
    assert_eq!(t2.status, "Doing");
    assert_eq!(t2.priority.as_deref(), Some("Low"));
    assert!(t2.dirty);
    assert_eq!(t2.updated_at, 6);
}

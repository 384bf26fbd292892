//! Sync runs driven against an in-memory store and a scripted Notion.
use chrono::{TimeZone, Utc};
use notion_pomodoro_tracker::application::sync_service::{
    decide, decide_missing, FetchedPage, LogEntry, LogLevel, MissingDecision, NotionError,
    RemoteDecision, SyncAction, SyncError, SyncEvent, SyncRun,
};
use notion_pomodoro_tracker::application::task_service;
use notion_pomodoro_tracker::domain::sync_state::{ConflictResolution, RemoteTask, SyncReport};
use notion_pomodoro_tracker::domain::task::Task;
use std::collections::HashMap;

const HOUR: i64 = 3_600_000;
const MINUTE: i64 = 60_000;

fn t0() -> i64 {
    Utc.with_ymd_and_hms(2026, 7, 1, 8, 0, 0).unwrap().timestamp_millis()
}

#[derive(Default)]
struct Store {
    tasks: Vec<Task>,
    last_sync: Option<String>,
    logs: Vec<LogEntry>,
}

impl Store {
    fn open_tasks(&self) -> Vec<Task> {
        self.tasks.iter().filter(|t| !t.done).cloned().collect()
    }

    fn get(&self, id: &str) -> Option<Task> {
        self.tasks.iter().find(|t| t.id == id).cloned()
    }

    fn edit(&mut self, id: &str, f: impl FnOnce(&mut Task)) {
        let t = self.tasks.iter_mut().find(|t| t.id == id).unwrap();
        f(t);
    }

    fn any_dirty(&self) -> bool {
        self.tasks.iter().any(|t| t.dirty)
    }

    fn upsert(&mut self, task: Task) {
        match self.tasks.iter_mut().find(|t| t.id == task.id) {
            Some(t) => *t = task,
            None => self.tasks.push(task),
        }
    }
}

struct FakeNotion {
    remotes: Vec<RemoteTask>,
    pushed: Vec<String>,
    body_pushed: Vec<String>,
    bodies: HashMap<String, String>,
    fail_fetch: bool,
    fail_push: bool,
}

impl FakeNotion {
    fn with(remotes: Vec<RemoteTask>) -> Self {
        FakeNotion {
            remotes,
            pushed: vec![],
            body_pushed: vec![],
            bodies: HashMap::new(),
            fail_fetch: false,
            fail_push: false,
        }
    }
}

fn remote(page_id: &str, title: &str, edited: i64) -> RemoteTask {
    RemoteTask {
        page_id: page_id.into(),
        title: title.into(),
        status: Some("To Do".into()),
        due_date: None,
        priority: None,
        pomodoro_count: Some(0),
        tracked_minutes: Some(0),
        last_edited: edited,
    }
}

/// Perform each request of a run until it finishes.
fn run_sync(store: &mut Store, api: &mut FakeNotion, now: i64) -> Result<SyncReport, SyncError> {
    let mut run = SyncRun::new(now);
    let mut ev = SyncEvent::Begin;
    loop {
        assert!(run.accepts(&ev));
        let step = run.step(ev);
        store.logs.extend(step.logs);
        ev = match step.action {
            SyncAction::FetchRemotes => SyncEvent::Fetched(if api.fail_fetch {
                Err(NotionError::Network("offline".into()))
            } else {
                Ok(api
                    .remotes
                    .iter()
                    .map(|r| FetchedPage {
                        remote: r.clone(),
                        snapshot_json: format!("{{\"page_id\":\"{}\"}}", r.page_id),
                    })
                    .collect())
            }),
            SyncAction::LoadLocal { page_id } => SyncEvent::Local(Ok(store
                .tasks
                .iter()
                .find(|t| t.notion_page_id.as_deref() == Some(page_id.as_str()))
                .cloned())),
            SyncAction::FetchBody { page_id } => {
                SyncEvent::Body(Ok(api.bodies.get(&page_id).cloned().unwrap_or_default()))
            }
            SyncAction::PushTask { task } => SyncEvent::Pushed(if api.fail_push {
                Err(NotionError::Api { status: 500, message: "boom".into() })
            } else {
                api.pushed.push(task.notion_page_id.clone().unwrap());
                Ok(now)
            }),
            SyncAction::PushBody { page_id, markdown } => {
                api.body_pushed.push(page_id.clone());
                api.bodies.insert(page_id, markdown);
                SyncEvent::BodyPushed(Ok(now))
            }
            SyncAction::SaveTask { task } => {
                store.upsert(task);
                SyncEvent::Saved(Ok(()))
            }
            SyncAction::ListTasks => SyncEvent::Listed(Ok(store.tasks.clone())),
            SyncAction::DeleteTask { id } => {
                store.tasks.retain(|t| t.id != id);
                SyncEvent::Deleted(Ok(()))
            }
            SyncAction::RecordSyncTime { at } => {
                store.last_sync = Some(at);
                SyncEvent::Recorded(Ok(()))
            }
            SyncAction::Finished { result } => return result,
        };
    }
}

fn first_id(store: &Store) -> String {
    store.open_tasks()[0].id.clone()
}

#[test]
fn pull_imports_new_tasks_without_duplicates() {
    let mut store = Store::default();
    let mut api = FakeNotion::with(vec![remote("p1", "A", t0()), remote("p2", "B", t0())]);
    let report = run_sync(&mut store, &mut api, t0()).unwrap();
    assert_eq!(report.pulled_new, 2);
    // Second sync: nothing new, no duplicates.
    let report = run_sync(&mut store, &mut api, t0() + MINUTE).unwrap();
    assert_eq!(report.pulled_new, 0);
    let all = store.open_tasks();
    assert_eq!(all.len(), 2);
    assert!(!all[0].dirty, "pulled tasks start clean");
}

#[test]
fn dirty_local_task_is_pushed_and_cleared() {
    let mut store = Store::default();
    let mut api = FakeNotion::with(vec![remote("p1", "A", t0())]);
    run_sync(&mut store, &mut api, t0()).unwrap();

    // Local edit → dirty.
    let id = first_id(&store);
    store.edit(&id, |t| task_service::set_done(t, true, t0() + HOUR));
    assert!(store.any_dirty());

    let report = run_sync(&mut store, &mut api, t0() + 2 * HOUR).unwrap();
    assert_eq!(report.pushed, 1);
    assert_eq!(api.pushed, vec!["p1".to_string()]);
    assert!(!store.any_dirty(), "dirty flag cleared after push");
}

#[test]
fn description_edit_pushes_body_and_clears_flags() {
    let mut store = Store::default();
    let mut api = FakeNotion::with(vec![remote("p1", "A", t0())]);
    run_sync(&mut store, &mut api, t0()).unwrap();

    let task_id = first_id(&store);
    store.edit(&task_id, |t| {
        task_service::edit_description(t, "# Notes\n\n- item", t0() + HOUR);
    });

    let report = run_sync(&mut store, &mut api, t0() + 2 * HOUR).unwrap();
    assert_eq!(report.pushed, 1);
    assert_eq!(api.body_pushed, vec!["p1".to_string()]);
    let task = store.get(&task_id).unwrap();
    assert!(!task.dirty, "dirty cleared after successful push");
    assert!(!task.desc_dirty, "desc_dirty cleared after body push");
}

#[test]
fn pomodoro_push_does_not_rewrite_body() {
    let mut store = Store::default();
    let mut api = FakeNotion::with(vec![remote("p1", "A", t0())]);
    run_sync(&mut store, &mut api, t0()).unwrap();

    let task_id = first_id(&store);
    // A pomodoro sets dirty but not desc_dirty → body must be left alone.
    store.edit(&task_id, |t| {
        t.pomodoro_count += 1;
        t.tracked_minutes += 25;
        t.dirty = true;
        t.updated_at = t0() + HOUR;
    });

    run_sync(&mut store, &mut api, t0() + 2 * HOUR).unwrap();
    assert!(api.body_pushed.is_empty(), "counts-only push must not touch the page body");
}

#[test]
fn remote_only_change_updates_local() {
    let mut store = Store::default();
    run_sync(&mut store, &mut FakeNotion::with(vec![remote("p1", "A", t0())]), t0()).unwrap();

    let mut newer = FakeNotion::with(vec![remote("p1", "A renamed", t0() + HOUR)]);
    let report = run_sync(&mut store, &mut newer, t0() + 2 * HOUR).unwrap();
    assert_eq!(report.pulled_updated, 1);
    let task = &store.open_tasks()[0];
    assert_eq!(task.title, "A renamed");
}

#[test]
fn both_sides_changed_is_a_conflict_not_an_overwrite() {
    let mut store = Store::default();
    run_sync(&mut store, &mut FakeNotion::with(vec![remote("p1", "A", t0())]), t0()).unwrap();

    let task_id = first_id(&store);
    store.edit(&task_id, |t| task_service::rename(t, "Local title", t0() + HOUR));

    let mut newer = FakeNotion::with(vec![remote("p1", "Remote title", t0() + 2 * HOUR)]);
    let report = run_sync(&mut store, &mut newer, t0() + 3 * HOUR).unwrap();

    assert_eq!(report.conflicts, 1);
    assert_eq!(report.pushed, 0);
    let task = store.get(&task_id).unwrap();
    assert!(task.in_conflict());
    assert_eq!(task.title, "Local title", "local kept until user resolves");
    assert!(newer.pushed.is_empty(), "no silent push over remote change");
}

/// Conflict on page `p1`: renamed "Local" here, "Remote" in Notion.
fn conflicted() -> (Store, String, FakeNotion) {
    let mut store = Store::default();
    run_sync(&mut store, &mut FakeNotion::with(vec![remote("p1", "A", t0())]), t0()).unwrap();
    let task_id = first_id(&store);
    store.edit(&task_id, |t| task_service::rename(t, "Local", t0() + HOUR));
    let mut newer = FakeNotion::with(vec![remote("p1", "Remote", t0() + 2 * HOUR)]);
    run_sync(&mut store, &mut newer, t0() + 3 * HOUR).unwrap();
    (store, task_id, newer)
}

#[test]
fn conflict_resolution_keep_notion_applies_remote() {
    let (mut store, task_id, newer) = conflicted();
    let snapshot = newer.remotes[0].clone();
    store.edit(&task_id, |t| {
        task_service::resolve_conflict(
            t,
            ConflictResolution::KeepNotion,
            Ok(snapshot),
            t0() + 4 * HOUR,
        )
        .unwrap();
    });
    let task = store.get(&task_id).unwrap();
    assert!(!task.in_conflict());
    assert!(!task.dirty);
    assert_eq!(task.title, "Remote");
}

#[test]
fn conflict_resolution_keep_local_stays_dirty_for_next_push() {
    let (mut store, task_id, mut newer) = conflicted();
    let snapshot = newer.remotes[0].clone();
    store.edit(&task_id, |t| {
        task_service::resolve_conflict(
            t,
            ConflictResolution::KeepLocal,
            Ok(snapshot),
            t0() + 4 * HOUR,
        )
        .unwrap();
    });
    let task = store.get(&task_id).unwrap();
    assert!(!task.in_conflict());
    assert!(task.dirty);
    assert_eq!(task.title, "Local");

    // Next sync pushes the kept-local version instead of re-conflicting:
    // the conflicting remote edit was marked as seen during resolution.
    let report = run_sync(&mut store, &mut newer, t0() + 5 * HOUR).unwrap();
    assert_eq!(report.conflicts, 0);
    assert_eq!(report.pushed, 1);
}

#[test]
fn remote_deletion_removes_clean_local_task() {
    let mut store = Store::default();
    run_sync(
        &mut store,
        &mut FakeNotion::with(vec![remote("p1", "A", t0()), remote("p2", "B", t0())]),
        t0(),
    )
    .unwrap();

    // "B" gets deleted in Notion: next sync only returns "A".
    let report =
        run_sync(&mut store, &mut FakeNotion::with(vec![remote("p1", "A", t0())]), t0() + HOUR)
            .unwrap();
    assert_eq!(report.deleted, 1);
    let titles: Vec<String> = store.open_tasks().into_iter().map(|t| t.title).collect();
    assert_eq!(titles, vec!["A".to_string()]);
}

#[test]
fn remote_deletion_keeps_task_with_unsynced_changes() {
    let mut store = Store::default();
    run_sync(&mut store, &mut FakeNotion::with(vec![remote("p1", "A", t0())]), t0()).unwrap();
    let task_id = first_id(&store);
    store.edit(&task_id, |t| task_service::rename(t, "A (local work)", t0() + 5 * MINUTE));

    // Page deleted remotely while the local task is dirty → keep it.
    let report = run_sync(&mut store, &mut FakeNotion::with(vec![]), t0() + HOUR).unwrap();
    assert_eq!(report.deleted, 0);
    let task = store.get(&task_id).unwrap();
    assert_eq!(task.title, "A (local work)");
    assert!(task.dirty);
    assert!(store.logs.iter().any(|l| l.level == LogLevel::Info
        && l.message.contains("kept locally because it has unsynced changes")));
}

#[test]
fn fetch_failure_aborts_and_reports_error() {
    let mut store = Store::default();
    let mut api = FakeNotion::with(vec![]);
    api.fail_fetch = true;
    let err = run_sync(&mut store, &mut api, t0());
    assert!(err.is_err());
    assert_eq!(store.logs.len(), 1);
    assert_eq!(store.logs[0].level, LogLevel::Error);
    assert_eq!(store.logs[0].message, "sync fetch failed: network error: offline");
}

#[test]
fn push_failure_is_collected_and_task_stays_dirty() {
    let mut store = Store::default();
    run_sync(&mut store, &mut FakeNotion::with(vec![remote("p1", "A", t0())]), t0()).unwrap();
    let task_id = first_id(&store);
    store.edit(&task_id, |t| task_service::set_done(t, true, t0() + HOUR));

    let mut api = FakeNotion::with(vec![remote("p1", "A", t0())]);
    api.fail_push = true;
    let report = run_sync(&mut store, &mut api, t0() + 2 * HOUR).unwrap();
    assert_eq!(report.errors.len(), 1);
    assert!(store.any_dirty(), "failed push keeps dirty flag");
}

#[test]
fn pulled_page_brings_its_body() {
    let mut store = Store::default();
    let mut api = FakeNotion::with(vec![remote("p1", "A", t0())]);
    api.bodies.insert("p1".into(), "- note".into());
    run_sync(&mut store, &mut api, t0()).unwrap();
    let task = &store.open_tasks()[0];
    assert_eq!(task.description.as_deref(), Some("- note"));
    assert!(!task.desc_dirty);
    assert_eq!(task.last_synced_at, Some(t0()));
    assert!(store.last_sync.is_some());
}

#[test]
fn decisions_follow_the_rules() {
    let r = remote("p1", "A", t0() + HOUR);
    assert_eq!(decide(None, &r), RemoteDecision::Import);
    let mut local = task_service::create("A", t0());
    local.notion_page_id = Some("p1".into());
    local.notion_last_edited = Some(t0());
    assert_eq!(decide(Some(&local), &r), RemoteDecision::Pull);
    local.dirty = true;
    assert_eq!(decide(Some(&local), &r), RemoteDecision::Conflict);
    local.notion_last_edited = Some(t0() + HOUR);
    assert_eq!(decide(Some(&local), &r), RemoteDecision::Push);
    // Deleted in Notion: kept while it holds local work.
    assert_eq!(decide_missing(&local, &vec![]), MissingDecision::KeepUnsynced);
    local.dirty = false;
    assert_eq!(decide_missing(&local, &vec![]), MissingDecision::Delete);
    assert_eq!(decide_missing(&local, &vec![r]), MissingDecision::Keep);
}

#[test]
fn push_failure_message_names_task_and_error() {
    let mut store = Store::default();
    run_sync(&mut store, &mut FakeNotion::with(vec![remote("p1", "A", t0())]), t0()).unwrap();
    let task_id = first_id(&store);
    store.edit(&task_id, |t| task_service::set_done(t, true, t0() + HOUR));
    store.logs.clear();

    let mut api = FakeNotion::with(vec![remote("p1", "A", t0())]);
    api.fail_push = true;
    let report = run_sync(&mut store, &mut api, t0() + 2 * HOUR).unwrap();
    assert_eq!(report.errors, vec!["push 'A' failed: Notion API error 500: boom".to_string()]);
    assert_eq!(store.logs[0].level, LogLevel::Error);
    assert_eq!(store.logs[0].message, "push 'A' failed: Notion API error 500: boom");
    let last = store.logs.last().unwrap();
    assert_eq!(last.level, LogLevel::Info);
    assert_eq!(
        last.message,
        "sync done: 0 new, 0 updated, 0 pushed, 0 removed, 0 conflicts, 1 errors"
    );
}

//! Task use cases: what each edit does to a task. The caller loads the task
//! from the store and saves what these functions return or change.
use crate::calendar::{opt_date_days, Date};
use crate::domain::pomodoro::opt_str_model;
use crate::domain::sync_state::{ConflictResolution, RemoteTask, RemoteTaskModel};
use crate::domain::task::{Task, TaskModel, DONE_STATUS};
use crate::domain::time_session::{SessionKind, TimeSession};
use crate::infrastructure::sqlite::StoreError;
use crate::text::{clone_opt_string, concat, owned, str_eq, trim, trimmed};
use vstd::prelude::*;

pub use crate::infrastructure::sqlite::task_repo::TaskFilter;

verus! {

/// A new local task titled `title` without surrounding whitespace.
pub fn create(title: &str, now: i64) -> (t: Task)
    ensures
        t@ == TaskModel::new_local(t@.id, trimmed(title@), now as int),
        crate::domain::is_uuid_v4_text(t@.id),
        !t@.dirty,
{
    Task::new_local(trim(title), now)
}

/// Rename (whitespace trimmed); a local edit.
pub fn rename(task: &mut Task, title: &str, now: i64)
    ensures
        final(task)@ == (TaskModel { title: trimmed(title@), ..old(task)@ }).touched(now as int),
{
    task.title = owned(trim(title));
    task.touch(now);
}

/// Mark done (status becomes `Done`) or reopen (status kept); a local edit.
pub fn set_done(task: &mut Task, done: bool, now: i64)
    ensures
        final(task)@ == (TaskModel {
            done,
            status: if done {
                DONE_STATUS@
            } else {
                old(task)@.status
            },
            ..old(task)@
        }).touched(now as int),
{
    task.done = done;
    if done {
        task.status = owned(DONE_STATUS);
    }
    task.touch(now);
}

/// Tracked minutes after adding `minutes` (negative subtracts): never below
/// zero, stored as `u32` (`as u32` keeps the low 32 bits).
pub open spec fn adjusted_minutes(current: nat, minutes: int) -> u32 {
    (if current + minutes < 0 {
        0
    } else {
        current + minutes
    }) as u32
}

/// Manually add (or correct) tracked time; returns the manual session to
/// record. Negative minutes subtract, but never below zero total.
pub fn add_manual_time(task: &mut Task, minutes: i64, now: i64) -> (s: TimeSession)
    requires
        old(task).tracked_minutes + minutes <= i64::MAX,
    ensures
        final(task)@ == (TaskModel {
            tracked_minutes: adjusted_minutes(old(task)@.tracked_minutes, minutes as int) as nat,
            ..old(task)@
        }).touched(now as int),
        s.task_id@ == old(task)@.id,
        s.started_at == now,
        s.ended_at == now,
        s.minutes == minutes,
        s.kind == SessionKind::Manual,
{
    let session = TimeSession::new(task.id.as_str(), now, now, minutes, SessionKind::Manual);
    let total = task.tracked_minutes as i64 + minutes;
    let clamped = if total > 0 {
        total
    } else {
        0
    };
    task.tracked_minutes = clamped as u32;
    task.touch(now);
    session
}

/// `task` with the fields of a remote snapshot taken over. Progress numbers
/// and the status are only taken when the remote has them.
pub open spec fn applied(task: TaskModel, remote: RemoteTaskModel) -> TaskModel {
    TaskModel {
        title: remote.title,
        status: match remote.status {
            Some(s) => s,
            None => task.status,
        },
        done: match remote.status {
            Some(s) => s == DONE_STATUS@,
            None => task.done,
        },
        due_date: remote.due_date,
        priority: remote.priority,
        pomodoro_count: match remote.pomodoro_count {
            Some(p) => p as nat,
            None => task.pomodoro_count,
        },
        tracked_minutes: match remote.tracked_minutes {
            Some(m) => m as nat,
            None => task.tracked_minutes,
        },
        notion_last_edited: Some(remote.last_edited),
        ..task
    }
}

/// Take remote fields onto a local task (shared by pull and conflict
/// resolution).
pub fn apply_remote(task: &mut Task, remote: &RemoteTask)
    ensures
        final(task)@ == applied(old(task)@, remote@),
{
    task.title = remote.title.clone();
    if let Some(status) = &remote.status {
        task.status = status.clone();
        task.done = str_eq(status.as_str(), DONE_STATUS);
    }
    task.due_date = remote.due_date;
    task.priority = clone_opt_string(&remote.priority);
    if let Some(p) = remote.pomodoro_count {
        task.pomodoro_count = p;
    }
    if let Some(m) = remote.tracked_minutes {
        task.tracked_minutes = m;
    }
    task.notion_last_edited = Some(remote.last_edited);
}

/// The task after the user settled its conflict, given the parsed remote
/// snapshot. Keep local: local fields stay, the remote edit counts as seen
/// (when the snapshot parses) and the task is dirty for the next push. Keep
/// Notion: the snapshot overwrites the local fields and the task is clean.
pub open spec fn resolved(
    task: TaskModel,
    resolution: ConflictResolution,
    snapshot: RemoteTaskModel,
    parsed: bool,
    now: int,
) -> TaskModel {
    let open = TaskModel { conflict_remote_json: None, updated_at: now, ..task };
    match resolution {
        ConflictResolution::KeepLocal => TaskModel {
            notion_last_edited: if parsed {
                Some(snapshot.last_edited)
            } else {
                task.notion_last_edited
            },
            dirty: true,
            ..open
        },
        ConflictResolution::KeepNotion => TaskModel {
            dirty: false,
            last_synced_at: Some(now),
            ..applied(open, snapshot)
        },
    }
}

/// Resolve a conflict the user decided on. `snapshot` is the stored remote
/// snapshot (`conflict_remote_json`) parsed, or the parser's message.
/// Returns whether the task changed and must be saved: `Ok(false)` when the
/// task is not in conflict; an error (task unchanged) when keeping Notion's
/// version but the snapshot does not parse.
pub fn resolve_conflict(
    task: &mut Task,
    resolution: ConflictResolution,
    snapshot: Result<RemoteTask, String>,
    now: i64,
) -> (r: Result<bool, StoreError>)
    ensures
        !old(task)@.in_conflict() ==> (r matches Ok(false)) && final(task)@ == old(task)@,
        old(task)@.in_conflict() ==> match snapshot {
            Ok(remote) => (r matches Ok(true)) && final(task)@ == resolved(
                old(task)@,
                resolution,
                remote@,
                true,
                now as int,
            ),
            Err(e) => match resolution {
                ConflictResolution::KeepLocal => (r matches Ok(true)) && final(task)@ == resolved(
                    old(task)@,
                    resolution,
                    arbitrary(),
                    false,
                    now as int,
                ),
                ConflictResolution::KeepNotion => final(task)@ == old(task)@ && (r matches Err(
                    StoreError::Corrupt(msg),
                ) && msg@ == "bad conflict snapshot: "@ + e@),
            },
        },
{
    if task.conflict_remote_json.is_none() {
        return Ok(false);
    }
    match resolution {
        ConflictResolution::KeepLocal => {
            if let Ok(remote) = &snapshot {
                task.notion_last_edited = Some(remote.last_edited);
            }
            task.dirty = true;
        },
        ConflictResolution::KeepNotion => {
            let remote = match snapshot {
                Ok(r) => r,
                Err(e) => {
                    return Err(StoreError::Corrupt(concat("bad conflict snapshot: ", e.as_str())));
                },
            };
            apply_remote(task, &remote);
            task.dirty = false;
            task.last_synced_at = Some(now);
        },
    }
    task.conflict_remote_json = None;
    task.updated_at = now;
    Ok(true)
}

pub open spec fn opt_eq(a: Option<String>, b: Option<String>) -> bool {
    opt_str_model(a) == opt_str_model(b)
}

fn same_opt_string(a: &Option<String>, b: &Option<String>) -> (r: bool)
    ensures
        r == (opt_str_model(*a) == opt_str_model(*b)),
{
    match (a, b) {
        (Some(x), Some(y)) => str_eq(x.as_str(), y.as_str()),
        (None, None) => true,
        _ => false,
    }
}

fn same_opt_date(a: &Option<Date>, b: &Option<Date>) -> (r: bool)
    ensures
        r == (opt_date_days(*a) == opt_date_days(*b)),
{
    match (a, b) {
        (Some(x), Some(y)) => x.days_from_ce() == y.days_from_ce(),
        (None, None) => true,
        _ => false,
    }
}

/// Edit the page body (Markdown). Returns whether the task changed: an
/// unchanged description is no edit; a changed one is stored, flagged for a
/// body push (`desc_dirty`) and marks a local edit.
pub fn edit_description(task: &mut Task, markdown: &str, now: i64) -> (changed: bool)
    ensures
        changed == (old(task)@.description != Some(markdown@)),
        !changed ==> final(task)@ == old(task)@,
        changed ==> final(task)@ == (TaskModel {
            description: Some(markdown@),
            desc_dirty: true,
            ..old(task)@
        }).touched(now as int),
{
    let same = match &task.description {
        Some(d) => str_eq(d.as_str(), markdown),
        None => false,
    };
    if same {
        return false;
    }
    task.description = Some(owned(markdown));
    task.desc_dirty = true;
    task.touch(now);
    true
}

/// Edit the header fields (title trimmed, status, priority, due date).
/// Returns whether anything changed; an edit that changes nothing is no edit.
pub fn edit_fields(
    task: &mut Task,
    title: &str,
    status: &str,
    priority: Option<String>,
    due_date: Option<Date>,
    now: i64,
) -> (changed: bool)
    ensures
        changed == !(old(task)@.title == trimmed(title@) && old(task)@.status == status@ && old(
            task,
        )@.priority == opt_str_model(priority) && old(task)@.due_date == opt_date_days(
            due_date,
        )),
        !changed ==> final(task)@ == old(task)@,
        changed ==> final(task)@ == (TaskModel {
            title: trimmed(title@),
            status: status@,
            priority: opt_str_model(priority),
            due_date: opt_date_days(due_date),
            ..old(task)@
        }).touched(now as int),
{
    let title = trim(title);
    if str_eq(task.title.as_str(), title) && str_eq(task.status.as_str(), status)
        && same_opt_string(&task.priority, &priority) && same_opt_date(&task.due_date, &due_date) {
        return false;
    }
    task.title = owned(title);
    task.status = owned(status);
    task.priority = priority;
    task.due_date = due_date;
    task.touch(now);
    true
}

/// Every local edit marks the task dirty, so the next sync pushes it.
pub proof fn lemma_edits_mark_dirty(t: TaskModel, title: Seq<char>, done: bool, minutes: int, now: int)
    ensures
        (TaskModel { title, ..t }).touched(now).dirty,
        (TaskModel { done, ..t }).touched(now).dirty,
        (TaskModel { tracked_minutes: adjusted_minutes(t.tracked_minutes, minutes) as nat, ..t }).touched(now).dirty,
{
}

/// Manual time never drives the tracked total below zero: subtracting more
/// than is tracked leaves zero, and a total that fits in `u32` is kept
/// exactly.
pub proof fn lemma_manual_time_floor(current: nat, minutes: int)
    ensures
        current + minutes <= 0 ==> adjusted_minutes(current, minutes) == 0,
        0 <= current + minutes <= u32::MAX ==> adjusted_minutes(current, minutes) == current
            + minutes,
{
}

/// Settling a conflict always leaves the task out of conflict; keeping the
/// local version leaves it dirty (pushed next), keeping Notion's leaves it
/// clean with the remote fields.
pub proof fn lemma_resolution_settles(
    t: TaskModel,
    snapshot: RemoteTaskModel,
    parsed: bool,
    now: int,
)
    ensures
        !resolved(t, ConflictResolution::KeepLocal, snapshot, parsed, now).in_conflict(),
        resolved(t, ConflictResolution::KeepLocal, snapshot, parsed, now).dirty,
        resolved(t, ConflictResolution::KeepLocal, snapshot, parsed, now).title == t.title,
        !resolved(t, ConflictResolution::KeepNotion, snapshot, parsed, now).in_conflict(),
        !resolved(t, ConflictResolution::KeepNotion, snapshot, parsed, now).dirty,
        resolved(t, ConflictResolution::KeepNotion, snapshot, parsed, now).title == snapshot.title,
{
}

/// Taking over a remote snapshot that carries a status sets the local status
/// to it and marks the task finished exactly when that status is `Done`; a
/// snapshot without a status leaves both alone. So a task whose done flag
/// agreed with its status still agrees after a pull, and keeping Notion's
/// side of a conflict does the same.
pub proof fn lemma_pull_done_follows_status(
    t: TaskModel,
    r: RemoteTaskModel,
    now: int,
    parsed: bool,
)
    ensures
        r.status matches Some(s) ==> applied(t, r).status == s && applied(t, r).done == (s
            == "Done"@),
        r.status is None ==> applied(t, r).status == t.status && applied(t, r).done == t.done,
        t.done == (t.status == "Done"@) ==> applied(t, r).done == (applied(t, r).status
            == "Done"@),
        r.status matches Some(s) ==> resolved(
            t,
            ConflictResolution::KeepNotion,
            r,
            parsed,
            now,
        ).done == (s == "Done"@),
{
}

} // verus!

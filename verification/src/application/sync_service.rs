//! Two-way sync between the local store and Notion.
//!
//! The rules (what happens to each remote page and each local task) are pure
//! functions; `SyncRun` sequences one full run as a state machine: each
//! `step` takes the outcome of the previous request (an event) and says which
//! request to make next (an action). The caller performs the requests against
//! Notion and the store, writes the log entries each step hands out, and
//! stops at `Finished`.
use crate::application::task_service::{applied, apply_remote};
use crate::calendar::{chrono_rfc3339, instant_to_rfc3339, valid_instant};
use crate::domain::sync_state::{RemoteTask, RemoteTaskModel, SyncReport};
use crate::domain::task::{Task, TaskModel};
use crate::infrastructure::sqlite::StoreError;
use crate::text::{concat, decimal, i64_to_string, owned, push_str, str_eq};
use vstd::prelude::*;

verus! {

/// Errors of the Notion API.
#[derive(Debug, Clone, PartialEq)]
pub enum NotionError {
    Network(String),
    Api { status: u16, message: String },
    Unauthorized,
    NotFound,
}

impl NotionError {
    /// The error as text.
    pub open spec fn text(&self) -> Seq<char> {
        match self {
            NotionError::Network(m) => "network error: "@ + m@,
            NotionError::Api { status, message } => "Notion API error "@ + crate::text::decimal(
                *status as int,
            ) + ": "@ + message@,
            NotionError::Unauthorized => "unauthorized — check your integration token"@,
            NotionError::NotFound =>
                "database not found — check the ID and that it is shared with the integration"@,
        }
    }

    pub fn message(&self) -> (s: String)
        ensures
            s@ == self.text(),
    {
        match self {
            NotionError::Network(m) => concat("network error: ", m.as_str()),
            NotionError::Api { status, message } => {
                let mut s = owned("Notion API error ");
                let code = i64_to_string(*status as i64);
                push_str(&mut s, code.as_str());
                push_str(&mut s, ": ");
                push_str(&mut s, message.as_str());
                s
            },
            NotionError::Unauthorized => owned("unauthorized — check your integration token"),
            NotionError::NotFound => owned(
                "database not found — check the ID and that it is shared with the integration",
            ),
        }
    }
}

#[derive(Debug)]
pub enum SyncError {
    Notion(NotionError),
    Store(StoreError),
}

impl SyncError {
    /// The error as text: that of the Notion or store error inside.
    pub fn message(&self) -> (s: String)
        ensures
            self matches SyncError::Notion(e) ==> s@ == e.text(),
            self matches SyncError::Store(StoreError::Corrupt(m)) ==> s@ == m@,
            self matches SyncError::Store(StoreError::Sqlite(_)) ==> s@.len() >= 16 && s@.subrange(
                0,
                16,
            ) == "database error: "@,
            self matches SyncError::Store(StoreError::Io(_)) ==> s@.len() >= 11 && s@.subrange(0, 11)
                == "i/o error: "@,
    {
        match self {
            SyncError::Notion(e) => e.message(),
            SyncError::Store(e) => e.message(),
        }
    }
}

// ---------------------------------------------------------------------------
// The rules
// ---------------------------------------------------------------------------
/// Notion changed the page since the local mirror last saw it (or the mirror
/// never saw an edit time).
pub open spec fn remote_changed(local: TaskModel, remote: RemoteTaskModel) -> bool {
    match local.notion_last_edited {
        None => true,
        Some(seen) => remote.last_edited > seen,
    }
}

/// What a sync does with one remote page.
#[derive(Debug, Clone, Copy, PartialEq, Eq, Structural)]
pub enum RemoteDecision {
    /// No local mirror yet: import the page as a new task.
    Import,
    /// Both sides changed (or a conflict is already open): store the remote
    /// snapshot for the user to resolve; overwrite nothing.
    Conflict,
    /// Only the local side changed: push it.
    Push,
    /// Only Notion changed: pull it.
    Pull,
    /// Nothing changed.
    UpToDate,
}

pub open spec fn decision(local: Option<TaskModel>, remote: RemoteTaskModel) -> RemoteDecision {
    match local {
        None => RemoteDecision::Import,
        Some(l) => if l.in_conflict() || (l.dirty && remote_changed(l, remote)) {
            RemoteDecision::Conflict
        } else if l.dirty {
            RemoteDecision::Push
        } else if remote_changed(l, remote) {
            RemoteDecision::Pull
        } else {
            RemoteDecision::UpToDate
        },
    }
}

fn remote_is_newer(local: &Task, remote: &RemoteTask) -> (b: bool)
    ensures
        b == remote_changed(local@, remote@),
{
    match local.notion_last_edited {
        None => true,
        Some(seen) => remote.last_edited > seen,
    }
}

/// Decide what to do with one remote page given its local mirror.
pub fn decide(local: Option<&Task>, remote: &RemoteTask) -> (d: RemoteDecision)
    ensures
        d == decision(
            match local {
                Some(l) => Some(l@),
                None => None,
            },
            remote@,
        ),
{
    match local {
        None => RemoteDecision::Import,
        Some(l) => {
            let changed = remote_is_newer(l, remote);
            if l.in_conflict() || (l.dirty && changed) {
                RemoteDecision::Conflict
            } else if l.dirty {
                RemoteDecision::Push
            } else if changed {
                RemoteDecision::Pull
            } else {
                RemoteDecision::UpToDate
            }
        },
    }
}

/// A page imported as a new task (before its body is fetched): a local task
/// titled like the page, linked to it, with the remote fields.
pub open spec fn imported(id: Seq<char>, remote: RemoteTaskModel, now: int) -> TaskModel {
    applied(
        TaskModel {
            notion_page_id: Some(remote.page_id),
            ..TaskModel::new_local(id, remote.title, now)
        },
        remote,
    )
}

/// The local task with the remote snapshot stored for the user to resolve;
/// nothing else of the local task changes.
pub open spec fn marked_conflict(local: TaskModel, snapshot: Seq<char>, now: int) -> TaskModel {
    TaskModel { conflict_remote_json: Some(snapshot), updated_at: now, ..local }
}

/// The task after its page body was fetched (`Some(markdown)`) or the fetch
/// failed (`None`: the description stays), at the end of a pull.
pub open spec fn pulled(t: TaskModel, body: Option<Seq<char>>, now: int, bump: bool) -> TaskModel {
    let with_body = match body {
        Some(md) => TaskModel { description: Some(md), desc_dirty: false, ..t },
        None => t,
    };
    TaskModel {
        last_synced_at: Some(now),
        updated_at: if bump {
            now
        } else {
            with_body.updated_at
        },
        ..with_body
    }
}

/// The task after a successful property push whose page now carries
/// `last_edited`; it stays dirty exactly when its body push failed.
pub open spec fn pushed(t: TaskModel, last_edited: int, body_ok: bool, now: int) -> TaskModel {
    TaskModel {
        dirty: !body_ok,
        notion_last_edited: Some(last_edited),
        last_synced_at: Some(now),
        updated_at: now,
        ..t
    }
}

/// The page body goes along with a push only when the description itself
/// was edited, and only for a linked task with a description.
pub open spec fn body_to_push(t: TaskModel) -> Option<(Seq<char>, Seq<char>)> {
    if t.desc_dirty {
        match (t.notion_page_id, t.description) {
            (Some(p), Some(d)) => Some((p, d)),
            _ => None,
        }
    } else {
        None
    }
}

/// What the deletion pass does with a local task.
#[derive(Debug, Clone, Copy, PartialEq, Eq, Structural)]
pub enum MissingDecision {
    /// Local-only task, or its page still exists: nothing to do.
    Keep,
    /// Page gone, but the task has unsynced work: keep it, log why.
    KeepUnsynced,
    /// Page gone and the mirror is clean: remove it.
    Delete,
}

pub open spec fn page_listed(page_id: Seq<char>, remote_ids: Seq<Seq<char>>) -> bool {
    exists|k: int| 0 <= k < remote_ids.len() && remote_ids[k] == page_id
}

pub open spec fn missing_decision(t: TaskModel, remote_ids: Seq<Seq<char>>) -> MissingDecision {
    match t.notion_page_id {
        None => MissingDecision::Keep,
        Some(p) => if page_listed(p, remote_ids) {
            MissingDecision::Keep
        } else if t.dirty || t.in_conflict() {
            MissingDecision::KeepUnsynced
        } else {
            MissingDecision::Delete
        },
    }
}

pub open spec fn page_ids(remotes: Seq<RemoteTask>) -> Seq<Seq<char>> {
    remotes.map_values(|r: RemoteTask| r.page_id@)
}

fn listed(page_id: &str, remotes: &Vec<RemoteTask>) -> (b: bool)
    ensures
        b == page_listed(page_id@, page_ids(remotes@)),
{
    let mut i: usize = 0;
    while i < remotes.len()
        invariant
            i <= remotes@.len(),
            forall|k: int| 0 <= k < i ==> remotes@[k].page_id@ != page_id@,
        decreases remotes@.len() - i,
    {
        if str_eq(remotes[i].page_id.as_str(), page_id) {
            assert(page_ids(remotes@)[i as int] == page_id@);
            return true;
        }
        i = i + 1;
    }
    assert forall|k: int| 0 <= k < page_ids(remotes@).len() implies page_ids(remotes@)[k]
        != page_id@ by {
        assert(page_ids(remotes@)[k] == remotes@[k].page_id@);
    }
    false
}

/// What the deletion pass does with `task`, given the pages Notion returned.
pub fn decide_missing(task: &Task, remotes: &Vec<RemoteTask>) -> (d: MissingDecision)
    ensures
        d == missing_decision(task@, page_ids(remotes@)),
{
    match &task.notion_page_id {
        None => MissingDecision::Keep,
        Some(p) => {
            if listed(p.as_str(), remotes) {
                MissingDecision::Keep
            } else if task.dirty || task.in_conflict() {
                MissingDecision::KeepUnsynced
            } else {
                MissingDecision::Delete
            }
        },
    }
}

/// Never overwrite silently: a task with unpushed local changes is neither
/// pulled over nor pushed over a remote change, and an open conflict stays
/// open; only clean mirrors are pulled, only changes Notion has not touched
/// are pushed.
pub proof fn lemma_no_silent_overwrite(l: TaskModel, r: RemoteTaskModel)
    ensures
        l.dirty && remote_changed(l, r) ==> decision(Some(l), r) == RemoteDecision::Conflict,
        l.in_conflict() ==> decision(Some(l), r) == RemoteDecision::Conflict,
        decision(Some(l), r) == RemoteDecision::Pull ==> !l.dirty && !l.in_conflict(),
        decision(Some(l), r) == RemoteDecision::Push ==> l.dirty && !remote_changed(l, r)
            && !l.in_conflict(),
        decision(Some(l), r) != RemoteDecision::Import,
{
}

/// Remote deletion removes only clean mirrors: a task with unsynced changes
/// or an open conflict, a local-only task, and a task whose page Notion still
/// returns are all kept.
pub proof fn lemma_deletion_keeps_work(t: TaskModel, remote_ids: Seq<Seq<char>>)
    ensures
        missing_decision(t, remote_ids) == MissingDecision::Delete ==> !t.dirty
            && !t.in_conflict() && t.notion_page_id is Some && !page_listed(
            t.notion_page_id.unwrap(),
            remote_ids,
        ),
{
}

/// Pulled and imported tasks start clean; a successful push clears the dirty
/// flag unless the body push failed; a conflict keeps every local field.
pub proof fn lemma_sync_flags(
    t: TaskModel,
    id: Seq<char>,
    r: RemoteTaskModel,
    body: Option<Seq<char>>,
    le: int,
    snapshot: Seq<char>,
    now: int,
)
    ensures
        !pulled(imported(id, r, now), body, now, false).dirty,
        pulled(imported(id, r, now), body, now, false).notion_page_id == Some(r.page_id),
        !pushed(t, le, true, now).dirty,
        pushed(t, le, false, now).dirty,
        marked_conflict(t, snapshot, now).title == t.title,
        marked_conflict(t, snapshot, now).dirty == t.dirty,
        marked_conflict(t, snapshot, now).in_conflict(),
{
}

// ---------------------------------------------------------------------------
// One sync run as a state machine
// ---------------------------------------------------------------------------
#[derive(Debug, Clone, Copy, PartialEq, Eq, Structural)]
pub enum LogLevel {
    Info,
    Error,
}

/// A line for the sync log.
#[derive(Debug, Clone)]
pub struct LogEntry {
    pub level: LogLevel,
    pub message: String,
}

/// The next request of a sync run.
pub enum SyncAction {
    /// Fetch the database's pages (`NotionApi::fetch_tasks` with the
    /// configured database id and mappings); answer with `Fetched`.
    FetchRemotes,
    /// Look up the local mirror of a page; answer with `Local`.
    LoadLocal { page_id: String },
    /// Fetch a page body as Markdown; answer with `Body`.
    FetchBody { page_id: String },
    /// Push the task's properties; answer with `Pushed`.
    PushTask { task: Task },
    /// Replace a page body; answer with `BodyPushed`.
    PushBody { page_id: String, markdown: String },
    /// Save (insert or update) a task; answer with `Saved`.
    SaveTask { task: Task },
    /// List every local task, done ones included; answer with `Listed`.
    ListTasks,
    /// Delete a local task; answer with `Deleted`.
    DeleteTask { id: String },
    /// Store the time of this sync (`last_sync_at`); answer with `Recorded`.
    RecordSyncTime { at: String },
    /// The run is over.
    Finished { result: Result<SyncReport, SyncError> },
}

/// A page Notion returned, with its snapshot serialized as JSON (stored on
/// the local task if the page turns out to be in conflict).
pub struct FetchedPage {
    pub remote: RemoteTask,
    pub snapshot_json: String,
}

/// The outcome of the previous request.
pub enum SyncEvent {
    Begin,
    Fetched(Result<Vec<FetchedPage>, NotionError>),
    Local(Result<Option<Task>, StoreError>),
    Body(Result<String, NotionError>),
    Pushed(Result<i64, NotionError>),
    BodyPushed(Result<i64, NotionError>),
    Saved(Result<(), StoreError>),
    Listed(Result<Vec<Task>, StoreError>),
    Deleted(Result<(), StoreError>),
    Recorded(Result<(), StoreError>),
}

/// What one step hands out: log lines to write first, then the next request.
pub struct SyncStep {
    pub logs: Vec<LogEntry>,
    pub action: SyncAction,
}

/// Which answer the run waits for.
#[derive(Debug, Clone, Copy, PartialEq, Eq, Structural)]
pub enum Stage {
    Start,
    AwaitRemotes,
    AwaitLocal,
    /// Body of a page being imported (`new`) or pulled.
    AwaitBody { new: bool },
    /// Save after an import, a pull, or a conflict.
    AwaitSave { counter: Counter },
    AwaitPush,
    AwaitBodyPush { last_edited: i64 },
    AwaitPushSave { body_ok: bool },
    AwaitList,
    AwaitDelete,
    AwaitRecord,
    Done,
}

/// Which report counter a save completes.
#[derive(Debug, Clone, Copy, PartialEq, Eq, Structural)]
pub enum Counter {
    New,
    Updated,
    Conflict,
}

/// The body text a fetch yielded, if it succeeded.
pub open spec fn body_of(res: Result<String, NotionError>) -> Option<Seq<char>> {
    match res {
        Ok(md) => Some(md@),
        Err(_) => None,
    }
}

/// The action is a save of a task with the given model.
pub open spec fn saves(a: SyncAction, t: TaskModel) -> bool {
    a matches SyncAction::SaveTask { task } && task@ == t
}

/// The run moved on to the next page: it asks for the next page's mirror, or
/// lists the local tasks after the last page; nothing is saved or pushed.
pub open spec fn moves_on(pre: SyncRunModel, post: SyncRunModel, a: SyncAction) -> bool {
    &&& post.idx == pre.idx + 1
    &&& post.idx <= pre.remotes.len()
    &&& (post.idx < pre.remotes.len() ==> (a matches SyncAction::LoadLocal { page_id }
        && page_id@ == pre.remotes[post.idx].page_id))
    &&& (post.idx == pre.remotes.len() ==> a is ListTasks)
}

/// The answer the run waits for after making request `a`: the stage that
/// `answers` matches with that request's answer; `Done` only once the run
/// has finished.
pub open spec fn awaits(stage: Stage, a: SyncAction) -> bool {
    match a {
        SyncAction::FetchRemotes => stage == Stage::AwaitRemotes,
        SyncAction::LoadLocal { .. } => stage == Stage::AwaitLocal,
        SyncAction::FetchBody { .. } => stage is AwaitBody,
        SyncAction::PushTask { .. } => stage == Stage::AwaitPush,
        SyncAction::PushBody { .. } => stage is AwaitBodyPush,
        SyncAction::SaveTask { .. } => stage is AwaitSave || stage is AwaitPushSave,
        SyncAction::ListTasks => stage == Stage::AwaitList,
        SyncAction::DeleteTask { .. } => stage == Stage::AwaitDelete,
        SyncAction::RecordSyncTime { .. } => stage == Stage::AwaitRecord,
        SyncAction::Finished { .. } => stage == Stage::Done,
    }
}

/// `ev` is the kind of answer request `a` gets.
pub open spec fn responds(a: SyncAction, ev: SyncEvent) -> bool {
    match a {
        SyncAction::FetchRemotes => ev is Fetched,
        SyncAction::LoadLocal { .. } => ev is Local,
        SyncAction::FetchBody { .. } => ev is Body,
        SyncAction::PushTask { .. } => ev is Pushed,
        SyncAction::PushBody { .. } => ev is BodyPushed,
        SyncAction::SaveTask { .. } => ev is Saved,
        SyncAction::ListTasks => ev is Listed,
        SyncAction::DeleteTask { .. } => ev is Deleted,
        SyncAction::RecordSyncTime { .. } => ev is Recorded,
        SyncAction::Finished { .. } => false,
    }
}

/// A run waiting after request `a` accepts exactly the answers to `a`, and
/// nothing once it has finished.
pub proof fn lemma_awaits_answer(stage: Stage, a: SyncAction, ev: SyncEvent)
    requires
        awaits(stage, a),
    ensures
        answers(stage, ev) == responds(a, ev),
{
}

/// The deletion pass from position `from` on: the tasks it passed over are
/// not to be deleted, the deletion it asks for is of the first task at or
/// after `from` that is to be deleted (Notion no longer returns its page and
/// it holds no unsynced work), and it records the sync time (the run's own
/// time, as RFC 3339 text) only when no such task is left.
pub open spec fn deletes_next(post: SyncRunModel, from: int, a: SyncAction) -> bool {
    let ids = post.remotes.map_values(|r: RemoteTaskModel| r.page_id);
    &&& from <= post.del_idx <= post.all.len()
    &&& forall|j: int| from <= j < post.del_idx ==> missing_decision(#[trigger] post.all[j], ids)
        != MissingDecision::Delete
    &&& (a matches SyncAction::DeleteTask { id } ==> post.del_idx < post.all.len()
        && post.all[post.del_idx].id == id@ && missing_decision(post.all[post.del_idx], ids)
        == MissingDecision::Delete)
    &&& (a is RecordSyncTime ==> post.del_idx == post.all.len())
    &&& (a matches SyncAction::RecordSyncTime { at } ==> at@ == chrono_rfc3339(post.now))
    &&& (a is DeleteTask || a is RecordSyncTime)
}

/// The step hands out one log line, at `level`, reading `text`.
pub open spec fn logs_one(s: SyncStep, level: LogLevel, text: Seq<char>) -> bool {
    s.logs@.len() == 1 && s.logs@[0].level == level && s.logs@[0].message@ == text
}

/// The report's error lines gained one at the end: `prefix` and then the
/// store error's text.
pub open spec fn adds_store_error(
    pre: Seq<Seq<char>>,
    post: Seq<Seq<char>>,
    prefix: Seq<char>,
    e: StoreError,
) -> bool {
    &&& post.len() == pre.len() + 1
    &&& post.drop_last() == pre
    &&& post.last().len() >= prefix.len()
    &&& post.last().subrange(0, prefix.len() as int) == prefix
    &&& e.describes(post.last().subrange(prefix.len() as int, post.last().len() as int))
}

/// The message logged for a task whose page is gone but which is kept for
/// its unsynced work.
pub open spec fn kept_message(t: TaskModel) -> Seq<char> {
    quoted(
        "'"@,
        t.title,
        "' was deleted in Notion; kept locally because it has unsynced changes"@,
    )
}

/// The messages the deletion pass logs over the listed tasks `from..to`:
/// one for each task kept for its unsynced work, in order.
pub open spec fn kept_logs(all: Seq<TaskModel>, ids: Seq<Seq<char>>, from: int, to: int) -> Seq<
    Seq<char>,
>
    decreases to - from,
{
    if to <= from {
        Seq::empty()
    } else if missing_decision(all[to - 1], ids) == MissingDecision::KeepUnsynced {
        kept_logs(all, ids, from, to - 1).push(kept_message(all[to - 1]))
    } else {
        kept_logs(all, ids, from, to - 1)
    }
}

/// The report's counters moved by the given amounts.
pub open spec fn counts_moved(
    pre: SyncRunModel,
    post: SyncRunModel,
    new: int,
    updated: int,
    pushed: int,
    deleted: int,
    conflicts: int,
) -> bool {
    &&& post.pulled_new == pre.pulled_new + new
    &&& post.pulled_updated == pre.pulled_updated + updated
    &&& post.pushed == pre.pushed + pushed
    &&& post.deleted == pre.deleted + deleted
    &&& post.conflicts == pre.conflicts + conflicts
}

/// How a step moves the report's counters: a completed save counts an
/// import, a pull, a conflict or (when its body went too) a push; a
/// completed deletion counts a deletion; nothing else counts.
pub open spec fn counts_law(pre: SyncRunModel, ev: SyncEvent, post: SyncRunModel) -> bool {
    match ev {
        SyncEvent::Saved(Ok(())) => match pre.stage {
            Stage::AwaitSave { counter: Counter::New } => counts_moved(pre, post, 1, 0, 0, 0, 0),
            Stage::AwaitSave { counter: Counter::Updated } => counts_moved(pre, post, 0, 1, 0, 0, 0),
            Stage::AwaitSave { counter: Counter::Conflict } => counts_moved(
                pre,
                post,
                0,
                0,
                0,
                0,
                1,
            ),
            Stage::AwaitPushSave { body_ok } => counts_moved(
                pre,
                post,
                0,
                0,
                if body_ok {
                    1
                } else {
                    0
                },
                0,
                0,
            ),
            _ => counts_moved(pre, post, 0, 0, 0, 0, 0),
        },
        SyncEvent::Deleted(Ok(())) => counts_moved(pre, post, 0, 0, 0, 1, 0),
        _ => counts_moved(pre, post, 0, 0, 0, 0, 0),
    }
}

/// What one step of a run does, per answer. In every case the run then
/// waits for the answer to the request it made; the pages and their
/// snapshots change only with the fetch, the listed local tasks only with
/// the listing, the counters as `counts_law` says, and the error lines only
/// where a case adds one.
pub open spec fn step_law(pre: SyncRunModel, ev: SyncEvent, post: SyncRunModel, s: SyncStep) -> bool {
    let a = s.action;
    let r = pre.remotes[pre.idx];
    let c = pre.current.unwrap();
    &&& awaits(post.stage, a)
    &&& post.now == pre.now
    &&& (ev !is Fetched ==> post.remotes == pre.remotes && post.snapshots == pre.snapshots)
    &&& (ev !is Listed ==> post.all == pre.all)
    &&& counts_law(pre, ev, post)
    &&& (match ev {
        SyncEvent::Pushed(Err(_)) | SyncEvent::BodyPushed(Err(_)) | SyncEvent::Recorded(
            Ok(()),
        ) => true,
        SyncEvent::Saved(Err(_)) => pre.stage is AwaitPushSave || post.errors == pre.errors,
        _ => post.errors == pre.errors,
    })
    &&& (match ev {
        SyncEvent::Fetched(Err(_)) | SyncEvent::Body(Err(_)) | SyncEvent::Pushed(Err(_))
        | SyncEvent::BodyPushed(Err(_)) | SyncEvent::Recorded(Ok(())) => true,
        SyncEvent::Listed(Ok(_)) | SyncEvent::Deleted(Ok(())) => s.logs@.map_values(
            |e: LogEntry| e.message@,
        ) == kept_logs(
            post.all,
            post.remotes.map_values(|r: RemoteTaskModel| r.page_id),
            if ev is Listed {
                0
            } else {
                pre.del_idx + 1
            },
            post.del_idx,
        ) && forall|k: int| 0 <= k < s.logs@.len() ==> (#[trigger] s.logs@[k]).level
            == LogLevel::Info,
        _ => s.logs@.len() == 0,
    })
    &&& match ev {
        SyncEvent::Begin => a is FetchRemotes,
        SyncEvent::Fetched(Err(e)) => (a matches SyncAction::Finished {
            result: Err(SyncError::Notion(e2)),
        } && e2 == e) && logs_one(s, LogLevel::Error, "sync fetch failed: "@ + e.text()),
        SyncEvent::Fetched(Ok(pages)) => {
            &&& post.remotes == pages@.map_values(|p: FetchedPage| p.remote@)
            &&& post.idx == 0
            &&& (pages@.len() > 0 ==> (a matches SyncAction::LoadLocal { page_id }
                && page_id@ == pages@[0].remote.page_id@))
            &&& (pages@.len() == 0 ==> a is ListTasks)
        },
        SyncEvent::Local(Err(e)) => a matches SyncAction::Finished {
            result: Err(SyncError::Store(e2)),
        } && e2 == e,
        SyncEvent::Local(Ok(None)) => {
            &&& post.idx == pre.idx
            &&& a matches SyncAction::FetchBody { page_id } && page_id@ == r.page_id
            &&& post.current matches Some(t) && t == imported(t.id, r, pre.now)
            &&& post.stage == (Stage::AwaitBody { new: true })
        },
        SyncEvent::Local(Ok(Some(l))) => match decision(Some(l@), r) {
            RemoteDecision::Conflict => {
                let t = marked_conflict(l@, pre.snapshots[pre.idx], pre.now);
                &&& saves(a, t)
                &&& post.current == Some(t)
                &&& post.idx == pre.idx
                &&& post.stage == (Stage::AwaitSave { counter: Counter::Conflict })
            },
            RemoteDecision::Push => a matches SyncAction::PushTask { task } && task@ == l@
                && post.current == Some(l@) && post.idx == pre.idx,
            RemoteDecision::Pull => {
                &&& post.idx == pre.idx
                &&& a matches SyncAction::FetchBody { page_id } && page_id@ == r.page_id
                &&& post.current == Some(applied(l@, r))
                &&& post.stage == (Stage::AwaitBody { new: false })
            },
            _ => moves_on(pre, post, a),
        },
        SyncEvent::Body(res) => {
            let t = pulled(c, body_of(res), pre.now, pre.stage == (Stage::AwaitBody { new: false }));
            &&& saves(a, t)
            &&& post.current == Some(t)
            &&& post.idx == pre.idx
            &&& post.stage == (Stage::AwaitSave {
                counter: if pre.stage == (Stage::AwaitBody { new: true }) {
                    Counter::New
                } else {
                    Counter::Updated
                },
            })
            &&& (res matches Err(e) ==> logs_one(
                s,
                LogLevel::Error,
                quoted("fetch body '"@, c.title, "' failed: "@) + e.text(),
            ))
        },
        SyncEvent::Pushed(Err(e)) => {
            let msg = quoted("push '"@, c.title, "' failed: "@) + e.text();
            &&& moves_on(pre, post, a)
            &&& post.errors == pre.errors.push(msg)
            &&& logs_one(s, LogLevel::Error, msg)
        },
        SyncEvent::Pushed(Ok(le)) => {
            let clean = TaskModel { dirty: false, ..c };
            &&& post.idx == pre.idx
            &&& match body_to_push(clean) {
                Some((p, d)) => a matches SyncAction::PushBody { page_id, markdown }
                    && page_id@ == p && markdown@ == d && post.current == Some(clean)
                    && post.stage == (Stage::AwaitBodyPush { last_edited: le }),
                None => {
                    let t = pushed(TaskModel { desc_dirty: false, ..clean }, le as int, true, pre.now);
                    saves(a, t) && post.current == Some(t) && post.stage == (Stage::AwaitPushSave {
                        body_ok: true,
                    })
                },
            }
        },
        SyncEvent::BodyPushed(Ok(ed)) => pre.stage matches Stage::AwaitBodyPush { last_edited }
            && {
            let t = pushed(
                TaskModel { desc_dirty: false, ..c },
                if ed > last_edited {
                    ed as int
                } else {
                    last_edited as int
                },
                true,
                pre.now,
            );
            saves(a, t) && post.current == Some(t) && post.idx == pre.idx && post.stage == (
            Stage::AwaitPushSave { body_ok: true })
        },
        SyncEvent::BodyPushed(Err(e)) => {
            let msg = quoted("push body '"@, c.title, "' failed: "@) + e.text();
            &&& pre.stage matches Stage::AwaitBodyPush { last_edited } && saves(
                a,
                pushed(c, last_edited as int, false, pre.now),
            ) && post.current == Some(pushed(c, last_edited as int, false, pre.now))
            &&& post.idx == pre.idx
            &&& post.stage == (Stage::AwaitPushSave { body_ok: false })
            &&& post.errors == pre.errors.push(msg)
            &&& logs_one(s, LogLevel::Error, msg)
        },
        SyncEvent::Saved(Err(e)) => match pre.stage {
            Stage::AwaitPushSave { .. } => moves_on(pre, post, a) && adds_store_error(
                pre.errors,
                post.errors,
                quoted("saving '"@, c.title, "': "@),
                e,
            ),
            _ => a matches SyncAction::Finished { result: Err(SyncError::Store(e2)) } && e2 == e,
        },
        SyncEvent::Saved(Ok(())) => moves_on(pre, post, a),
        SyncEvent::Listed(Err(e)) => a matches SyncAction::Finished {
            result: Err(SyncError::Store(e2)),
        } && e2 == e,
        SyncEvent::Listed(Ok(all)) => post.all == all@.map_values(|t: Task| t@) && deletes_next(
            post,
            0,
            a,
        ),
        SyncEvent::Deleted(Err(e)) => a matches SyncAction::Finished {
            result: Err(SyncError::Store(e2)),
        } && e2 == e,
        SyncEvent::Deleted(Ok(())) => deletes_next(post, pre.del_idx + 1, a),
        SyncEvent::Recorded(Err(e)) => a matches SyncAction::Finished {
            result: Err(SyncError::Store(e2)),
        } && e2 == e,
        SyncEvent::Recorded(Ok(())) => a matches SyncAction::Finished { result: Ok(report) }
            && report.pulled_new == pre.pulled_new && report.pulled_updated == pre.pulled_updated
            && report.pushed == pre.pushed && report.deleted == pre.deleted && report.conflicts
            == pre.conflicts && report.errors@.map_values(|m: String| m@) == pre.errors
            && post.errors.len() == 0 && logs_one(s, LogLevel::Info, summary_text(report)),
    }
}

/// A sync run in progress.
pub struct SyncRun {
    now: i64,
    stage: Stage,
    pages: Vec<FetchedPage>,
    remotes: Vec<RemoteTask>,
    idx: usize,
    current: Option<Task>,
    report: SyncReport,
    logs: Vec<LogEntry>,
    all: Vec<Task>,
    del_idx: usize,
}

/// The state of a run as mathematical values. The log lines a step collects
/// leave with that step (`SyncStep::logs`), so between steps a run holds none
/// (part of `inv`); they are stated per step in `step_law`.
pub struct SyncRunModel {
    pub now: int,
    pub stage: Stage,
    pub remotes: Seq<RemoteTaskModel>,
    pub snapshots: Seq<Seq<char>>,
    pub idx: int,
    pub current: Option<TaskModel>,
    pub pulled_new: int,
    pub pulled_updated: int,
    pub pushed: int,
    pub deleted: int,
    pub conflicts: int,
    pub errors: Seq<Seq<char>>,
    pub all: Seq<TaskModel>,
    pub del_idx: int,
}

pub open spec fn opt_task(t: Option<Task>) -> Option<TaskModel> {
    match t {
        Some(x) => Some(x@),
        None => None,
    }
}

impl View for SyncRun {
    type V = SyncRunModel;

    closed spec fn view(&self) -> SyncRunModel {
        SyncRunModel {
            now: self.now as int,
            stage: self.stage,
            remotes: self.remotes@.map_values(|r: RemoteTask| r@),
            snapshots: self.pages@.map_values(|p: FetchedPage| p.snapshot_json@),
            idx: self.idx as int,
            current: opt_task(self.current),
            pulled_new: self.report.pulled_new as int,
            pulled_updated: self.report.pulled_updated as int,
            pushed: self.report.pushed as int,
            deleted: self.report.deleted as int,
            conflicts: self.report.conflicts as int,
            errors: self.report.errors@.map_values(|m: String| m@),
            all: self.all@.map_values(|t: Task| t@),
            del_idx: self.del_idx as int,
        }
    }
}

/// The event answers the request the run is waiting for.
pub open spec fn answers(stage: Stage, ev: SyncEvent) -> bool {
    match stage {
        Stage::Start => ev is Begin,
        Stage::AwaitRemotes => ev is Fetched,
        Stage::AwaitLocal => ev is Local,
        Stage::AwaitBody { .. } => ev is Body,
        Stage::AwaitSave { .. } => ev is Saved,
        Stage::AwaitPush => ev is Pushed,
        Stage::AwaitBodyPush { .. } => ev is BodyPushed,
        Stage::AwaitPushSave { .. } => ev is Saved,
        Stage::AwaitList => ev is Listed,
        Stage::AwaitDelete => ev is Deleted,
        Stage::AwaitRecord => ev is Recorded,
        Stage::Done => false,
    }
}

/// Collections the run counts fit in the report's `u32` counters.
pub open spec fn event_sizes_ok(ev: SyncEvent) -> bool {
    &&& (ev matches SyncEvent::Fetched(Ok(pages)) ==> pages@.len() <= u32::MAX)
    &&& (ev matches SyncEvent::Listed(Ok(all)) ==> all@.len() <= u32::MAX)
}

pub open spec fn quoted(prefix: Seq<char>, title: Seq<char>, suffix: Seq<char>) -> Seq<char> {
    prefix + title + suffix
}

fn quoted_msg(prefix: &str, title: &str, suffix: &str) -> (s: String)
    ensures
        s@ == quoted(prefix@, title@, suffix@),
{
    let mut s = owned(prefix);
    push_str(&mut s, title);
    push_str(&mut s, suffix);
    s
}

/// The closing log line of a run with report `r`.
pub open spec fn summary_text(r: SyncReport) -> Seq<char> {
    "sync done: "@ + decimal(r.pulled_new as int) + " new, "@ + decimal(r.pulled_updated as int)
        + " updated, "@ + decimal(r.pushed as int) + " pushed, "@ + decimal(r.deleted as int)
        + " removed, "@ + decimal(r.conflicts as int) + " conflicts, "@ + decimal(
        r.errors@.len() as int,
    ) + " errors"@
}

/// How many error lines a run can hold at `stage` with `idx` pages done:
/// at most two per page (a failed body push, then a failed save), the
/// second of which comes only once the page is done.
spec fn error_room(stage: Stage, idx: usize) -> int {
    if stage == (Stage::AwaitPushSave { body_ok: false }) {
        2 * idx + 1
    } else {
        2 * idx
    }
}

fn log(level: LogLevel, message: String) -> (e: LogEntry)
    ensures
        e.level == level,
        e.message@ == message@,
{
    LogEntry { level, message }
}

impl SyncRun {
    /// The run's invariant: indices stay in bounds, the counters fit, and a
    /// task is in hand exactly while a request about it is outstanding.
    pub closed spec fn inv(&self) -> bool {
        self.counts_ok() && self.stage_ok() && self.logs@.len() == 0
    }

    /// The part of the invariant that does not depend on the stage.
    closed spec fn counts_ok(&self) -> bool {
        &&& valid_instant(self.now as int)
        &&& self.remotes@.len() == self.pages@.len()
        &&& forall|k: int| 0 <= k < self.pages@.len() ==> #[trigger] self.remotes@[k]@
            == self.pages@[k].remote@
        &&& self.remotes@.len() <= u32::MAX
        &&& self.all@.len() <= u32::MAX
        &&& self.idx <= self.remotes@.len()
        &&& self.del_idx <= self.all@.len()
        &&& self.report.pulled_new + self.report.pulled_updated + self.report.pushed
            + self.report.conflicts <= self.idx
        &&& self.report.deleted <= self.del_idx
    }

    /// What the stage implies about the position and the task in hand.
    closed spec fn stage_ok(&self) -> bool {
        &&& (match self.stage {
            Stage::AwaitLocal | Stage::AwaitBody { .. } | Stage::AwaitSave { .. }
            | Stage::AwaitPush | Stage::AwaitBodyPush { .. } | Stage::AwaitPushSave { .. } =>
                self.idx < self.remotes@.len(),
            Stage::AwaitDelete => self.del_idx < self.all@.len(),
            _ => true,
        })
        &&& (match self.stage {
            Stage::AwaitBody { .. } | Stage::AwaitSave { .. } | Stage::AwaitPush
            | Stage::AwaitBodyPush { .. } | Stage::AwaitPushSave { .. } => self.current is Some,
            _ => true,
        })
        &&& (match self.stage {
            Stage::Start | Stage::AwaitRemotes => self.report.pulled_new == 0
                && self.report.pulled_updated == 0 && self.report.pushed == 0
                && self.report.conflicts == 0 && self.report.errors@.len() == 0,
            _ => true,
        })
        &&& (match self.stage {
            Stage::AwaitDelete | Stage::AwaitRecord | Stage::Done => true,
            _ => self.del_idx == 0,
        })
        &&& (match self.stage {
            Stage::AwaitList | Stage::AwaitDelete | Stage::AwaitRecord => self.idx
                == self.remotes@.len(),
            _ => true,
        })
        &&& (self.stage !is Done ==> self.report.errors@.len() <= error_room(self.stage, self.idx))
    }

    /// The page ids seen through the model are the page ids of the remotes.
    proof fn lemma_ids_view(&self)
        ensures
            page_ids(self.remotes@) == self@.remotes.map_values(|r: RemoteTaskModel| r.page_id),
            forall|k: int| 0 <= k < self.all@.len() ==> #[trigger] self@.all[k] == self.all@[k]@,
            self@.all.len() == self.all@.len(),
    {
        assert(page_ids(self.remotes@) =~= self@.remotes.map_values(
            |r: RemoteTaskModel| r.page_id,
        ));
    }

    /// A run that starts at `now`.
    pub fn new(now: i64) -> (r: SyncRun)
        requires
            valid_instant(now as int),
        ensures
            r.inv(),
            r@.stage == Stage::Start,
            r@.now == now,
            r@.idx == 0,
            r@.pulled_new == 0,
            r@.pulled_updated == 0,
            r@.pushed == 0,
            r@.deleted == 0,
            r@.conflicts == 0,
            r@.errors.len() == 0,
    {
        SyncRun {
            now,
            stage: Stage::Start,
            pages: Vec::new(),
            remotes: Vec::new(),
            idx: 0,
            current: None,
            report: SyncReport::default(),
            logs: Vec::new(),
            all: Vec::new(),
            del_idx: 0,
        }
    }

    /// The run is over.
    pub fn is_done(&self) -> (b: bool)
        ensures
            b == (self@.stage == Stage::Done),
    {
        self.stage == Stage::Done
    }

    /// Whether `ev` answers the request the run waits for.
    pub fn accepts(&self, ev: &SyncEvent) -> (b: bool)
        ensures
            b == answers(self@.stage, *ev),
    {
        match self.stage {
            Stage::Start => matches!(ev, SyncEvent::Begin),
            Stage::AwaitRemotes => matches!(ev, SyncEvent::Fetched(_)),
            Stage::AwaitLocal => matches!(ev, SyncEvent::Local(_)),
            Stage::AwaitBody { .. } => matches!(ev, SyncEvent::Body(_)),
            Stage::AwaitSave { .. } => matches!(ev, SyncEvent::Saved(_)),
            Stage::AwaitPush => matches!(ev, SyncEvent::Pushed(_)),
            Stage::AwaitBodyPush { .. } => matches!(ev, SyncEvent::BodyPushed(_)),
            Stage::AwaitPushSave { .. } => matches!(ev, SyncEvent::Saved(_)),
            Stage::AwaitList => matches!(ev, SyncEvent::Listed(_)),
            Stage::AwaitDelete => matches!(ev, SyncEvent::Deleted(_)),
            Stage::AwaitRecord => matches!(ev, SyncEvent::Recorded(_)),
            Stage::Done => false,
        }
    }

    fn finish(&mut self, result: Result<SyncReport, SyncError>) -> (s: SyncStep)
        requires
            old(self).counts_ok(),
        ensures
            final(self).inv(),
            final(self)@.stage == Stage::Done,
            s.action == (SyncAction::Finished { result }),
            s.logs@ == old(self).logs@,
            final(self).now == old(self).now,
            final(self).pages == old(self).pages,
            final(self).remotes == old(self).remotes,
            final(self).all == old(self).all,
            final(self).idx == old(self).idx,
            final(self).report == old(self).report,
    {
        self.stage = Stage::Done;
        self.current = None;
        let mut logs = Vec::new();
        std::mem::swap(&mut logs, &mut self.logs);
        SyncStep { logs, action: SyncAction::Finished { result } }
    }

    fn emit(&mut self, stage: Stage, action: SyncAction) -> (s: SyncStep)
        requires
            awaits(stage, action),
        ensures
            final(self).stage == stage,
            final(self).now == old(self).now,
            final(self).pages == old(self).pages,
            final(self).remotes == old(self).remotes,
            final(self).idx == old(self).idx,
            final(self).current == old(self).current,
            final(self).report == old(self).report,
            final(self).all == old(self).all,
            final(self).del_idx == old(self).del_idx,
            final(self).logs@.len() == 0,
            s.logs@ == old(self).logs@,
            s.action == action,
    {
        self.stage = stage;
        let mut logs = Vec::new();
        std::mem::swap(&mut logs, &mut self.logs);
        SyncStep { logs, action }
    }

    /// Move on to the next page, or to the deletion pass after the last one.
    fn next_page(&mut self) -> (s: SyncStep)
        requires
            old(self).counts_ok(),
            old(self).del_idx == 0,
            old(self).report.errors@.len() <= 2 * old(self).idx,
        ensures
            final(self).inv(),
            old(self).idx < old(self).remotes@.len() ==> (s.action matches SyncAction::LoadLocal {
                page_id,
            } && page_id@ == old(self)@.remotes[old(self)@.idx].page_id),
            old(self).idx == old(self).remotes@.len() ==> s.action is ListTasks,
            awaits(final(self)@.stage, s.action),
            s.logs@ == old(self).logs@,
            final(self).now == old(self).now,
            final(self)@.idx == old(self)@.idx,
            final(self).report == old(self).report,
            final(self).remotes == old(self).remotes,
            final(self).pages == old(self).pages,
            final(self).all == old(self).all,
    {
        if self.idx < self.remotes.len() {
            let page_id = self.remotes[self.idx].page_id.clone();
            assert(self@.remotes[self.idx as int] == self.remotes@[self.idx as int]@);
            self.current = None;
            self.emit(Stage::AwaitLocal, SyncAction::LoadLocal { page_id })
        } else {
            self.current = None;
            self.emit(Stage::AwaitList, SyncAction::ListTasks)
        }
    }

    /// Move on to the next task of the deletion pass, logging (and keeping)
    /// tasks with unsynced work on the way; record the sync time after the
    /// last one.
    fn next_deletion(&mut self) -> (s: SyncStep)
        requires
            old(self).counts_ok(),
            old(self).idx == old(self).remotes@.len(),
            old(self).report.errors@.len() <= 2 * old(self).idx,
            old(self).logs@.len() == 0,
        ensures
            final(self).inv(),
            final(self).idx == final(self).remotes@.len(),
            deletes_next(final(self)@, old(self).del_idx as int, s.action),
            s.logs@.map_values(|e: LogEntry| e.message@) == kept_logs(
                final(self)@.all,
                final(self)@.remotes.map_values(|r: RemoteTaskModel| r.page_id),
                old(self).del_idx as int,
                final(self).del_idx as int,
            ),
            forall|k: int| 0 <= k < s.logs@.len() ==> (#[trigger] s.logs@[k]).level
                == LogLevel::Info,
            awaits(final(self)@.stage, s.action),
            final(self).now == old(self).now,
            final(self).pages == old(self).pages,
            s.action is DeleteTask || s.action is RecordSyncTime,
            final(self).report == old(self).report,
            final(self).all == old(self).all,
            final(self).remotes == old(self).remotes,
    {
        while self.del_idx < self.all.len()
            invariant
                self.counts_ok(),
                self.idx == self.remotes@.len(),
                self.now == old(self).now,
                self.pages == old(self).pages,
                self.remotes == old(self).remotes,
                self.all == old(self).all,
                self.report == old(self).report,
                self.report.errors@.len() <= 2 * self.idx,
                old(self).del_idx <= self.del_idx,
                forall|j: int| old(self).del_idx <= j < self.del_idx ==> missing_decision(
                    #[trigger] self@.all[j],
                    self@.remotes.map_values(|r: RemoteTaskModel| r.page_id),
                ) != MissingDecision::Delete,
                self.logs@.map_values(|e: LogEntry| e.message@) == kept_logs(
                    self@.all,
                    self@.remotes.map_values(|r: RemoteTaskModel| r.page_id),
                    old(self).del_idx as int,
                    self.del_idx as int,
                ),
                forall|k: int| 0 <= k < self.logs@.len() ==> (#[trigger] self.logs@[k]).level
                    == LogLevel::Info,
            decreases self.all@.len() - self.del_idx,
        {
            let d = decide_missing(&self.all[self.del_idx], &self.remotes);
            proof {
                self.lemma_ids_view();
                assert(self@.all[self.del_idx as int] == self.all@[self.del_idx as int]@);
            }
            match d {
                MissingDecision::Keep => {},
                MissingDecision::KeepUnsynced => {
                    let msg = quoted_msg(
                        "'",
                        self.all[self.del_idx].title.as_str(),
                        "' was deleted in Notion; kept locally because it has unsynced changes",
                    );
                    let ghost before = self.logs@.map_values(|e: LogEntry| e.message@);
                    self.logs.push(log(LogLevel::Info, msg));
                    assert(self.logs@.map_values(|e: LogEntry| e.message@) =~= before.push(
                        kept_message(self@.all[self.del_idx as int]),
                    ));
                },
                MissingDecision::Delete => {
                    let id = self.all[self.del_idx].id.clone();
                    proof {
                        self.lemma_ids_view();
                        assert(self@.all[self.del_idx as int] == self.all@[self.del_idx as int]@);
                    }
                    let s = self.emit(Stage::AwaitDelete, SyncAction::DeleteTask { id });
                    proof {
                        assert(self@.all == old(self)@.all);
                    }
                    return s;
                },
            }
            self.del_idx = self.del_idx + 1;
        }
        let at = instant_to_rfc3339(self.now);
        let ghost passed = self@;
        let s = self.emit(Stage::AwaitRecord, SyncAction::RecordSyncTime { at });
        assert(self@.all == passed.all && self@.remotes == passed.remotes);
        s
    }

    /// Save the task in hand and wait for `stage`'s answer.
    fn save_current(&mut self, stage: Stage) -> (s: SyncStep)
        requires
            old(self).counts_ok(),
            old(self).current is Some,
            old(self).idx < old(self).remotes@.len(),
            old(self).del_idx == 0,
            stage is AwaitSave || stage is AwaitPushSave,
            old(self).report.errors@.len() <= error_room(stage, old(self).idx),
        ensures
            final(self).inv(),
            final(self).stage == stage,
            s.action matches SyncAction::SaveTask { task } && task@ == old(self).current.unwrap()@,
            s.logs@ == old(self).logs@,
            final(self).now == old(self).now,
            final(self).pages == old(self).pages,
            final(self).remotes == old(self).remotes,
            final(self).all == old(self).all,
            final(self).current == old(self).current,
            final(self).idx == old(self).idx,
            final(self).report == old(self).report,
    {
        let task = match &self.current {
            Some(t) => t.duplicate(),
            None => {
                assert(false);
                Task::new_local("", 0)
            },
        };
        self.emit(stage, SyncAction::SaveTask { task })
    }

    /// Take the answer to the previous request and make the next one.
    pub fn step(&mut self, ev: SyncEvent) -> (s: SyncStep)
        requires
            old(self).inv(),
            answers(old(self)@.stage, ev),
            event_sizes_ok(ev),
        ensures
            final(self).inv(),
            step_law(old(self)@, ev, final(self)@, s),
    {
        match ev {
            SyncEvent::Begin => self.emit(Stage::AwaitRemotes, SyncAction::FetchRemotes),
            SyncEvent::Fetched(res) => self.on_fetched(res),
            SyncEvent::Local(res) => self.on_local(res),
            SyncEvent::Body(res) => self.on_body(res),
            SyncEvent::Saved(res) => self.on_saved(res),
            SyncEvent::Pushed(res) => self.on_pushed(res),
            SyncEvent::BodyPushed(res) => self.on_body_pushed(res),
            SyncEvent::Listed(res) => self.on_listed(res),
            SyncEvent::Deleted(res) => self.on_deleted(res),
            SyncEvent::Recorded(res) => self.on_recorded(res),
        }
    }

    fn on_fetched(&mut self, res: Result<Vec<FetchedPage>, NotionError>) -> (s: SyncStep)
        requires
            old(self).inv(),
            old(self).stage == Stage::AwaitRemotes,
            event_sizes_ok(SyncEvent::Fetched(res)),
        ensures
            final(self).inv(),
            step_law(old(self)@, SyncEvent::Fetched(res), final(self)@, s),
    {
        match res {
            Err(e) => {
                let msg = concat("sync fetch failed: ", e.message().as_str());
                self.logs.push(log(LogLevel::Error, msg));
                self.finish(Err(SyncError::Notion(e)))
            },
            Ok(pages) => {
                let mut remotes: Vec<RemoteTask> = Vec::new();
                let mut i: usize = 0;
                while i < pages.len()
                    invariant
                        i <= pages@.len(),
                        remotes@.len() == i,
                        forall|k: int| 0 <= k < i ==> #[trigger] remotes@[k]@ == pages@[k].remote@,
                    decreases pages@.len() - i,
                {
                    remotes.push(pages[i].remote.duplicate());
                    i = i + 1;
                }
                let ghost pages_model = pages@.map_values(|p: FetchedPage| p.remote@);
                self.pages = pages;
                self.remotes = remotes;
                self.idx = 0;
                assert(self@.remotes =~= pages_model);
                if self.remotes.len() > 0 {
                    assert(self@.remotes[0] == self.remotes@[0]@);
                }
                self.next_page()
            },
        }
    }

    fn on_local(&mut self, res: Result<Option<Task>, StoreError>) -> (s: SyncStep)
        requires
            old(self).inv(),
            old(self).stage == Stage::AwaitLocal,
        ensures
            final(self).inv(),
            step_law(old(self)@, SyncEvent::Local(res), final(self)@, s),
    {
        match res {
            Err(e) => self.finish(Err(SyncError::Store(e))),
            Ok(None) => {
                let remote = self.remotes[self.idx].duplicate();
                assert(self@.remotes[self.idx as int] == remote@);
                let mut task = Task::new_local(remote.title.as_str(), self.now);
                task.notion_page_id = Some(remote.page_id.clone());
                apply_remote(&mut task, &remote);
                self.current = Some(task);
                self.emit(
                    Stage::AwaitBody { new: true },
                    SyncAction::FetchBody { page_id: remote.page_id },
                )
            },
            Ok(Some(local)) => self.on_mirror(local),
        }
    }

    fn on_mirror(&mut self, local: Task) -> (s: SyncStep)
        requires
            old(self).inv(),
            old(self).stage == Stage::AwaitLocal,
        ensures
            final(self).inv(),
            step_law(old(self)@, SyncEvent::Local(Ok(Some(local))), final(self)@, s),
    {
        let mut local = local;
        let ghost l0 = local@;
        let remote = self.remotes[self.idx].duplicate();
        assert(self@.remotes[self.idx as int] == remote@);
        assert(self@.snapshots[self.idx as int] == self.pages@[self.idx as int].snapshot_json@);
        match decide(Some(&local), &remote) {
            RemoteDecision::Conflict => {
                local.conflict_remote_json = Some(self.pages[self.idx].snapshot_json.clone());
                local.updated_at = self.now;
                self.current = Some(local);
                self.save_current(Stage::AwaitSave { counter: Counter::Conflict })
            },
            RemoteDecision::Push => {
                let task = local.duplicate();
                self.current = Some(local);
                self.emit(Stage::AwaitPush, SyncAction::PushTask { task })
            },
            RemoteDecision::Pull => {
                apply_remote(&mut local, &remote);
                self.current = Some(local);
                self.emit(
                    Stage::AwaitBody { new: false },
                    SyncAction::FetchBody { page_id: remote.page_id },
                )
            },
            _ => {
                self.idx = self.idx + 1;
                self.next_page()
            },
        }
    }

    fn on_body(&mut self, res: Result<String, NotionError>) -> (s: SyncStep)
        requires
            old(self).inv(),
            old(self).stage is AwaitBody,
        ensures
            final(self).inv(),
            step_law(old(self)@, SyncEvent::Body(res), final(self)@, s),
    {
        let new = match self.stage {
            Stage::AwaitBody { new } => new,
            _ => false,
        };
        let mut task = self.current.take().unwrap();
        match res {
            Ok(md) => {
                task.description = Some(md);
                task.desc_dirty = false;
            },
            Err(e) => {
                let mut msg = quoted_msg("fetch body '", task.title.as_str(), "' failed: ");
                push_str(&mut msg, e.message().as_str());
                self.logs.push(log(LogLevel::Error, msg));
            },
        }
        task.last_synced_at = Some(self.now);
        if !new {
            task.updated_at = self.now;
        }
        self.current = Some(task);
        let counter = if new {
            Counter::New
        } else {
            Counter::Updated
        };
        self.save_current(Stage::AwaitSave { counter })
    }

    fn on_saved(&mut self, res: Result<(), StoreError>) -> (s: SyncStep)
        requires
            old(self).inv(),
            old(self).stage is AwaitSave || old(self).stage is AwaitPushSave,
        ensures
            final(self).inv(),
            step_law(old(self)@, SyncEvent::Saved(res), final(self)@, s),
    {
        match self.stage {
            Stage::AwaitSave { counter } => {
                match res {
                    Err(e) => self.finish(Err(SyncError::Store(e))),
                    Ok(()) => {
                        match counter {
                            Counter::New => {
                                self.report.pulled_new = self.report.pulled_new + 1;
                            },
                            Counter::Updated => {
                                self.report.pulled_updated = self.report.pulled_updated + 1;
                            },
                            Counter::Conflict => {
                                self.report.conflicts = self.report.conflicts + 1;
                            },
                        }
                        self.idx = self.idx + 1;
                        self.next_page()
                    },
                }
            },
            _ => {
                let body_ok = match self.stage {
                    Stage::AwaitPushSave { body_ok } => body_ok,
                    _ => false,
                };
                match res {
                    Err(e) => {
                        let title = match &self.current {
                            Some(t) => t.title.clone(),
                            None => String::new(),
                        };
                        let mut msg = quoted_msg("saving '", title.as_str(), "': ");
                        let ghost prefix = msg@;
                        let text = e.message();
                        push_str(&mut msg, text.as_str());
                        assert(msg@.subrange(0, prefix.len() as int) =~= prefix);
                        assert(msg@.subrange(prefix.len() as int, msg@.len() as int) =~= text@);
                        let ghost before = self@.errors;
                        self.report.errors.push(msg);
                        assert(self@.errors.drop_last() =~= before);
                    },
                    Ok(()) => {
                        if body_ok {
                            self.report.pushed = self.report.pushed + 1;
                        }
                    },
                }
                self.idx = self.idx + 1;
                self.next_page()
            },
        }
    }

    fn on_pushed(&mut self, res: Result<i64, NotionError>) -> (s: SyncStep)
        requires
            old(self).inv(),
            old(self).stage == Stage::AwaitPush,
        ensures
            final(self).inv(),
            step_law(old(self)@, SyncEvent::Pushed(res), final(self)@, s),
    {
        match res {
            Err(e) => {
                let title = match &self.current {
                    Some(t) => t.title.clone(),
                    None => String::new(),
                };
                let mut msg = quoted_msg("push '", title.as_str(), "' failed: ");
                push_str(&mut msg, e.message().as_str());
                self.logs.push(log(LogLevel::Error, msg.clone()));
                let ghost before = self@.errors;
                self.report.errors.push(msg);
                assert(self@.errors =~= before.push(msg@));
                self.idx = self.idx + 1;
                self.next_page()
            },
            Ok(last_edited) => {
                let mut task = self.current.take().unwrap();
                task.dirty = false;
                if task.desc_dirty {
                    match (&task.notion_page_id, &task.description) {
                        (Some(page_id), Some(desc)) => {
                            let page_id = page_id.clone();
                            let markdown = desc.clone();
                            self.current = Some(task);
                            return self.emit(
                                Stage::AwaitBodyPush { last_edited },
                                SyncAction::PushBody { page_id, markdown },
                            );
                        },
                        _ => {
                            task.desc_dirty = false;
                        },
                    }
                }
                self.current = Some(task);
                self.finish_push(last_edited, true)
            },
        }
    }

    fn on_body_pushed(&mut self, res: Result<i64, NotionError>) -> (s: SyncStep)
        requires
            old(self).inv(),
            old(self).stage is AwaitBodyPush,
        ensures
            final(self).inv(),
            step_law(old(self)@, SyncEvent::BodyPushed(res), final(self)@, s),
    {
        let last_edited = match self.stage {
            Stage::AwaitBodyPush { last_edited } => last_edited,
            _ => 0,
        };
        match res {
            Ok(edited) => {
                let mut task = self.current.take().unwrap();
                task.desc_dirty = false;
                self.current = Some(task);
                let newest = if edited > last_edited {
                    edited
                } else {
                    last_edited
                };
                self.finish_push(newest, true)
            },
            Err(e) => {
                let title = match &self.current {
                    Some(t) => t.title.clone(),
                    None => String::new(),
                };
                let mut msg = quoted_msg("push body '", title.as_str(), "' failed: ");
                push_str(&mut msg, e.message().as_str());
                self.logs.push(log(LogLevel::Error, msg.clone()));
                let ghost before = self@.errors;
                self.report.errors.push(msg);
                assert(self@.errors =~= before.push(msg@));
                self.finish_push(last_edited, false)
            },
        }
    }

    fn on_listed(&mut self, res: Result<Vec<Task>, StoreError>) -> (s: SyncStep)
        requires
            old(self).inv(),
            old(self).stage == Stage::AwaitList,
            event_sizes_ok(SyncEvent::Listed(res)),
        ensures
            final(self).inv(),
            step_law(old(self)@, SyncEvent::Listed(res), final(self)@, s),
    {
        match res {
            Err(e) => self.finish(Err(SyncError::Store(e))),
            Ok(all) => {
                let ghost all_model = all@.map_values(|t: Task| t@);
                self.all = all;
                self.del_idx = 0;
                assert(self@.all =~= all_model);
                self.next_deletion()
            },
        }
    }

    fn on_deleted(&mut self, res: Result<(), StoreError>) -> (s: SyncStep)
        requires
            old(self).inv(),
            old(self).stage == Stage::AwaitDelete,
        ensures
            final(self).inv(),
            step_law(old(self)@, SyncEvent::Deleted(res), final(self)@, s),
    {
        match res {
            Err(e) => self.finish(Err(SyncError::Store(e))),
            Ok(()) => {
                self.report.deleted = self.report.deleted + 1;
                self.del_idx = self.del_idx + 1;
                self.next_deletion()
            },
        }
    }

    fn on_recorded(&mut self, res: Result<(), StoreError>) -> (s: SyncStep)
        requires
            old(self).inv(),
            old(self).stage == Stage::AwaitRecord,
        ensures
            final(self).inv(),
            step_law(old(self)@, SyncEvent::Recorded(res), final(self)@, s),
    {
        match res {
            Err(e) => self.finish(Err(SyncError::Store(e))),
            Ok(()) => {
                let msg = self.summary();
                self.logs.push(log(LogLevel::Info, msg));
                let mut errors = Vec::new();
                std::mem::swap(&mut errors, &mut self.report.errors);
                let report = SyncReport {
                    pulled_new: self.report.pulled_new,
                    pulled_updated: self.report.pulled_updated,
                    pushed: self.report.pushed,
                    deleted: self.report.deleted,
                    conflicts: self.report.conflicts,
                    errors,
                };
                self.finish(Ok(report))
            },
        }
    }

    /// After the property push (and the body push, if any): the task is
    /// clean unless its body push failed, and is saved.
    fn finish_push(&mut self, last_edited: i64, body_ok: bool) -> (s: SyncStep)
        requires
            old(self).counts_ok(),
            old(self).current is Some,
            old(self).idx < old(self).remotes@.len(),
            old(self).del_idx == 0,
            old(self).report.errors@.len() <= error_room(
                Stage::AwaitPushSave { body_ok },
                old(self).idx,
            ),
        ensures
            final(self).inv(),
            s.action matches SyncAction::SaveTask { task } && task@ == pushed(
                old(self).current.unwrap()@,
                last_edited as int,
                body_ok,
                old(self).now as int,
            ),
            final(self).stage == (Stage::AwaitPushSave { body_ok }),
            s.logs@ == old(self).logs@,
            final(self).now == old(self).now,
            final(self).pages == old(self).pages,
            final(self).remotes == old(self).remotes,
            final(self).all == old(self).all,
            final(self)@.current == Some(
                pushed(old(self).current.unwrap()@, last_edited as int, body_ok, old(self).now as int),
            ),
            final(self).idx == old(self).idx,
            final(self).report == old(self).report,
    {
        let mut task = self.current.take().unwrap();
        task.dirty = !body_ok;
        task.notion_last_edited = Some(last_edited);
        task.last_synced_at = Some(self.now);
        task.updated_at = self.now;
        self.current = Some(task);
        self.save_current(Stage::AwaitPushSave { body_ok })
    }

    /// The closing log line: counts of the run.
    fn summary(&self) -> (s: String)
        requires
            self.report.errors@.len() <= i64::MAX,
        ensures
            s@ == summary_text(self.report),
    {
        let mut s = owned("sync done: ");
        push_str(&mut s, i64_to_string(self.report.pulled_new as i64).as_str());
        push_str(&mut s, " new, ");
        push_str(&mut s, i64_to_string(self.report.pulled_updated as i64).as_str());
        push_str(&mut s, " updated, ");
        push_str(&mut s, i64_to_string(self.report.pushed as i64).as_str());
        push_str(&mut s, " pushed, ");
        push_str(&mut s, i64_to_string(self.report.deleted as i64).as_str());
        push_str(&mut s, " removed, ");
        push_str(&mut s, i64_to_string(self.report.conflicts as i64).as_str());
        push_str(&mut s, " conflicts, ");
        push_str(&mut s, i64_to_string(self.report.errors.len() as i64).as_str());
        push_str(&mut s, " errors");
        s
    }
}

/// A successful push marks the task's own edit as seen: the saved task
/// remembers the edit time the page now carries, so a later run that finds
/// the page at that time (or earlier) sees no remote change. If the user
/// edits the task again, that run pushes it instead of reporting a conflict.
pub proof fn lemma_push_marks_own_edit_seen(
    t: TaskModel,
    le: int,
    body_ok: bool,
    now: int,
    later: TaskModel,
    r: RemoteTaskModel,
)
    requires
        r.last_edited <= le,
        later.notion_last_edited == pushed(t, le, body_ok, now).notion_last_edited,
        later.dirty,
        !later.in_conflict(),
    ensures
        pushed(t, le, body_ok, now).notion_last_edited == Some(le),
        !remote_changed(pushed(t, le, body_ok, now), r),
        decision(Some(later), r) == RemoteDecision::Push,
{
}

// ---------------------------------------------------------------------------
// Whole runs
// ---------------------------------------------------------------------------
/// Step `i` of a run: the answer is one the run was waiting for, and the step
/// follows `step_law`.
pub open spec fn run_step(
    ms: Seq<SyncRunModel>,
    evs: Seq<SyncEvent>,
    steps: Seq<SyncStep>,
    i: int,
) -> bool {
    answers(ms[i].stage, evs[i]) && step_law(ms[i], evs[i], ms[i + 1], steps[i])
}

/// A run from its start: the states `ms`, the answers `evs` and the steps
/// `steps`, where step `i` takes state `i` and answer `i` to state `i + 1`.
pub open spec fn is_run(ms: Seq<SyncRunModel>, evs: Seq<SyncEvent>, steps: Seq<SyncStep>) -> bool {
    &&& ms.len() == evs.len() + 1
    &&& steps.len() == evs.len()
    &&& ms[0].stage == Stage::Start
    &&& forall|i: int| 0 <= i < evs.len() ==> #[trigger] run_step(ms, evs, steps, i)
}

/// A page body is replaced only for a task whose description was edited: a
/// `PushBody` request answers the successful property push of a task that the
/// run found dirty with `desc_dirty` set, and carries that task's page and
/// description. A change of counts alone therefore never rewrites a body.
pub proof fn lemma_body_pushed_only_for_edited_description(
    ms: Seq<SyncRunModel>,
    evs: Seq<SyncEvent>,
    steps: Seq<SyncStep>,
    i: int,
)
    requires
        is_run(ms, evs, steps),
        0 <= i < evs.len(),
        steps[i].action is PushBody,
    ensures
        1 <= i,
        evs[i] matches SyncEvent::Pushed(Ok(_)),
        evs[i - 1] matches SyncEvent::Local(Ok(Some(l))) && l@.dirty && l@.desc_dirty && (
        steps[i].action matches SyncAction::PushBody { page_id, markdown }
            && l@.notion_page_id == Some(page_id@) && l@.description == Some(markdown@)),
{
    assert(run_step(ms, evs, steps, i));
    assert(evs[i] matches SyncEvent::Pushed(Ok(_)));
    assert(ms[i].stage == Stage::AwaitPush);
    assert(i != 0);
    assert(run_step(ms, evs, steps, i - 1));
    assert(steps[i - 1].action is PushTask);
}

/// The ids of the listed tasks from position `from` on that the deletion
/// pass removes: those whose page Notion no longer returns and which hold no
/// unsynced work, in order.
pub open spec fn deletion_ids(all: Seq<TaskModel>, ids: Seq<Seq<char>>, from: int) -> Seq<
    Seq<char>,
>
    decreases all.len() - from,
{
    if from < 0 || from >= all.len() {
        Seq::empty()
    } else if missing_decision(all[from], ids) == MissingDecision::Delete {
        seq![all[from].id] + deletion_ids(all, ids, from + 1)
    } else {
        deletion_ids(all, ids, from + 1)
    }
}

/// Tasks `from..to` that are not to be deleted add nothing.
proof fn lemma_deletion_ids_skip(all: Seq<TaskModel>, ids: Seq<Seq<char>>, from: int, to: int)
    requires
        0 <= from <= to <= all.len(),
        forall|j: int| from <= j < to ==> missing_decision(#[trigger] all[j], ids)
            != MissingDecision::Delete,
    ensures
        deletion_ids(all, ids, from) == deletion_ids(all, ids, to),
    decreases to - from,
{
    if from < to {
        assert(missing_decision(all[from], ids) != MissingDecision::Delete);
        lemma_deletion_ids_skip(all, ids, from + 1, to);
    }
}

/// What the deletion pass still has to remove after request `a`.
pub open spec fn deletions_pending(m: SyncRunModel, a: SyncAction) -> Seq<Seq<char>> {
    match a {
        SyncAction::DeleteTask { id } => seq![id@] + deletion_ids(
            m.all,
            m.remotes.map_values(|r: RemoteTaskModel| r.page_id),
            m.del_idx + 1,
        ),
        _ => Seq::empty(),
    }
}

/// One deletion step: the request and what is left are all that is left.
proof fn lemma_deletes_next_ids(post: SyncRunModel, from: int, a: SyncAction)
    requires
        0 <= from,
        deletes_next(post, from, a),
    ensures
        deletion_ids(post.all, post.remotes.map_values(|r: RemoteTaskModel| r.page_id), from)
            == deletions_pending(post, a),
{
    let ids = post.remotes.map_values(|r: RemoteTaskModel| r.page_id);
    lemma_deletion_ids_skip(post.all, ids, from, post.del_idx);
    if a is DeleteTask {
        assert(deletion_ids(post.all, ids, post.del_idx) =~= deletions_pending(post, a));
    }
}

/// The ids of the deletions requested by steps `from..to`.
pub open spec fn deletes_requested(steps: Seq<SyncStep>, from: int, to: int) -> Seq<Seq<char>>
    decreases to - from,
{
    if to <= from {
        Seq::empty()
    } else {
        deletes_requested(steps, from, to - 1) + match steps[to - 1].action {
            SyncAction::DeleteTask { id } => seq![id@],
            _ => Seq::empty(),
        }
    }
}

/// The deletion pass over a whole run: once the local tasks are listed at
/// step `j` and every deletion succeeds up to the step `r` that records the
/// sync time, the run has asked to delete exactly the listed tasks whose page
/// Notion no longer returns and which hold no unsynced work (none without a
/// page, none dirty or in conflict), each once and in listing order, and
/// counted each deletion.
pub proof fn lemma_deletion_pass(
    ms: Seq<SyncRunModel>,
    evs: Seq<SyncEvent>,
    steps: Seq<SyncStep>,
    j: int,
    r: int,
)
    requires
        is_run(ms, evs, steps),
        0 <= j <= r < evs.len(),
        evs[j] is Listed,
        steps[r].action is RecordSyncTime,
        forall|i: int| j < i <= r ==> #[trigger] evs[i] == SyncEvent::Deleted(Ok(())),
    ensures
        evs[j] matches SyncEvent::Listed(Ok(all)) && deletes_requested(steps, j, r + 1)
            == deletion_ids(
            all@.map_values(|t: Task| t@),
            ms[j].remotes.map_values(|x: RemoteTaskModel| x.page_id),
            0,
        ),
        ms[r + 1].deleted == ms[j].deleted + (r - j),
{
    assert(run_step(ms, evs, steps, j));
    if evs[j] matches SyncEvent::Listed(Err(_)) {
        if j < r {
            assert(run_step(ms, evs, steps, j + 1));
            assert(evs[j + 1] == SyncEvent::Deleted(Ok(())));
        }
        assert(false);
    }
    lemma_deletion_pass_upto(ms, evs, steps, j, r, r);
    assert(deletions_pending(ms[r + 1], steps[r].action) =~= Seq::empty());
    assert(deletes_requested(steps, j, r + 1) =~= deletes_requested(steps, j, r)
        + deletions_pending(ms[r + 1], steps[r].action));
}

/// The deletion pass up to step `i`: the deletions requested before step `i`
/// and those pending after it make up the whole list, and the deletions so
/// far are counted.
proof fn lemma_deletion_pass_upto(
    ms: Seq<SyncRunModel>,
    evs: Seq<SyncEvent>,
    steps: Seq<SyncStep>,
    j: int,
    r: int,
    i: int,
)
    requires
        is_run(ms, evs, steps),
        0 <= j <= i <= r < evs.len(),
        evs[j] matches SyncEvent::Listed(Ok(_)),
        forall|k: int| j < k <= r ==> #[trigger] evs[k] == SyncEvent::Deleted(Ok(())),
    ensures
        evs[j] matches SyncEvent::Listed(Ok(all)) && deletes_requested(steps, j, i)
            + deletions_pending(ms[i + 1], steps[i].action) == deletion_ids(
            all@.map_values(|t: Task| t@),
            ms[j].remotes.map_values(|x: RemoteTaskModel| x.page_id),
            0,
        ),
        evs[j] matches SyncEvent::Listed(Ok(all)) && ms[i + 1].all == all@.map_values(
            |t: Task| t@,
        ),
        ms[i + 1].remotes == ms[j].remotes,
        ms[i + 1].del_idx >= 0,
        ms[i + 1].deleted == ms[j].deleted + (i - j),
        steps[i].action is DeleteTask || steps[i].action is RecordSyncTime,
    decreases i - j,
{
    assert(run_step(ms, evs, steps, i));
    if i == j {
        lemma_deletes_next_ids(ms[j + 1], 0, steps[j].action);
        assert(deletes_requested(steps, j, j) =~= Seq::empty());
        assert(deletes_requested(steps, j, j) + deletions_pending(ms[j + 1], steps[j].action)
            =~= deletions_pending(ms[j + 1], steps[j].action));
    } else {
        lemma_deletion_pass_upto(ms, evs, steps, j, r, i - 1);
        assert(run_step(ms, evs, steps, i - 1));
        assert(evs[i] == SyncEvent::Deleted(Ok(())));
        assert(ms[i].stage == Stage::AwaitDelete);
        assert(steps[i - 1].action is DeleteTask);
        lemma_deletes_next_ids(ms[i + 1], ms[i].del_idx + 1, steps[i].action);
        let prev = deletes_requested(steps, j, i - 1);
        let done = deletes_requested(steps, j, i);
        assert(done == prev + seq![steps[i - 1].action->id@]);
        let ids = ms[i + 1].remotes.map_values(|x: RemoteTaskModel| x.page_id);
        assert(deletions_pending(ms[i], steps[i - 1].action) == seq![steps[i - 1].action->id@]
            + deletion_ids(ms[i + 1].all, ids, ms[i].del_idx + 1));
        assert(prev + deletions_pending(ms[i], steps[i - 1].action) =~= done
            + deletions_pending(ms[i + 1], steps[i].action));
    }
}

} // verus!

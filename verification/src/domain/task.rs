//! The task entity.
use crate::calendar::{opt_date_days, Date};
use crate::domain::new_uuid_v4;
use crate::domain::pomodoro::{opt_int_model, opt_str_model};
use crate::text::{clone_opt_string, owned};
use vstd::prelude::*;

verus! {

/// Status of a new local task.
pub const DEFAULT_STATUS: &'static str = "To Do";

/// Status of a finished task.
pub const DONE_STATUS: &'static str = "Done";

/// A task, mirrored from Notion or created locally.
#[derive(Debug, Clone, PartialEq)]
pub struct Task {
    pub id: String,
    pub notion_page_id: Option<String>,
    pub title: String,
    pub status: String,
    pub due_date: Option<Date>,
    pub priority: Option<String>,
    /// Markdown mirror of the Notion page body. `None` until first fetched.
    pub description: Option<String>,
    pub pomodoro_count: u32,
    pub tracked_minutes: u32,
    pub done: bool,
    pub dirty: bool,
    /// Set only when the description was edited locally, so sync knows to
    /// rewrite the page body (and never wipes an un-fetched body).
    pub desc_dirty: bool,
    pub conflict_remote_json: Option<String>,
    /// Last `last_edited_time` seen from Notion (ms since the epoch).
    pub notion_last_edited: Option<i64>,
    pub last_synced_at: Option<i64>,
    pub created_at: i64,
    pub updated_at: i64,
}

/// A task as mathematical values.
pub struct TaskModel {
    pub id: Seq<char>,
    pub notion_page_id: Option<Seq<char>>,
    pub title: Seq<char>,
    pub status: Seq<char>,
    pub due_date: Option<int>,
    pub priority: Option<Seq<char>>,
    pub description: Option<Seq<char>>,
    pub pomodoro_count: nat,
    pub tracked_minutes: nat,
    pub done: bool,
    pub dirty: bool,
    pub desc_dirty: bool,
    pub conflict_remote_json: Option<Seq<char>>,
    pub notion_last_edited: Option<int>,
    pub last_synced_at: Option<int>,
    pub created_at: int,
    pub updated_at: int,
}

impl View for Task {
    type V = TaskModel;

    open spec fn view(&self) -> TaskModel {
        TaskModel {
            id: self.id@,
            notion_page_id: opt_str_model(self.notion_page_id),
            title: self.title@,
            status: self.status@,
            due_date: opt_date_days(self.due_date),
            priority: opt_str_model(self.priority),
            description: opt_str_model(self.description),
            pomodoro_count: self.pomodoro_count as nat,
            tracked_minutes: self.tracked_minutes as nat,
            done: self.done,
            dirty: self.dirty,
            desc_dirty: self.desc_dirty,
            conflict_remote_json: opt_str_model(self.conflict_remote_json),
            notion_last_edited: opt_int_model(self.notion_last_edited),
            last_synced_at: opt_int_model(self.last_synced_at),
            created_at: self.created_at as int,
            updated_at: self.updated_at as int,
        }
    }
}

impl TaskModel {
    /// A new local-only task with identifier `id`.
    pub open spec fn new_local(id: Seq<char>, title: Seq<char>, now: int) -> TaskModel {
        TaskModel {
            id,
            notion_page_id: None,
            title,
            status: DEFAULT_STATUS@,
            due_date: None,
            priority: None,
            description: None,
            pomodoro_count: 0,
            tracked_minutes: 0,
            done: false,
            dirty: false,
            desc_dirty: false,
            conflict_remote_json: None,
            notion_last_edited: None,
            last_synced_at: None,
            created_at: now,
            updated_at: now,
        }
    }

    /// A local edit: `updated_at` bumped, marked dirty for the next push.
    pub open spec fn touched(self, now: int) -> TaskModel {
        TaskModel { updated_at: now, dirty: true, ..self }
    }

    pub open spec fn in_conflict(self) -> bool {
        self.conflict_remote_json is Some
    }
}

impl Task {
    /// A new local-only task with a fresh random identifier.
    pub fn new_local(title: &str, now: i64) -> (t: Task)
        ensures
            t@ == TaskModel::new_local(t@.id, title@, now as int),
            crate::domain::is_uuid_v4_text(t@.id),
    {
        Task {
            id: new_uuid_v4(),
            notion_page_id: None,
            title: owned(title),
            status: owned(DEFAULT_STATUS),
            due_date: None,
            priority: None,
            description: None,
            pomodoro_count: 0,
            tracked_minutes: 0,
            done: false,
            dirty: false,
            desc_dirty: false,
            conflict_remote_json: None,
            notion_last_edited: None,
            last_synced_at: None,
            created_at: now,
            updated_at: now,
        }
    }

    /// The same task, as a new value.
    pub fn duplicate(&self) -> (t: Task)
        ensures
            t@ == self@,
    {
        Task {
            id: self.id.clone(),
            notion_page_id: clone_opt_string(&self.notion_page_id),
            title: self.title.clone(),
            status: self.status.clone(),
            due_date: self.due_date,
            priority: clone_opt_string(&self.priority),
            description: clone_opt_string(&self.description),
            pomodoro_count: self.pomodoro_count,
            tracked_minutes: self.tracked_minutes,
            done: self.done,
            dirty: self.dirty,
            desc_dirty: self.desc_dirty,
            conflict_remote_json: clone_opt_string(&self.conflict_remote_json),
            notion_last_edited: self.notion_last_edited,
            last_synced_at: self.last_synced_at,
            created_at: self.created_at,
            updated_at: self.updated_at,
        }
    }

    /// The task holds a remote snapshot awaiting conflict resolution.
    pub fn in_conflict(&self) -> (b: bool)
        ensures
            b == self@.in_conflict(),
    {
        self.conflict_remote_json.is_some()
    }

    /// Marks a local edit: bumps `updated_at` and sets the dirty flag so the
    /// change is pushed on next sync (only meaningful for Notion-backed tasks).
    pub fn touch(&mut self, now: i64)
        ensures
            final(self)@ == old(self)@.touched(now as int),
    {
        self.updated_at = now;
        self.dirty = true;
    }
}

} // verus!

//! Sync status, remote snapshots, conflict resolution and sync reports.
use crate::calendar::{opt_date_days, Date};
use crate::domain::pomodoro::opt_str_model;
use crate::text::{clone_opt_string, concat, owned};
use vstd::prelude::*;

verus! {

/// App-wide sync status shown in the UI.
#[derive(Debug, Clone, PartialEq, Eq)]
pub enum SyncStatus {
    Offline,
    Syncing,
    Synced,
    /// Local changes not yet pushed.
    Pending,
    Failed(String),
}

impl SyncStatus {
    /// Text shown for the status.
    pub open spec fn label_text(&self) -> Seq<char> {
        match self {
            SyncStatus::Offline => "Offline"@,
            SyncStatus::Syncing => "Syncing…"@,
            SyncStatus::Synced => "Synced"@,
            SyncStatus::Pending => "Local changes pending"@,
            SyncStatus::Failed(e) => "Sync failed: "@ + e@,
        }
    }

    pub fn label(&self) -> (s: String)
        ensures
            s@ == self.label_text(),
    {
        match self {
            SyncStatus::Offline => owned("Offline"),
            SyncStatus::Syncing => owned("Syncing…"),
            SyncStatus::Synced => owned("Synced"),
            SyncStatus::Pending => owned("Local changes pending"),
            SyncStatus::Failed(e) => concat("Sync failed: ", e.as_str()),
        }
    }
}

/// Snapshot of a task as it exists in Notion. Also stored as JSON on a local
/// task while it is in conflict.
#[derive(Debug, Clone, PartialEq)]
pub struct RemoteTask {
    pub page_id: String,
    pub title: String,
    pub status: Option<String>,
    pub due_date: Option<Date>,
    pub priority: Option<String>,
    pub pomodoro_count: Option<u32>,
    pub tracked_minutes: Option<u32>,
    /// Notion's `last_edited_time`, ms since the epoch.
    pub last_edited: i64,
}

/// A remote snapshot as mathematical values.
pub struct RemoteTaskModel {
    pub page_id: Seq<char>,
    pub title: Seq<char>,
    pub status: Option<Seq<char>>,
    pub due_date: Option<int>,
    pub priority: Option<Seq<char>>,
    pub pomodoro_count: Option<u32>,
    pub tracked_minutes: Option<u32>,
    pub last_edited: int,
}

impl View for RemoteTask {
    type V = RemoteTaskModel;

    open spec fn view(&self) -> RemoteTaskModel {
        RemoteTaskModel {
            page_id: self.page_id@,
            title: self.title@,
            status: opt_str_model(self.status),
            due_date: opt_date_days(self.due_date),
            priority: opt_str_model(self.priority),
            pomodoro_count: self.pomodoro_count,
            tracked_minutes: self.tracked_minutes,
            last_edited: self.last_edited as int,
        }
    }
}

impl RemoteTask {
    /// The same snapshot, as a new value.
    pub fn duplicate(&self) -> (r: RemoteTask)
        ensures
            r@ == self@,
    {
        RemoteTask {
            page_id: self.page_id.clone(),
            title: self.title.clone(),
            status: clone_opt_string(&self.status),
            due_date: self.due_date,
            priority: clone_opt_string(&self.priority),
            pomodoro_count: self.pomodoro_count,
            tracked_minutes: self.tracked_minutes,
            last_edited: self.last_edited,
        }
    }
}

#[derive(Debug, Clone, Copy, PartialEq, Eq, Structural)]
pub enum ConflictResolution {
    KeepLocal,
    KeepNotion,
}

/// Outcome of one sync run, for the UI and the sync log.
#[derive(Debug, Clone, PartialEq)]
pub struct SyncReport {
    pub pulled_new: u32,
    pub pulled_updated: u32,
    pub pushed: u32,
    pub deleted: u32,
    pub conflicts: u32,
    pub errors: Vec<String>,
}

impl Default for SyncReport {
    fn default() -> (r: Self)
        ensures
            r.pulled_new == 0,
            r.pulled_updated == 0,
            r.pushed == 0,
            r.deleted == 0,
            r.conflicts == 0,
            r.errors@.len() == 0,
    {
        SyncReport {
            pulled_new: 0,
            pulled_updated: 0,
            pushed: 0,
            deleted: 0,
            conflicts: 0,
            errors: Vec::new(),
        }
    }
}

} // verus!

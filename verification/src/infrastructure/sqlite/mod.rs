//! The local store's schema and errors, and the task query filter.
pub mod task_repo;

use crate::text::concat;
use vstd::prelude::*;

verus! {

/// `rusqlite::Error`, carried through unchanged.
#[verifier::external_type_specification]
#[verifier::external_body]
pub struct ExSqliteError(rusqlite::Error);

/// `std::io::Error`, carried through unchanged.
#[verifier::external_type_specification]
#[verifier::external_body]
pub struct ExIoError(std::io::Error);

/// Errors of the local store.
#[derive(Debug)]
pub enum StoreError {
    Sqlite(rusqlite::Error),
    Io(std::io::Error),
    Corrupt(String),
}

/// `Display` of a `rusqlite::Error`.
#[verifier::external_body]
fn sqlite_error_text(e: &rusqlite::Error) -> String {
    e.to_string()
}

/// `Display` of a `std::io::Error`.
#[verifier::external_body]
fn io_error_text(e: &std::io::Error) -> String {
    e.to_string()
}

impl StoreError {
    /// `m` is how this error reads: the message of a corrupt store, or text
    /// that starts `database error: ` or `i/o error: ` (the rest is the
    /// outside error's own text).
    pub open spec fn describes(&self, m: Seq<char>) -> bool {
        match self {
            StoreError::Corrupt(c) => m == c@,
            StoreError::Sqlite(_) => m.len() >= 16 && m.subrange(0, 16) == "database error: "@,
            StoreError::Io(_) => m.len() >= 11 && m.subrange(0, 11) == "i/o error: "@,
        }
    }

    /// The error as text (`database error: ...`, `i/o error: ...`, or the
    /// message of a corrupt store).
    pub fn message(&self) -> (s: String)
        ensures
            self.describes(s@),
            self matches StoreError::Corrupt(m) ==> s@ == m@,
            self matches StoreError::Sqlite(_) ==> s@.len() >= 16 && s@.subrange(0, 16)
                == "database error: "@,
            self matches StoreError::Io(_) ==> s@.len() >= 11 && s@.subrange(0, 11)
                == "i/o error: "@,
    {
        proof {
            reveal_strlit("database error: ");
            reveal_strlit("i/o error: ");
        }
        match self {
            StoreError::Sqlite(e) => {
                let t = sqlite_error_text(e);
                let r = crate::text::concat("database error: ", t.as_str());
                assert(r@.subrange(0, 16) =~= "database error: "@);
                r
            },
            StoreError::Io(e) => {
                let t = io_error_text(e);
                let r = crate::text::concat("i/o error: ", t.as_str());
                assert(r@.subrange(0, 11) =~= "i/o error: "@);
                r
            },
            StoreError::Corrupt(m) => m.clone(),
        }
    }
}

/// The first schema: tasks, their time sessions, the sync log and the
/// settings.
pub const SCHEMA_V1: &'static str = "BEGIN;
CREATE TABLE IF NOT EXISTS tasks (
    id TEXT PRIMARY KEY,
    notion_page_id TEXT UNIQUE,
    title TEXT NOT NULL,
    status TEXT NOT NULL,
    due_date TEXT,
    priority TEXT,
    pomodoro_count INTEGER NOT NULL DEFAULT 0,
    tracked_minutes INTEGER NOT NULL DEFAULT 0,
    done INTEGER NOT NULL DEFAULT 0,
    dirty INTEGER NOT NULL DEFAULT 0,
    conflict_remote_json TEXT,
    notion_last_edited TEXT,
    last_synced_at TEXT,
    created_at TEXT NOT NULL,
    updated_at TEXT NOT NULL
);
CREATE TABLE IF NOT EXISTS time_sessions (
    id TEXT PRIMARY KEY,
    task_id TEXT NOT NULL REFERENCES tasks(id) ON DELETE CASCADE,
    started_at TEXT NOT NULL,
    ended_at TEXT NOT NULL,
    minutes INTEGER NOT NULL,
    kind TEXT NOT NULL
);
CREATE INDEX IF NOT EXISTS idx_sessions_task ON time_sessions(task_id);
CREATE TABLE IF NOT EXISTS sync_log (
    id INTEGER PRIMARY KEY AUTOINCREMENT,
    at TEXT NOT NULL,
    level TEXT NOT NULL,
    message TEXT NOT NULL
);
CREATE TABLE IF NOT EXISTS app_settings (
    key TEXT PRIMARY KEY,
    value TEXT NOT NULL
);
PRAGMA user_version = 1;
COMMIT;";

/// The second schema step: the task description (the Markdown mirror of
/// the Notion page body) and its dirty flag.
pub const SCHEMA_V2: &'static str = "BEGIN;
ALTER TABLE tasks ADD COLUMN description TEXT;
ALTER TABLE tasks ADD COLUMN desc_dirty INTEGER NOT NULL DEFAULT 0;
PRAGMA user_version = 2;
COMMIT;";

/// The migrations a database at schema `version` (its `user_version`)
/// still needs, in order.
pub fn migrations(version: i64) -> (m: Vec<&'static str>)
    ensures
        version < 1 ==> m@.len() == 2 && m@[0]@ == SCHEMA_V1@ && m@[1]@ == SCHEMA_V2@,
        version == 1 ==> m@.len() == 1 && m@[0]@ == SCHEMA_V2@,
        version >= 2 ==> m@.len() == 0,
{
    let mut m: Vec<&'static str> = Vec::new();
    if version < 1 {
        m.push(SCHEMA_V1);
    }
    if version < 2 {
        m.push(SCHEMA_V2);
    }
    m
}

/// What adding progress to task `id` did: an update that changed no row
/// found no such task.
pub fn progress_result(id: &str, rows_changed: usize) -> (r: Result<(), StoreError>)
    ensures
        rows_changed > 0 ==> r is Ok,
        rows_changed == 0 ==> (r matches Err(StoreError::Corrupt(m)) && m@ == "task "@ + id@
            + " not found"@),
{
    if rows_changed == 0 {
        let mut m = concat("task ", id);
        m.append(" not found");
        Err(StoreError::Corrupt(m))
    } else {
        Ok(())
    }
}

} // verus!

//! The sync status shown in the header, and what a finished sync reports.
use crate::application::sync_service::SyncError;
use crate::domain::sync_state::{SyncReport, SyncStatus};
use crate::infrastructure::secret_store::SecretError;
use crate::infrastructure::sqlite::StoreError;
use crate::text::{all_whitespace, concat, is_blank, owned};
use vstd::prelude::*;

verus! {

/// How a background sync ended.
pub enum SyncOutcome {
    Done(SyncReport),
    Failed(String),
}

/// Current status for the header label: syncing while a sync runs; the last
/// failure until the next attempt; pending while any task has unpushed
/// changes; synced once a sync has completed; offline before that. `any_dirty` and `synced_before` come
/// from the store (a failed lookup counts as `false`).
pub fn current_status(
    syncing: bool,
    last_error: &Option<String>,
    any_dirty: bool,
    synced_before: bool,
) -> (s: SyncStatus)
    ensures
        syncing ==> s == SyncStatus::Syncing,
        !syncing && last_error is Some ==> (s matches SyncStatus::Failed(m) && m@
            == last_error.unwrap()@),
        !syncing && last_error is None ==> s == (if any_dirty {
            SyncStatus::Pending
        } else if synced_before {
            SyncStatus::Synced
        } else {
            SyncStatus::Offline
        }),
{
    if syncing {
        return SyncStatus::Syncing;
    }
    if let Some(err) = last_error {
        return SyncStatus::Failed(err.clone());
    }
    if any_dirty {
        return SyncStatus::Pending;
    }
    if synced_before {
        SyncStatus::Synced
    } else {
        SyncStatus::Offline
    }
}

/// Whether a requested sync starts.
pub enum SyncGate {
    /// A sync is already running: nothing happens.
    Busy,
    /// The sync cannot start; the message is reported as its outcome.
    Refused(String),
    /// Start, with this token.
    Start(String),
}

/// Whether a sync may start: not while one runs; not without a database
/// id or a stored, non-empty token (a keyring failure is reported).
pub fn sync_gate(syncing: bool, database_id: &str, token: Result<Option<String>, SecretError>) -> (g:
    SyncGate)
    ensures
        syncing ==> g is Busy,
        !syncing && all_whitespace(database_id@) ==> (g matches SyncGate::Refused(m) && m@
            == "Notion is not configured — open Settings"@),
        !syncing && !all_whitespace(database_id@) ==> match token {
            Ok(Some(t)) => if t@.len() > 0 {
                g matches SyncGate::Start(x) && x@ == t@
            } else {
                g matches SyncGate::Refused(m) && m@ == "No Notion token stored — open Settings"@
            },
            Ok(None) => g matches SyncGate::Refused(m) && m@
                == "No Notion token stored — open Settings"@,
            Err(e) => g matches SyncGate::Refused(m) && m@ == "keyring: "@ + e.text(),
        },
{
    if syncing {
        return SyncGate::Busy;
    }
    if is_blank(database_id) {
        return SyncGate::Refused(owned("Notion is not configured — open Settings"));
    }
    match token {
        Ok(Some(t)) => {
            if t.as_str().is_empty() {
                SyncGate::Refused(owned("No Notion token stored — open Settings"))
            } else {
                SyncGate::Start(t)
            }
        },
        Ok(None) => SyncGate::Refused(owned("No Notion token stored — open Settings")),
        Err(e) => SyncGate::Refused(concat("keyring: ", e.message().as_str())),
    }
}

/// How a finished run is reported: its report, or the error's text.
pub fn sync_outcome(result: Result<SyncReport, SyncError>) -> (o: SyncOutcome)
    ensures
        result matches Ok(r) ==> o == SyncOutcome::Done(r),
        result matches Err(SyncError::Notion(e)) ==> (o matches SyncOutcome::Failed(m) && m@
            == e.text()),
        result matches Err(SyncError::Store(StoreError::Corrupt(c))) ==> (o matches SyncOutcome::Failed(
            m,
        ) && m@ == c@),
        result is Err ==> o is Failed,
{
    match result {
        Ok(report) => SyncOutcome::Done(report),
        Err(e) => SyncOutcome::Failed(e.message()),
    }
}

} // verus!

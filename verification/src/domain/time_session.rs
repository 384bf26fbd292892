//! A record of tracked time on a task.
use crate::domain::new_uuid_v4;
use crate::text::{owned, str_eq};
use vstd::prelude::*;

verus! {

#[derive(Debug, Clone, Copy, PartialEq, Eq, Structural)]
pub enum SessionKind {
    Pomodoro,
    Manual,
}

impl SessionKind {
    /// Stored name of the kind.
    pub open spec fn name(self) -> Seq<char> {
        match self {
            SessionKind::Pomodoro => "pomodoro"@,
            SessionKind::Manual => "manual"@,
        }
    }

    pub fn as_str(&self) -> (s: &'static str)
        ensures
            s@ == self.name(),
    {
        match self {
            SessionKind::Pomodoro => "pomodoro",
            SessionKind::Manual => "manual",
        }
    }

    /// Read a stored kind; anything but `pomodoro` reads as a manual entry.
    pub fn parse(s: &str) -> (k: Self)
        ensures
            k == (if s@ == "pomodoro"@ {
                SessionKind::Pomodoro
            } else {
                SessionKind::Manual
            }),
    {
        if str_eq(s, "pomodoro") {
            SessionKind::Pomodoro
        } else {
            SessionKind::Manual
        }
    }
}

/// `parse` reads back what `as_str` wrote.
pub proof fn lemma_session_kind_round_trip(k: SessionKind)
    ensures
        (if k.name() == "pomodoro"@ {
            SessionKind::Pomodoro
        } else {
            SessionKind::Manual
        }) == k,
{
    reveal_strlit("pomodoro");
    reveal_strlit("manual");
    if k == SessionKind::Manual {
        assert("manual"@[0] != "pomodoro"@[0]);
    }
}

#[derive(Debug, Clone, PartialEq)]
pub struct TimeSession {
    pub id: String,
    pub task_id: String,
    pub started_at: i64,
    pub ended_at: i64,
    pub minutes: i64,
    pub kind: SessionKind,
}

impl TimeSession {
    /// A session with a fresh random identifier.
    pub fn new(task_id: &str, started_at: i64, ended_at: i64, minutes: i64, kind: SessionKind) -> (s:
        Self)
        ensures
            crate::domain::is_uuid_v4_text(s.id@),
            s.task_id@ == task_id@,
            s.started_at == started_at,
            s.ended_at == ended_at,
            s.minutes == minutes,
            s.kind == kind,
    {
        TimeSession { id: new_uuid_v4(), task_id: owned(task_id), started_at, ended_at, minutes, kind }
    }
}

} // verus!

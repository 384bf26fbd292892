//! The main window's messages: what a finished sync toasts, and what a
//! timer event notifies.
use crate::collate::views;
use crate::domain::pomodoro::TimerEvent;
use crate::domain::sync_state::SyncReport;
use crate::text::{concat, decimal, i64_to_string, owned};
use vstd::prelude::*;

verus! {

/// The summary toast of a finished sync.
pub open spec fn sync_summary(r: SyncReport) -> Seq<char> {
    "Synced — "@ + decimal(r.pulled_new as int) + " new, "@ + decimal(r.pulled_updated as int)
        + " updated, "@ + decimal(r.pushed as int) + " pushed"@
}

/// The toast about tasks left in conflict.
pub open spec fn conflicts_note(n: int) -> Seq<char> {
    decimal(n) + " task(s) in conflict — open them to resolve"@
}

/// The toasts of a finished sync: the summary, a note on conflicts when
/// there are any, then each error that did not stop the sync.
pub fn sync_toasts(report: &SyncReport) -> (toasts: Vec<String>)
    ensures
        ({
            let head = if report.conflicts > 0 {
                seq![sync_summary(*report), conflicts_note(report.conflicts as int)]
            } else {
                seq![sync_summary(*report)]
            };
            views(toasts@) == head + views(report.errors@)
        }),
{
    let mut toasts: Vec<String> = Vec::new();
    let mut s = owned("Synced — ");
    s.append(i64_to_string(report.pulled_new as i64).as_str());
    s.append(" new, ");
    s.append(i64_to_string(report.pulled_updated as i64).as_str());
    s.append(" updated, ");
    s.append(i64_to_string(report.pushed as i64).as_str());
    s.append(" pushed");
    toasts.push(s);
    if report.conflicts > 0 {
        let mut c = i64_to_string(report.conflicts as i64);
        c.append(" task(s) in conflict — open them to resolve");
        toasts.push(c);
    }
    let ghost head = views(toasts@);
    let mut i: usize = 0;
    while i < report.errors.len()
        invariant
            i <= report.errors@.len(),
            views(toasts@) =~= head + views(report.errors@).take(i as int),
        decreases report.errors@.len() - i,
    {
        let ghost before = views(toasts@);
        toasts.push(report.errors[i].clone());
        assert(views(toasts@) =~= before.push(report.errors@[i as int]@));
        assert(views(report.errors@).take(i + 1) =~= views(report.errors@).take(i as int).push(
            report.errors@[i as int]@,
        ));
        i = i + 1;
    }
    assert(views(report.errors@).take(report.errors@.len() as int) =~= views(report.errors@));
    toasts
}

/// The toast of a failed sync.
pub fn sync_failed_toast(message: &str) -> (s: String)
    ensures
        s@ == "Sync failed: "@ + message@,
{
    concat("Sync failed: ", message)
}

/// A desktop notification: its id, title and body.
pub struct Notice {
    pub id: &'static str,
    pub title: &'static str,
    pub body: String,
}

/// The notification for a timer event. `task_title` is the title of the
/// task a finished pomodoro was on, when it is still there.
pub fn timer_notice(event: &TimerEvent, task_title: Option<&str>) -> (n: Notice)
    ensures
        match event {
            TimerEvent::PomodoroCompleted { minutes, .. } => n.id@ == "pomodoro-done"@
                && n.title@ == "Pomodoro complete 🍅"@ && n.body@ == decimal(*minutes as int)
                + " focused minutes on “"@ + (match task_title {
                Some(t) => t@,
                None => "task"@,
            }) + "”. Break time!"@,
            TimerEvent::BreakFinished { was_long } => n.id@ == "break-done"@ && n.title@ == (
            if *was_long {
                "Long break over"@
            } else {
                "Break over"@
            }) && n.body@ == "Ready for the next pomodoro?"@,
        },
{
    match event {
        TimerEvent::PomodoroCompleted { minutes, .. } => {
            let mut body = i64_to_string(*minutes);
            body.append(" focused minutes on “");
            match task_title {
                Some(t) => body.append(t),
                None => body.append("task"),
            }
            body.append("”. Break time!");
            Notice { id: "pomodoro-done", title: "Pomodoro complete 🍅", body }
        },
        TimerEvent::BreakFinished { was_long } => Notice {
            id: "break-done",
            title: if *was_long {
                "Long break over"
            } else {
                "Break over"
            },
            body: owned("Ready for the next pomodoro?"),
        },
    }
}

} // verus!

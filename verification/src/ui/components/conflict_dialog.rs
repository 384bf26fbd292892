//! The conflict dialog's logic: the two versions side by side, and which
//! answer resolves which way.
use crate::domain::sync_state::{ConflictResolution, RemoteTask};
use crate::domain::task::Task;
use crate::text::{decimal, i64_to_string, owned, str_eq};
use vstd::prelude::*;

verus! {

/// A remote count, or a dash when Notion has none.
pub open spec fn count_or_dash(n: Option<u32>) -> Seq<char> {
    match n {
        Some(v) => decimal(v as int),
        None => "—"@,
    }
}

/// The dialog's body: the local and the Notion version, then the question.
pub open spec fn conflict_text(t: Task, r: RemoteTask) -> Seq<char> {
    "Local version\n  "@ + t.title@ + " · "@ + t.status@ + " · "@ + decimal(
        t.pomodoro_count as int,
    ) + " pomodoros · "@ + decimal(t.tracked_minutes as int) + " min\n\nNotion version\n  "@
        + r.title@ + " · "@ + (match r.status {
        Some(s) => s@,
        None => "—"@,
    }) + " · "@ + count_or_dash(r.pomodoro_count) + " pomodoros · "@ + count_or_dash(
        r.tracked_minutes,
    ) + " min\n\nWhich one should win? The other side will be overwritten."@
}

fn append_count(s: &mut String, n: Option<u32>)
    ensures
        final(s)@ == old(s)@ + count_or_dash(n),
{
    match n {
        Some(v) => s.append(i64_to_string(v as i64).as_str()),
        None => s.append("—"),
    }
}

pub fn conflict_body(task: &Task, remote: &RemoteTask) -> (s: String)
    ensures
        s@ == conflict_text(*task, *remote),
{
    let mut s = owned("Local version\n  ");
    s.append(task.title.as_str());
    s.append(" · ");
    s.append(task.status.as_str());
    s.append(" · ");
    s.append(i64_to_string(task.pomodoro_count as i64).as_str());
    s.append(" pomodoros · ");
    s.append(i64_to_string(task.tracked_minutes as i64).as_str());
    s.append(" min\n\nNotion version\n  ");
    s.append(remote.title.as_str());
    s.append(" · ");
    match &remote.status {
        Some(st) => s.append(st.as_str()),
        None => s.append("—"),
    }
    s.append(" · ");
    append_count(&mut s, remote.pomodoro_count);
    s.append(" pomodoros · ");
    append_count(&mut s, remote.tracked_minutes);
    s.append(" min\n\nWhich one should win? The other side will be overwritten.");
    s
}

/// The resolution a dialog answer picks: "local" keeps the local version,
/// "notion" the Notion one; any other answer decides later.
pub fn resolution_for(response: &str) -> (r: Option<ConflictResolution>)
    ensures
        response@ == "local"@ ==> r == Some(ConflictResolution::KeepLocal),
        response@ == "notion"@ ==> r == Some(ConflictResolution::KeepNotion),
        response@ != "local"@ && response@ != "notion"@ ==> r is None,
{
    proof {
        reveal_strlit("local");
        reveal_strlit("notion");
        assert("local"@.len() != "notion"@.len());
    }
    if str_eq(response, "local") {
        Some(ConflictResolution::KeepLocal)
    } else if str_eq(response, "notion") {
        Some(ConflictResolution::KeepNotion)
    } else {
        None
    }
}

} // verus!

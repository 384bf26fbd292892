//! Shared formatters for task metadata, so the list sidebar and the detail
//! pane render dates and priority the same way.
use crate::calendar::{chrono_date_format, Date};
use crate::text::{concat, contains, decimal, has_substring, i64_to_string, owned, std_to_lowercase, to_lowercase};
use vstd::prelude::*;

verus! {

/// How urgent a due date is, mapped to an Adwaita state helper class.
#[derive(Debug, Clone, Copy, PartialEq, Eq, Structural)]
pub enum DueUrgency {
    Overdue,
    Soon,
    Normal,
}

impl DueUrgency {
    pub open spec fn class_name(self) -> Seq<char> {
        match self {
            DueUrgency::Overdue => "error"@,
            DueUrgency::Soon => "warning"@,
            DueUrgency::Normal => "dim-label"@,
        }
    }

    pub fn css_class(self) -> (s: &'static str)
        ensures
            s@ == self.class_name(),
    {
        match self {
            DueUrgency::Overdue => "error",
            DueUrgency::Soon => "warning",
            DueUrgency::Normal => "dim-label",
        }
    }
}

/// Label and urgency of a due date `days` after today: `Nd late`, `Today`,
/// `Tomorrow`, the weekday within a week, else month and day.
pub open spec fn due_text(due: int, days: int) -> (Seq<char>, DueUrgency) {
    if days < 0 {
        (decimal(-days) + "d late"@, DueUrgency::Overdue)
    } else if days == 0 {
        ("Today"@, DueUrgency::Soon)
    } else if days == 1 {
        ("Tomorrow"@, DueUrgency::Soon)
    } else if days <= 6 {
        (chrono_date_format(due, "%a"@), DueUrgency::Normal)
    } else {
        (chrono_date_format(due, "%b %-d"@), DueUrgency::Normal)
    }
}

/// Human-readable due date relative to `today`, plus its urgency.
pub fn humanize_due(due: Date, today: Date) -> (r: (String, DueUrgency))
    ensures
        (r.0@, r.1) == due_text(due@, due@ - today@),
{
    let days = due.days_since(today);
    if days < 0 {
        (concat(i64_to_string(-days).as_str(), "d late"), DueUrgency::Overdue)
    } else if days == 0 {
        (owned("Today"), DueUrgency::Soon)
    } else if days == 1 {
        (owned("Tomorrow"), DueUrgency::Soon)
    } else if days <= 6 {
        (due.format("%a"), DueUrgency::Normal)
    } else {
        (due.format("%b %-d"), DueUrgency::Normal)
    }
}

/// Class of a priority's dot: `error` for anything mentioning high or urgent
/// (case-insensitively), `warning` for anything mentioning med, else
/// `dim-label`. Substring matching tolerates values like "Hight".
pub open spec fn priority_class(priority: Seq<char>) -> Seq<char> {
    let p = std_to_lowercase(priority);
    if has_substring(p, "high"@) || has_substring(p, "urgent"@) {
        "error"@
    } else if has_substring(p, "med"@) {
        "warning"@
    } else {
        "dim-label"@
    }
}

/// Adwaita state helper class for a priority's colored dot.
pub fn priority_dot_class(priority: &str) -> (s: &'static str)
    ensures
        s@ == priority_class(priority@),
{
    let p = to_lowercase(priority);
    if contains(p.as_str(), "high") || contains(p.as_str(), "urgent") {
        "error"
    } else if contains(p.as_str(), "med") {
        "warning"
    } else {
        "dim-label"
    }
}

} // verus!

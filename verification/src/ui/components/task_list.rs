//! What the sidebar shows: the filter dropdowns (with "All" first), the
//! filter they select, and each task row's subtitle, badge and marker.
use crate::calendar::chrono_date_display;
use crate::collate::{lemma_push_contains, sorted_distinct, strictly_sorted, views};
use crate::domain::pomodoro::opt_str_model;
use crate::domain::task::Task;
use crate::infrastructure::sqlite::task_repo::TaskFilter;
use crate::text::{all_whitespace, decimal, i64_to_string, is_blank, owned, str_eq};
use vstd::prelude::*;

verus! {

/// The first entry of each filter dropdown.
pub const ALL: &'static str = "All";

/// The value a filter dropdown selects: none for "All" (position 0) or a
/// position past the values, else the value at `selected - 1`.
pub fn dropdown_value(selected: usize, values: &Vec<String>) -> (v: Option<String>)
    ensures
        selected == 0 || selected > values@.len() ==> v is None,
        0 < selected <= values@.len() ==> opt_str_model(v) == Some(values@[selected - 1]@),
{
    if selected == 0 || selected > values.len() {
        None
    } else {
        Some(values[selected - 1].clone())
    }
}

/// The filter the sidebar's controls select. The due-date filter is not
/// offered there.
pub fn current_filter(
    status_selected: usize,
    priority_selected: usize,
    statuses: &Vec<String>,
    priorities: &Vec<String>,
    search: String,
    include_done: bool,
) -> (f: TaskFilter)
    ensures
        status_selected == 0 || status_selected > statuses@.len() ==> f.status is None,
        0 < status_selected <= statuses@.len() ==> opt_str_model(f.status) == Some(
            statuses@[status_selected - 1]@,
        ),
        priority_selected == 0 || priority_selected > priorities@.len() ==> f.priority is None,
        0 < priority_selected <= priorities@.len() ==> opt_str_model(f.priority) == Some(
            priorities@[priority_selected - 1]@,
        ),
        f.due_on_or_before is None,
        opt_str_model(f.search) == Some(search@),
        f.include_done == include_done,
{
    TaskFilter {
        status: dropdown_value(status_selected, statuses),
        priority: dropdown_value(priority_selected, priorities),
        due_on_or_before: None,
        search: Some(search),
        include_done,
    }
}

/// The texts of the tasks' statuses.
pub open spec fn task_statuses(tasks: Seq<Task>) -> Seq<Seq<char>> {
    Seq::new(tasks.len(), |i: int| tasks[i].status@)
}

/// A text is the priority of one of the tasks.
pub open spec fn is_task_priority(tasks: Seq<Task>, x: Seq<char>) -> bool {
    exists|i: int| 0 <= i < tasks.len() && opt_str_model(#[trigger] tasks[i].priority) == Some(x)
}

/// The filter values offered: every status and every priority in use,
/// each sorted without repeats.
pub struct FilterOptions {
    pub statuses: Vec<String>,
    pub priorities: Vec<String>,
}

pub fn filter_options(tasks: &Vec<Task>) -> (o: FilterOptions)
    ensures
        strictly_sorted(views(o.statuses@)),
        forall|x: Seq<char>| views(o.statuses@).contains(x) <==> task_statuses(tasks@).contains(x),
        strictly_sorted(views(o.priorities@)),
        forall|x: Seq<char>| views(o.priorities@).contains(x) <==> is_task_priority(tasks@, x),
{
    let mut statuses: Vec<String> = Vec::new();
    let mut priorities: Vec<String> = Vec::new();
    let mut i: usize = 0;
    while i < tasks.len()
        invariant
            i <= tasks@.len(),
            views(statuses@) =~= task_statuses(tasks@.take(i as int)),
            forall|x: Seq<char>|
                views(priorities@).contains(x) <==> is_task_priority(tasks@.take(i as int), x),
        decreases tasks@.len() - i,
    {
        let ghost before = views(priorities@);
        let ghost t0 = tasks@.take(i as int);
        let ghost t1 = tasks@.take(i + 1);
        assert(t1 =~= t0.push(tasks@[i as int]));
        statuses.push(tasks[i].status.clone());
        assert(task_statuses(t1) =~= task_statuses(t0).push(tasks@[i as int].status@));
        match &tasks[i].priority {
            Some(p) => {
                priorities.push(p.clone());
                assert(views(priorities@) =~= before.push(p@));
                proof {
                    assert forall|x: Seq<char>| #[trigger]
                        views(priorities@).contains(x) == (before.contains(x) || x == p@) by {
                        lemma_push_contains(before, p@, x);
                    }
                }
            },
            None => {
                assert(views(priorities@) =~= before);
            },
        }
        assert forall|x: Seq<char>|
            views(priorities@).contains(x) <==> is_task_priority(t1, x) by {
            if is_task_priority(t1, x) {
                let k = choose|k: int|
                    0 <= k < t1.len() && opt_str_model(#[trigger] t1[k].priority) == Some(x);
                if k < i {
                    assert(t0[k] == t1[k]);
                    assert(is_task_priority(t0, x));
                    assert(before.contains(x));
                }
            }
            if before.contains(x) {
                assert(is_task_priority(t0, x));
                let k = choose|k: int|
                    0 <= k < t0.len() && opt_str_model(#[trigger] t0[k].priority) == Some(x);
                assert(t1[k] == t0[k]);
            }
            if opt_str_model(tasks@[i as int].priority) == Some(x) {
                assert(t1[i as int] == tasks@[i as int]);
            }
        }
        i = i + 1;
    }
    assert(tasks@.take(tasks@.len() as int) =~= tasks@);
    FilterOptions { statuses: sorted_distinct(&statuses), priorities: sorted_distinct(&priorities) }
}

/// A dropdown's entries: "All", then the values.
pub fn dropdown_items(values: &Vec<String>) -> (items: Vec<String>)
    ensures
        views(items@) == seq![ALL@] + views(values@),
{
    let mut items: Vec<String> = Vec::new();
    items.push(owned(ALL));
    let mut i: usize = 0;
    while i < values.len()
        invariant
            i <= values@.len(),
            views(items@) =~= seq![ALL@] + views(values@).take(i as int),
        decreases values@.len() - i,
    {
        let ghost before = views(items@);
        items.push(values[i].clone());
        assert(views(items@) =~= before.push(values@[i as int]@));
        assert(views(values@).take(i + 1) =~= views(values@).take(i as int).push(values@[i as int]@));
        i = i + 1;
    }
    assert(views(values@).take(values@.len() as int) =~= views(values@));
    items
}

/// The two lists hold the same texts in the same order (then the dropdown
/// is left as it is).
pub fn same_values(a: &Vec<String>, b: &Vec<String>) -> (r: bool)
    ensures
        r == (views(a@) == views(b@)),
{
    if a.len() != b.len() {
        assert(views(a@).len() != views(b@).len());
        return false;
    }
    let mut i: usize = 0;
    while i < a.len()
        invariant
            i <= a@.len(),
            a@.len() == b@.len(),
            forall|k: int| 0 <= k < i ==> a@[k]@ == b@[k]@,
        decreases a@.len() - i,
    {
        if !str_eq(a[i].as_str(), b[i].as_str()) {
            assert(views(a@)[i as int] != views(b@)[i as int]);
            return false;
        }
        i = i + 1;
    }
    assert(views(a@) =~= views(b@));
    true
}

/// Where a previously selected value sits in the new dropdown (after
/// "All"), if it is still offered.
pub fn reselect(values: &Vec<String>, selected: &Option<String>) -> (pos: Option<usize>)
    ensures
        selected is None ==> pos is None,
        selected matches Some(s) ==> match pos {
            Some(p) => 1 <= p <= values@.len() && values@[p - 1]@ == s@ && forall|k: int|
                0 <= k < p - 1 ==> values@[k]@ != s@,
            None => !views(values@).contains(s@),
        },
{
    let s = match selected {
        Some(s) => s,
        None => return None,
    };
    let mut i: usize = 0;
    while i < values.len()
        invariant
            i <= values@.len(),
            *selected matches Some(x) && x@ == s@,
            forall|k: int| 0 <= k < i ==> values@[k]@ != s@,
        decreases values@.len() - i,
    {
        if str_eq(values[i].as_str(), s.as_str()) {
            return Some(i + 1);
        }
        i = i + 1;
    }
    assert(!views(values@).contains(s@)) by {
        if views(values@).contains(s@) {
            let k = choose|k: int| 0 <= k < views(values@).len() && views(values@)[k] == s@;
            assert(values@[k]@ == s@);
        }
    }
    None
}

/// A task row's subtitle: the status, then "due" and the date, then the
/// priority, joined with " · ".
pub open spec fn row_subtitle_text(t: Task) -> Seq<char> {
    t.status@ + (match t.due_date {
        Some(d) => " · due "@ + chrono_date_display(d@),
        None => Seq::empty(),
    }) + (match t.priority {
        Some(p) => " · "@ + p@,
        None => Seq::empty(),
    })
}

pub fn row_subtitle(task: &Task) -> (s: String)
    ensures
        s@ == row_subtitle_text(*task),
{
    let mut s = task.status.clone();
    if let Some(d) = task.due_date {
        s.append(" · due ");
        s.append(d.to_iso_string().as_str());
    }
    if let Some(p) = &task.priority {
        s.append(" · ");
        s.append(p.as_str());
    }
    s
}

/// The row's pomodoro badge ("3 🍅"), shown once a pomodoro is done.
pub fn pomodoro_badge(count: u32) -> (b: Option<String>)
    ensures
        count == 0 ==> b is None,
        count > 0 ==> opt_str_model(b) == Some(decimal(count as int) + " 🍅"@),
{
    if count == 0 {
        None
    } else {
        let mut s = i64_to_string(count as i64);
        s.append(" 🍅");
        Some(s)
    }
}

/// The icon a row carries, and its tooltip.
pub struct RowMarker {
    pub icon: &'static str,
    pub tooltip: &'static str,
}

/// A conflict outranks pending local changes; a clean task has no marker.
pub fn row_marker(task: &Task) -> (m: Option<RowMarker>)
    ensures
        task@.in_conflict() ==> (m matches Some(r) && r.icon@ == "dialog-warning-symbolic"@
            && r.tooltip@ == "Sync conflict — open task to resolve"@),
        !task@.in_conflict() && task.dirty ==> (m matches Some(r) && r.icon@
            == "document-edit-symbolic"@ && r.tooltip@ == "Local changes pending sync"@),
        !task@.in_conflict() && !task.dirty ==> m is None,
{
    if task.in_conflict() {
        Some(
            RowMarker {
                icon: "dialog-warning-symbolic",
                tooltip: "Sync conflict — open task to resolve",
            },
        )
    } else if task.dirty {
        Some(RowMarker { icon: "document-edit-symbolic", tooltip: "Local changes pending sync" })
    } else {
        None
    }
}

/// The title for a task typed into the "new task" entry: none when the
/// entry holds only whitespace.
pub fn new_task_title(text: &str) -> (t: Option<String>)
    ensures
        all_whitespace(text@) ==> t is None,
        !all_whitespace(text@) ==> opt_str_model(t) == Some(text@),
{
    if is_blank(text) {
        None
    } else {
        Some(owned(text))
    }
}

} // verus!

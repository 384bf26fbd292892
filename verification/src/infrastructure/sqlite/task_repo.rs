//! The task query filter, the query it makes, and the `LIKE` pattern for
//! title search.
use crate::calendar::{chrono_date_display, Date};
use crate::collate::views;
use crate::text::{is_blank, owned, push_char};
use vstd::prelude::*;

verus! {

/// Which tasks a list shows.
#[derive(Debug, Clone)]
pub struct TaskFilter {
    pub status: Option<String>,
    pub priority: Option<String>,
    pub due_on_or_before: Option<Date>,
    pub search: Option<String>,
    pub include_done: bool,
}

impl Default for TaskFilter {
    fn default() -> (f: Self)
        ensures
            f.status is None,
            f.priority is None,
            f.due_on_or_before is None,
            f.search is None,
            !f.include_done,
    {
        TaskFilter {
            status: None,
            priority: None,
            due_on_or_before: None,
            search: None,
            include_done: false,
        }
    }
}

/// A character that `LIKE ... ESCAPE '\'` treats specially.
pub open spec fn like_special(c: char) -> bool {
    c == '\\' || c == '%' || c == '_'
}

/// `s` with every `\`, `%` and `_` preceded by `\`.
pub open spec fn like_escaped(s: Seq<char>) -> Seq<char>
    decreases s.len(),
{
    if s.len() == 0 {
        Seq::empty()
    } else {
        let last = s[s.len() - 1];
        let front = like_escaped(s.drop_last());
        if like_special(last) {
            front.push('\\').push(last)
        } else {
            front.push(last)
        }
    }
}

/// The `LIKE` pattern matching titles that contain `search` literally, or
/// `None` when the search is blank (no title condition).
pub open spec fn like_pattern_spec(search: Seq<char>) -> Option<Seq<char>> {
    if crate::text::all_whitespace(search) {
        None
    } else {
        Some(seq!['%'] + like_escaped(search) + seq!['%'])
    }
}

/// The `LIKE` pattern for a title search (see `like_pattern_spec`).
pub fn like_pattern(search: &str) -> (p: Option<String>)
    ensures
        opt_seq(p) == like_pattern_spec(search@),
{
    if is_blank(search) {
        return None;
    }
    let mut out = String::new();
    push_char(&mut out, '%');
    let n = search.unicode_len();
    let mut i: usize = 0;
    while i < n
        invariant
            n == search@.len(),
            i <= n,
            out@ == seq!['%'] + like_escaped(search@.subrange(0, i as int)),
        decreases n - i,
    {
        let c = search.get_char(i);
        proof {
            let pre = search@.subrange(0, i + 1);
            assert(pre.drop_last() =~= search@.subrange(0, i as int));
            assert(pre[pre.len() - 1] == c);
        }
        if c == '\\' || c == '%' || c == '_' {
            push_char(&mut out, '\\');
        }
        push_char(&mut out, c);
        proof {
            let pre = search@.subrange(0, i + 1);
            if like_special(c) {
                assert(out@ =~= seq!['%'] + like_escaped(pre));
            } else {
                assert(out@ =~= seq!['%'] + like_escaped(pre));
            }
        }
        i = i + 1;
    }
    push_char(&mut out, '%');
    assert(search@.subrange(0, n as int) =~= search@);
    Some(out)
}

pub open spec fn opt_seq(o: Option<String>) -> Option<Seq<char>> {
    match o {
        Some(s) => Some(s@),
        None => None,
    }
}

/// The columns a task is read from, in the order the row mapping expects.
pub const TASK_COLUMNS: &'static str = "id, notion_page_id, title, status, due_date, priority, pomodoro_count, tracked_minutes, done, dirty, conflict_remote_json, notion_last_edited, last_synced_at, created_at, updated_at, description, desc_dirty";

/// A query and its positional arguments.
pub struct ListQuery {
    pub sql: String,
    pub args: Vec<String>,
}

/// The SQL listing the tasks a filter selects: each set condition adds a
/// clause (done tasks are left out unless asked for; a blank search adds
/// none); undone first, then by due date (undated last), then by creation.
pub open spec fn list_sql(f: TaskFilter) -> Seq<char> {
    "SELECT "@ + TASK_COLUMNS@ + " FROM tasks WHERE 1=1"@ + (if f.include_done {
        Seq::empty()
    } else {
        " AND done = 0"@
    }) + (if f.status is Some {
        " AND status = ?"@
    } else {
        Seq::empty()
    }) + (if f.priority is Some {
        " AND priority = ?"@
    } else {
        Seq::empty()
    }) + (if f.due_on_or_before is Some {
        " AND due_date IS NOT NULL AND due_date <= ?"@
    } else {
        Seq::empty()
    }) + (match f.search {
        Some(s) => if like_pattern_spec(s@) is Some {
            " AND title LIKE ? ESCAPE '\\'"@
        } else {
            Seq::empty()
        },
        None => Seq::empty(),
    }) + " ORDER BY done ASC, due_date IS NULL, due_date ASC, created_at ASC"@
}

/// The arguments for the `?`s of `list_sql`, in order.
pub open spec fn list_args(f: TaskFilter) -> Seq<Seq<char>> {
    (match f.status {
        Some(s) => seq![s@],
        None => Seq::empty(),
    }) + (match f.priority {
        Some(p) => seq![p@],
        None => Seq::empty(),
    }) + (match f.due_on_or_before {
        Some(d) => seq![chrono_date_display(d@)],
        None => Seq::empty(),
    }) + (match f.search {
        Some(s) => match like_pattern_spec(s@) {
            Some(p) => seq![p],
            None => Seq::empty(),
        },
        None => Seq::empty(),
    })
}

/// The query listing the tasks `filter` selects.
pub fn list_query(filter: &TaskFilter) -> (q: ListQuery)
    ensures
        q.sql@ == list_sql(*filter),
        views(q.args@) == list_args(*filter),
{
    let mut sql = owned("SELECT ");
    sql.append(TASK_COLUMNS);
    sql.append(" FROM tasks WHERE 1=1");
    let mut args: Vec<String> = Vec::new();
    let ghost a0 = views(args@);
    assert(a0 =~= Seq::empty());
    if !filter.include_done {
        sql.append(" AND done = 0");
    }
    if let Some(status) = &filter.status {
        sql.append(" AND status = ?");
        args.push(status.clone());
    }
    let ghost a1 = views(args@);
    if let Some(priority) = &filter.priority {
        sql.append(" AND priority = ?");
        args.push(priority.clone());
    }
    let ghost a2 = views(args@);
    if let Some(due) = &filter.due_on_or_before {
        sql.append(" AND due_date IS NOT NULL AND due_date <= ?");
        args.push(due.to_iso_string());
    }
    let ghost a3 = views(args@);
    if let Some(search) = &filter.search {
        if let Some(p) = like_pattern(search.as_str()) {
            sql.append(" AND title LIKE ? ESCAPE '\\'");
            args.push(p);
        }
    }
    sql.append(" ORDER BY done ASC, due_date IS NULL, due_date ASC, created_at ASC");
    assert(views(args@) =~= list_args(*filter));
    ListQuery { sql, args }
}

} // verus!

//! What the selected-task panel shows: the header's dropdown choices and
//! labels, the progress and sync lines, the session rows, and how the
//! Markdown description is styled as it is typed.
use crate::calendar::{
    chrono_date_format, chrono_instant_format, instant_format, opt_date_days, valid_instant, Date,
};
use crate::collate::{insert_sorted, position_of, sorted_distinct, strictly_sorted, views};
use crate::domain::pomodoro::opt_str_model;
use crate::domain::task::Task;
use crate::domain::time_session::{SessionKind, TimeSession};
use crate::infrastructure::notion::markdown::{
    cmark_event_ranges, parse_markdown_ranges, ranged_events_model, MdEvent, MdEventModel,
};
use crate::text::{byte_prefix, clone_opt_string, decimal, i64_to_string, owned, prefix_bytes};
use vstd::prelude::*;

verus! {

// ---------------------------------------------------------------------------
// Header choices
// ---------------------------------------------------------------------------

/// The status dropdown: its values in order, and the one selected.
pub struct StatusChoices {
    pub values: Vec<String>,
    pub selected: usize,
}

/// Status choices: the distinct statuses seen locally plus the task's own,
/// sorted; the task's own is selected.
pub fn status_choices(seen: &Vec<String>, current: &str) -> (c: StatusChoices)
    ensures
        strictly_sorted(views(c.values@)),
        forall|x: Seq<char>|
            views(c.values@).contains(x) <==> (views(seen@).contains(x) || x == current@),
        c.selected < c.values@.len(),
        c.values@[c.selected as int]@ == current@,
{
    let mut values = sorted_distinct(seen);
    insert_sorted(&mut values, owned(current));
    assert(views(values@).contains(current@));
    let selected = position_of(&values, current);
    StatusChoices { values, selected }
}

/// The priority dropdown: its labels, the value behind each, and the one
/// selected.
pub struct PriorityChoices {
    pub labels: Vec<String>,
    pub values: Vec<Option<String>>,
    pub selected: usize,
}

/// Priority choices: "None" first, then the distinct priorities seen
/// locally plus the task's own, sorted; the task's own is selected, or
/// "None" when it has none.
pub fn priority_choices(seen: &Vec<String>, current: &Option<String>) -> (c: PriorityChoices)
    ensures
        c.labels@.len() == c.values@.len(),
        c.labels@.len() >= 1,
        c.labels@[0]@ == "None"@,
        c.values@[0] is None,
        forall|k: int|
            1 <= k < c.values@.len() ==> opt_str_model(#[trigger] c.values@[k]) == Some(
                c.labels@[k]@,
            ),
        strictly_sorted(views(c.labels@).drop_first()),
        forall|x: Seq<char>|
            views(c.labels@).drop_first().contains(x) <==> (views(seen@).contains(x)
                || opt_str_model(*current) == Some(x)),
        c.selected < c.labels@.len(),
        match current {
            Some(p) => c.selected >= 1 && c.labels@[c.selected as int]@ == p@,
            None => c.selected == 0,
        },
{
    let mut sorted = sorted_distinct(seen);
    if let Some(p) = current {
        insert_sorted(&mut sorted, p.clone());
    }
    let mut labels: Vec<String> = Vec::new();
    let mut values: Vec<Option<String>> = Vec::new();
    labels.push(owned("None"));
    values.push(None);
    let mut i: usize = 0;
    while i < sorted.len()
        invariant
            i <= sorted@.len(),
            labels@.len() == i + 1,
            values@.len() == i + 1,
            labels@[0]@ == "None"@,
            values@[0] is None,
            forall|k: int| 0 <= k < i ==> #[trigger] labels@[k + 1]@ == sorted@[k]@,
            forall|k: int|
                0 <= k < i ==> opt_str_model(#[trigger] values@[k + 1]) == Some(sorted@[k]@),
        decreases sorted@.len() - i,
    {
        labels.push(sorted[i].clone());
        values.push(Some(sorted[i].clone()));
        i = i + 1;
    }
    assert(views(labels@).drop_first() =~= views(sorted@));
    assert forall|k: int| 1 <= k < values@.len() implies opt_str_model(#[trigger] values@[k])
        == Some(labels@[k]@) by {
        assert(labels@[(k - 1) + 1]@ == sorted@[k - 1]@);
        assert(opt_str_model(values@[(k - 1) + 1]) == Some(sorted@[k - 1]@));
    }
    let selected = match current {
        Some(p) => {
            assert(views(sorted@).contains(p@));
            let pos = position_of(&sorted, p.as_str());
            assert(labels@[pos + 1]@ == sorted@[pos as int]@);
            pos + 1
        },
        None => 0,
    };
    PriorityChoices { labels, values, selected }
}

/// The status at dropdown position `idx` (empty past the end).
pub fn status_at(values: &Vec<String>, idx: usize) -> (s: String)
    ensures
        idx < values@.len() ==> s@ == values@[idx as int]@,
        idx >= values@.len() ==> s@ == Seq::<char>::empty(),
{
    if idx < values.len() {
        values[idx].clone()
    } else {
        String::new()
    }
}

/// The priority at dropdown position `idx` (`None` past the end).
pub fn priority_at(values: &Vec<Option<String>>, idx: usize) -> (p: Option<String>)
    ensures
        idx < values@.len() ==> opt_str_model(p) == opt_str_model(values@[idx as int]),
        idx >= values@.len() ==> p is None,
{
    if idx < values.len() {
        clone_opt_string(&values[idx])
    } else {
        None
    }
}

// ---------------------------------------------------------------------------
// Labels
// ---------------------------------------------------------------------------

/// The due-date button's label: the date as "Jul 15, 2026", or "No date".
pub open spec fn due_label_text(due: Option<int>) -> Seq<char> {
    match due {
        Some(d) => chrono_date_format(d, "%b %-d, %Y"@),
        None => "No date"@,
    }
}

pub fn due_label(due: Option<Date>) -> (s: String)
    ensures
        s@ == due_label_text(opt_date_days(due)),
{
    match due {
        Some(d) => d.format("%b %-d, %Y"),
        None => owned("No date"),
    }
}

/// `n` with at least two digits (`{:02}` for a number below 100).
pub open spec fn two_digits(n: int) -> Seq<char> {
    if n < 10 {
        "0"@ + decimal(n)
    } else {
        decimal(n)
    }
}

/// The progress line: pomodoros, then tracked time as hours and minutes.
pub open spec fn progress_line(pomodoros: int, minutes: int) -> Seq<char> {
    "🍅 "@ + decimal(pomodoros) + " pomodoros   ·   ⏱ "@ + decimal(minutes / 60) + "h "@
        + two_digits(minutes % 60) + "m tracked"@
}

pub fn progress_text(pomodoros: u32, tracked_minutes: u32) -> (s: String)
    ensures
        s@ == progress_line(pomodoros as int, tracked_minutes as int),
{
    let hours = tracked_minutes / 60;
    let mins = tracked_minutes % 60;
    let mut s = owned("🍅 ");
    s.append(i64_to_string(pomodoros as i64).as_str());
    s.append(" pomodoros   ·   ⏱ ");
    s.append(i64_to_string(hours as i64).as_str());
    s.append("h ");
    if mins < 10 {
        s.append("0");
    }
    s.append(i64_to_string(mins as i64).as_str());
    s.append("m tracked");
    s
}

/// The format sync times are shown with.
pub open spec fn sync_time_format() -> Seq<char> {
    "%Y-%m-%d %H:%M UTC"@
}

/// The sync line: where the task lives, when it last synced, and whether
/// local changes wait to be pushed.
pub open spec fn sync_info_line(linked: bool, last_synced: Option<int>, dirty: bool) -> Seq<char> {
    (if linked {
        "Notion task"@
    } else {
        "Local-only task"@
    }) + " · "@ + (match last_synced {
        Some(at) => "last synced "@ + chrono_instant_format(at, sync_time_format()),
        None => "never synced"@,
    }) + (if dirty {
        " · changes pending"@
    } else {
        Seq::empty()
    })
}

pub fn sync_info_text(task: &Task) -> (s: String)
    requires
        task.last_synced_at matches Some(at) ==> valid_instant(at as int),
    ensures
        s@ == sync_info_line(
            task.notion_page_id is Some,
            task@.last_synced_at,
            task.dirty,
        ),
{
    let mut s = if task.notion_page_id.is_some() {
        owned("Notion task")
    } else {
        owned("Local-only task")
    };
    s.append(" · ");
    match task.last_synced_at {
        Some(at) => {
            s.append("last synced ");
            s.append(instant_format(at, "%Y-%m-%d %H:%M UTC").as_str());
        },
        None => s.append("never synced"),
    }
    if task.dirty {
        s.append(" · changes pending");
    }
    s
}

/// The done button's label.
pub fn done_label(done: bool) -> (s: &'static str)
    ensures
        s@ == (if done {
            "Reopen Task"@
        } else {
            "Mark Done"@
        }),
{
    if done {
        "Reopen Task"
    } else {
        "Mark Done"
    }
}

// ---------------------------------------------------------------------------
// Session history
// ---------------------------------------------------------------------------

/// How many sessions the history shows.
pub const MAX_SESSION_ROWS: usize = 30;

/// A row of the session history.
pub struct SessionRow {
    pub title: String,
    pub subtitle: String,
}

pub open spec fn kind_label(kind: SessionKind) -> Seq<char> {
    match kind {
        SessionKind::Pomodoro => "Pomodoro"@,
        SessionKind::Manual => "Manual entry"@,
    }
}

/// A session's title: its kind and length.
pub open spec fn session_title(kind: SessionKind, minutes: int) -> Seq<char> {
    kind_label(kind) + " — "@ + decimal(minutes) + " min"@
}

/// Rows for the first sessions (the history shows at most
/// `MAX_SESSION_ROWS`): kind and length, then the start time.
pub fn session_rows(sessions: &Vec<TimeSession>) -> (rows: Vec<SessionRow>)
    requires
        forall|k: int| 0 <= k < sessions@.len() ==> valid_instant(#[trigger] sessions@[k].started_at as int),
    ensures
        rows@.len() == if sessions@.len() < MAX_SESSION_ROWS {
            sessions@.len()
        } else {
            MAX_SESSION_ROWS as nat
        },
        forall|k: int|
            0 <= k < rows@.len() ==> #[trigger] rows@[k].title@ == session_title(
                sessions@[k].kind,
                sessions@[k].minutes as int,
            ) && rows@[k].subtitle@ == chrono_instant_format(
                sessions@[k].started_at as int,
                sync_time_format(),
            ),
{
    let mut rows: Vec<SessionRow> = Vec::new();
    let mut i: usize = 0;
    while i < sessions.len() && i < MAX_SESSION_ROWS
        invariant
            i <= sessions@.len(),
            i <= MAX_SESSION_ROWS,
            rows@.len() == i,
            forall|k: int| 0 <= k < sessions@.len() ==> valid_instant(#[trigger] sessions@[k].started_at as int),
            forall|k: int|
                0 <= k < i ==> #[trigger] rows@[k].title@ == session_title(
                    sessions@[k].kind,
                    sessions@[k].minutes as int,
                ) && rows@[k].subtitle@ == chrono_instant_format(
                    sessions@[k].started_at as int,
                    sync_time_format(),
                ),
        decreases sessions@.len() - i,
    {
        let s = &sessions[i];
        let mut title = match s.kind {
            SessionKind::Pomodoro => owned("Pomodoro"),
            SessionKind::Manual => owned("Manual entry"),
        };
        title.append(" — ");
        title.append(i64_to_string(s.minutes).as_str());
        title.append(" min");
        let subtitle = instant_format(s.started_at, "%Y-%m-%d %H:%M UTC");
        rows.push(SessionRow { title, subtitle });
        i = i + 1;
    }
    rows
}

// ---------------------------------------------------------------------------
// Live Markdown styling of the description
// ---------------------------------------------------------------------------

/// A text tag of the description editor.
#[derive(Debug, Clone, Copy, PartialEq, Eq, Structural)]
pub enum TextStyle {
    H1,
    H2,
    H3,
    Bold,
    Italic,
    Strike,
    Mono,
    /// Markdown syntax (`#`, `**`, list markers), dimmed.
    Marker,
    Quote,
}

impl TextStyle {
    pub open spec fn tag(self) -> Seq<char> {
        match self {
            TextStyle::H1 => "h1"@,
            TextStyle::H2 => "h2"@,
            TextStyle::H3 => "h3"@,
            TextStyle::Bold => "bold"@,
            TextStyle::Italic => "italic"@,
            TextStyle::Strike => "strike"@,
            TextStyle::Mono => "mono"@,
            TextStyle::Marker => "marker"@,
            TextStyle::Quote => "quote"@,
        }
    }

    /// The name of the editor's text tag.
    pub fn tag_name(self) -> (s: &'static str)
        ensures
            s@ == self.tag(),
    {
        match self {
            TextStyle::H1 => "h1",
            TextStyle::H2 => "h2",
            TextStyle::H3 => "h3",
            TextStyle::Bold => "bold",
            TextStyle::Italic => "italic",
            TextStyle::Strike => "strike",
            TextStyle::Mono => "mono",
            TextStyle::Marker => "marker",
            TextStyle::Quote => "quote",
        }
    }
}

/// A style applied to the characters `start..end` of the text.
pub struct StyleRun {
    pub style: TextStyle,
    pub start: usize,
    pub end: usize,
}

/// The first position at or after `i` whose byte is not `c` (or the end).
pub open spec fn skip_byte(b: Seq<u8>, i: int, c: u8) -> int
    decreases b.len() - i,
{
    if 0 <= i < b.len() && b[i] == c {
        skip_byte(b, i + 1, c)
    } else {
        i
    }
}

/// The first position at or after `i` whose byte is not an ASCII digit.
pub open spec fn skip_digits(b: Seq<u8>, i: int) -> int
    decreases b.len() - i,
{
    if 0 <= i < b.len() && 48 <= b[i] <= 57 {
        skip_digits(b, i + 1)
    } else {
        i
    }
}

/// Just past a heading's `#`s and the spaces after them.
pub open spec fn heading_prefix(b: Seq<u8>, start: int) -> int {
    skip_byte(b, skip_byte(b, start, 35), 32)
}

/// Just past a list item's marker (`- `, `* `, `+ `, `1. `, `1) `), and a
/// task checkbox (`[x] `) after it; `start` itself when there is no marker.
pub open spec fn list_prefix(b: Seq<u8>, start: int) -> int {
    let i0 = skip_byte(b, start, 32);
    let after: Option<int> = if 0 <= i0 < b.len() && (b[i0] == 45 || b[i0] == 42 || b[i0] == 43) {
        Some(i0 + 1)
    } else {
        let d = skip_digits(b, i0);
        if d > i0 && d < b.len() && (b[d] == 46 || b[d] == 41) {
            Some(d + 1)
        } else {
            None
        }
    };
    match after {
        None => start,
        Some(i1) => {
            let i2 = skip_byte(b, i1, 32);
            if i2 + 2 < b.len() && b[i2] == 91 && b[i2 + 2] == 93 {
                skip_byte(b, i2 + 3, 32)
            } else {
                i2
            }
        },
    }
}

fn skip_run(b: &[u8], i: usize, c: u8) -> (j: usize)
    requires
        i <= b@.len(),
    ensures
        j == skip_byte(b@, i as int, c),
        j <= b@.len(),
{
    let mut j = i;
    while j < b.len() && b[j] == c
        invariant
            i <= j <= b@.len(),
            skip_byte(b@, i as int, c) == skip_byte(b@, j as int, c),
        decreases b@.len() - j,
    {
        j = j + 1;
    }
    j
}

fn skip_digit_run(b: &[u8], i: usize) -> (j: usize)
    requires
        i <= b@.len(),
    ensures
        j == skip_digits(b@, i as int),
        j <= b@.len(),
{
    let mut j = i;
    while j < b.len() && 48 <= b[j] && b[j] <= 57
        invariant
            i <= j <= b@.len(),
            skip_digits(b@, i as int) == skip_digits(b@, j as int),
        decreases b@.len() - j,
    {
        j = j + 1;
    }
    j
}

/// Byte offset just past a heading's `#`s and following spaces.
pub fn heading_prefix_end(text: &str, start: usize) -> (i: usize)
    ensures
        i == heading_prefix(vstd::utf8::encode_utf8(text@), start as int),
{
    let b = text.as_bytes();
    if start > b.len() {
        return start;
    }
    let i = skip_run(b, start, 35);
    skip_run(b, i, 32)
}

/// Byte offset just past a list item's marker (`- `, `1. `, `- [x] `).
pub fn list_prefix_end(text: &str, start: usize) -> (i: usize)
    ensures
        i == list_prefix(vstd::utf8::encode_utf8(text@), start as int),
{
    let b = text.as_bytes();
    if start > b.len() {
        return start;
    }
    let i0 = skip_run(b, start, 32);
    let i1 = if i0 < b.len() && (b[i0] == 45 || b[i0] == 42 || b[i0] == 43) {
        i0 + 1
    } else {
        let d = skip_digit_run(b, i0);
        if d > i0 && d < b.len() && (b[d] == 46 || b[d] == 41) {
            d + 1
        } else {
            return start;
        }
    };
    let i2 = skip_run(b, i1, 32);
    if i2 < b.len() && b.len() - i2 > 2 && b[i2] == 91 && b[i2 + 2] == 93 {
        skip_run(b, i2 + 3, 32)
    } else {
        i2
    }
}

/// The heading tag for a heading level.
pub open spec fn heading_style(level: u8) -> TextStyle {
    if level == 1 {
        TextStyle::H1
    } else if level == 2 {
        TextStyle::H2
    } else {
        TextStyle::H3
    }
}

/// What one parser event over the bytes `s..t` asks to be styled (byte
/// offsets): headings dim their `#`s; bold, italic and strikethrough dim
/// their delimiters; code is monospace; list items dim their marker.
pub open spec fn style_requests(b: Seq<u8>, e: MdEventModel, s: int, t: int) -> Seq<
    (TextStyle, int, int),
> {
    match e {
        MdEventModel::StartHeading(level) => {
            let p = heading_prefix(b, s);
            seq![(TextStyle::Marker, s, p), (heading_style(level), p, t)]
        },
        MdEventModel::StartStrong => seq![
            (TextStyle::Bold, s, t),
            (TextStyle::Marker, s, s + 2),
            (TextStyle::Marker, t - 2, t),
        ],
        MdEventModel::StartEmphasis => seq![
            (TextStyle::Italic, s, t),
            (TextStyle::Marker, s, s + 1),
            (TextStyle::Marker, t - 1, t),
        ],
        MdEventModel::StartStrikethrough => seq![
            (TextStyle::Strike, s, t),
            (TextStyle::Marker, s, s + 2),
            (TextStyle::Marker, t - 2, t),
        ],
        MdEventModel::Code(_) => seq![(TextStyle::Mono, s, t)],
        MdEventModel::StartCodeBlock(_) => seq![(TextStyle::Mono, s, t)],
        MdEventModel::StartQuote => seq![(TextStyle::Quote, s, t)],
        MdEventModel::StartItem => seq![(TextStyle::Marker, s, list_prefix(b, s))],
        _ => Seq::empty(),
    }
}

/// The character offset of byte offset `n`, when it is one.
pub open spec fn char_offset(text: Seq<char>, n: int) -> Option<int> {
    match byte_prefix(text, n) {
        Some(p) => Some(p.len() as int),
        None => None,
    }
}

/// A request as a run over characters: only a non-empty byte range inside
/// the text (and within `usize`) whose ends fall on character boundaries is
/// applied.
pub open spec fn run_of(text: Seq<char>, r: (TextStyle, int, int)) -> Option<(TextStyle, int, int)> {
    if 0 <= r.1 && r.1 < r.2 && r.2 <= usize::MAX {
        match (char_offset(text, r.1), char_offset(text, r.2)) {
            (Some(a), Some(z)) => Some((r.0, a, z)),
            _ => None,
        }
    } else {
        None
    }
}

/// The run for one request, if it is applied.
pub open spec fn opt_run(text: Seq<char>, r: (TextStyle, int, int)) -> Seq<(TextStyle, int, int)> {
    match run_of(text, r) {
        Some(x) => seq![x],
        None => Seq::empty(),
    }
}

/// The runs applied for a list of requests, in order.
pub open spec fn request_runs(text: Seq<char>, reqs: Seq<(TextStyle, int, int)>) -> Seq<
    (TextStyle, int, int),
>
    decreases reqs.len(),
{
    if reqs.len() == 0 {
        Seq::empty()
    } else {
        request_runs(text, reqs.drop_last()) + opt_run(text, reqs.last())
    }
}

proof fn lemma_request_runs(
    text: Seq<char>,
    a: (TextStyle, int, int),
    b: (TextStyle, int, int),
    c: (TextStyle, int, int),
)
    ensures
        request_runs(text, Seq::empty()) == Seq::<(TextStyle, int, int)>::empty(),
        request_runs(text, seq![a]) == opt_run(text, a),
        request_runs(text, seq![a, b]) == opt_run(text, a) + opt_run(text, b),
        request_runs(text, seq![a, b, c]) == opt_run(text, a) + opt_run(text, b) + opt_run(
            text,
            c,
        ),
{
    let e: Seq<(TextStyle, int, int)> = Seq::empty();
    let s1 = seq![a];
    let s2 = seq![a, b];
    let s3 = seq![a, b, c];
    assert(s1.drop_last() =~= e);
    assert(s2.drop_last() =~= s1);
    assert(s3.drop_last() =~= s2);
    assert(request_runs(text, e) == e);
    assert(request_runs(text, s1) == request_runs(text, e) + opt_run(text, a));
    assert(e + opt_run(text, a) =~= opt_run(text, a));
    assert(request_runs(text, s2) == request_runs(text, s1) + opt_run(text, b));
    assert(request_runs(text, s3) == request_runs(text, s2) + opt_run(text, c));
}

/// The runs for a stream of parser events with their byte ranges, in order.
pub open spec fn style_runs(text: Seq<char>, events: Seq<(MdEventModel, int, int)>) -> Seq<
    (TextStyle, int, int),
>
    decreases events.len(),
{
    if events.len() == 0 {
        Seq::empty()
    } else {
        let e = events.last();
        style_runs(text, events.drop_last()) + request_runs(
            text,
            style_requests(vstd::utf8::encode_utf8(text), e.0, e.1, e.2),
        )
    }
}

pub open spec fn runs_model(runs: Seq<StyleRun>) -> Seq<(TextStyle, int, int)> {
    Seq::new(runs.len(), |i: int| (runs[i].style, runs[i].start as int, runs[i].end as int))
}

fn char_offset_of(text: &str, n: usize) -> (r: Option<usize>)
    ensures
        match r {
            Some(c) => char_offset(text@, n as int) == Some(c as int),
            None => char_offset(text@, n as int) is None,
        },
{
    match prefix_bytes(text, n) {
        Some(p) => Some(p.unicode_len()),
        None => None,
    }
}

fn push_request(text: &str, runs: &mut Vec<StyleRun>, style: TextStyle, s: i128, t: i128)
    ensures
        runs_model(final(runs)@) == runs_model(old(runs)@) + opt_run(
            text@,
            (style, s as int, t as int),
        ),
{
    let ghost before = runs@;
    if 0 <= s && s < t && t <= usize::MAX as i128 {
        let a = char_offset_of(text, s as usize);
        let z = char_offset_of(text, t as usize);
        if let (Some(a), Some(z)) = (a, z) {
            runs.push(StyleRun { style, start: a, end: z });
            assert(runs_model(runs@) =~= runs_model(before).push((style, a as int, z as int)));
            return;
        }
    }
    assert(runs_model(runs@) =~= runs_model(before));
}

fn heading_style_of(level: u8) -> (t: TextStyle)
    ensures
        t == heading_style(level),
{
    if level == 1 {
        TextStyle::H1
    } else if level == 2 {
        TextStyle::H2
    } else {
        TextStyle::H3
    }
}

/// Add the runs one event over bytes `s..t` asks for.
fn push_event_runs(text: &str, runs: &mut Vec<StyleRun>, e: &MdEvent, s: usize, t: usize)
    ensures
        runs_model(final(runs)@) == runs_model(old(runs)@) + request_runs(
            text@,
            style_requests(vstd::utf8::encode_utf8(text@), e.model(), s as int, t as int),
        ),
{
    let ghost b = vstd::utf8::encode_utf8(text@);
    let ghost base = runs_model(runs@);
    let si = s as i128;
    let ti = t as i128;
    match e {
        MdEvent::StartHeading(level) => {
            let p = heading_prefix_end(text, s);
            proof {
                lemma_request_runs(
                    text@,
                    (TextStyle::Marker, s as int, p as int),
                    (heading_style(*level), p as int, t as int),
                    (TextStyle::Marker, 0, 0),
                );
            }
            push_request(text, runs, TextStyle::Marker, si, p as i128);
            push_request(text, runs, heading_style_of(*level), p as i128, ti);
        },
        MdEvent::StartStrong | MdEvent::StartEmphasis | MdEvent::StartStrikethrough => {
            let (style, n) = match e {
                MdEvent::StartStrong => (TextStyle::Bold, 2),
                MdEvent::StartEmphasis => (TextStyle::Italic, 1),
                _ => (TextStyle::Strike, 2),
            };
            proof {
                lemma_request_runs(
                    text@,
                    (style, s as int, t as int),
                    (TextStyle::Marker, s as int, s + n),
                    (TextStyle::Marker, t - n, t as int),
                );
            }
            push_request(text, runs, style, si, ti);
            push_request(text, runs, TextStyle::Marker, si, si + n);
            push_request(text, runs, TextStyle::Marker, ti - n, ti);
        },
        MdEvent::Code(_) | MdEvent::StartCodeBlock(_) | MdEvent::StartQuote => {
            let style = match e {
                MdEvent::StartQuote => TextStyle::Quote,
                _ => TextStyle::Mono,
            };
            proof {
                lemma_request_runs(
                    text@,
                    (style, s as int, t as int),
                    (style, 0, 0),
                    (style, 0, 0),
                );
            }
            push_request(text, runs, style, si, ti);
        },
        MdEvent::StartItem => {
            let p = list_prefix_end(text, s);
            proof {
                lemma_request_runs(
                    text@,
                    (TextStyle::Marker, s as int, p as int),
                    (TextStyle::Marker, 0, 0),
                    (TextStyle::Marker, 0, 0),
                );
            }
            push_request(text, runs, TextStyle::Marker, si, p as i128);
        },
        _ => {
            proof {
                lemma_request_runs(
                    text@,
                    (TextStyle::Marker, 0, 0),
                    (TextStyle::Marker, 0, 0),
                    (TextStyle::Marker, 0, 0),
                );
            }
            assert(runs_model(runs@) =~= base + Seq::<(TextStyle, int, int)>::empty());
        },
    }
}

/// The runs for a stream of parser events with their byte ranges.
pub fn styling_runs(text: &str, events: &Vec<(MdEvent, usize, usize)>) -> (runs: Vec<StyleRun>)
    ensures
        runs_model(runs@) == style_runs(text@, ranged_events_model(events@)),
{
    let ghost em = ranged_events_model(events@);
    let mut runs: Vec<StyleRun> = Vec::new();
    assert(runs_model(runs@) =~= style_runs(text@, em.take(0)));
    let mut i: usize = 0;
    while i < events.len()
        invariant
            i <= events@.len(),
            em == ranged_events_model(events@),
            runs_model(runs@) == style_runs(text@, em.take(i as int)),
        decreases events@.len() - i,
    {
        assert(em.take(i + 1).drop_last() =~= em.take(i as int));
        assert(em.take(i + 1).last() == (
            events@[i as int].0.model(),
            events@[i as int].1 as int,
            events@[i as int].2 as int,
        ));
        push_event_runs(text, &mut runs, &events[i].0, events[i].1, events[i].2);
        i = i + 1;
    }
    assert(em.take(events@.len() as int) =~= em);
    runs
}

/// How the description text is styled: nothing for empty text, else the
/// runs for its parse (strikethrough and task lists on).
pub open spec fn description_runs(text: Seq<char>) -> Seq<(TextStyle, int, int)> {
    if text.len() == 0 {
        Seq::empty()
    } else {
        style_runs(text, cmark_event_ranges(text, true, true))
    }
}

/// The styling of the description editor's text, re-derived from a fresh
/// parse after each edit.
pub fn markdown_styling(text: &str) -> (runs: Vec<StyleRun>)
    ensures
        runs_model(runs@) == description_runs(text@),
{
    if text.is_empty() {
        let runs: Vec<StyleRun> = Vec::new();
        assert(runs_model(runs@) =~= Seq::empty());
        return runs;
    }
    let events = parse_markdown_ranges(text, true, true);
    styling_runs(text, &events)
}

} // verus!

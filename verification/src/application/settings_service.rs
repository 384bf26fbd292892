//! Settings, Notion property mappings, and their validation.
use crate::domain::pomodoro::TimerConfig;
use crate::text::{concat, is_blank, owned};
use vstd::prelude::*;

verus! {

/// Names of Notion properties mapped to app fields. Empty string = unmapped
/// (allowed for everything except title and status).
#[derive(Debug, Clone, PartialEq)]
pub struct PropertyMappings {
    pub title: String,
    pub status: String,
    /// "status" or "select" — discovered during validation.
    pub status_type: String,
    pub due_date: String,
    pub priority: String,
    pub pomodoro_count: String,
    pub tracked_minutes: String,
    pub last_synced: String,
}

/// Type of the status property when none was discovered.
pub fn default_status_type() -> (s: String)
    ensures
        s@ == "status"@,
{
    owned("status")
}

impl Default for PropertyMappings {
    fn default() -> (m: Self)
        ensures
            m.title@ == "Name"@,
            m.status@ == "Status"@,
            m.status_type@ == "status"@,
            m.due_date@ == "Due"@,
            m.priority@ == "Priority"@,
            m.pomodoro_count@ == "Pomodoros"@,
            m.tracked_minutes@ == "Minutes"@,
            m.last_synced@ == "Last Synced"@,
    {
        PropertyMappings {
            title: owned("Name"),
            status: owned("Status"),
            status_type: default_status_type(),
            due_date: owned("Due"),
            priority: owned("Priority"),
            pomodoro_count: owned("Pomodoros"),
            tracked_minutes: owned("Minutes"),
            last_synced: owned("Last Synced"),
        }
    }
}

#[derive(Debug, Clone, PartialEq)]
pub struct Settings {
    pub timer: TimerConfig,
    pub notion_database_id: String,
    pub mappings: PropertyMappings,
    pub auto_sync_enabled: bool,
}

impl Default for Settings {
    fn default() -> (s: Self)
        ensures
            s.timer == (TimerConfig {
                pomodoro_minutes: 25,
                short_break_minutes: 5,
                long_break_minutes: 15,
                pomodoros_until_long_break: 4,
            }),
            s.notion_database_id@.len() == 0,
            s.mappings.title@ == "Name"@,
            s.mappings.status@ == "Status"@,
            s.mappings.status_type@ == "status"@,
            s.mappings.due_date@ == "Due"@,
            s.mappings.priority@ == "Priority"@,
            s.mappings.pomodoro_count@ == "Pomodoros"@,
            s.mappings.tracked_minutes@ == "Minutes"@,
            s.mappings.last_synced@ == "Last Synced"@,
            !s.auto_sync_enabled,
    {
        Settings {
            timer: TimerConfig::default(),
            notion_database_id: String::new(),
            mappings: PropertyMappings::default(),
            auto_sync_enabled: false,
        }
    }
}

/// A duration setting is acceptable: 1 to 240.
pub open spec fn in_range(v: u32) -> bool {
    1 <= v <= 240
}

/// The problem reported for an out-of-range duration setting.
pub open spec fn range_problem(name: Seq<char>) -> Seq<char> {
    name + " must be between 1 and 240"@
}

pub open spec fn problem_if(bad: bool, msg: Seq<char>) -> Seq<Seq<char>> {
    if bad {
        seq![msg]
    } else {
        Seq::empty()
    }
}

/// The problems `validate` reports, in order.
pub open spec fn problems(s: Settings) -> Seq<Seq<char>> {
    problem_if(!in_range(s.timer.pomodoro_minutes), range_problem("Pomodoro length"@))
        + problem_if(!in_range(s.timer.short_break_minutes), range_problem("Short break"@))
        + problem_if(!in_range(s.timer.long_break_minutes), range_problem("Long break"@))
        + problem_if(
        !in_range(s.timer.pomodoros_until_long_break),
        range_problem("Pomodoros until long break"@),
    ) + problem_if(
        crate::text::all_whitespace(s.mappings.title@),
        "Title property mapping is required"@,
    ) + problem_if(
        crate::text::all_whitespace(s.mappings.status@),
        "Status property mapping is required"@,
    )
}

pub open spec fn strings_view(v: Seq<String>) -> Seq<Seq<char>> {
    v.map_values(|s: String| s@)
}

fn check_range(problems: &mut Vec<String>, name: &str, v: u32)
    ensures
        strings_view(final(problems)@) == strings_view(old(problems)@) + problem_if(
            !in_range(v),
            range_problem(name@),
        ),
{
    if v == 0 || v > 240 {
        problems.push(concat(name, " must be between 1 and 240"));
    }
    assert(strings_view(final(problems)@) =~= strings_view(old(problems)@) + problem_if(
        !in_range(v),
        range_problem(name@),
    ));
}

fn check_required(problems: &mut Vec<String>, value: &str, msg: &str)
    ensures
        strings_view(final(problems)@) == strings_view(old(problems)@) + problem_if(
            crate::text::all_whitespace(value@),
            msg@,
        ),
{
    if is_blank(value) {
        problems.push(owned(msg));
    }
    assert(strings_view(final(problems)@) =~= strings_view(old(problems)@) + problem_if(
        crate::text::all_whitespace(value@),
        msg@,
    ));
}

/// Validate user-entered settings before saving. Returns a list of problems.
pub fn validate(settings: &Settings) -> (p: Vec<String>)
    ensures
        strings_view(p@) == problems(*settings),
{
    let mut problems = Vec::new();
    let t = &settings.timer;
    check_range(&mut problems, "Pomodoro length", t.pomodoro_minutes);
    check_range(&mut problems, "Short break", t.short_break_minutes);
    check_range(&mut problems, "Long break", t.long_break_minutes);
    check_range(&mut problems, "Pomodoros until long break", t.pomodoros_until_long_break);
    check_required(&mut problems, settings.mappings.title.as_str(), "Title property mapping is required");
    check_required(&mut problems, settings.mappings.status.as_str(), "Status property mapping is required");
    assert(strings_view(problems@) =~= crate::application::settings_service::problems(*settings));
    problems
}

/// Settings are accepted exactly when every duration is between 1 and 240 and
/// the title and status mappings name a property.
pub proof fn lemma_valid_iff(s: Settings)
    ensures
        (problems(s).len() == 0) <==> (in_range(s.timer.pomodoro_minutes) && in_range(
            s.timer.short_break_minutes,
        ) && in_range(s.timer.long_break_minutes) && in_range(s.timer.pomodoros_until_long_break)
            && !crate::text::all_whitespace(s.mappings.title@) && !crate::text::all_whitespace(
            s.mappings.status@,
        )),
{
}

/// Keys of the stored settings.
pub const KEY_TIMER: &'static str = "timer_config";
pub const KEY_DATABASE_ID: &'static str = "notion_database_id";
pub const KEY_MAPPINGS: &'static str = "property_mappings";
pub const KEY_AUTO_SYNC: &'static str = "auto_sync_enabled";
pub const KEY_TIMER_STATE: &'static str = "timer_state";
pub const KEY_LAST_SYNC: &'static str = "last_sync_at";

/// How the auto-sync switch is stored.
pub fn auto_sync_text(enabled: bool) -> (s: &'static str)
    ensures
        s@ == (if enabled {
            "true"@
        } else {
            "false"@
        }),
{
    if enabled {
        "true"
    } else {
        "false"
    }
}

/// Settings from what the store holds: each stored value that could be
/// read replaces its default; auto-sync is on only when stored as "true".
/// (`timer` and `mappings` are `None` when absent or unreadable.)
pub fn settings_from_stored(
    timer: Option<TimerConfig>,
    database_id: Option<String>,
    mappings: Option<PropertyMappings>,
    auto_sync: Option<String>,
) -> (s: Settings)
    ensures
        s.timer == match timer {
            Some(t) => t,
            None => TimerConfig {
                pomodoro_minutes: 25,
                short_break_minutes: 5,
                long_break_minutes: 15,
                pomodoros_until_long_break: 4,
            },
        },
        s.notion_database_id@ == match database_id {
            Some(d) => d@,
            None => Seq::<char>::empty(),
        },
        mappings matches Some(m) ==> s.mappings == m,
        mappings is None ==> s.mappings.title@ == "Name"@ && s.mappings.status@ == "Status"@
            && s.mappings.status_type@ == "status"@ && s.mappings.due_date@ == "Due"@
            && s.mappings.priority@ == "Priority"@ && s.mappings.pomodoro_count@ == "Pomodoros"@
            && s.mappings.tracked_minutes@ == "Minutes"@ && s.mappings.last_synced@
            == "Last Synced"@,
        s.auto_sync_enabled == (auto_sync matches Some(a) && a@ == "true"@),
{
    let mut settings = Settings::default();
    if let Some(t) = timer {
        settings.timer = t;
    }
    if let Some(d) = database_id {
        settings.notion_database_id = d;
    }
    if let Some(m) = mappings {
        settings.mappings = m;
    }
    settings.auto_sync_enabled = match auto_sync {
        Some(a) => crate::text::str_eq(a.as_str(), "true"),
        None => false,
    };
    settings
}

} // verus!

//! Instants and calendar dates as plain integers, and the calls into `chrono`
//! that render or parse them.
use chrono::{Datelike, DateTime, NaiveDate, Utc};
use vstd::prelude::*;

verus! {

/// Earliest instant `chrono::DateTime<Utc>` can hold, in ms since the epoch.
pub const MIN_INSTANT_MS: i64 = -8334601228800000;

/// Latest instant `chrono::DateTime<Utc>` can hold, in ms since the epoch.
pub const MAX_INSTANT_MS: i64 = 8210266876799999;

/// An instant (ms since the Unix epoch) that a UTC date-time can represent.
pub open spec fn valid_instant(ms: int) -> bool {
    MIN_INSTANT_MS <= ms <= MAX_INSTANT_MS
}

/// A span of milliseconds that a `chrono::TimeDelta` can hold.
pub open spec fn valid_span(ms: int) -> bool {
    -i64::MAX <= ms <= i64::MAX
}

/// Integer division truncating toward zero, as Rust's `/` on integers does.
pub open spec fn trunc_div(a: int, b: int) -> int
    recommends
        b > 0,
{
    if a >= 0 {
        a / b
    } else {
        -((-a) / b)
    }
}

/// Whole seconds in a span of milliseconds (`TimeDelta::num_seconds`).
pub open spec fn span_seconds(ms: int) -> int {
    trunc_div(ms, 1000)
}

/// Whole minutes in a span of milliseconds (`TimeDelta::num_minutes`).
pub open spec fn span_minutes(ms: int) -> int {
    trunc_div(span_seconds(ms), 60)
}

/// The whole minutes of a span a `TimeDelta` can hold, taken back to
/// milliseconds, still fit in an `i64`.
pub proof fn lemma_minutes_bounded(ms: int)
    requires
        valid_span(ms),
    ensures
        -(i64::MAX / 60000) <= span_minutes(ms) <= i64::MAX / 60000,
{
}

/// Whole seconds in a span of milliseconds, truncated toward zero.
pub fn whole_seconds(ms: i64) -> (s: i64)
    ensures
        s == span_seconds(ms as int),
{
    ms / 1000
}

/// Whole minutes in a span of milliseconds, truncated toward zero.
pub fn whole_minutes(ms: i64) -> (m: i64)
    ensures
        m == span_minutes(ms as int),
{
    (ms / 1000) / 60
}

/// Whether `ms` is an instant a UTC date-time can hold.
pub fn is_valid_instant(ms: i64) -> (b: bool)
    ensures
        b == valid_instant(ms as int),
{
    MIN_INSTANT_MS <= ms && ms <= MAX_INSTANT_MS
}

/// Day number (counted from the Common Era, 0001-01-01 being day 1) of the
/// earliest date `chrono::NaiveDate` can hold.
pub const MIN_DATE_DAYS: i32 = -95746129;

/// Day number of the latest date `chrono::NaiveDate` can hold.
pub const MAX_DATE_DAYS: i32 = 95745399;

pub open spec fn valid_date_days(n: int) -> bool {
    MIN_DATE_DAYS <= n <= MAX_DATE_DAYS
}

/// A calendar date (proleptic Gregorian), held as its day number counted
/// from the Common Era; any date `chrono::NaiveDate` can hold.
#[derive(Debug, Clone, Copy, PartialEq, Eq, Structural)]
pub struct Date {
    days: i32,
}

impl View for Date {
    type V = int;

    closed spec fn view(&self) -> int {
        self.days as int
    }
}

impl Date {
    /// Every `Date` lies in `chrono`'s range.
    #[verifier::type_invariant]
    spec fn wf(self) -> bool {
        valid_date_days(self.days as int)
    }

    /// The date with day number `days` (0001-01-01 is day 1), if `chrono`
    /// can hold it.
    pub fn from_days_from_ce(days: i32) -> (d: Option<Date>)
        ensures
            d is Some <==> valid_date_days(days as int),
            d matches Some(x) ==> x@ == days,
    {
        if MIN_DATE_DAYS <= days && days <= MAX_DATE_DAYS {
            Some(Date { days })
        } else {
            None
        }
    }

    /// Day number of this date, counted from the Common Era.
    pub fn days_from_ce(&self) -> (n: i32)
        ensures
            n == self@,
            valid_date_days(n as int),
    {
        proof {
            use_type_invariant(self);
        }
        self.days
    }

    /// Whole days from `earlier` to `self` (negative when `self` is earlier).
    pub fn days_since(&self, earlier: Date) -> (n: i64)
        ensures
            n == self@ - earlier@,
            -10000000000 <= n <= 10000000000,
    {
        self.days as i64 - earlier.days as i64
    }

    /// The date for a year, month and day, when that date exists.
    pub fn from_ymd(year: i32, month: u32, day: u32) -> (d: Option<Date>)
        ensures
            opt_date_days(d) == chrono_ymd_days(year as int, month as int, day as int),
    {
        match ymd_days(year, month, day) {
            Some(n) => Some(Date { days: n }),
            None => None,
        }
    }

    /// Parse an ISO date (`YYYY-MM-DD`).
    pub fn parse_iso(s: &str) -> (d: Option<Date>)
        ensures
            opt_date_days(d) == chrono_parse_date(s@),
    {
        match parse_date_days(s) {
            Some(n) => Some(Date { days: n }),
            None => None,
        }
    }

    /// The date in ISO form, as `NaiveDate`'s `Display` writes it.
    pub fn to_iso_string(&self) -> (s: String)
        ensures
            s@ == chrono_date_display(self@),
    {
        proof {
            use_type_invariant(self);
        }
        date_display(self.days)
    }

    /// The date rendered with one of the `strftime` formats this crate uses.
    pub fn format(&self, fmt: &str) -> (s: String)
        requires
            date_format_supported(fmt@),
        ensures
            s@ == chrono_date_format(self@, fmt@),
    {
        proof {
            use_type_invariant(self);
        }
        date_format(self.days, fmt)
    }
}

pub open spec fn opt_date_days(d: Option<Date>) -> Option<int> {
    match d {
        Some(x) => Some(x@),
        None => None,
    }
}

/// The `strftime` formats dates are rendered with: weekday (`Wed`), month and
/// day (`Jul 15`), and month, day and year (`Jul 15, 2026`).
pub open spec fn date_format_supported(fmt: Seq<char>) -> bool {
    fmt == "%a"@ || fmt == "%b %-d"@ || fmt == "%b %-d, %Y"@
}

/// A leap year of the proleptic Gregorian calendar.
pub open spec fn is_leap_year(year: int) -> bool {
    (year % 4 == 0 && year % 100 != 0) || year % 400 == 0
}

/// Days in `month` (1 to 12) of `year`.
pub open spec fn days_in_month(year: int, month: int) -> int {
    if month == 2 {
        if is_leap_year(year) {
            29
        } else {
            28
        }
    } else if month == 4 || month == 6 || month == 9 || month == 11 {
        30
    } else {
        31
    }
}

/// Days of `year` before the first of `month`.
pub open spec fn days_before_month(year: int, month: int) -> int
    decreases month,
{
    if month <= 1 {
        0
    } else {
        days_before_month(year, month - 1) + days_in_month(year, month - 1)
    }
}

/// The day number (0001-01-01 being day 1) of `year`-`month`-`day` in the
/// proleptic Gregorian calendar, when that is a real date within `chrono`'s
/// years (`-262143` to `262142`); this is what `NaiveDate::from_ymd_opt`
/// followed by `num_days_from_ce` yields.
pub open spec fn chrono_ymd_days(year: int, month: int, day: int) -> Option<int> {
    if -262143 <= year <= 262142 && 1 <= month <= 12 && 1 <= day <= days_in_month(year, month) {
        let y = year - 1;
        Some(365 * y + y / 4 - y / 100 + y / 400 + days_before_month(year, month) + day)
    } else {
        None
    }
}

/// What parsing `s` as a `chrono::NaiveDate` (`str::parse`) returns, as a day
/// number from the Common Era.
pub uninterp spec fn chrono_parse_date(s: Seq<char>) -> Option<int>;

/// The text `chrono::NaiveDate`'s `Display` writes for day number `days`.
pub uninterp spec fn chrono_date_display(days: int) -> Seq<char>;

/// The text `chrono::NaiveDate::format(fmt)` renders for day number `days`.
pub uninterp spec fn chrono_date_format(days: int, fmt: Seq<char>) -> Seq<char>;

/// The RFC 3339 text `chrono::DateTime::<Utc>::to_rfc3339` writes for the
/// instant `ms`.
pub uninterp spec fn chrono_rfc3339(ms: int) -> Seq<char>;

/// The text `chrono::DateTime::<Utc>::format(fmt)` renders for the instant
/// `ms`.
pub uninterp spec fn chrono_instant_format(ms: int, fmt: Seq<char>) -> Seq<char>;

/// The `strftime` format instants are shown with (`2026-07-10 09:30 UTC`).
pub open spec fn instant_format_supported(fmt: Seq<char>) -> bool {
    fmt == "%Y-%m-%d %H:%M UTC"@
}

/// What `chrono::DateTime::parse_from_rfc3339(s)` returns, as ms since the
/// epoch (`timestamp_millis`).
pub uninterp spec fn chrono_parse_rfc3339(s: Seq<char>) -> Option<int>;

/// `chrono::NaiveDate::from_ymd_opt`, returning `num_days_from_ce` of the
/// date. Every date it yields lies in `chrono`'s range.
#[verifier::external_body]
fn ymd_days(year: i32, month: u32, day: u32) -> (r: Option<i32>)
    ensures
        r matches Some(n) ==> valid_date_days(n as int),
        opt_i32_model(r) == chrono_ymd_days(year as int, month as int, day as int),
{
    NaiveDate::from_ymd_opt(year, month, day).map(|d| d.num_days_from_ce())
}

/// `str::parse::<chrono::NaiveDate>`, returning `num_days_from_ce` of the
/// date. Every date it yields lies in `chrono`'s range.
#[verifier::external_body]
fn parse_date_days(s: &str) -> (r: Option<i32>)
    ensures
        r matches Some(n) ==> valid_date_days(n as int),
        opt_i32_model(r) == chrono_parse_date(s@),
{
    s.parse::<NaiveDate>().ok().map(|d| d.num_days_from_ce())
}

/// `chrono::NaiveDate`'s `Display` for the date with day number `days`.
#[verifier::external_body]
fn date_display(days: i32) -> (s: String)
    requires
        valid_date_days(days as int),
    ensures
        s@ == chrono_date_display(days as int),
{
    NaiveDate::from_num_days_from_ce_opt(days).unwrap().to_string()
}

/// `chrono::NaiveDate::format(fmt)` rendered to a `String`.
#[verifier::external_body]
fn date_format(days: i32, fmt: &str) -> (s: String)
    requires
        valid_date_days(days as int),
        date_format_supported(fmt@),
    ensures
        s@ == chrono_date_format(days as int, fmt@),
{
    NaiveDate::from_num_days_from_ce_opt(days).unwrap().format(fmt).to_string()
}

/// `chrono::DateTime::<Utc>::to_rfc3339` of the instant `ms`.
#[verifier::external_body]
pub(crate) fn instant_to_rfc3339(ms: i64) -> (s: String)
    requires
        valid_instant(ms as int),
    ensures
        s@ == chrono_rfc3339(ms as int),
{
    DateTime::<Utc>::from_timestamp_millis(ms).unwrap().to_rfc3339()
}

/// `chrono::DateTime::<Utc>::format(fmt)` of the instant `ms`, rendered to a
/// `String`.
#[verifier::external_body]
pub(crate) fn instant_format(ms: i64, fmt: &str) -> (s: String)
    requires
        valid_instant(ms as int),
        instant_format_supported(fmt@),
    ensures
        s@ == chrono_instant_format(ms as int, fmt@),
{
    DateTime::<Utc>::from_timestamp_millis(ms).unwrap().format(fmt).to_string()
}

/// `chrono::DateTime::parse_from_rfc3339`, returning the instant in ms since
/// the epoch. Every instant it yields lies in `chrono`'s range.
#[verifier::external_body]
pub(crate) fn parse_rfc3339(s: &str) -> (r: Option<i64>)
    ensures
        r matches Some(ms) ==> valid_instant(ms as int),
        opt_i64_model(r) == chrono_parse_rfc3339(s@),
{
    match DateTime::parse_from_rfc3339(s) {
        Ok(dt) => Some(dt.timestamp_millis()),
        Err(_) => None,
    }
}

pub open spec fn opt_i32_model(o: Option<i32>) -> Option<int> {
    match o {
        Some(v) => Some(v as int),
        None => None,
    }
}

pub open spec fn opt_i64_model(o: Option<i64>) -> Option<int> {
    match o {
        Some(v) => Some(v as int),
        None => None,
    }
}

} // verus!

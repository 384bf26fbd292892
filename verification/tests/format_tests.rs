use notion_pomodoro_tracker::calendar::Date;
use notion_pomodoro_tracker::domain::task::Task;
use notion_pomodoro_tracker::ui::format::{humanize_due, priority_dot_class, DueUrgency};

fn d(s: &str) -> Date {
    Date::parse_iso(s).unwrap()
}

#[test]
fn humanize_due_buckets() {
    let today = d("2026-07-10");
    let (text, urgency) = humanize_due(d("2026-07-07"), today);
    assert_eq!(text, "3d late");
    assert_eq!(urgency, DueUrgency::Overdue);
    assert_eq!(humanize_due(today, today).1, DueUrgency::Soon);
    assert_eq!(humanize_due(today, today).0, "Today");
    assert_eq!(humanize_due(d("2026-07-11"), today).0, "Tomorrow");
    assert_eq!(humanize_due(d("2026-07-13"), today).1, DueUrgency::Normal); // weekday
    assert_eq!(humanize_due(d("2026-08-15"), today).0, "Aug 15");
}

#[test]
fn priority_classes() {
    assert_eq!(priority_dot_class("High"), "error");
    assert_eq!(priority_dot_class("Hight"), "error"); // typo tolerated
    assert_eq!(priority_dot_class("Medium"), "warning");
    assert_eq!(priority_dot_class("Low"), "dim-label");
}

#[test]
fn weekday_label_within_a_week() {
    let today = d("2026-07-10");
    assert_eq!(humanize_due(d("2026-07-13"), today).0, "Mon");
    assert_eq!(humanize_due(d("2026-07-16"), today).0, "Thu");
    assert_eq!(humanize_due(d("2026-07-17"), today).0, "Jul 17");
}

#[test]
fn urgency_classes() {
    assert_eq!(DueUrgency::Overdue.css_class(), "error");
    assert_eq!(DueUrgency::Soon.css_class(), "warning");
    assert_eq!(DueUrgency::Normal.css_class(), "dim-label");
    assert_eq!(priority_dot_class("URGENT now"), "error");
}

#[test]
fn dates_from_parts_and_text() {
    let d = Date::from_ymd(2026, 7, 15).unwrap();
    assert_eq!(d.to_iso_string(), "2026-07-15");
    assert_eq!(Date::parse_iso("2026-07-15"), Some(d));
    assert_eq!(Date::from_ymd(2026, 2, 30), None);
    assert_eq!(Date::parse_iso("15/07/2026"), None);
    assert_eq!(d.format("%b %-d, %Y"), "Jul 15, 2026");
    assert_eq!(d.days_since(Date::from_ymd(2026, 7, 1).unwrap()), 14);
    assert_eq!(Date::from_days_from_ce(d.days_from_ce()), Some(d));
}

#[test]
fn new_tasks_get_distinct_ids() {
    let a = Task::new_local("a", 0);
    let b = Task::new_local("b", 0);
    assert_eq!(a.id.len(), 36);
    assert_ne!(a.id, b.id);
}

#[test]
fn earliest_and_latest_dates_render() {
    let first = Date::from_days_from_ce(-95746129).unwrap();
    assert_eq!(first.to_iso_string(), "-262143-01-01");
    assert!(Date::from_days_from_ce(-95746130).is_none());
    let last = Date::from_days_from_ce(95745399).unwrap();
    assert_eq!(last.to_iso_string(), "+262142-12-31");
    assert!(Date::from_days_from_ce(95745400).is_none());
}

#[test]
fn new_task_ids_are_version_four_uuids() {
    let t = Task::new_local("A", 0);
    let id: Vec<char> = t.id.chars().collect();
    assert_eq!(id.len(), 36);
    for (i, c) in id.iter().enumerate() {
        if [8, 13, 18, 23].contains(&i) {
            assert_eq!(*c, '-');
        } else {
            assert!(c.is_ascii_hexdigit() && !c.is_ascii_uppercase());
        }
    }
    assert_eq!(id[14], '4');
    assert!(['8', '9', 'a', 'b'].contains(&id[19]));
}

#[test]
fn day_numbers_follow_the_gregorian_calendar() {
    assert_eq!(Date::from_ymd(2026, 7, 10).unwrap().days_from_ce(), 739807);
    assert_eq!(Date::from_ymd(2024, 2, 29).unwrap().days_from_ce(), 738945);
    assert_eq!(Date::from_ymd(1, 1, 1).unwrap().days_from_ce(), 1);
    assert!(Date::from_ymd(2023, 2, 29).is_none());
    assert!(Date::from_ymd(2026, 13, 1).is_none());
}

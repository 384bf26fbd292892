//! Settings: defaults, what the store gives back, validation.
use notion_pomodoro_tracker::application::settings_service::{
    auto_sync_text, default_status_type, settings_from_stored, validate, PropertyMappings, Settings,
};
use notion_pomodoro_tracker::domain::pomodoro::{Timer, TimerConfig};

/// What saving writes for each setting, as the store holds it.
fn stored(s: &Settings) -> (Option<TimerConfig>, Option<String>, Option<PropertyMappings>, Option<String>) {
    (
        Some(s.timer),
        Some(s.notion_database_id.clone()),
        Some(s.mappings.clone()),
        Some(auto_sync_text(s.auto_sync_enabled).to_string()),
    )
}

#[test]
fn settings_round_trip() {
    let mut s = Settings::default();
    s.timer.pomodoro_minutes = 50;
    s.notion_database_id = "abc123".into();
    s.mappings.priority = String::new();
    s.auto_sync_enabled = true;
    let (t, d, m, a) = stored(&s);
    assert_eq!(settings_from_stored(t, d, m, a), s);
}

#[test]
fn defaults_when_unset() {
    assert_eq!(settings_from_stored(None, None, None, None), Settings::default());
}

#[test]
fn validation_rejects_zero_durations_and_missing_required_mappings() {
    let mut s = Settings::default();
    assert!(validate(&s).is_empty());
    s.timer.pomodoro_minutes = 0;
    s.mappings.title = String::new();
    let problems = validate(&s);
    assert_eq!(problems.len(), 2);
}

#[test]
fn timer_state_round_trip() {
    let mut timer = Timer::default();
    timer.start("task-9", chrono::Utc::now().timestamp_millis());
    assert_eq!(Timer::from_parts(timer.to_parts()), timer);
}

#[test]
fn validation_messages_in_order() {
    let mut s = Settings::default();
    s.timer.short_break_minutes = 241;
    s.timer.pomodoros_until_long_break = 0;
    s.mappings.status = "   ".into();
    assert_eq!(
        validate(&s),
        vec![
            "Short break must be between 1 and 240".to_string(),
            "Pomodoros until long break must be between 1 and 240".to_string(),
            "Status property mapping is required".to_string(),
        ]
    );
}

#[test]
fn stored_auto_sync_must_say_true() {
    let d = settings_from_stored(None, None, None, Some("yes".into()));
    assert!(!d.auto_sync_enabled);
    assert_eq!(auto_sync_text(true), "true");
    assert_eq!(auto_sync_text(false), "false");
}

#[test]
fn default_mappings() {
    let m = PropertyMappings::default();
    assert_eq!(m.title, "Name");
    assert_eq!(m.status, "Status");
    assert_eq!(m.status_type, default_status_type());
    assert_eq!(m.due_date, "Due");
    assert_eq!(m.last_synced, "Last Synced");
}

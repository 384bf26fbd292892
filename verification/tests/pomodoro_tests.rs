use chrono::{TimeZone, Utc};
use notion_pomodoro_tracker::domain::pomodoro::{Phase, RunState, Timer, TimerConfig, TimerEvent};

const MINUTE: i64 = 60_000;

fn t0() -> i64 {
    Utc.with_ymd_and_hms(2026, 1, 1, 9, 0, 0).unwrap().timestamp_millis()
}

fn cfg() -> TimerConfig {
    TimerConfig::default()
}

#[test]
fn starts_running_work_phase() {
    let mut timer = Timer::default();
    timer.start("task-1", t0());
    assert_eq!(timer.run_state(), RunState::Running);
    assert_eq!(timer.phase(), Phase::Work);
    assert_eq!(timer.remaining(t0(), &cfg()), 25 * MINUTE);
}

#[test]
fn remaining_derives_from_wall_clock() {
    let mut timer = Timer::default();
    timer.start("task-1", t0());
    // 10 minutes pass with zero ticks (app minimized) — still accurate.
    let later = t0() + 10 * MINUTE;
    assert_eq!(timer.remaining(later, &cfg()), 15 * MINUTE);
}

#[test]
fn pause_freezes_and_resume_continues() {
    let mut timer = Timer::default();
    timer.start("task-1", t0());
    timer.pause(t0() + 5 * MINUTE);
    // Paused for an hour: remaining unchanged.
    let after_pause = t0() + 65 * MINUTE;
    assert_eq!(timer.remaining(after_pause, &cfg()), 20 * MINUTE);
    timer.resume(after_pause);
    assert_eq!(timer.remaining(after_pause + 20 * MINUTE, &cfg()), 0);
}

#[test]
fn pause_when_not_running_is_noop() {
    let mut timer = Timer::default();
    timer.pause(t0());
    assert_eq!(timer.run_state(), RunState::Idle);
    timer.resume(t0());
    assert_eq!(timer.run_state(), RunState::Idle);
}

#[test]
fn tick_completes_pomodoro_and_starts_short_break() {
    let mut timer = Timer::default();
    timer.start("task-1", t0());
    let end = t0() + 25 * MINUTE;
    assert_eq!(timer.tick(t0() + 24 * MINUTE, &cfg()), None);
    let event = timer.tick(end, &cfg()).unwrap();
    assert_eq!(
        event,
        TimerEvent::PomodoroCompleted { task_id: "task-1".into(), minutes: 25 }
    );
    assert_eq!(timer.phase(), Phase::ShortBreak);
    assert_eq!(timer.run_state(), RunState::Running);
    assert_eq!(timer.cycle_count(), 1);
    assert_eq!(timer.remaining(end, &cfg()), 5 * MINUTE);
}

#[test]
fn long_break_after_four_pomodoros() {
    let mut timer = Timer::default();
    let mut now = t0();
    for i in 1..=4 {
        timer.start("task-1", now);
        now += 25 * MINUTE;
        timer.tick(now, &cfg()).unwrap();
        if i < 4 {
            assert_eq!(timer.phase(), Phase::ShortBreak);
            now += 5 * MINUTE;
            assert_eq!(timer.tick(now, &cfg()), Some(TimerEvent::BreakFinished { was_long: false }));
        }
    }
    assert_eq!(timer.phase(), Phase::LongBreak);
}

#[test]
fn break_finish_returns_to_idle_work() {
    let mut timer = Timer::default();
    timer.start("task-1", t0());
    let mut now = t0() + 25 * MINUTE;
    timer.tick(now, &cfg());
    now += 5 * MINUTE;
    let event = timer.tick(now, &cfg()).unwrap();
    assert_eq!(event, TimerEvent::BreakFinished { was_long: false });
    assert_eq!(timer.phase(), Phase::Work);
    assert_eq!(timer.run_state(), RunState::Idle);
}

#[test]
fn manual_complete_counts_actual_minutes() {
    let mut timer = Timer::default();
    timer.start("task-1", t0());
    let event = timer.complete_pomodoro(t0() + 17 * MINUTE, &cfg()).unwrap();
    assert_eq!(
        event,
        TimerEvent::PomodoroCompleted { task_id: "task-1".into(), minutes: 17 }
    );
    assert_eq!(timer.phase(), Phase::ShortBreak);
}

#[test]
fn stop_returns_partial_work_minutes_and_resets() {
    let mut timer = Timer::default();
    timer.start("task-1", t0());
    let focused = timer.stop(t0() + 12 * MINUTE);
    assert_eq!(focused, 12);
    assert_eq!(timer.run_state(), RunState::Idle);
    assert_eq!(timer.remaining(t0(), &cfg()), 25 * MINUTE);
}

#[test]
fn stop_during_break_records_nothing() {
    let mut timer = Timer::default();
    timer.start("task-1", t0());
    timer.tick(t0() + 25 * MINUTE, &cfg());
    assert_eq!(timer.stop(t0() + 27 * MINUTE), 0);
}

#[test]
fn survives_serialization_round_trip() {
    let mut timer = Timer::default();
    timer.start("task-1", t0());
    timer.pause(t0() + 3 * MINUTE);
    let restored = Timer::from_parts(timer.to_parts());
    assert_eq!(restored, timer);
    assert_eq!(restored.remaining(t0() + 120 * MINUTE, &cfg()), 22 * MINUTE);
}

#[test]
fn paused_timer_reports_same_remaining_later() {
    let mut timer = Timer::default();
    timer.start("task-1", t0());
    timer.pause(t0() + 7 * MINUTE);
    let a = timer.remaining(t0() + 8 * MINUTE, &cfg());
    let b = timer.remaining(t0() + 500 * MINUTE, &cfg());
    assert_eq!(a, 18 * MINUTE);
    assert_eq!(a, b);
}

#[test]
fn tick_before_the_end_changes_nothing() {
    let mut timer = Timer::default();
    timer.start("task-1", t0());
    let before = timer.clone();
    assert_eq!(timer.tick(t0() + 25 * MINUTE - 1, &cfg()), None);
    assert_eq!(timer, before);
}

#[test]
fn complete_while_idle_does_nothing() {
    let mut timer = Timer::default();
    assert_eq!(timer.complete_pomodoro(t0(), &cfg()), None);
    assert_eq!(timer, Timer::default());
}

#[test]
fn default_config_durations() {
    let c = TimerConfig::default();
    assert_eq!(c.pomodoro_minutes, 25);
    assert_eq!(c.short_break_minutes, 5);
    assert_eq!(c.long_break_minutes, 15);
    assert_eq!(c.pomodoros_until_long_break, 4);
}

#[test]
fn long_break_end_resets_cycle_count() {
    let mut timer = Timer::default();
    let mut now = t0();
    for i in 1..=4 {
        timer.start("task-1", now);
        now += 25 * MINUTE;
        timer.tick(now, &cfg()).unwrap();
        if i < 4 {
            now += 5 * MINUTE;
            timer.tick(now, &cfg()).unwrap();
            assert_eq!(timer.cycle_count(), i);
        }
    }
    assert_eq!(timer.phase(), Phase::LongBreak);
    assert_eq!(timer.cycle_count(), 4);
    now += 15 * MINUTE;
    assert_eq!(
        timer.tick(now, &cfg()),
        Some(TimerEvent::BreakFinished { was_long: true })
    );
    assert_eq!(timer.cycle_count(), 0);
    assert_eq!(timer.phase(), Phase::Work);
    assert_eq!(timer.run_state(), RunState::Idle);
}

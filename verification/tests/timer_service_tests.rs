//! The timer service: what each transition credits to the task.
use chrono::{TimeZone, Utc};
use notion_pomodoro_tracker::application::task_service::create;
use notion_pomodoro_tracker::application::timer_service::{ProgressCredit, TimerService};
use notion_pomodoro_tracker::domain::pomodoro::{Phase, RunState, Timer, TimerConfig, TimerEvent};
use notion_pomodoro_tracker::domain::task::Task;
use notion_pomodoro_tracker::domain::time_session::{SessionKind, TimeSession};

const MINUTE: i64 = 60_000;

fn t0() -> i64 {
    Utc.with_ymd_and_hms(2026, 1, 1, 9, 0, 0).unwrap().timestamp_millis()
}

/// Apply a credit the way the store does: add the counts, mark the task
/// dirty, keep the session.
fn apply(task: &mut Task, sessions: &mut Vec<TimeSession>, credit: Option<ProgressCredit>, now: i64) {
    if let Some(c) = credit {
        task.pomodoro_count += c.pomodoros;
        task.tracked_minutes = (task.tracked_minutes as i64 + c.minutes) as u32;
        task.dirty = true;
        task.updated_at = now;
        sessions.push(c.session);
    }
}

#[test]
fn completed_pomodoro_updates_task_and_records_session() {
    let mut task = create("T", t0());
    let mut sessions = Vec::new();
    let mut svc = TimerService::restore(Timer::default(), TimerConfig::default());

    svc.start(&task.id, t0());
    let step = svc.tick(t0() + 25 * MINUTE, true);
    assert!(matches!(step.event, Some(TimerEvent::PomodoroCompleted { .. })));
    apply(&mut task, &mut sessions, step.credit, t0() + 25 * MINUTE);

    assert_eq!(task.pomodoro_count, 1);
    assert_eq!(task.tracked_minutes, 25);
    assert!(task.dirty);
    assert_eq!(sessions.len(), 1);
    assert_eq!(sessions[0].minutes, 25);
    assert_eq!(sessions[0].started_at, t0());
}

#[test]
fn timer_state_survives_restart() {
    let task = create("T", t0());
    let saved = {
        let mut svc = TimerService::restore(Timer::default(), TimerConfig::default());
        svc.start(&task.id, t0());
        svc.pause(t0() + 10 * MINUTE);
        svc.timer.to_parts()
    };
    // "Reopen" the app.
    let svc = TimerService::restore(Timer::from_parts(saved), TimerConfig::default());
    assert_eq!(svc.timer.run_state(), RunState::Paused);
    assert_eq!(svc.timer.remaining(t0() + 300 * MINUTE, &svc.config), 15 * MINUTE);
}

#[test]
fn stop_records_partial_session_without_pomodoro_credit() {
    let mut task = create("T", t0());
    let mut sessions = Vec::new();
    let mut svc = TimerService::restore(Timer::default(), TimerConfig::default());
    svc.start(&task.id, t0());
    let credit = svc.stop(t0() + 9 * MINUTE, true);
    apply(&mut task, &mut sessions, credit, t0() + 9 * MINUTE);

    assert_eq!(task.pomodoro_count, 0);
    assert_eq!(task.tracked_minutes, 9);
    assert_eq!(sessions.len(), 1);
    assert_eq!(sessions[0].kind, SessionKind::Pomodoro);
    assert_eq!(svc.timer.run_state(), RunState::Idle);
}

#[test]
fn break_runs_after_completion() {
    let mut task = create("T", t0());
    let mut sessions = Vec::new();
    let mut svc = TimerService::restore(Timer::default(), TimerConfig::default());
    svc.start(&task.id, t0());
    let step = svc.tick(t0() + 25 * MINUTE, true);
    apply(&mut task, &mut sessions, step.credit, t0() + 25 * MINUTE);
    assert_eq!(svc.timer.phase(), Phase::ShortBreak);
    let step = svc.tick(t0() + 30 * MINUTE, true);
    assert_eq!(step.event, Some(TimerEvent::BreakFinished { was_long: false }));
    // Break completion must not add pomodoros.
    assert!(step.credit.is_none());
    apply(&mut task, &mut sessions, step.credit, t0() + 30 * MINUTE);
    assert_eq!(task.pomodoro_count, 1);
}

#[test]
fn removed_task_earns_nothing() {
    let mut svc = TimerService::restore(Timer::default(), TimerConfig::default());
    svc.start("gone", t0());
    let step = svc.tick(t0() + 25 * MINUTE, false);
    assert!(step.event.is_some());
    assert!(step.credit.is_none());
    svc.start("gone", t0() + 40 * MINUTE);
    assert!(svc.stop(t0() + 50 * MINUTE, false).is_none());
}

#[test]
fn early_completion_credits_minutes_worked() {
    let mut svc = TimerService::restore(Timer::default(), TimerConfig::default());
    svc.start("t", t0());
    let step = svc.complete_pomodoro(t0() + 12 * MINUTE, true);
    let c = step.credit.unwrap();
    assert_eq!((c.pomodoros, c.minutes), (1, 12));
    assert_eq!(c.session.started_at, t0());
    assert_eq!(c.session.ended_at, t0() + 12 * MINUTE);
}

//! What the timer panel shows: the countdown, the phase, the cycle, and
//! which controls are offered.
use crate::domain::pomodoro::{Phase, RunState, Timer, TimerConfig};
use crate::text::{decimal, i64_to_string};
use crate::ui::components::task_detail::two_digits;
use vstd::prelude::*;

verus! {

/// The timer panel's contents.
pub struct TimerDisplay {
    /// Time left, as minutes and seconds (`mm:ss`).
    pub time: String,
    pub phase: &'static str,
    pub cycle: String,
    pub start_visible: bool,
    pub start_enabled: bool,
    pub pause_visible: bool,
    pub resume_visible: bool,
    pub stop_visible: bool,
    pub complete_visible: bool,
}

/// The phase label, and whether the timer is in a work phase that has
/// started.
pub open spec fn phase_label(phase: Phase, run: RunState) -> (Seq<char>, bool) {
    match (phase, run) {
        (_, RunState::Idle) => ("Ready"@, false),
        (Phase::Work, RunState::Paused) => ("Focus — paused"@, true),
        (Phase::Work, RunState::Running) => ("Focus"@, true),
        (Phase::ShortBreak, _) => ("Short break"@, false),
        (Phase::LongBreak, _) => ("Long break"@, false),
    }
}

/// Whole seconds shown as `mm:ss`.
pub open spec fn clock_text(secs: int) -> Seq<char> {
    two_digits(secs / 60) + ":"@ + two_digits(secs % 60)
}

/// How far into the cycle towards a long break the timer is.
pub open spec fn cycle_text(cycle_count: int, until_long: int) -> Seq<char> {
    decimal(cycle_count % until_long) + " of "@ + decimal(until_long)
        + " pomodoros until long break"@
}

fn append_two_digits(s: &mut String, n: i64)
    requires
        n >= 0,
    ensures
        final(s)@ == old(s)@ + two_digits(n as int),
{
    if n < 10 {
        s.append("0");
    }
    s.append(i64_to_string(n).as_str());
}

fn phase_text(phase: Phase, run: RunState) -> (r: (&'static str, bool))
    ensures
        (r.0@, r.1) == phase_label(phase, run),
{
    match (phase, run) {
        (_, RunState::Idle) => ("Ready", false),
        (Phase::Work, RunState::Paused) => ("Focus — paused", true),
        (Phase::Work, RunState::Running) => ("Focus", true),
        (Phase::ShortBreak, _) => ("Short break", false),
        (Phase::LongBreak, _) => ("Long break", false),
    }
}

/// The panel for `timer` at `now`; `has_task` is whether a task is
/// selected (starting needs one).
pub fn timer_display(timer: &Timer, config: &TimerConfig, now: i64, has_task: bool) -> (d:
    TimerDisplay)
    requires
        timer@.remaining_ok(now as int, *config),
        config.pomodoros_until_long_break > 0,
    ensures
        d.time@ == clock_text(timer@.remaining(now as int, *config) / 1000),
        d.phase@ == phase_label(timer@.phase, timer@.run_state).0,
        d.cycle@ == cycle_text(
            timer@.cycle_count as int,
            config.pomodoros_until_long_break as int,
        ),
        d.start_visible == (timer@.run_state == RunState::Idle),
        d.start_enabled == has_task,
        d.pause_visible == (timer@.run_state == RunState::Running),
        d.resume_visible == (timer@.run_state == RunState::Paused),
        d.stop_visible == (timer@.run_state != RunState::Idle),
        d.complete_visible == (timer@.run_state != RunState::Idle && phase_label(
            timer@.phase,
            timer@.run_state,
        ).1),
{
    let remaining = timer.remaining(now, config) / 1000;
    let mut time = String::new();
    append_two_digits(&mut time, remaining / 60);
    time.append(":");
    append_two_digits(&mut time, remaining % 60);
    let run = timer.run_state();
    let (phase, in_work) = phase_text(timer.phase(), run);
    let until = config.pomodoros_until_long_break;
    let mut cycle = i64_to_string((timer.cycle_count() % until) as i64);
    cycle.append(" of ");
    cycle.append(i64_to_string(until as i64).as_str());
    cycle.append(" pomodoros until long break");
    let running = match run {
        RunState::Running => true,
        _ => false,
    };
    let paused = match run {
        RunState::Paused => true,
        _ => false,
    };
    let idle = match run {
        RunState::Idle => true,
        _ => false,
    };
    TimerDisplay {
        time,
        phase,
        cycle,
        start_visible: idle,
        start_enabled: has_task,
        pause_visible: running,
        resume_visible: paused,
        stop_visible: running || paused,
        complete_visible: (running || paused) && in_work,
    }
}

} // verus!

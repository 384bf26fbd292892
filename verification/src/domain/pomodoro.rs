//! Pure Pomodoro timer state machine. No I/O, no wall clock: every method
//! that depends on time takes `now` (ms since the epoch), so remaining time is
//! derived from timestamps, never from tick counting.
use crate::calendar::{span_minutes, span_seconds, valid_instant, valid_span, whole_minutes, whole_seconds};
use crate::text::clone_opt_string;
use vstd::prelude::*;

verus! {

/// Lengths of the three phases and of a cycle.
#[derive(Debug, Clone, Copy, PartialEq, Eq, Structural)]
pub struct TimerConfig {
    pub pomodoro_minutes: u32,
    pub short_break_minutes: u32,
    pub long_break_minutes: u32,
    pub pomodoros_until_long_break: u32,
}

impl Default for TimerConfig {
    fn default() -> (c: Self)
        ensures
            c.pomodoro_minutes == 25,
            c.short_break_minutes == 5,
            c.long_break_minutes == 15,
            c.pomodoros_until_long_break == 4,
    {
        TimerConfig {
            pomodoro_minutes: 25,
            short_break_minutes: 5,
            long_break_minutes: 15,
            pomodoros_until_long_break: 4,
        }
    }
}

#[derive(Debug, Clone, Copy, PartialEq, Eq, Structural)]
pub enum Phase {
    Work,
    ShortBreak,
    LongBreak,
}

#[derive(Debug, Clone, Copy, PartialEq, Eq, Structural)]
pub enum RunState {
    Idle,
    Running,
    Paused,
}

/// Events emitted by `tick`/`complete_pomodoro` for the caller to act on
/// (persist session, notify, etc.).
#[derive(Debug, Clone, PartialEq)]
pub enum TimerEvent {
    PomodoroCompleted { task_id: String, minutes: i64 },
    BreakFinished { was_long: bool },
}

/// What a `TimerEvent` says, as mathematical values.
pub enum EventModel {
    PomodoroCompleted { task_id: Seq<char>, minutes: int },
    BreakFinished { was_long: bool },
}

impl TimerEvent {
    pub open spec fn model(&self) -> EventModel {
        match self {
            TimerEvent::PomodoroCompleted { task_id, minutes } => EventModel::PomodoroCompleted {
                task_id: task_id@,
                minutes: *minutes as int,
            },
            TimerEvent::BreakFinished { was_long } => EventModel::BreakFinished {
                was_long: *was_long,
            },
        }
    }
}

pub open spec fn event_model(e: Option<TimerEvent>) -> Option<EventModel> {
    match e {
        Some(ev) => Some(ev.model()),
        None => None,
    }
}

/// The state of a `Timer`, as mathematical values.
pub struct TimerModel {
    pub phase: Phase,
    pub run_state: RunState,
    pub task_id: Option<Seq<char>>,
    pub cycle_count: nat,
    pub started_at: Option<int>,
    pub accumulated_secs: int,
    pub work_started_at: Option<int>,
}

pub open spec fn opt_str_model(o: Option<String>) -> Option<Seq<char>> {
    match o {
        Some(s) => Some(s@),
        None => None,
    }
}

pub open spec fn opt_int_model(o: Option<i64>) -> Option<int> {
    match o {
        Some(v) => Some(v as int),
        None => None,
    }
}

pub open spec fn max0(x: int) -> int {
    if x > 0 {
        x
    } else {
        0
    }
}

/// `n` divides `c`, with Rust's `u32::is_multiple_of` convention for `n == 0`.
pub open spec fn is_multiple_of(c: nat, n: nat) -> bool {
    if n == 0 {
        c == 0
    } else {
        c % n == 0
    }
}

pub open spec fn phase_minutes(phase: Phase, config: TimerConfig) -> int {
    match phase {
        Phase::Work => config.pomodoro_minutes as int,
        Phase::ShortBreak => config.short_break_minutes as int,
        Phase::LongBreak => config.long_break_minutes as int,
    }
}

impl TimerModel {
    /// A freshly created timer: idle, at the start of a work phase.
    pub open spec fn initial() -> TimerModel {
        TimerModel {
            phase: Phase::Work,
            run_state: RunState::Idle,
            task_id: None,
            cycle_count: 0,
            started_at: None,
            accumulated_secs: 0,
            work_started_at: None,
        }
    }

    /// Milliseconds the current phase has run since it was last (re)started.
    pub open spec fn running_span(self, now: int) -> int {
        match (self.run_state, self.started_at) {
            (RunState::Running, Some(start)) => now - start,
            _ => 0,
        }
    }

    /// Milliseconds elapsed in the current phase.
    pub open spec fn elapsed(self, now: int) -> int {
        self.accumulated_secs * 1000 + self.running_span(now)
    }

    /// Length of the current phase in milliseconds.
    pub open spec fn phase_duration(self, config: TimerConfig) -> int {
        phase_minutes(self.phase, config) * 60000
    }

    /// Milliseconds left in the current phase, never negative.
    pub open spec fn remaining(self, now: int, config: TimerConfig) -> int {
        max0(self.phase_duration(config) - self.elapsed(now))
    }

    /// The stored instants are instants a UTC date-time can hold.
    pub open spec fn instants_valid(self) -> bool {
        &&& (self.started_at matches Some(s) ==> valid_instant(s))
        &&& (self.work_started_at matches Some(s) ==> valid_instant(s))
    }

    /// `elapsed(now)` can be computed: the accumulated seconds and the total
    /// both fit in a `chrono::TimeDelta`.
    pub open spec fn elapsed_ok(self, now: int) -> bool {
        &&& valid_instant(now)
        &&& self.instants_valid()
        &&& -(i64::MAX / 1000) <= self.accumulated_secs <= i64::MAX / 1000
        &&& valid_span(self.elapsed(now))
    }

    /// `remaining(now)` can be computed: on top of `elapsed_ok`, the
    /// difference from the phase length fits in a `chrono::TimeDelta`.
    pub open spec fn remaining_ok(self, now: int, config: TimerConfig) -> bool {
        &&& self.elapsed_ok(now)
        &&& valid_span(self.phase_duration(config) - self.elapsed(now))
    }

    /// Start a work phase on `task_id`.
    pub open spec fn start(self, task_id: Seq<char>, now: int) -> TimerModel {
        TimerModel {
            phase: Phase::Work,
            run_state: RunState::Running,
            task_id: Some(task_id),
            started_at: Some(now),
            accumulated_secs: 0,
            work_started_at: Some(now),
            ..self
        }
    }

    /// Freeze a running phase, keeping the whole seconds elapsed so far.
    pub open spec fn pause(self, now: int) -> TimerModel {
        if self.run_state != RunState::Running {
            self
        } else {
            TimerModel {
                accumulated_secs: span_seconds(self.elapsed(now)),
                started_at: None,
                run_state: RunState::Paused,
                ..self
            }
        }
    }

    /// Continue a paused phase from `now`.
    pub open spec fn resume(self, now: int) -> TimerModel {
        if self.run_state != RunState::Paused {
            self
        } else {
            TimerModel { started_at: Some(now), run_state: RunState::Running, ..self }
        }
    }

    /// Minutes of focused work that stopping now records.
    pub open spec fn stop_minutes(self, now: int) -> int {
        if self.phase == Phase::Work && self.run_state != RunState::Idle {
            span_minutes(self.elapsed(now))
        } else {
            0
        }
    }

    /// The state after stopping: idle work phase, same task and cycle.
    pub open spec fn stopped(self) -> TimerModel {
        TimerModel { cycle_count: self.cycle_count, task_id: self.task_id, ..TimerModel::initial() }
    }

    /// The phase that follows the pomodoro that completes now.
    pub open spec fn break_after_work(self, config: TimerConfig) -> Phase {
        if is_multiple_of(self.cycle_count + 1, config.pomodoros_until_long_break as nat) {
            Phase::LongBreak
        } else {
            Phase::ShortBreak
        }
    }

    /// State after a work phase finishes: the break starts running now.
    pub open spec fn finish_work(self, now: int, config: TimerConfig) -> TimerModel {
        TimerModel {
            cycle_count: self.cycle_count + 1,
            phase: self.break_after_work(config),
            run_state: RunState::Running,
            started_at: Some(now),
            accumulated_secs: 0,
            work_started_at: None,
            ..self
        }
    }

    /// Event of a work phase that finishes now.
    pub open spec fn work_event(self, now: int) -> EventModel {
        EventModel::PomodoroCompleted {
            task_id: match self.task_id {
                Some(t) => t,
                None => Seq::empty(),
            },
            minutes: span_minutes(self.elapsed(now)),
        }
    }

    /// State after a break finishes: an idle work phase; a long break ends
    /// the cycle, so the count starts again from zero.
    pub open spec fn finish_break(self) -> TimerModel {
        TimerModel {
            cycle_count: if self.phase == Phase::LongBreak {
                0
            } else {
                self.cycle_count
            },
            phase: Phase::Work,
            run_state: RunState::Idle,
            started_at: None,
            accumulated_secs: 0,
            ..self
        }
    }

    /// `tick` fires: the phase is running and no time remains.
    pub open spec fn tick_fires(self, now: int, config: TimerConfig) -> bool {
        self.run_state == RunState::Running && self.remaining(now, config) <= 0
    }

    /// State after `tick(now)`.
    pub open spec fn tick(self, now: int, config: TimerConfig) -> TimerModel {
        if !self.tick_fires(now, config) {
            self
        } else if self.phase == Phase::Work {
            self.finish_work(now, config)
        } else {
            self.finish_break()
        }
    }

    /// Event reported by `tick(now)`.
    pub open spec fn tick_event(self, now: int, config: TimerConfig) -> Option<EventModel> {
        if !self.tick_fires(now, config) {
            None
        } else if self.phase == Phase::Work {
            Some(self.work_event(now))
        } else {
            Some(EventModel::BreakFinished { was_long: self.phase == Phase::LongBreak })
        }
    }

    /// Whether an early "Complete Pomodoro" applies: a started work phase.
    pub open spec fn can_complete(self) -> bool {
        self.phase == Phase::Work && self.run_state != RunState::Idle
    }
}

/// The Pomodoro timer.
#[derive(Debug, Clone, PartialEq)]
pub struct Timer {
    pub phase: Phase,
    pub run_state: RunState,
    pub task_id: Option<String>,
    /// Pomodoros completed in the current cycle (resets after a long break).
    pub cycle_count: u32,
    started_at: Option<i64>,
    /// Seconds elapsed in the current phase before the last pause.
    accumulated_secs: i64,
    /// When the current work phase actually began (for session records).
    work_started_at: Option<i64>,
}

impl View for Timer {
    type V = TimerModel;

    closed spec fn view(&self) -> TimerModel {
        TimerModel {
            phase: self.phase,
            run_state: self.run_state,
            task_id: opt_str_model(self.task_id),
            cycle_count: self.cycle_count as nat,
            started_at: opt_int_model(self.started_at),
            accumulated_secs: self.accumulated_secs as int,
            work_started_at: opt_int_model(self.work_started_at),
        }
    }
}

/// Stored form of a `Timer`, field by field, for persisting and restoring it.
#[derive(Debug, Clone, PartialEq)]
pub struct TimerParts {
    pub phase: Phase,
    pub run_state: RunState,
    pub task_id: Option<String>,
    pub cycle_count: u32,
    pub started_at: Option<i64>,
    pub accumulated_secs: i64,
    pub work_started_at: Option<i64>,
}

impl Default for Timer {
    fn default() -> (t: Self)
        ensures
            t@ == TimerModel::initial(),
    {
        Timer {
            phase: Phase::Work,
            run_state: RunState::Idle,
            task_id: None,
            cycle_count: 0,
            started_at: None,
            accumulated_secs: 0,
            work_started_at: None,
        }
    }
}

impl Timer {
    /// Rebuild a timer from its stored fields.
    pub fn from_parts(p: TimerParts) -> (t: Timer)
        ensures
            t@ == (TimerModel {
                phase: p.phase,
                run_state: p.run_state,
                task_id: opt_str_model(p.task_id),
                cycle_count: p.cycle_count as nat,
                started_at: opt_int_model(p.started_at),
                accumulated_secs: p.accumulated_secs as int,
                work_started_at: opt_int_model(p.work_started_at),
            }),
    {
        Timer {
            phase: p.phase,
            run_state: p.run_state,
            task_id: p.task_id,
            cycle_count: p.cycle_count,
            started_at: p.started_at,
            accumulated_secs: p.accumulated_secs,
            work_started_at: p.work_started_at,
        }
    }

    /// The stored fields of this timer.
    pub fn to_parts(&self) -> (p: TimerParts)
        ensures
            p.phase == self@.phase,
            p.run_state == self@.run_state,
            opt_str_model(p.task_id) == self@.task_id,
            p.cycle_count == self@.cycle_count,
            opt_int_model(p.started_at) == self@.started_at,
            p.accumulated_secs == self@.accumulated_secs,
            opt_int_model(p.work_started_at) == self@.work_started_at,
    {
        TimerParts {
            phase: self.phase,
            run_state: self.run_state,
            task_id: clone_opt_string(&self.task_id),
            cycle_count: self.cycle_count,
            started_at: self.started_at,
            accumulated_secs: self.accumulated_secs,
            work_started_at: self.work_started_at,
        }
    }

    /// Whether `elapsed(now)` can be computed (see `TimerModel::elapsed_ok`).
    pub fn elapsed_ok(&self, now: i64) -> (b: bool)
        ensures
            b == self@.elapsed_ok(now as int),
    {
        let s_ok = match self.started_at {
            Some(s) => crate::calendar::MIN_INSTANT_MS <= s && s <= crate::calendar::MAX_INSTANT_MS,
            None => true,
        };
        let w_ok = match self.work_started_at {
            Some(s) => crate::calendar::MIN_INSTANT_MS <= s && s <= crate::calendar::MAX_INSTANT_MS,
            None => true,
        };
        let now_ok = crate::calendar::MIN_INSTANT_MS <= now && now <= crate::calendar::MAX_INSTANT_MS;
        let acc_ok = -(i64::MAX / 1000) <= self.accumulated_secs && self.accumulated_secs
            <= i64::MAX / 1000;
        if !(s_ok && w_ok && now_ok && acc_ok) {
            return false;
        }
        let running: i128 = match (self.run_state, self.started_at) {
            (RunState::Running, Some(start)) => now as i128 - start as i128,
            _ => 0,
        };
        let total: i128 = self.accumulated_secs as i128 * 1000 + running;
        -(i64::MAX as i128) <= total && total <= i64::MAX as i128
    }

    /// Whether `remaining(now)` can be computed (see `TimerModel::remaining_ok`).
    pub fn remaining_ok(&self, now: i64, config: &TimerConfig) -> (b: bool)
        ensures
            b == self@.remaining_ok(now as int, *config),
    {
        if !self.elapsed_ok(now) {
            return false;
        }
        let d = self.phase_duration(config);
        let e = self.elapsed(now);
        d as i128 - e as i128 <= i64::MAX as i128
    }

    /// Length of the current phase, in ms.
    pub fn phase_duration(&self, config: &TimerConfig) -> (d: i64)
        ensures
            d == self@.phase_duration(*config),
            0 <= d <= u32::MAX * 60000,
    {
        let minutes = match self.phase {
            Phase::Work => config.pomodoro_minutes,
            Phase::ShortBreak => config.short_break_minutes,
            Phase::LongBreak => config.long_break_minutes,
        };
        minutes as i64 * 60000
    }

    /// Milliseconds elapsed in the current phase.
    pub fn elapsed(&self, now: i64) -> (e: i64)
        requires
            self@.elapsed_ok(now as int),
        ensures
            e == self@.elapsed(now as int),
    {
        let running = match (self.run_state, self.started_at) {
            (RunState::Running, Some(start)) => now - start,
            _ => 0,
        };
        self.accumulated_secs * 1000 + running
    }

    /// Milliseconds left in the current phase (never negative).
    pub fn remaining(&self, now: i64, config: &TimerConfig) -> (r: i64)
        requires
            self@.remaining_ok(now as int, *config),
        ensures
            r == self@.remaining(now as int, *config),
    {
        let left = self.phase_duration(config) - self.elapsed(now);
        if left > 0 {
            left
        } else {
            0
        }
    }

    /// Start a work phase on `task_id` from Idle (or restart after stop).
    pub fn start(&mut self, task_id: &str, now: i64)
        ensures
            final(self)@ == old(self)@.start(task_id@, now as int),
    {
        self.phase = Phase::Work;
        self.run_state = RunState::Running;
        self.task_id = Some(task_id.to_owned());
        self.started_at = Some(now);
        self.accumulated_secs = 0;
        self.work_started_at = Some(now);
    }

    /// Freeze a running phase; a no-op unless running.
    pub fn pause(&mut self, now: i64)
        requires
            old(self)@.run_state == RunState::Running ==> old(self)@.elapsed_ok(now as int),
        ensures
            final(self)@ == old(self)@.pause(now as int),
    {
        if self.run_state != RunState::Running {
            return;
        }
        self.accumulated_secs = whole_seconds(self.elapsed(now));
        self.started_at = None;
        self.run_state = RunState::Paused;
    }

    /// Continue a paused phase; a no-op unless paused.
    pub fn resume(&mut self, now: i64)
        ensures
            final(self)@ == old(self)@.resume(now as int),
    {
        if self.run_state != RunState::Paused {
            return;
        }
        self.started_at = Some(now);
        self.run_state = RunState::Running;
    }

    /// Abandon the current phase. Returns minutes of focused work to record
    /// (0 for breaks or sub-minute work).
    pub fn stop(&mut self, now: i64) -> (focused: i64)
        requires
            old(self)@.phase == Phase::Work && old(self)@.run_state != RunState::Idle
                ==> old(self)@.elapsed_ok(now as int),
        ensures
            focused == old(self)@.stop_minutes(now as int),
            final(self)@ == old(self)@.stopped(),
    {
        let focused = if self.phase == Phase::Work && self.run_state != RunState::Idle {
            whole_minutes(self.elapsed(now))
        } else {
            0
        };
        let task_id = clone_opt_string(&self.task_id);
        let cycle_count = self.cycle_count;
        *self = Timer {
            phase: Phase::Work,
            run_state: RunState::Idle,
            task_id,
            cycle_count,
            started_at: None,
            accumulated_secs: 0,
            work_started_at: None,
        };
        focused
    }

    /// Advance the state machine if the current phase has run out. Call this
    /// once a second (or after wake-up); it changes nothing while time remains.
    pub fn tick(&mut self, now: i64, config: &TimerConfig) -> (ev: Option<TimerEvent>)
        requires
            old(self)@.run_state == RunState::Running ==> old(self)@.remaining_ok(
                now as int,
                *config,
            ),
            old(self)@.tick_fires(now as int, *config) && old(self)@.phase == Phase::Work
                ==> old(self)@.cycle_count < u32::MAX,
        ensures
            final(self)@ == old(self)@.tick(now as int, *config),
            event_model(ev) == old(self)@.tick_event(now as int, *config),
    {
        if self.run_state != RunState::Running || self.remaining(now, config) > 0 {
            return None;
        }
        match self.phase {
            Phase::Work => Some(self.finish_work(now, config)),
            Phase::ShortBreak | Phase::LongBreak => {
                let was_long = self.phase == Phase::LongBreak;
                if was_long {
                    self.cycle_count = 0;
                }
                self.phase = Phase::Work;
                self.run_state = RunState::Idle;
                self.started_at = None;
                self.accumulated_secs = 0;
                Some(TimerEvent::BreakFinished { was_long })
            },
        }
    }

    /// Complete the started pomodoro early ("Complete Pomodoro" button):
    /// counts as a full pomodoro with the minutes actually worked.
    pub fn complete_pomodoro(&mut self, now: i64, config: &TimerConfig) -> (ev: Option<
        TimerEvent,
    >)
        requires
            old(self)@.can_complete() ==> old(self)@.elapsed_ok(now as int) && old(
                self,
            )@.cycle_count < u32::MAX,
        ensures
            old(self)@.can_complete() ==> final(self)@ == old(self)@.finish_work(
                now as int,
                *config,
            ) && event_model(ev) == Some(old(self)@.work_event(now as int)),
            !old(self)@.can_complete() ==> final(self)@ == old(self)@ && ev is None,
    {
        if self.phase != Phase::Work || self.run_state == RunState::Idle {
            return None;
        }
        Some(self.finish_work(now, config))
    }

    fn finish_work(&mut self, now: i64, config: &TimerConfig) -> (ev: TimerEvent)
        requires
            old(self)@.elapsed_ok(now as int),
            old(self)@.cycle_count < u32::MAX,
        ensures
            final(self)@ == old(self)@.finish_work(now as int, *config),
            ev.model() == old(self)@.work_event(now as int),
    {
        let minutes = whole_minutes(self.elapsed(now));
        let task_id = match &self.task_id {
            Some(t) => t.clone(),
            None => String::new(),
        };
        self.cycle_count = self.cycle_count + 1;
        let n = config.pomodoros_until_long_break;
        let long = if n == 0 {
            self.cycle_count == 0
        } else {
            self.cycle_count % n == 0
        };
        self.phase = if long {
            Phase::LongBreak
        } else {
            Phase::ShortBreak
        };
        self.run_state = RunState::Running;
        self.started_at = Some(now);
        self.accumulated_secs = 0;
        self.work_started_at = None;
        TimerEvent::PomodoroCompleted { task_id, minutes }
    }

    /// The task the timer runs for.
    pub fn task_id(&self) -> (t: &Option<String>)
        ensures
            opt_str_model(*t) == self@.task_id,
    {
        &self.task_id
    }

    /// The current phase.
    pub fn phase(&self) -> (p: Phase)
        ensures
            p == self@.phase,
    {
        self.phase
    }

    /// Whether the timer is idle, running or paused.
    pub fn run_state(&self) -> (r: RunState)
        ensures
            r == self@.run_state,
    {
        self.run_state
    }

    /// Pomodoros completed in the current cycle.
    pub fn cycle_count(&self) -> (c: u32)
        ensures
            c == self@.cycle_count,
    {
        self.cycle_count
    }

    /// When the current work phase actually began.
    pub fn work_started_at(&self) -> (w: Option<i64>)
        ensures
            opt_int_model(w) == self@.work_started_at,
    {
        self.work_started_at
    }
}

/// A paused timer is frozen: its elapsed and remaining time do not depend on
/// the clock.
pub proof fn lemma_paused_timer_is_frozen(m: TimerModel, config: TimerConfig, t1: int, t2: int)
    requires
        m.run_state == RunState::Paused,
    ensures
        m.elapsed(t1) == m.elapsed(t2),
        m.remaining(t1, config) == m.remaining(t2, config),
{
}

/// Remaining time follows the wall clock alone: `d` ms after a start, exactly
/// `d` ms of the work phase are used up, however often (or rarely) the timer
/// was ticked in between.
pub proof fn lemma_remaining_follows_clock(
    m: TimerModel,
    config: TimerConfig,
    task_id: Seq<char>,
    now: int,
    d: int,
)
    ensures
        m.start(task_id, now).elapsed(now + d) == d,
        m.start(task_id, now).remaining(now + d, config) == max0(
            config.pomodoro_minutes * 60000 - d,
        ),
{
}

/// Time spent paused does not count: after a pause at `tp` and a resume at
/// `tr`, the phase has used the whole seconds elapsed at the pause plus the
/// time since the resume; when the pause fell on a whole second this is the
/// same as if the timer had never been paused.
pub proof fn lemma_pause_resume_skips_pause(
    m: TimerModel,
    config: TimerConfig,
    tp: int,
    tr: int,
    d: int,
)
    requires
        m.run_state == RunState::Running,
    ensures
        m.pause(tp).resume(tr).run_state == RunState::Running,
        m.pause(tp).resume(tr).elapsed(tr + d) == span_seconds(m.elapsed(tp)) * 1000 + d,
        m.elapsed(tp) % 1000 == 0 ==> m.pause(tp).resume(tr).elapsed(tr + d) == m.elapsed(
            tp,
        ) + d,
{
    let e = m.elapsed(tp);
    if e % 1000 == 0 {
        if e >= 0 {
            assert(span_seconds(e) * 1000 == e) by (nonlinear_arith)
                requires
                    e >= 0,
                    e % 1000 == 0,
                    span_seconds(e) == e / 1000,
            ;
        } else {
            assert((-e) % 1000 == 0) by (nonlinear_arith)
                requires
                    e < 0,
                    e % 1000 == 0,
            ;
            assert(span_seconds(e) * 1000 == e) by (nonlinear_arith)
                requires
                    e < 0,
                    (-e) % 1000 == 0,
                    span_seconds(e) == -((-e) / 1000),
            ;
        }
    }
}

/// Pausing a timer that is not running, or resuming one that is not paused,
/// changes nothing.
pub proof fn lemma_pause_resume_noops(m: TimerModel, now: int)
    ensures
        m.run_state != RunState::Running ==> m.pause(now) == m,
        m.run_state != RunState::Paused ==> m.resume(now) == m,
{
}

/// `tick` is idempotent while time remains, and does nothing unless running.
pub proof fn lemma_tick_waits_for_time(m: TimerModel, config: TimerConfig, now: int)
    requires
        m.run_state != RunState::Running || m.remaining(now, config) > 0,
    ensures
        m.tick(now, config) == m,
        m.tick_event(now, config) is None,
{
}

/// Every completed pomodoro counts exactly once and starts a running break;
/// the break is long exactly when the cycle count reaches a multiple of
/// `pomodoros_until_long_break`.
pub proof fn lemma_completion_starts_break(m: TimerModel, config: TimerConfig, now: int)
    requires
        config.pomodoros_until_long_break > 0,
    ensures
        m.finish_work(now, config).cycle_count == m.cycle_count + 1,
        m.finish_work(now, config).run_state == RunState::Running,
        m.finish_work(now, config).remaining(now, config) == (if (m.cycle_count + 1)
            % (config.pomodoros_until_long_break as nat) == 0 {
            config.long_break_minutes * 60000
        } else {
            config.short_break_minutes * 60000
        }),
        (m.finish_work(now, config).phase == Phase::LongBreak) <==> (m.cycle_count + 1) % (
        config.pomodoros_until_long_break as nat) == 0,
{
}

/// A finished break never counts as a pomodoro: it reports `BreakFinished`,
/// keeps the cycle count after a short break and resets it to zero after a
/// long one, and leaves an idle work phase at full length.
pub proof fn lemma_break_end_returns_to_idle_work(m: TimerModel, config: TimerConfig, now: int)
    requires
        m.phase != Phase::Work,
        m.tick_fires(now, config),
    ensures
        m.tick(now, config).cycle_count == (if m.phase == Phase::LongBreak {
            0
        } else {
            m.cycle_count
        }),
        m.tick(now, config).phase == Phase::Work,
        m.tick(now, config).run_state == RunState::Idle,
        m.tick_event(now, config) == Some(
            EventModel::BreakFinished { was_long: m.phase == Phase::LongBreak },
        ),
        forall|later: int|
            m.tick(now, config).remaining(later, config) == config.pomodoro_minutes * 60000,
{
}

/// Stopping records nothing for a break and resets to a full, idle work phase
/// that keeps the task and the cycle count.
pub proof fn lemma_stop_resets(m: TimerModel, config: TimerConfig, now: int, later: int)
    ensures
        m.phase != Phase::Work ==> m.stop_minutes(now) == 0,
        m.stopped().run_state == RunState::Idle,
        m.stopped().phase == Phase::Work,
        m.stopped().task_id == m.task_id,
        m.stopped().cycle_count == m.cycle_count,
        m.stopped().remaining(later, config) == config.pomodoro_minutes * 60000,
{
}

/// Stopping a started work phase, running or paused, records the whole
/// minutes worked in it so far: nothing of the focused time is dropped.
pub proof fn lemma_stop_records_focused_minutes(m: TimerModel, now: int)
    requires
        m.phase == Phase::Work,
        m.run_state != RunState::Idle,
        m.elapsed(now) >= 0,
    ensures
        m.stop_minutes(now) == m.elapsed(now) / 60000,
{
    vstd::arithmetic::div_mod::lemma_div_denominator(m.elapsed(now), 1000, 60);
}

/// Pausing a running work phase and stopping it later records the whole
/// minutes worked up to the pause, however long it stayed paused.
pub proof fn lemma_pause_then_stop(m: TimerModel, paused_at: int, later: int)
    requires
        m.phase == Phase::Work,
        m.run_state == RunState::Running,
        m.elapsed(paused_at) >= 0,
    ensures
        m.pause(paused_at).run_state == RunState::Paused,
        m.pause(paused_at).stop_minutes(later) == m.elapsed(paused_at) / 60000,
{
    let e = m.elapsed(paused_at);
    let secs = e / 1000;
    vstd::arithmetic::div_mod::lemma_div_by_multiple(secs, 1000);
    vstd::arithmetic::div_mod::lemma_div_denominator(e, 1000, 60);
    assert(m.pause(paused_at).elapsed(later) == secs * 1000);
    assert(secs * 1000 >= 0) by (nonlinear_arith)
        requires
            secs >= 0,
    ;
}

} // verus!

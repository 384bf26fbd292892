//! Drives the domain timer: decides which pomodoros and focused minutes are
//! credited to a task and recorded as sessions. The caller persists the timer
//! after every transition and applies the credits to the store.
use crate::calendar::valid_instant;
use crate::domain::pomodoro::{
    event_model, EventModel, Phase, RunState, Timer, TimerConfig, TimerEvent, TimerModel,
};
use crate::domain::time_session::{SessionKind, TimeSession};
use vstd::prelude::*;

verus! {

pub struct TimerService {
    pub timer: Timer,
    pub config: TimerConfig,
}

/// Progress to add to a task and the session that records it.
#[derive(Debug, Clone)]
pub struct ProgressCredit {
    pub session: TimeSession,
    pub pomodoros: u32,
    pub minutes: i64,
}

/// What a timer transition reports: the event, and the progress to credit.
pub struct TimerStep {
    pub event: Option<TimerEvent>,
    pub credit: Option<ProgressCredit>,
}

/// The credit for `minutes` of work on `task_id` that ended at `now` and
/// began at `started` (or `minutes` before `now` when unknown).
pub open spec fn credit_is(
    c: ProgressCredit,
    task_id: Seq<char>,
    started: Option<int>,
    now: int,
    minutes: int,
    pomodoros: nat,
) -> bool {
    &&& c.session.task_id@ == task_id
    &&& c.session.started_at == (match started {
        Some(s) => s,
        None => now - minutes * 60000,
    })
    &&& c.session.ended_at == now
    &&& c.session.minutes == minutes
    &&& c.session.kind == SessionKind::Pomodoro
    &&& c.pomodoros == pomodoros
    &&& c.minutes == minutes
}

/// The start of a session of `minutes` ending `now` can be written as a
/// UTC date-time (it is only computed when the work start is unknown).
pub open spec fn session_start_ok(started: Option<int>, now: int, minutes: int) -> bool {
    started is None ==> valid_instant(now - minutes * 60000)
}

fn credit(task_id: &str, started: Option<i64>, now: i64, minutes: i64, pomodoros: u32) -> (c:
    ProgressCredit)
    requires
        -(i64::MAX / 60000) <= minutes <= i64::MAX / 60000,
        valid_instant(now as int),
        session_start_ok(crate::domain::pomodoro::opt_int_model(started), now as int, minutes as int),
    ensures
        credit_is(
            c,
            task_id@,
            crate::domain::pomodoro::opt_int_model(started),
            now as int,
            minutes as int,
            pomodoros as nat,
        ),
{
    let start = match started {
        Some(s) => s,
        None => (now as i128 - minutes as i128 * 60000) as i64,
    };
    ProgressCredit {
        session: TimeSession::new(task_id, start, now, minutes, SessionKind::Pomodoro),
        pomodoros,
        minutes,
    }
}

/// The credit an event earns: a completed pomodoro on a named task that is
/// still in the store earns one pomodoro and its minutes; nothing else earns
/// anything.
pub open spec fn credit_spec(
    c: Option<ProgressCredit>,
    ev: Option<EventModel>,
    started: Option<int>,
    now: int,
    task_exists: bool,
) -> bool {
    match ev {
        Some(EventModel::PomodoroCompleted { task_id, minutes }) => if task_id.len() > 0
            && task_exists {
            c matches Some(cr) && credit_is(cr, task_id, started, now, minutes, 1)
        } else {
            c is None
        },
        _ => c is None,
    }
}

/// The step credits what its event earns, against the timer before the step.
pub open spec fn credited(step: TimerStep, before: TimerModel, now: int, task_exists: bool) -> bool {
    credit_spec(step.credit, event_model(step.event), before.work_started_at, now, task_exists)
}

impl TimerService {
    /// A service around a restored timer.
    pub fn restore(timer: Timer, config: TimerConfig) -> (s: Self)
        ensures
            s.timer@ == timer@,
            s.config == config,
    {
        TimerService { timer, config }
    }

    pub fn start(&mut self, task_id: &str, now: i64)
        ensures
            final(self).timer@ == old(self).timer@.start(task_id@, now as int),
            final(self).config == old(self).config,
    {
        self.timer.start(task_id, now);
    }

    pub fn pause(&mut self, now: i64)
        requires
            old(self).timer@.run_state == RunState::Running ==> old(self).timer@.elapsed_ok(
                now as int,
            ),
        ensures
            final(self).timer@ == old(self).timer@.pause(now as int),
            final(self).config == old(self).config,
    {
        self.timer.pause(now);
    }

    pub fn resume(&mut self, now: i64)
        ensures
            final(self).timer@ == old(self).timer@.resume(now as int),
            final(self).config == old(self).config,
    {
        self.timer.resume(now);
    }

    /// Stop, crediting any focused minutes as a partial session without a
    /// pomodoro. `task_exists` says whether the timer's task is still in the
    /// store (it may have been removed by a sync while the timer ran).
    pub fn stop(&mut self, now: i64, task_exists: bool) -> (c: Option<ProgressCredit>)
        requires
            old(self).timer@.phase == Phase::Work && old(self).timer@.run_state != RunState::Idle
                ==> old(self).timer@.elapsed_ok(now as int),
            valid_instant(now as int),
            session_start_ok(
                old(self).timer@.work_started_at,
                now as int,
                old(self).timer@.stop_minutes(now as int),
            ),
        ensures
            final(self).timer@ == old(self).timer@.stopped(),
            final(self).config == old(self).config,
            c is Some <==> (old(self).timer@.stop_minutes(now as int) > 0 && old(
                self,
            ).timer@.task_id is Some && task_exists),
            c matches Some(cr) ==> credit_is(
                cr,
                old(self).timer@.task_id.unwrap(),
                old(self).timer@.work_started_at,
                now as int,
                old(self).timer@.stop_minutes(now as int),
                0,
            ),
    {
        let started = self.timer.work_started_at();
        let task_id = crate::text::clone_opt_string(self.timer.task_id());
        proof {
            let m = self.timer@;
            if m.phase == Phase::Work && m.run_state != RunState::Idle {
                assert(m.elapsed(now as int) <= i64::MAX);
            }
        }
        let minutes = self.timer.stop(now);
        if minutes > 0 && task_exists {
            if let Some(id) = &task_id {
                proof {
                    crate::calendar::lemma_minutes_bounded(old(self).timer@.elapsed(now as int));
                }
                return Some(credit(id.as_str(), started, now, minutes, 0));
            }
        }
        None
    }

    /// Advance the timer; a completed pomodoro is credited to its task (one
    /// pomodoro and the minutes worked) when that task is still in the store.
    pub fn tick(&mut self, now: i64, task_exists: bool) -> (step: TimerStep)
        requires
            old(self).timer@.run_state == RunState::Running ==> old(self).timer@.remaining_ok(
                now as int,
                old(self).config,
            ),
            old(self).timer@.tick_fires(now as int, old(self).config) && old(self).timer@.phase
                == Phase::Work ==> old(self).timer@.cycle_count < u32::MAX && session_start_ok(
                old(self).timer@.work_started_at,
                now as int,
                crate::calendar::span_minutes(old(self).timer@.elapsed(now as int)),
            ),
        ensures
            final(self).timer@ == old(self).timer@.tick(now as int, old(self).config),
            final(self).config == old(self).config,
            event_model(step.event) == old(self).timer@.tick_event(now as int, old(self).config),
            credited(step, old(self).timer@, now as int, task_exists),
    {
        let started = self.timer.work_started_at();
        let event = self.timer.tick(now, &self.config);
        proof {
            if event is Some {
                crate::calendar::lemma_minutes_bounded(old(self).timer@.elapsed(now as int));
            }
        }
        let credit = Self::handle_event(&event, started, now, task_exists);
        TimerStep { event, credit }
    }

    /// Complete the started pomodoro early, crediting it like `tick` does.
    pub fn complete_pomodoro(&mut self, now: i64, task_exists: bool) -> (step: TimerStep)
        requires
            old(self).timer@.can_complete() ==> old(self).timer@.elapsed_ok(now as int) && old(
                self,
            ).timer@.cycle_count < u32::MAX && valid_instant(now as int) && session_start_ok(
                old(self).timer@.work_started_at,
                now as int,
                crate::calendar::span_minutes(old(self).timer@.elapsed(now as int)),
            ),
        ensures
            old(self).timer@.can_complete() ==> final(self).timer@ == old(
                self,
            ).timer@.finish_work(now as int, old(self).config) && event_model(step.event) == Some(
                old(self).timer@.work_event(now as int),
            ),
            !old(self).timer@.can_complete() ==> final(self).timer@ == old(self).timer@
                && step.event is None,
            final(self).config == old(self).config,
            credited(step, old(self).timer@, now as int, task_exists),
    {
        let started = self.timer.work_started_at();
        let event = self.timer.complete_pomodoro(now, &self.config);
        proof {
            if event is Some {
                crate::calendar::lemma_minutes_bounded(old(self).timer@.elapsed(now as int));
            }
        }
        let credit = Self::handle_event(&event, started, now, task_exists);
        TimerStep { event, credit }
    }

    fn handle_event(
        event: &Option<TimerEvent>,
        work_started: Option<i64>,
        now: i64,
        task_exists: bool,
    ) -> (c: Option<ProgressCredit>)
        requires
            event matches Some(TimerEvent::PomodoroCompleted { minutes, .. }) ==> -(i64::MAX
                / 60000) <= *minutes <= i64::MAX / 60000 && valid_instant(now as int) && session_start_ok(
                crate::domain::pomodoro::opt_int_model(work_started),
                now as int,
                *minutes as int,
            ),
        ensures
            credit_spec(c, event_model(*event), crate::domain::pomodoro::opt_int_model(work_started), now as int, task_exists),
    {
        if let Some(TimerEvent::PomodoroCompleted { task_id, minutes }) = event {
            if !task_id.as_str().is_empty() && task_exists {
                return Some(credit(task_id.as_str(), work_started, now, *minutes, 1));
            }
        }
        None
    }
}

} // verus!

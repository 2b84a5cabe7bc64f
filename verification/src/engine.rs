//! The timer state machine: the authoritative phase, the seconds left in it,
//! the session counter, and the transition function that one clock tick or an
//! explicit command applies to them.

use vstd::prelude::*;

use crate::timer::{PomodoroConfig, TimerState, TimerUpdate};

verus! {

/// The long-lived mutable core of the timer. `remaining` is the
/// authoritative countdown value for the current phase; `previous_state`
/// remembers what to resume into and is present exactly while paused.
#[derive(Debug, PartialEq, Eq)]
pub struct TimerEngine {
    pub config: PomodoroConfig,
    pub state: TimerState,
    pub remaining: u64,
    pub completed_sessions: u32,
    pub previous_state: Option<TimerState>,
}

/// The error an engine constructor reports rather than accepting parameters
/// it would have to clamp.
#[derive(Clone, Copy, Debug, PartialEq, Eq, Structural)]
pub enum TimerError {
    /// A duration was zero or the cadence was zero.
    InvalidConfig,
}

impl TimerEngine {
    /// Consistency of `remaining` with a running (or idle) phase: a break
    /// phase carries its configured full length and `remaining` never exceeds
    /// the current phase's duration. A pause is not itself resumable state.
    pub open spec fn phase_ok(config: PomodoroConfig, state: TimerState, remaining: u64) -> bool {
        match state {
            TimerState::Working(_) => remaining <= config.work_duration,
            TimerState::ShortBreak(d) => d == config.short_break_duration && remaining <= d,
            TimerState::LongBreak(d) => d == config.long_break_duration && remaining <= d,
            TimerState::Paused(_, _) => false,
            TimerState::Idle => remaining == config.work_duration,
        }
    }

    /// The engine invariant: the configuration is valid, `remaining` agrees
    /// with the phase, and `previous_state` is present exactly while paused
    /// and then equals the phase to resume into.
    pub open spec fn wf(self) -> bool {
        &&& self.config.valid()
        &&& match self.state {
            TimerState::Paused(r, b) => {
                &&& r == self.remaining
                &&& self.previous_state == Some(*b)
                &&& Self::phase_ok(self.config, *b, self.remaining)
            },
            _ => {
                &&& self.previous_state is None
                &&& Self::phase_ok(self.config, self.state, self.remaining)
            },
        }
    }

    /// The break that follows the `n`th completed work session: every
    /// cadence-th session a long break, any other a short one.
    pub open spec fn spec_break_after(config: PomodoroConfig, n: u32) -> TimerState {
        if n % config.sessions_before_long_break == 0 {
            TimerState::LongBreak(config.long_break_duration)
        } else {
            TimerState::ShortBreak(config.short_break_duration)
        }
    }

    /// The engine after the transition that fires when `remaining` reaches
    /// zero while running: a completed work session counts once and yields
    /// the cadence-chosen break; a finished break yields a fresh work phase
    /// started at `now`. `remaining` is reset to the new phase's full length.
    pub open spec fn spec_transition(self, now: i64) -> TimerEngine {
        match self.state {
            TimerState::Working(_) => {
                let n = (self.completed_sessions + 1) as u32;
                TimerEngine {
                    config: self.config,
                    state: Self::spec_break_after(self.config, n),
                    remaining: if n % self.config.sessions_before_long_break == 0 {
                        self.config.long_break_duration
                    } else {
                        self.config.short_break_duration
                    },
                    completed_sessions: n,
                    previous_state: self.previous_state,
                }
            },
            _ => TimerEngine {
                config: self.config,
                state: TimerState::Working(now),
                remaining: self.config.work_duration,
                completed_sessions: self.completed_sessions,
                previous_state: self.previous_state,
            },
        }
    }

    /// One clock step: nothing changes while paused or idle; when the time is
    /// up the transition fires; otherwise one second comes off `remaining`.
    /// A transition and a decrement never both apply in the same step.
    pub open spec fn spec_tick(self, now: i64) -> TimerEngine {
        if !self.state.spec_is_running() {
            self
        } else if self.remaining == 0 {
            self.spec_transition(now)
        } else {
            TimerEngine {
                config: self.config,
                state: self.state,
                remaining: (self.remaining - 1) as u64,
                completed_sessions: self.completed_sessions,
                previous_state: self.previous_state,
            }
        }
    }

    /// The engine after `start`: a paused engine resumes the captured phase
    /// with its captured `remaining`; any other begins a fresh work phase of
    /// the full `work_duration`, started at `now`.
    pub open spec fn spec_start(self, now: i64) -> TimerEngine {
        match self.state {
            TimerState::Paused(_, b) => TimerEngine {
                config: self.config,
                state: *b,
                remaining: self.remaining,
                completed_sessions: self.completed_sessions,
                previous_state: None,
            },
            _ => TimerEngine {
                config: self.config,
                state: TimerState::Working(now),
                remaining: self.config.work_duration,
                completed_sessions: self.completed_sessions,
                previous_state: None,
            },
        }
    }

    /// The engine after `stop`: a running or idle phase is captured into
    /// `previous_state` and wrapped into `Paused` with the current
    /// `remaining`; a paused engine is left exactly as it is.
    pub open spec fn spec_stop(self) -> TimerEngine {
        match self.state {
            TimerState::Paused(_, _) => self,
            _ => TimerEngine {
                config: self.config,
                state: TimerState::Paused(self.remaining, Box::new(self.state)),
                remaining: self.remaining,
                completed_sessions: self.completed_sessions,
                previous_state: Some(self.state),
            },
        }
    }

    /// The engine after `nows.len()` consecutive clock steps with no
    /// intervening commands; `nows[i]` is the start marker available to the
    /// `i`th step (it matters only to a step that begins a work phase).
    pub open spec fn spec_ticks(self, nows: Seq<i64>) -> TimerEngine
        decreases nows.len(),
    {
        if nows.len() == 0 {
            self
        } else {
            self.spec_tick(nows[0]).spec_ticks(nows.skip(1))
        }
    }

    /// The snapshot observers receive: the phase, the countdown value, and
    /// the session counters.
    pub open spec fn spec_snapshot(self) -> TimerUpdate {
        TimerUpdate {
            state: self.state,
            remaining: self.remaining,
            completed_sessions: self.completed_sessions,
            total_sessions: self.config.sessions_before_long_break,
        }
    }

    /// Builds a fresh idle engine, refusing an invalid configuration rather
    /// than clamping it.
    pub fn new(config: PomodoroConfig) -> (r: Result<TimerEngine, TimerError>)
        ensures
            r is Ok <==> config.valid(),
            r matches Ok(e) ==> e == (TimerEngine {
                config,
                state: TimerState::Idle,
                remaining: config.work_duration,
                completed_sessions: 0,
                previous_state: None,
            }),
            r matches Ok(e) ==> e.wf(),
            r is Err ==> r == Result::<TimerEngine, TimerError>::Err(TimerError::InvalidConfig),
    {
        if config.is_valid() {
            Ok(TimerEngine {
                config,
                state: TimerState::Idle,
                remaining: config.work_duration,
                completed_sessions: 0,
                previous_state: None,
            })
        } else {
            Err(TimerError::InvalidConfig)
        }
    }

    /// Tells whether the clock should advance: true in a work or break phase,
    /// false while paused or idle.
    pub fn is_running(&self) -> (r: bool)
        ensures
            r == self.state.spec_is_running(),
    {
        self.state.is_running()
    }

    /// Produces the current snapshot without mutating the engine.
    pub fn snapshot(&self) -> (u: TimerUpdate)
        ensures
            u == self.spec_snapshot(),
    {
        TimerUpdate {
            state: self.state.clone(),
            remaining: self.remaining,
            completed_sessions: self.completed_sessions,
            total_sessions: self.config.sessions_before_long_break,
        }
    }

    /// Applies the phase transition that fires when the time is up: a
    /// completed work session increments the counter exactly once and yields
    /// the cadence-chosen break; a finished break yields a fresh work phase
    /// started at `now`.
    fn handle_state_transition(&mut self, now: i64)
        requires
            old(self).wf(),
            old(self).state.spec_is_running(),
            old(self).state is Working ==> old(self).completed_sessions < u32::MAX,
        ensures
            *final(self) == old(self).spec_transition(now),
            final(self).wf(),
    {
        match &self.state {
            TimerState::Working(_) => {
                self.completed_sessions = self.completed_sessions + 1;
                if self.completed_sessions % self.config.sessions_before_long_break == 0 {
                    self.state = TimerState::LongBreak(self.config.long_break_duration);
                    self.remaining = self.config.long_break_duration;
                } else {
                    self.state = TimerState::ShortBreak(self.config.short_break_duration);
                    self.remaining = self.config.short_break_duration;
                }
            },
            _ => {
                self.state = TimerState::Working(now);
                self.remaining = self.config.work_duration;
            },
        }
    }

    /// One clock step, with `now` as the start marker for a work phase the
    /// step may begin. Nothing changes while paused or idle; when
    /// `remaining` is zero the transition fires; otherwise `remaining`
    /// decreases by one second. The session counter never decreases.
    pub fn tick_at(&mut self, now: i64)
        requires
            old(self).wf(),
            old(self).state is Working && old(self).remaining == 0
                ==> old(self).completed_sessions < u32::MAX,
        ensures
            *final(self) == old(self).spec_tick(now),
            final(self).wf(),
            final(self).completed_sessions >= old(self).completed_sessions,
    {
        if self.is_running() {
            if self.remaining == 0 {
                self.handle_state_transition(now);
            } else {
                self.remaining = self.remaining - 1;
            }
        }
    }

    /// The `start` command: a paused engine resumes the phase and countdown
    /// captured when it was stopped; any other engine begins a fresh work
    /// phase of the full `work_duration`, started at `now`.
    pub fn start_at(&mut self, now: i64)
        requires
            old(self).wf(),
        ensures
            *final(self) == old(self).spec_start(now),
            final(self).wf(),
    {
        match self.previous_state.take() {
            Some(p) => {
                self.state = p;
            },
            None => {
                self.state = TimerState::Working(now);
                self.remaining = self.config.work_duration;
            },
        }
    }

    /// The `stop` command: capture the current phase and halt the clock.
    /// Stopping an already paused engine changes nothing.
    pub fn stop(&mut self)
        requires
            old(self).wf(),
        ensures
            *final(self) == old(self).spec_stop(),
            final(self).wf(),
    {
        if matches!(self.state, TimerState::Paused(_, _)) {
            return ;
        }
        let captured = self.state.clone();
        self.previous_state = Some(self.state.clone());
        self.state = TimerState::Paused(self.remaining, Box::new(captured));
    }
}

/// Law: in a well-formed engine the countdown value always lies between zero
/// and the longest configured interval; it is never negative.
pub proof fn lemma_remaining_bounded(e: TimerEngine)
    requires
        e.wf(),
    ensures
        0 <= e.remaining,
        e.remaining <= e.config.max_duration(),
{
}

/// Law: a clock step keeps the engine well formed, and never decreases the
/// session counter.
pub proof fn lemma_tick_preserves_wf(e: TimerEngine, now: i64)
    requires
        e.wf(),
        e.state is Working && e.remaining == 0 ==> e.completed_sessions < u32::MAX,
    ensures
        e.spec_tick(now).wf(),
        e.spec_tick(now).completed_sessions >= e.completed_sessions,
{
}

/// While a work or break phase runs down, clock steps only decrement: after
/// exactly `remaining` steps the countdown reads zero and nothing else about
/// the engine has changed.
pub proof fn lemma_countdown(e: TimerEngine, nows: Seq<i64>)
    requires
        e.wf(),
        e.state.spec_is_running(),
        nows.len() == e.remaining,
    ensures
        e.spec_ticks(nows) == (TimerEngine {
            config: e.config,
            state: e.state,
            remaining: 0,
            completed_sessions: e.completed_sessions,
            previous_state: e.previous_state,
        }),
        e.spec_ticks(nows).wf(),
    decreases nows.len(),
{
    if nows.len() == 0 {
    } else {
        let e1 = e.spec_tick(nows[0]);
        lemma_countdown(e1, nows.skip(1));
    }
}

/// Splitting a run of clock steps: stepping through `nows` is stepping
/// through its first `i` entries and then through the rest.
pub proof fn lemma_ticks_split(e: TimerEngine, nows: Seq<i64>, i: int)
    requires
        0 <= i <= nows.len(),
    ensures
        e.spec_ticks(nows) == e.spec_ticks(nows.take(i)).spec_ticks(nows.skip(i)),
    decreases i,
{
    if i == 0 {
        assert(nows.take(0) =~= Seq::<i64>::empty());
        assert(nows.skip(0) =~= nows);
    } else {
        let e1 = e.spec_tick(nows[0]);
        lemma_ticks_split(e1, nows.skip(1), i - 1);
        assert(nows.take(i)[0] == nows[0]);
        assert(nows.take(i).skip(1) =~= nows.skip(1).take(i - 1));
        assert(nows.skip(1).skip(i - 1) =~= nows.skip(i));
    }
}

/// Law: after exactly `work_duration` clock steps from a fresh work phase
/// with no intervening commands the countdown reads zero with the session
/// still uncounted, and the step that evaluates that zero completes the
/// session: the counter grows by exactly one and the cadence-chosen break
/// phase begins with its full length.
pub proof fn lemma_work_session_completes(e: TimerEngine, nows: Seq<i64>)
    requires
        e.wf(),
        e.state is Working,
        e.remaining == e.config.work_duration,
        e.completed_sessions < u32::MAX,
        nows.len() == e.config.work_duration + 1,
    ensures
        ({
            let run_down = e.spec_ticks(nows.take(e.config.work_duration as int));
            &&& run_down.state == e.state
            &&& run_down.remaining == 0
            &&& run_down.completed_sessions == e.completed_sessions
        }),
        ({
            let f = e.spec_ticks(nows);
            &&& f.completed_sessions == e.completed_sessions + 1
            &&& f.state is ShortBreak || f.state is LongBreak
            &&& f.state == TimerEngine::spec_break_after(e.config, (e.completed_sessions + 1) as u32)
            &&& f.wf()
        }),
{
    let w = e.config.work_duration as int;
    lemma_ticks_split(e, nows, w);
    lemma_countdown(e, nows.take(w));
    let run_down = e.spec_ticks(nows.take(w));
    assert(nows.skip(w).len() == 1);
    assert(e.spec_ticks(nows) == run_down.spec_tick(nows.skip(w)[0]).spec_ticks(nows.skip(w).skip(1)));
    assert(nows.skip(w).skip(1) =~= Seq::<i64>::empty());
}

/// Law: the transition out of a completed work session chooses the break by
/// cadence: counting this session as the `n`th completed one, it enters a
/// long break exactly when `n` is a multiple of `sessions_before_long_break`,
/// and a short break otherwise; either break begins with its full length.
pub proof fn lemma_cadence(e: TimerEngine, now: i64)
    requires
        e.wf(),
        e.state is Working,
        e.remaining == 0,
        e.completed_sessions < u32::MAX,
    ensures
        ({
            let f = e.spec_tick(now);
            let n = e.completed_sessions + 1;
            &&& f.completed_sessions == n
            &&& (f.state is LongBreak <==> n % (e.config.sessions_before_long_break as int) == 0)
            &&& (f.state is ShortBreak <==> n % (e.config.sessions_before_long_break as int) != 0)
            &&& f.remaining == if n % (e.config.sessions_before_long_break as int) == 0 {
                e.config.long_break_duration
            } else {
                e.config.short_break_duration
            }
        }),
{
}

/// Law: `stop` followed immediately by `start`, with no clock steps in
/// between, restores exactly what `stop` captured: on a running or idle
/// engine the round trip is the identity, and on an already paused engine it
/// acts as `start` alone would.
pub proof fn lemma_stop_start_roundtrip(e: TimerEngine, now: i64)
    requires
        e.wf(),
    ensures
        !(e.state is Paused) ==> e.spec_stop().spec_start(now) == e,
        e.state is Paused ==> e.spec_stop().spec_start(now) == e.spec_start(now),
{
}

/// Law: `stop` is idempotent: stopping an engine twice in a row leaves it
/// exactly as stopping it once does.
pub proof fn lemma_stop_idempotent(e: TimerEngine)
    ensures
        e.spec_stop().spec_stop() == e.spec_stop(),
{
}

} // verus!


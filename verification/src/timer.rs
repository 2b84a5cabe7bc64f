//! Timer data model: the configuration, the phase, and the snapshot that is
//! published to observers.

use vstd::prelude::*;

verus! {

/// The mode the timer is in. Exactly one phase is active at a time.
#[derive(Debug, PartialEq, Eq)]
pub enum TimerState {
    /// A focus interval is running; the payload is its start time as a Unix
    /// timestamp in whole seconds.
    Working(i64),
    /// A short break is running; the payload is the break's full length in
    /// seconds.
    ShortBreak(u64),
    /// A long break is running; the payload is the break's full length in
    /// seconds.
    LongBreak(u64),
    /// The clock is halted: seconds left at the moment of pausing, and the
    /// phase to resume into. A paused phase never embeds another pause.
    Paused(u64, Box<TimerState>),
    /// No session has started yet.
    Idle,
}

impl TimerState {
    /// The clock advances only in these phases; `Paused` and `Idle` wait for
    /// an explicit command.
    pub open spec fn spec_is_running(self) -> bool {
        self is Working || self is ShortBreak || self is LongBreak
    }

    /// Tells whether the clock should advance in this phase.
    pub fn is_running(&self) -> (r: bool)
        ensures
            r == self.spec_is_running(),
    {
        match self {
            TimerState::Working(_) => true,
            TimerState::ShortBreak(_) => true,
            TimerState::LongBreak(_) => true,
            TimerState::Paused(_, _) => false,
            TimerState::Idle => false,
        }
    }

}

impl Clone for TimerState {
    /// An exact copy of the phase, payloads included.
    fn clone(&self) -> (r: TimerState)
        ensures
            r == *self,
        decreases *self,
    {
        match self {
            TimerState::Working(t) => TimerState::Working(*t),
            TimerState::ShortBreak(d) => TimerState::ShortBreak(*d),
            TimerState::LongBreak(d) => TimerState::LongBreak(*d),
            TimerState::Paused(r, b) => TimerState::Paused(*r, Box::new((**b).clone())),
            TimerState::Idle => TimerState::Idle,
        }
    }
}

/// An immutable snapshot of the engine, one per tick or transition; producing
/// one never mutates the engine. `total_sessions` carries the configured
/// cadence so observers can render "session k of n".
#[derive(Debug, PartialEq, Eq)]
pub struct TimerUpdate {
    pub state: TimerState,
    pub remaining: u64,
    pub completed_sessions: u32,
    pub total_sessions: u32,
}

impl Clone for TimerUpdate {
    /// An exact copy of the snapshot.
    fn clone(&self) -> (r: TimerUpdate)
        ensures
            r == *self,
    {
        TimerUpdate {
            state: self.state.clone(),
            remaining: self.remaining,
            completed_sessions: self.completed_sessions,
            total_sessions: self.total_sessions,
        }
    }
}

/// Immutable timer parameters: interval lengths in whole seconds and the
/// break cadence (how many completed work sessions yield a long break).
/// A configuration is validated once, before an engine is built.
#[derive(Clone, Copy, Debug, PartialEq, Eq, Structural)]
pub struct PomodoroConfig {
    /// Length of a work interval, in seconds.
    pub work_duration: u64,
    /// Length of a short break, in seconds.
    pub short_break_duration: u64,
    /// Length of a long break, in seconds.
    pub long_break_duration: u64,
    /// Every Nth completed work session is followed by a long break.
    pub sessions_before_long_break: u32,
}

impl PomodoroConfig {
    /// A configuration is valid when all three interval lengths are positive
    /// and the cadence is at least one.
    pub open spec fn valid(self) -> bool {
        &&& self.work_duration > 0
        &&& self.short_break_duration > 0
        &&& self.long_break_duration > 0
        &&& self.sessions_before_long_break >= 1
    }

    /// The longest interval this configuration can produce; `remaining`
    /// never exceeds it.
    pub open spec fn max_duration(self) -> u64 {
        if self.work_duration >= self.short_break_duration
            && self.work_duration >= self.long_break_duration {
            self.work_duration
        } else if self.short_break_duration >= self.long_break_duration {
            self.short_break_duration
        } else {
            self.long_break_duration
        }
    }

    /// Builds a configuration from interval lengths given in whole minutes.
    pub fn new(
        work_mins: u64,
        short_break_mins: u64,
        long_break_mins: u64,
        sessions: u32,
    ) -> (c: PomodoroConfig)
        requires
            work_mins <= u64::MAX / 60,
            short_break_mins <= u64::MAX / 60,
            long_break_mins <= u64::MAX / 60,
        ensures
            c == (PomodoroConfig {
                work_duration: (work_mins * 60) as u64,
                short_break_duration: (short_break_mins * 60) as u64,
                long_break_duration: (long_break_mins * 60) as u64,
                sessions_before_long_break: sessions,
            }),
    {
        PomodoroConfig {
            work_duration: work_mins * 60,
            short_break_duration: short_break_mins * 60,
            long_break_duration: long_break_mins * 60,
            sessions_before_long_break: sessions,
        }
    }

    /// Checks the validity rule: all durations strictly positive and the
    /// cadence at least one.
    pub fn is_valid(&self) -> (r: bool)
        ensures
            r == self.valid(),
    {
        self.work_duration > 0
            && self.short_break_duration > 0
            && self.long_break_duration > 0
            && self.sessions_before_long_break > 0
    }
}

impl Default for PomodoroConfig {
    /// The customary Pomodoro defaults: 25 minutes of work, 5-minute short
    /// breaks, a 15-minute long break every 4 sessions.
    fn default() -> (c: Self)
        ensures
            c == (PomodoroConfig {
                work_duration: 1500,
                short_break_duration: 300,
                long_break_duration: 900,
                sessions_before_long_break: 4,
            }),
            c.valid(),
    {
        PomodoroConfig {
            work_duration: 1500,
            short_break_duration: 300,
            long_break_duration: 900,
            sessions_before_long_break: 4,
        }
    }
}

} // verus!

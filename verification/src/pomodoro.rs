//! The timer service: one engine together with the snapshot fan-out. Every
//! command and every clock step mutates the engine and immediately publishes
//! what observers should see, so a snapshot goes out on every tick and on
//! every transition.

use vstd::prelude::*;

use crate::broadcaster::{publish_all, publish_model, Broadcaster, RecvOutcome, SubModel};
use crate::engine::{TimerEngine, TimerError};
use crate::timer::{PomodoroConfig, TimerUpdate};

verus! {

/// How many undelivered snapshots one subscriber may have pending before its
/// oldest ones are dropped.
pub const UPDATE_QUEUE_CAPACITY: usize = 16;

/// Relies on chrono's `Utc::now`: the current wall-clock time, reduced to
/// whole seconds since the Unix epoch. Nothing is assumed of the value.
#[verifier::external_body]
fn now_timestamp() -> (r: i64) {
    chrono::Utc::now().timestamp()
}

/// The timer as callers see it: the single source of truth for the phase and
/// countdown, plus the fan-out that carries snapshots to observers.
pub struct PomodoroTimer {
    pub engine: TimerEngine,
    pub updates: Broadcaster,
}

/// The snapshots one clock step publishes, in order: the state the step found
/// (so observers see the full duration when a phase begins and the final zero
/// before a transition), then, only when the step was a transition, the state
/// it produced. A paused or idle step publishes nothing.
pub open spec fn spec_tick_snapshots(e: TimerEngine, now: i64) -> Seq<TimerUpdate> {
    if !e.state.spec_is_running() {
        Seq::empty()
    } else if e.remaining == 0 {
        seq![e.spec_snapshot(), e.spec_tick(now).spec_snapshot()]
    } else {
        seq![e.spec_snapshot()]
    }
}

impl PomodoroTimer {
    /// A well-formed timer is a well-formed engine beside a well-formed
    /// fan-out.
    pub open spec fn wf(self) -> bool {
        &&& self.engine.wf()
        &&& self.updates.wf()
    }

    /// Builds a timer from a validated configuration, idle, with no
    /// subscribers yet; an invalid configuration is refused outright.
    pub fn new(config: PomodoroConfig) -> (r: Result<PomodoroTimer, TimerError>)
        ensures
            r is Ok <==> config.valid(),
            r matches Ok(t) ==> {
                &&& t.wf()
                &&& t.engine == (TimerEngine {
                    config,
                    state: crate::timer::TimerState::Idle,
                    remaining: config.work_duration,
                    completed_sessions: 0,
                    previous_state: None,
                })
                &&& t.updates@ == Seq::<SubModel>::empty()
                &&& t.updates.capacity == UPDATE_QUEUE_CAPACITY
            },
            r is Err ==> r == Result::<PomodoroTimer, TimerError>::Err(TimerError::InvalidConfig),
    {
        match TimerEngine::new(config) {
            Ok(engine) => Ok(PomodoroTimer { engine, updates: Broadcaster::new(
                UPDATE_QUEUE_CAPACITY,
            ) }),
            Err(e) => Err(e),
        }
    }

    /// Tells whether the clock should advance: true in a work or break phase,
    /// false while paused or idle.
    pub fn is_running(&self) -> (r: bool)
        ensures
            r == self.engine.state.spec_is_running(),
    {
        self.engine.is_running()
    }

    /// Produces the current snapshot without mutating anything.
    pub fn snapshot(&self) -> (u: TimerUpdate)
        ensures
            u == self.engine.spec_snapshot(),
    {
        self.engine.snapshot()
    }

    /// Registers a new observer. Its queue starts empty: it receives only
    /// snapshots published after this call.
    pub fn subscribe(&mut self) -> (id: usize)
        requires
            old(self).wf(),
        ensures
            final(self).wf(),
            final(self).engine == old(self).engine,
            final(self).updates.capacity == old(self).updates.capacity,
            id == old(self).updates@.len(),
            final(self).updates@ == old(self).updates@.push(crate::broadcaster::empty_sub()),
    {
        self.updates.subscribe()
    }

    /// One receive step for the subscriber `id`: a pending lag report first,
    /// otherwise the oldest pending snapshot, otherwise nothing.
    pub fn recv(&mut self, id: usize) -> (r: RecvOutcome)
        requires
            old(self).wf(),
            id < old(self).updates@.len(),
        ensures
            final(self).wf(),
            final(self).engine == old(self).engine,
            final(self).updates.capacity == old(self).updates.capacity,
            ({
                let s = old(self).updates@[id as int];
                if s.missed > 0 {
                    &&& r == RecvOutcome::Lagged(s.missed)
                    &&& final(self).updates@ == old(self).updates@.update(
                        id as int,
                        SubModel { queue: s.queue, missed: 0 },
                    )
                } else if s.queue.len() > 0 {
                    &&& r == RecvOutcome::Update(s.queue[0])
                    &&& final(self).updates@ == old(self).updates@.update(
                        id as int,
                        SubModel { queue: s.queue.skip(1), missed: 0 },
                    )
                } else {
                    &&& r == RecvOutcome::Empty
                    &&& final(self).updates@ == old(self).updates@
                }
            }),
    {
        self.updates.recv(id)
    }

    /// Publishes the current snapshot to every subscriber; never blocks, and
    /// with no subscribers it is a no-op rather than an error.
    fn send_timer_message(&mut self)
        requires
            old(self).wf(),
        ensures
            final(self).wf(),
            final(self).engine == old(self).engine,
            final(self).updates.capacity == old(self).updates.capacity,
            final(self).updates@.len() == old(self).updates@.len(),
            final(self).updates@ == publish_model(
                old(self).updates@,
                old(self).engine.spec_snapshot(),
                old(self).updates.capacity as nat,
            ),
    {
        let u = self.engine.snapshot();
        self.updates.publish(&u);
    }

    /// The `start` command at an explicit time `now`: a paused timer resumes
    /// the captured phase with its captured countdown; any other begins a
    /// fresh work phase of the full `work_duration` started at `now`. The new
    /// state is published at once, so observers see it without waiting for
    /// the next tick.
    pub fn start_at(&mut self, now: i64)
        requires
            old(self).wf(),
        ensures
            final(self).wf(),
            final(self).engine == old(self).engine.spec_start(now),
            final(self).updates.capacity == old(self).updates.capacity,
            final(self).updates@.len() == old(self).updates@.len(),
            final(self).updates@ == publish_model(
                old(self).updates@,
                old(self).engine.spec_start(now).spec_snapshot(),
                old(self).updates.capacity as nat,
            ),
    {
        self.engine.start_at(now);
        self.send_timer_message();
    }

    /// The `start` command, stamped with the wall clock: as `start_at`, with
    /// the current time as the start marker of a fresh work phase.
    pub fn start(&mut self)
        requires
            old(self).wf(),
        ensures
            final(self).wf(),
            final(self).updates.capacity == old(self).updates.capacity,
            final(self).updates@.len() == old(self).updates@.len(),
            exists|t: i64|
                {
                    &&& final(self).engine == old(self).engine.spec_start(t)
                    &&& final(self).updates@ == publish_model(
                        old(self).updates@,
                        old(self).engine.spec_start(t).spec_snapshot(),
                        old(self).updates.capacity as nat,
                    )
                },
    {
        let now = now_timestamp();
        self.start_at(now);
    }

    /// The `stop` command: capture the current phase, halt the clock, and
    /// publish the paused state at once. Stopping an already paused timer
    /// changes nothing beyond re-publishing the current snapshot.
    pub fn stop(&mut self)
        requires
            old(self).wf(),
        ensures
            final(self).wf(),
            final(self).engine == old(self).engine.spec_stop(),
            final(self).updates.capacity == old(self).updates.capacity,
            final(self).updates@.len() == old(self).updates@.len(),
            final(self).updates@ == publish_model(
                old(self).updates@,
                old(self).engine.spec_stop().spec_snapshot(),
                old(self).updates.capacity as nat,
            ),
    {
        self.engine.stop();
        self.send_timer_message();
    }

    /// One clock step at an explicit time `now`. While paused or idle nothing
    /// happens and nothing is published. Otherwise the state the step found
    /// is published first; then, when the countdown has reached zero, the
    /// transition fires and its result is published too, and when it has not,
    /// one second comes off the countdown.
    pub fn tick_at(&mut self, now: i64)
        requires
            old(self).wf(),
            old(self).engine.state is Working && old(self).engine.remaining == 0 ==> old(
                self,
            ).engine.completed_sessions < u32::MAX,
        ensures
            final(self).wf(),
            final(self).engine == old(self).engine.spec_tick(now),
            final(self).updates.capacity == old(self).updates.capacity,
            final(self).updates@.len() == old(self).updates@.len(),
            final(self).updates@ == publish_all(
                old(self).updates@,
                spec_tick_snapshots(old(self).engine, now),
                old(self).updates.capacity as nat,
            ),
    {
        let ghost subs0 = self.updates@;
        let ghost cap = self.updates.capacity as nat;
        let ghost e0 = self.engine;
        if self.is_running() {
            self.send_timer_message();
            if self.engine.remaining == 0 {
                self.engine.tick_at(now);
                self.send_timer_message();
                proof {
                    crate::broadcaster::lemma_publish_all_two(
                        subs0,
                        e0.spec_snapshot(),
                        e0.spec_tick(now).spec_snapshot(),
                        cap,
                    );
                    assert(spec_tick_snapshots(e0, now) =~= seq![
                        e0.spec_snapshot(),
                        e0.spec_tick(now).spec_snapshot(),
                    ]);
                }
            } else {
                self.engine.tick_at(now);
                proof {
                    crate::broadcaster::lemma_publish_all_one(subs0, e0.spec_snapshot(), cap);
                    assert(spec_tick_snapshots(e0, now) =~= seq![e0.spec_snapshot()]);
                }
            }
        } else {
            proof {
                crate::broadcaster::lemma_publish_all_empty(subs0, cap);
                assert(spec_tick_snapshots(e0, now) =~= Seq::<TimerUpdate>::empty());
            }
        }
    }

    /// One clock step, stamped with the wall clock: as `tick_at`, with the
    /// current time as the start marker of a work phase the step may begin.
    pub fn tick(&mut self)
        requires
            old(self).wf(),
            old(self).engine.state is Working && old(self).engine.remaining == 0 ==> old(
                self,
            ).engine.completed_sessions < u32::MAX,
        ensures
            final(self).wf(),
            final(self).updates.capacity == old(self).updates.capacity,
            final(self).updates@.len() == old(self).updates@.len(),
            exists|t: i64|
                {
                    &&& final(self).engine == old(self).engine.spec_tick(t)
                    &&& final(self).updates@ == publish_all(
                        old(self).updates@,
                        spec_tick_snapshots(old(self).engine, t),
                        old(self).updates.capacity as nat,
                    )
                },
    {
        let now = now_timestamp();
        self.tick_at(now);
    }
}

} // verus!



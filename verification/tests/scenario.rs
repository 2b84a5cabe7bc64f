use focusify::broadcaster::RecvOutcome;
use focusify::pomodoro::PomodoroTimer;
use focusify::timer::{PomodoroConfig, TimerState, TimerUpdate};

fn scenario_config() -> PomodoroConfig {
    PomodoroConfig {
        work_duration: 2,
        short_break_duration: 1,
        long_break_duration: 3,
        sessions_before_long_break: 2,
    }
}

fn drain(t: &mut PomodoroTimer, id: usize) -> Vec<TimerUpdate> {
    let mut out = Vec::new();
    loop {
        match t.recv(id) {
            RecvOutcome::Update(u) => out.push(u),
            RecvOutcome::Lagged(_) => panic!("subscriber lagged unexpectedly"),
            RecvOutcome::Empty => return out,
        }
    }
}

#[test]
fn timer_refuses_an_invalid_configuration() {
    let mut c = scenario_config();
    c.sessions_before_long_break = 0;
    assert!(PomodoroTimer::new(c).is_err());
}

#[test]
fn two_work_cycles_reach_the_long_break() {
    let mut t = PomodoroTimer::new(scenario_config()).expect("valid configuration");
    assert_eq!(t.snapshot().state, TimerState::Idle);

    t.start_at(0);
    assert_eq!(t.snapshot().state, TimerState::Working(0));
    assert_eq!(t.snapshot().remaining, 2);

    // First work session: 2 -> 1 -> 0, then the transition tick.
    t.tick_at(1);
    assert_eq!(t.snapshot().remaining, 1);
    t.tick_at(2);
    assert_eq!(t.snapshot().remaining, 0);
    t.tick_at(3);
    let s = t.snapshot();
    assert_eq!(s.state, TimerState::ShortBreak(1));
    assert_eq!(s.remaining, 1);
    assert_eq!(s.completed_sessions, 1);

    // Short break runs down, then a fresh work phase begins.
    t.tick_at(4);
    assert_eq!(t.snapshot().remaining, 0);
    t.tick_at(5);
    let s = t.snapshot();
    assert_eq!(s.state, TimerState::Working(5));
    assert_eq!(s.remaining, 2);
    assert_eq!(s.completed_sessions, 1);

    // Second work session: the cadence of 2 is matched, so the long break.
    t.tick_at(6);
    t.tick_at(7);
    t.tick_at(8);
    let s = t.snapshot();
    assert_eq!(s.state, TimerState::LongBreak(3));
    assert_eq!(s.remaining, 3);
    assert_eq!(s.completed_sessions, 2);
    assert_eq!(s.total_sessions, 2);
}

#[test]
fn every_tick_and_transition_is_published() {
    let mut t = PomodoroTimer::new(scenario_config()).expect("valid configuration");
    let id = t.subscribe();

    t.start_at(0);
    t.tick_at(1);
    t.tick_at(2);
    t.tick_at(3);
    let seen = drain(&mut t, id);
    let summary: Vec<(u64, u32)> = seen
        .iter()
        .map(|u| (u.remaining, u.completed_sessions))
        .collect();
    // start publishes the fresh phase; each tick publishes the state it
    // found; the transition tick publishes its result too.
    assert_eq!(summary, vec![(2, 0), (2, 0), (1, 0), (0, 0), (1, 1)]);
    assert_eq!(seen[0].state, TimerState::Working(0));
    assert_eq!(seen[4].state, TimerState::ShortBreak(1));
}

#[test]
fn paused_clock_publishes_nothing() {
    let mut t = PomodoroTimer::new(scenario_config()).expect("valid configuration");
    let id = t.subscribe();
    t.start_at(0);
    t.stop();
    drain(&mut t, id);
    t.tick_at(1);
    t.tick_at(2);
    assert_eq!(t.recv(id), RecvOutcome::Empty);
}

#[test]
fn stop_publishes_the_paused_snapshot_at_once() {
    let mut t = PomodoroTimer::new(scenario_config()).expect("valid configuration");
    t.start_at(0);
    t.tick_at(1);
    let id = t.subscribe();
    t.stop();
    match t.recv(id) {
        RecvOutcome::Update(u) => {
            assert_eq!(
                u.state,
                TimerState::Paused(1, Box::new(TimerState::Working(0)))
            );
            assert_eq!(u.remaining, 1);
        }
        other => panic!("expected the paused snapshot, got {:?}", other),
    }
}

#[test]
fn stop_start_roundtrip_preserves_countdown() {
    let mut t = PomodoroTimer::new(scenario_config()).expect("valid configuration");
    t.start_at(0);
    t.tick_at(1);
    assert_eq!(t.snapshot().remaining, 1);
    t.stop();
    t.stop();
    t.start_at(50);
    let s = t.snapshot();
    assert_eq!(s.state, TimerState::Working(0));
    assert_eq!(s.remaining, 1);
}

#[test]
fn wall_clock_commands_run_the_real_clock() {
    let mut t = PomodoroTimer::new(scenario_config()).expect("valid configuration");
    t.start();
    let s = t.snapshot();
    assert!(matches!(s.state, TimerState::Working(_)));
    assert_eq!(s.remaining, 2);
    t.tick();
    assert_eq!(t.snapshot().remaining, 1);
    t.stop();
    assert!(matches!(t.snapshot().state, TimerState::Paused(_, _)));
}

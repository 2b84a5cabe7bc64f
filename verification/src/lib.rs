//! A Pomodoro timer core: a validated configuration, the phase state machine
//! with its one-second tick, and a lossy bounded fan-out of state snapshots
//! to any number of observers.

pub mod broadcaster;
pub mod engine;
pub mod pomodoro;
pub mod timer;

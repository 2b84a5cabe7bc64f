use focusify::timer::PomodoroConfig;

#[test]
fn new_converts_minutes_to_seconds() {
    let c = PomodoroConfig::new(25, 5, 15, 4);
    assert_eq!(c.work_duration, 1500);
    assert_eq!(c.short_break_duration, 300);
    assert_eq!(c.long_break_duration, 900);
    assert_eq!(c.sessions_before_long_break, 4);
}

#[test]
fn default_is_the_customary_pomodoro() {
    let c = PomodoroConfig::default();
    assert_eq!(c, PomodoroConfig::new(25, 5, 15, 4));
    assert!(c.is_valid());
}

#[test]
fn valid_configuration_is_accepted() {
    let c = PomodoroConfig {
        work_duration: 1,
        short_break_duration: 1,
        long_break_duration: 1,
        sessions_before_long_break: 1,
    };
    assert!(c.is_valid());
}

#[test]
fn zero_work_duration_is_rejected() {
    let c = PomodoroConfig {
        work_duration: 0,
        short_break_duration: 300,
        long_break_duration: 900,
        sessions_before_long_break: 4,
    };
    assert!(!c.is_valid());
}

#[test]
fn zero_short_break_is_rejected() {
    let c = PomodoroConfig {
        work_duration: 1500,
        short_break_duration: 0,
        long_break_duration: 900,
        sessions_before_long_break: 4,
    };
    assert!(!c.is_valid());
}

#[test]
fn zero_long_break_is_rejected() {
    let c = PomodoroConfig {
        work_duration: 1500,
        short_break_duration: 300,
        long_break_duration: 0,
        sessions_before_long_break: 4,
    };
    assert!(!c.is_valid());
}

#[test]
fn zero_cadence_is_rejected() {
    let c = PomodoroConfig::new(25, 5, 15, 0);
    assert!(!c.is_valid());
}

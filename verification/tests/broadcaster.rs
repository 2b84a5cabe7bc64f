use focusify::broadcaster::{Broadcaster, RecvOutcome};
use focusify::timer::{TimerState, TimerUpdate};

fn update(remaining: u64) -> TimerUpdate {
    TimerUpdate {
        state: TimerState::Working(0),
        remaining,
        completed_sessions: 0,
        total_sessions: 4,
    }
}

#[test]
fn publishing_with_no_subscribers_is_not_an_error() {
    let mut b = Broadcaster::new(4);
    b.publish(&update(10));
    assert_eq!(b.subscriber_count(), 0);
}

#[test]
fn subscriber_receives_published_updates_in_order() {
    let mut b = Broadcaster::new(4);
    let id = b.subscribe();
    b.publish(&update(3));
    b.publish(&update(2));
    assert_eq!(b.recv(id), RecvOutcome::Update(update(3)));
    assert_eq!(b.recv(id), RecvOutcome::Update(update(2)));
    assert_eq!(b.recv(id), RecvOutcome::Empty);
}

#[test]
fn late_subscriber_sees_none_of_the_earlier_updates() {
    let mut b = Broadcaster::new(4);
    b.publish(&update(3));
    b.publish(&update(2));
    b.publish(&update(1));
    let id = b.subscribe();
    assert_eq!(b.recv(id), RecvOutcome::Empty);
    b.publish(&update(0));
    assert_eq!(b.recv(id), RecvOutcome::Update(update(0)));
    assert_eq!(b.recv(id), RecvOutcome::Empty);
}

#[test]
fn slow_subscriber_loses_oldest_and_learns_the_count() {
    let mut b = Broadcaster::new(2);
    let id = b.subscribe();
    b.publish(&update(5));
    b.publish(&update(4));
    b.publish(&update(3));
    b.publish(&update(2));
    assert_eq!(b.recv(id), RecvOutcome::Lagged(2));
    assert_eq!(b.recv(id), RecvOutcome::Update(update(3)));
    assert_eq!(b.recv(id), RecvOutcome::Update(update(2)));
    assert_eq!(b.recv(id), RecvOutcome::Empty);
}

#[test]
fn one_slow_subscriber_does_not_disturb_another() {
    let mut b = Broadcaster::new(2);
    let fast = b.subscribe();
    let slow = b.subscribe();
    b.publish(&update(5));
    assert_eq!(b.recv(fast), RecvOutcome::Update(update(5)));
    b.publish(&update(4));
    assert_eq!(b.recv(fast), RecvOutcome::Update(update(4)));
    b.publish(&update(3));
    assert_eq!(b.recv(fast), RecvOutcome::Update(update(3)));
    // The slow one missed the oldest of the three.
    assert_eq!(b.recv(slow), RecvOutcome::Lagged(1));
    assert_eq!(b.recv(slow), RecvOutcome::Update(update(4)));
    assert_eq!(b.recv(slow), RecvOutcome::Update(update(3)));
    assert_eq!(b.recv(slow), RecvOutcome::Empty);
}

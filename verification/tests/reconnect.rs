use sensor_relay::reconnect::{Attempt, ReconnectController, ReconnectPolicy};

#[test]
fn the_standard_policy_is_twelve_attempts_five_seconds_apart() {
    assert_eq!(ReconnectPolicy::default(), ReconnectPolicy { max_attempts: 12, delay_ms: 5000 });
}

#[test]
fn attempts_are_numbered_from_one_up_to_the_bound() {
    let mut c = ReconnectController::new(ReconnectPolicy { max_attempts: 3, delay_ms: 250 });
    assert_eq!(c.attempts(), 0);
    assert_eq!(c.next_attempt(), Some(Attempt { number: 1, after_ms: 250 }));
    assert_eq!(c.next_attempt(), Some(Attempt { number: 2, after_ms: 250 }));
    assert_eq!(c.attempts(), 2);
    assert_eq!(c.next_attempt(), Some(Attempt { number: 3, after_ms: 250 }));
    assert_eq!(c.next_attempt(), None);
    assert_eq!(c.next_attempt(), None);
    assert_eq!(c.attempts(), 3);
}

#[test]
fn a_reset_gives_the_whole_budget_back() {
    let mut c = ReconnectController::new(ReconnectPolicy { max_attempts: 2, delay_ms: 1 });
    c.next_attempt();
    c.next_attempt();
    assert_eq!(c.next_attempt(), None);
    c.reset();
    assert_eq!(c.attempts(), 0);
    assert_eq!(c.next_attempt(), Some(Attempt { number: 1, after_ms: 1 }));
}

#[test]
fn a_budget_of_zero_allows_no_attempt() {
    let mut c = ReconnectController::new(ReconnectPolicy { max_attempts: 0, delay_ms: 5000 });
    assert_eq!(c.next_attempt(), None);
    assert_eq!(c.attempts(), 0);
}

#[test]
fn the_standard_budget_is_used_up_after_twelve() {
    let mut c = ReconnectController::new(ReconnectPolicy::default());
    for number in 1..=12u32 {
        assert_eq!(c.next_attempt(), Some(Attempt { number, after_ms: 5000 }));
    }
    assert_eq!(c.next_attempt(), None);
}

#[test]
fn the_largest_budget_does_not_overflow() {
    let mut c = ReconnectController::new(ReconnectPolicy { max_attempts: u32::MAX, delay_ms: u64::MAX });
    assert_eq!(c.next_attempt(), Some(Attempt { number: 1, after_ms: u64::MAX }));
}

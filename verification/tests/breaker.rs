use circuit_breaker::model::{
    DEFAULT_FAILURE_THRESHOLD, DEFAULT_RECOVERY_TIMEOUT, HALF_OPEN_MAX, MILLIS_PER_SECOND,
};
use circuit_breaker::{
    allow_request, force_open, init_breaker, record_failure, record_success, reset_breaker,
    BreakerState, CircuitBreakerState,
};

/// An open breaker with the given thresholds whose last failure lies at `at`.
fn tripped(failure_threshold: u32, recovery_timeout: u64, at: u64) -> CircuitBreakerState {
    let mut breaker = CircuitBreakerState::new(failure_threshold, recovery_timeout);
    force_open(&mut breaker, at);
    breaker
}

/// A breaker on probation that has granted its first trial at `at + timeout`.
fn on_probation(recovery_timeout: u64, at: u64) -> CircuitBreakerState {
    let mut breaker = tripped(5, recovery_timeout, at);
    assert!(allow_request(&mut breaker, at + recovery_timeout * 1000));
    assert_eq!(breaker.state(), BreakerState::HalfOpen);
    breaker
}

#[test]
fn test_breaker_starts_closed() {
    let mut breaker = CircuitBreakerState::default();
    reset_breaker(&mut breaker);
    assert!(allow_request(&mut breaker, 0));
}

#[test]
fn test_breaker_opens_after_failures() {
    let mut breaker = CircuitBreakerState::default();
    init_breaker(&mut breaker, 3, 60);
    reset_breaker(&mut breaker);

    record_failure(&mut breaker, 1000);
    record_failure(&mut breaker, 2000);
    assert!(allow_request(&mut breaker, 3000));

    record_failure(&mut breaker, 3000);
    assert!(!allow_request(&mut breaker, 4000));
}

#[test]
fn constants_have_their_documented_values() {
    assert_eq!(HALF_OPEN_MAX, 3);
    assert_eq!(DEFAULT_FAILURE_THRESHOLD, 5);
    assert_eq!(DEFAULT_RECOVERY_TIMEOUT, 60);
    assert_eq!(MILLIS_PER_SECOND, 1000);
}

#[test]
fn new_breaker_is_closed_and_empty() {
    let breaker = CircuitBreakerState::new(7, 42);
    assert_eq!(breaker.state(), BreakerState::Closed);
    assert_eq!(breaker.failure_count(), 0);
    assert_eq!(breaker.success_count(), 0);
    assert_eq!(breaker.failure_threshold(), 7);
    assert_eq!(breaker.recovery_timeout(), 42);
    assert_eq!(breaker.last_failure_time(), None);
    assert_eq!(breaker.half_open_calls(), 0);
    assert_eq!(breaker.half_open_max(), 3);
}

#[test]
fn default_breaker_has_default_thresholds() {
    let breaker = CircuitBreakerState::default();
    assert_eq!(breaker.state(), BreakerState::Closed);
    assert_eq!(breaker.failure_threshold(), 5);
    assert_eq!(breaker.recovery_timeout(), 60);
    assert_eq!(breaker.half_open_max(), 3);
    assert_eq!(breaker.last_failure_time(), None);
}

#[test]
fn state_tags() {
    assert_eq!(BreakerState::Closed.as_str(), "closed");
    assert_eq!(BreakerState::Open.as_str(), "open");
    assert_eq!(BreakerState::HalfOpen.as_str(), "half_open");
}

#[test]
fn closed_admits_at_any_time_after_reset() {
    for time in [0u64, 1, 999, 1000, 60_000, u64::MAX] {
        let mut breaker = tripped(1, 60, 500);
        reset_breaker(&mut breaker);
        assert!(allow_request(&mut breaker, time));
        assert_eq!(breaker.state(), BreakerState::Closed);
        assert_eq!(breaker.half_open_calls(), 0);
    }
}

#[test]
fn configure_closes_and_clears_outcome_counters_only() {
    let mut breaker = on_probation(10, 2000);
    record_failure(&mut breaker, 13_000);
    record_success(&mut breaker);
    assert_eq!(breaker.state(), BreakerState::Open);
    assert_eq!(breaker.failure_count(), 1);
    assert_eq!(breaker.success_count(), 1);
    assert_eq!(breaker.half_open_calls(), 1);

    init_breaker(&mut breaker, 9, 30);
    assert_eq!(breaker.state(), BreakerState::Closed);
    assert_eq!(breaker.failure_count(), 0);
    assert_eq!(breaker.success_count(), 0);
    assert_eq!(breaker.failure_threshold(), 9);
    assert_eq!(breaker.recovery_timeout(), 30);
    assert_eq!(breaker.last_failure_time(), Some(13_000));
    assert_eq!(breaker.half_open_calls(), 1);
    assert_eq!(breaker.half_open_max(), 3);
}

#[test]
fn threshold_trip_counts_failures() {
    let mut breaker = CircuitBreakerState::new(4, 60);
    for k in 1u32..4 {
        record_failure(&mut breaker, 100 * k as u64);
        assert_eq!(breaker.state(), BreakerState::Closed);
        assert_eq!(breaker.failure_count(), k);
        assert_eq!(breaker.last_failure_time(), Some(100 * k as u64));
        assert!(allow_request(&mut breaker, 100 * k as u64 + 1));
    }
    record_failure(&mut breaker, 400);
    assert_eq!(breaker.state(), BreakerState::Open);
    assert_eq!(breaker.failure_count(), 4);
    assert_eq!(breaker.last_failure_time(), Some(400));
    assert!(!allow_request(&mut breaker, 401));
    assert_eq!(breaker.state(), BreakerState::Open);
}

#[test]
fn successes_between_failures_do_not_delay_the_trip() {
    let mut breaker = CircuitBreakerState::new(2, 60);
    record_failure(&mut breaker, 10);
    record_success(&mut breaker);
    assert!(allow_request(&mut breaker, 20));
    assert_eq!(breaker.state(), BreakerState::Closed);
    assert_eq!(breaker.failure_count(), 1);
    assert_eq!(breaker.success_count(), 1);
    record_failure(&mut breaker, 30);
    assert_eq!(breaker.state(), BreakerState::Open);
    assert_eq!(breaker.failure_count(), 2);
}

#[test]
fn zero_threshold_trips_on_first_failure() {
    let mut breaker = CircuitBreakerState::new(0, 60);
    assert!(allow_request(&mut breaker, 0));
    record_failure(&mut breaker, 5);
    assert_eq!(breaker.state(), BreakerState::Open);
    assert_eq!(breaker.failure_count(), 1);
    assert!(!allow_request(&mut breaker, 5));
}

#[test]
fn open_breaker_stays_open_on_failure_below_threshold() {
    let mut breaker = tripped(5, 60, 100);
    record_failure(&mut breaker, 200);
    assert_eq!(breaker.state(), BreakerState::Open);
    assert_eq!(breaker.failure_count(), 1);
    assert_eq!(breaker.last_failure_time(), Some(200));
}

#[test]
fn recovery_timing() {
    let mut breaker = CircuitBreakerState::default();
    init_breaker(&mut breaker, 1, 10);
    record_failure(&mut breaker, 0);
    assert_eq!(breaker.state(), BreakerState::Open);
    assert_eq!(breaker.last_failure_time(), Some(0));

    assert!(!allow_request(&mut breaker, 9999));
    assert_eq!(breaker.state(), BreakerState::Open);

    assert!(allow_request(&mut breaker, 10000));
    assert_eq!(breaker.state(), BreakerState::HalfOpen);
    assert_eq!(breaker.half_open_calls(), 1);
    assert_eq!(breaker.success_count(), 0);
}

#[test]
fn recovery_timing_from_a_later_failure() {
    let mut breaker = tripped(5, 2, 1500);
    assert!(!allow_request(&mut breaker, 1500));
    assert!(!allow_request(&mut breaker, 3499));
    assert_eq!(breaker.state(), BreakerState::Open);
    assert_eq!(breaker.half_open_calls(), 0);
    assert!(allow_request(&mut breaker, 3500));
    assert_eq!(breaker.state(), BreakerState::HalfOpen);
}

#[test]
fn recovery_clears_stale_successes() {
    let mut breaker = tripped(5, 1, 0);
    record_success(&mut breaker);
    record_success(&mut breaker);
    assert_eq!(breaker.success_count(), 2);
    assert!(allow_request(&mut breaker, 1000));
    assert_eq!(breaker.state(), BreakerState::HalfOpen);
    assert_eq!(breaker.success_count(), 0);
    assert_eq!(breaker.half_open_calls(), 1);
}

#[test]
fn zero_timeout_recovers_at_once() {
    let mut breaker = CircuitBreakerState::new(5, 0);
    force_open(&mut breaker, 7);
    assert!(allow_request(&mut breaker, 7));
    assert_eq!(breaker.state(), BreakerState::HalfOpen);
    assert_eq!(breaker.half_open_calls(), 1);
}

#[test]
fn clock_before_last_failure_is_rejected() {
    let mut breaker = tripped(5, 60, 5);
    assert!(!allow_request(&mut breaker, 4));
    assert_eq!(breaker.state(), BreakerState::Open);
    assert_eq!(breaker.half_open_calls(), 0);
    assert_eq!(breaker.last_failure_time(), Some(5));

    let mut breaker = tripped(5, u64::MAX / 1000 + 1, 5);
    assert!(!allow_request(&mut breaker, 4));
    assert_eq!(breaker.state(), BreakerState::Open);

    let mut breaker = tripped(5, 1, 1000);
    assert!(!allow_request(&mut breaker, 0));
    assert_eq!(breaker.state(), BreakerState::Open);
    assert!(!allow_request(&mut breaker, 1999));
    assert!(allow_request(&mut breaker, 2000));
    assert_eq!(breaker.state(), BreakerState::HalfOpen);

    let mut breaker = CircuitBreakerState::new(1, 60);
    record_failure(&mut breaker, 5000);
    assert!(!allow_request(&mut breaker, 4999));
    assert!(!allow_request(&mut breaker, 0));
    assert_eq!(breaker.state(), BreakerState::Open);
    assert_eq!(breaker.half_open_calls(), 0);
}

#[test]
fn zero_timeout_recovers_from_the_failure_time_on() {
    let mut breaker = tripped(5, 0, 7);
    assert!(!allow_request(&mut breaker, 6));
    assert!(!allow_request(&mut breaker, 0));
    assert_eq!(breaker.state(), BreakerState::Open);
    assert!(allow_request(&mut breaker, 7));
    assert_eq!(breaker.state(), BreakerState::HalfOpen);
}

#[test]
fn far_ends_of_the_clock() {
    let mut breaker = tripped(5, 60, u64::MAX);
    assert!(!allow_request(&mut breaker, 0));
    assert!(!allow_request(&mut breaker, u64::MAX));
    assert_eq!(breaker.state(), BreakerState::Open);

    let mut breaker = tripped(5, u64::MAX, 0);
    assert!(!allow_request(&mut breaker, u64::MAX));
    assert_eq!(breaker.state(), BreakerState::Open);

    let mut breaker = tripped(5, u64::MAX / 1000, 0);
    assert!(!allow_request(&mut breaker, u64::MAX / 1000 * 1000 - 1));
    assert!(allow_request(&mut breaker, u64::MAX / 1000 * 1000));
    assert_eq!(breaker.state(), BreakerState::HalfOpen);
}

#[test]
fn half_open_trial_cap() {
    let mut breaker = tripped(5, 10, 0);
    assert!(allow_request(&mut breaker, 10_000));
    assert!(allow_request(&mut breaker, 10_001));
    assert!(allow_request(&mut breaker, 10_002));
    assert_eq!(breaker.half_open_calls(), 3);
    assert!(!allow_request(&mut breaker, 10_003));
    assert!(!allow_request(&mut breaker, 99_999));
    assert_eq!(breaker.half_open_calls(), 3);
    assert_eq!(breaker.state(), BreakerState::HalfOpen);
}

#[test]
fn half_open_trial_cap_with_successes_in_between() {
    let mut breaker = on_probation(10, 0);
    record_success(&mut breaker);
    assert!(allow_request(&mut breaker, 10_100));
    record_success(&mut breaker);
    assert!(allow_request(&mut breaker, 10_200));
    assert_eq!(breaker.state(), BreakerState::HalfOpen);
    assert_eq!(breaker.success_count(), 2);
    assert_eq!(breaker.half_open_calls(), 3);
    assert!(!allow_request(&mut breaker, 10_300));
    assert_eq!(breaker.half_open_calls(), 3);
}

#[test]
fn half_open_close() {
    let mut breaker = on_probation(10, 0);
    record_failure(&mut breaker, 10_500);
    assert!(allow_request(&mut breaker, 20_500));
    assert_eq!(breaker.failure_count(), 1);

    record_success(&mut breaker);
    assert_eq!(breaker.state(), BreakerState::HalfOpen);
    assert_eq!(breaker.success_count(), 1);
    record_success(&mut breaker);
    assert_eq!(breaker.state(), BreakerState::HalfOpen);
    assert_eq!(breaker.success_count(), 2);
    record_success(&mut breaker);
    assert_eq!(breaker.state(), BreakerState::Closed);
    assert_eq!(breaker.success_count(), 0);
    assert_eq!(breaker.failure_count(), 0);
    assert!(allow_request(&mut breaker, 20_501));
}

#[test]
fn half_open_retrip() {
    let mut breaker = on_probation(10, 0);
    assert_eq!(breaker.failure_threshold(), 5);
    record_failure(&mut breaker, 10_700);
    assert_eq!(breaker.state(), BreakerState::Open);
    assert_eq!(breaker.failure_count(), 1);
    assert_eq!(breaker.last_failure_time(), Some(10_700));
    assert!(!allow_request(&mut breaker, 20_699));
    assert!(allow_request(&mut breaker, 20_700));
    assert_eq!(breaker.half_open_calls(), 1);
}

#[test]
fn successes_are_counted_in_every_state() {
    let mut breaker = CircuitBreakerState::new(5, 60);
    record_success(&mut breaker);
    record_success(&mut breaker);
    record_success(&mut breaker);
    record_success(&mut breaker);
    assert_eq!(breaker.state(), BreakerState::Closed);
    assert_eq!(breaker.success_count(), 4);
    force_open(&mut breaker, 0);
    record_success(&mut breaker);
    assert_eq!(breaker.state(), BreakerState::Open);
    assert_eq!(breaker.success_count(), 5);
}

#[test]
fn reset_from_every_state() {
    let closed = CircuitBreakerState::new(2, 10);
    let open = tripped(2, 10, 100);
    let mut half_open = tripped(2, 10, 100);
    assert!(allow_request(&mut half_open, 10_100));
    record_success(&mut half_open);

    for mut breaker in [closed, open, half_open] {
        record_failure(&mut breaker, 20_000);
        reset_breaker(&mut breaker);
        assert_eq!(breaker.state(), BreakerState::Closed);
        assert_eq!(breaker.failure_count(), 0);
        assert_eq!(breaker.success_count(), 0);
        assert_eq!(breaker.half_open_calls(), 0);
        assert_eq!(breaker.last_failure_time(), None);
        assert_eq!(breaker.failure_threshold(), 2);
        assert_eq!(breaker.recovery_timeout(), 10);
        assert!(allow_request(&mut breaker, 0));
        assert!(allow_request(&mut breaker, u64::MAX));

        reset_breaker(&mut breaker);
        assert_eq!(breaker.state(), BreakerState::Closed);
        assert_eq!(breaker.failure_count(), 0);
        assert_eq!(breaker.success_count(), 0);
    }
}

#[test]
fn force_open_overrides() {
    let closed = CircuitBreakerState::new(5, 10);
    let open = tripped(5, 10, 100);
    let half_open = on_probation(10, 100);

    for mut breaker in [closed, open, half_open] {
        record_success(&mut breaker);
        let failures: u32 = breaker.failure_count();
        let successes: u32 = breaker.success_count();
        let calls: u32 = breaker.half_open_calls();

        force_open(&mut breaker, 50_000);
        assert_eq!(breaker.state(), BreakerState::Open);
        assert_eq!(breaker.last_failure_time(), Some(50_000));
        assert_eq!(breaker.failure_count(), failures);
        assert_eq!(breaker.success_count(), successes);
        assert_eq!(breaker.half_open_calls(), calls);
        assert!(!allow_request(&mut breaker, 50_000));
        assert_eq!(breaker.state(), BreakerState::Open);
    }
}

//! The breaker itself and the operations a host calls on it.

use vstd::prelude::*;
use crate::model::{
    BreakerModel, DEFAULT_FAILURE_THRESHOLD, DEFAULT_RECOVERY_TIMEOUT, HALF_OPEN_MAX,
    MILLIS_PER_SECOND,
};
use crate::state::BreakerState;

verus! {

/// The state of one circuit breaker. One instance guards one call site and is
/// owned by the host; instances share nothing.
pub struct CircuitBreakerState {
    state: BreakerState,
    failure_count: u32,
    success_count: u32,
    failure_threshold: u32,
    recovery_timeout: u64,
    last_failure_time: Option<u64>,
    half_open_calls: u32,
    half_open_max: u32,
}

impl View for CircuitBreakerState {
    type V = BreakerModel;

    closed spec fn view(&self) -> BreakerModel {
        BreakerModel {
            state: self.state,
            failure_count: self.failure_count,
            success_count: self.success_count,
            failure_threshold: self.failure_threshold,
            recovery_timeout: self.recovery_timeout,
            last_failure_time: self.last_failure_time,
            half_open_calls: self.half_open_calls,
            half_open_max: self.half_open_max,
        }
    }
}

impl CircuitBreakerState {
    #[verifier::type_invariant]
    spec fn inv(self) -> bool {
        self@.wf()
    }

    /// Builds a closed breaker with the given thresholds and nothing counted.
    pub fn new(failure_threshold: u32, recovery_timeout: u64) -> (breaker: Self)
        ensures
            breaker@ == BreakerModel::initial(failure_threshold, recovery_timeout),
            breaker@.wf(),
    {
        Self {
            state: BreakerState::Closed,
            failure_count: 0,
            success_count: 0,
            failure_threshold,
            recovery_timeout,
            last_failure_time: None,
            half_open_calls: 0,
            half_open_max: HALF_OPEN_MAX,
        }
    }

    /// The current mode.
    pub fn state(&self) -> (state: BreakerState)
        ensures
            state == self@.state,
            self@.wf(),
    {
        proof {
            use_type_invariant(self);
        }
        self.state
    }

    /// Failures recorded since the counter was last cleared.
    pub fn failure_count(&self) -> (count: u32)
        ensures
            count == self@.failure_count,
            self@.wf(),
    {
        proof {
            use_type_invariant(self);
        }
        self.failure_count
    }

    /// Successes recorded since the counter was last cleared.
    pub fn success_count(&self) -> (count: u32)
        ensures
            count == self@.success_count,
            self@.wf(),
    {
        proof {
            use_type_invariant(self);
        }
        self.success_count
    }

    /// Number of failures at which the breaker trips.
    pub fn failure_threshold(&self) -> (threshold: u32)
        ensures
            threshold == self@.failure_threshold,
            self@.wf(),
    {
        proof {
            use_type_invariant(self);
        }
        self.failure_threshold
    }

    /// Seconds that must pass after the last failure before probation starts.
    pub fn recovery_timeout(&self) -> (seconds: u64)
        ensures
            seconds == self@.recovery_timeout,
            self@.wf(),
    {
        proof {
            use_type_invariant(self);
        }
        self.recovery_timeout
    }

    /// Timestamp of the most recent failure, if one was recorded.
    pub fn last_failure_time(&self) -> (time: Option<u64>)
        ensures
            time == self@.last_failure_time,
            self@.wf(),
    {
        proof {
            use_type_invariant(self);
        }
        self.last_failure_time
    }

    /// Trial admissions granted in the current recovery window.
    pub fn half_open_calls(&self) -> (calls: u32)
        ensures
            calls == self@.half_open_calls,
            self@.wf(),
    {
        proof {
            use_type_invariant(self);
        }
        self.half_open_calls
    }

    /// Cap on the trial admissions of one recovery window.
    pub fn half_open_max(&self) -> (cap: u32)
        ensures
            cap == self@.half_open_max,
            cap == HALF_OPEN_MAX,
    {
        proof {
            use_type_invariant(self);
        }
        self.half_open_max
    }
}

impl Default for CircuitBreakerState {
    /// A closed breaker with the default thresholds.
    fn default() -> (breaker: Self)
        ensures
            breaker@ == BreakerModel::initial(
                DEFAULT_FAILURE_THRESHOLD,
                DEFAULT_RECOVERY_TIMEOUT,
            ),
            breaker@.wf(),
    {
        CircuitBreakerState::new(DEFAULT_FAILURE_THRESHOLD, DEFAULT_RECOVERY_TIMEOUT)
    }
}

/// Gives the breaker new thresholds. The breaker closes and both outcome
/// counters are cleared; a threshold of zero trips on the first failure.
pub fn init_breaker(breaker: &mut CircuitBreakerState, failure_threshold: u32, recovery_timeout: u64)
    ensures
        final(breaker)@ == old(breaker)@.configured(failure_threshold, recovery_timeout),
        final(breaker)@.wf(),
{
    proof {
        use_type_invariant(&*breaker);
    }
    breaker.failure_threshold = failure_threshold;
    breaker.recovery_timeout = recovery_timeout;
    breaker.state = BreakerState::Closed;
    breaker.failure_count = 0;
    breaker.success_count = 0;
}

/// The admission check, made right before the protected operation is
/// attempted at time `current_time_ms`. An open breaker whose recovery
/// timeout has elapsed goes on probation here, and nowhere else; a trial
/// granted on probation is counted.
pub fn allow_request(breaker: &mut CircuitBreakerState, current_time_ms: u64) -> (admitted: bool)
    ensures
        admitted == old(breaker)@.admits(current_time_ms),
        final(breaker)@ == old(breaker)@.after_allow(current_time_ms),
        old(breaker)@.state is Closed ==> admitted && final(breaker)@ == old(breaker)@,
        final(breaker)@.wf(),
{
    proof {
        use_type_invariant(&*breaker);
    }
    if breaker.state == BreakerState::Open {
        if let Some(last_failure) = breaker.last_failure_time {
            if current_time_ms >= last_failure {
                let elapsed_secs: u64 = (current_time_ms - last_failure) / MILLIS_PER_SECOND;
                if elapsed_secs >= breaker.recovery_timeout {
                    breaker.half_open_calls = 0;
                    breaker.success_count = 0;
                    breaker.state = BreakerState::HalfOpen;
                }
            }
        }
    }
    match breaker.state {
        BreakerState::Closed => true,
        BreakerState::Open => false,
        BreakerState::HalfOpen => {
            if breaker.half_open_calls < breaker.half_open_max {
                breaker.half_open_calls += 1;
                true
            } else {
                false
            }
        },
    }
}

/// Reports that the operation last admitted has succeeded.
pub fn record_success(breaker: &mut CircuitBreakerState)
    ensures
        final(breaker)@ == old(breaker)@.after_success(),
        final(breaker)@.wf(),
{
    proof {
        use_type_invariant(&*breaker);
    }
    let successes: u32 = breaker.success_count.wrapping_add(1);
    if breaker.state == BreakerState::HalfOpen && successes >= breaker.half_open_max {
        breaker.state = BreakerState::Closed;
        breaker.failure_count = 0;
        breaker.success_count = 0;
    } else {
        breaker.success_count = successes;
    }
}

/// Reports that an operation has failed at time `current_time_ms`. On
/// probation one failure is enough to open the breaker again, whatever the
/// threshold.
pub fn record_failure(breaker: &mut CircuitBreakerState, current_time_ms: u64)
    ensures
        final(breaker)@ == old(breaker)@.after_failure(current_time_ms),
        final(breaker)@.last_failure_time == Some(current_time_ms),
        old(breaker)@.state is HalfOpen ==> final(breaker)@.state is Open,
        final(breaker)@.wf(),
{
    proof {
        use_type_invariant(&*breaker);
    }
    breaker.failure_count = breaker.failure_count.wrapping_add(1);
    breaker.last_failure_time = Some(current_time_ms);
    if breaker.state == BreakerState::HalfOpen {
        breaker.state = BreakerState::Open;
    } else if breaker.failure_count >= breaker.failure_threshold {
        breaker.state = BreakerState::Open;
    }
}

/// The kill switch: opens the breaker at time `current_time_ms`, whatever its
/// state and counters, which are left as they are.
pub fn force_open(breaker: &mut CircuitBreakerState, current_time_ms: u64)
    ensures
        final(breaker)@ == old(breaker)@.after_force_open(current_time_ms),
        final(breaker)@.state is Open,
        final(breaker)@.last_failure_time == Some(current_time_ms),
        final(breaker)@.wf(),
{
    proof {
        use_type_invariant(&*breaker);
    }
    breaker.last_failure_time = Some(current_time_ms);
    breaker.state = BreakerState::Open;
}

/// Puts the breaker back into its power-on state, whatever state it was in,
/// and keeps its thresholds.
pub fn reset_breaker(breaker: &mut CircuitBreakerState)
    ensures
        final(breaker)@ == old(breaker)@.after_reset(),
        final(breaker)@ == BreakerModel::initial(
            old(breaker)@.failure_threshold,
            old(breaker)@.recovery_timeout,
        ),
        final(breaker)@.wf(),
{
    proof {
        use_type_invariant(&*breaker);
    }
    breaker.state = BreakerState::Closed;
    breaker.failure_count = 0;
    breaker.success_count = 0;
    breaker.half_open_calls = 0;
    breaker.last_failure_time = None;
}

} // verus!

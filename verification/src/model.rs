//! The mathematical model of a breaker: a record of plain values and the
//! transition functions over it. Every contract of the executable operations
//! is stated in terms of this model.

use vstd::prelude::*;
use crate::state::BreakerState;

verus! {

/// Cap on the trial admissions of one recovery window, and the number of
/// successes that close the breaker again.
pub const HALF_OPEN_MAX: u32 = 3;

/// Failure threshold of a breaker built with its defaults.
pub const DEFAULT_FAILURE_THRESHOLD: u32 = 5;

/// Recovery timeout, in seconds, of a breaker built with its defaults.
pub const DEFAULT_RECOVERY_TIMEOUT: u64 = 60;

/// Milliseconds in one second.
pub const MILLIS_PER_SECOND: u64 = 1000;

/// Whole seconds that have passed from `last` to a time `now` not before it;
/// a sub-second residual is dropped.
pub open spec fn elapsed_secs(last: u64, now: u64) -> int
    recommends
        last <= now,
{
    (now - last) / (MILLIS_PER_SECOND as int)
}

/// A counter after one more event. Counters are 32 bits wide and start over
/// at zero after `u32::MAX`.
pub open spec fn next_count(count: u32) -> u32 {
    if count == u32::MAX {
        0
    } else {
        (count + 1) as u32
    }
}

/// What a breaker is, as plain values.
pub struct BreakerModel {
    /// Current mode.
    pub state: BreakerState,
    /// Failures recorded since the counter was last cleared.
    pub failure_count: u32,
    /// Successes recorded since the counter was last cleared.
    pub success_count: u32,
    /// Number of failures at which a breaker that is not on probation trips.
    pub failure_threshold: u32,
    /// Seconds that must pass after the last failure before probation starts.
    pub recovery_timeout: u64,
    /// Timestamp, in milliseconds, of the most recent failure.
    pub last_failure_time: Option<u64>,
    /// Trial admissions granted in the current recovery window.
    pub half_open_calls: u32,
    /// Cap on the trial admissions of one recovery window.
    pub half_open_max: u32,
}

impl BreakerModel {
    /// The invariant of every breaker: the trial cap is the fixed constant,
    /// a breaker that is open or on probation has a recorded failure time,
    /// and on probation neither the granted trials exceed the cap nor have
    /// the successes reached it.
    pub open spec fn wf(self) -> bool {
        &&& self.half_open_max == HALF_OPEN_MAX
        &&& !(self.state is Closed) ==> self.last_failure_time is Some
        &&& self.state is HalfOpen ==> self.half_open_calls <= self.half_open_max
        &&& self.state is HalfOpen ==> self.success_count < self.half_open_max
    }

    /// A fresh breaker: closed, nothing counted, no failure recorded.
    pub open spec fn initial(failure_threshold: u32, recovery_timeout: u64) -> BreakerModel {
        BreakerModel {
            state: BreakerState::Closed,
            failure_count: 0,
            success_count: 0,
            failure_threshold,
            recovery_timeout,
            last_failure_time: None,
            half_open_calls: 0,
            half_open_max: HALF_OPEN_MAX,
        }
    }

    /// The breaker after it was given new thresholds: closed, with both
    /// outcome counters cleared. The recorded failure time and the trial
    /// counter are kept.
    pub open spec fn configured(self, failure_threshold: u32, recovery_timeout: u64) -> BreakerModel {
        BreakerModel {
            state: BreakerState::Closed,
            failure_count: 0,
            success_count: 0,
            failure_threshold,
            recovery_timeout,
            ..self
        }
    }

    /// Whether an admission check at `now` starts the probation: the breaker
    /// is open, a failure time is recorded, `now` does not lie before it, and
    /// at least `recovery_timeout` whole seconds have passed since. Times are
    /// not required to be monotone: at a time before the recorded failure no
    /// time has passed, and recovery is not due, whatever the timeout.
    pub open spec fn recovery_due(self, now: u64) -> bool {
        &&& self.state is Open
        &&& self.last_failure_time matches Some(last)
        &&& last <= now
        &&& elapsed_secs(last, now) >= self.recovery_timeout
    }

    /// The breaker after the time-driven transition of an admission check at
    /// `now`: on probation with a fresh window if recovery is due, unchanged
    /// otherwise.
    pub open spec fn recovered(self, now: u64) -> BreakerModel {
        if self.recovery_due(now) {
            BreakerModel {
                state: BreakerState::HalfOpen,
                half_open_calls: 0,
                success_count: 0,
                ..self
            }
        } else {
            self
        }
    }

    /// Whether a request asked for at `now` is admitted. A closed breaker
    /// admits all, an open one none; on probation a request is admitted while
    /// the window has trials left.
    pub open spec fn admits(self, now: u64) -> bool {
        let m = self.recovered(now);
        match m.state {
            BreakerState::Closed => true,
            BreakerState::Open => false,
            BreakerState::HalfOpen => m.half_open_calls < m.half_open_max,
        }
    }

    /// The breaker after an admission check at `now`: the time-driven
    /// transition is taken if due, and a granted trial is counted.
    pub open spec fn after_allow(self, now: u64) -> BreakerModel {
        let m = self.recovered(now);
        if m.state is HalfOpen && m.half_open_calls < m.half_open_max {
            BreakerModel { half_open_calls: (m.half_open_calls + 1) as u32, ..m }
        } else {
            m
        }
    }

    /// The breaker after a reported success: the success is counted, and on
    /// probation the breaker closes, with both outcome counters cleared, once
    /// the count reaches the cap.
    pub open spec fn after_success(self) -> BreakerModel {
        let successes = next_count(self.success_count);
        if self.state is HalfOpen && successes >= self.half_open_max {
            BreakerModel {
                state: BreakerState::Closed,
                failure_count: 0,
                success_count: 0,
                ..self
            }
        } else {
            BreakerModel { success_count: successes, ..self }
        }
    }

    /// The breaker after a failure reported at `now`: the failure is counted
    /// and its time recorded; the breaker trips if it was on probation or if
    /// the count has reached the threshold, and keeps its state otherwise.
    pub open spec fn after_failure(self, now: u64) -> BreakerModel {
        let failures = next_count(self.failure_count);
        BreakerModel {
            state: if self.state is HalfOpen || failures >= self.failure_threshold {
                BreakerState::Open
            } else {
                self.state
            },
            failure_count: failures,
            last_failure_time: Some(now),
            ..self
        }
    }

    /// The breaker after it was forced open at `now`. Counters are kept.
    pub open spec fn after_force_open(self, now: u64) -> BreakerModel {
        BreakerModel { state: BreakerState::Open, last_failure_time: Some(now), ..self }
    }

    /// The breaker after a reset: closed, all counters zero, no failure
    /// recorded. The thresholds are kept.
    pub open spec fn after_reset(self) -> BreakerModel {
        BreakerModel {
            state: BreakerState::Closed,
            failure_count: 0,
            success_count: 0,
            half_open_calls: 0,
            last_failure_time: None,
            ..self
        }
    }
}

} // verus!

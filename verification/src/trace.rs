//! Sequences of calls on a breaker: what a host does to it over time, and
//! what the breaker has become and has granted after such a sequence.

use vstd::prelude::*;
use crate::model::BreakerModel;

verus! {

/// One call a host makes on a breaker.
pub enum BreakerOp {
    /// New thresholds are given.
    Configure { failure_threshold: u32, recovery_timeout: u64 },
    /// An admission check at time `now`.
    AllowRequest { now: u64 },
    /// A success is reported.
    RecordSuccess,
    /// A failure is reported at time `now`.
    RecordFailure { now: u64 },
    /// The breaker is forced open at time `now`.
    ForceOpen { now: u64 },
    /// The breaker is reset.
    Reset,
}

impl BreakerOp {
    /// Whether the call belongs to the ordinary traffic around a protected
    /// operation: an admission check or a reported outcome.
    pub open spec fn is_traffic(self) -> bool {
        self is AllowRequest || self is RecordSuccess || self is RecordFailure
    }

    /// The time that the call records as the time of a failure, if it
    /// records one.
    pub open spec fn failure_time(self) -> Option<u64> {
        match self {
            BreakerOp::RecordFailure { now } => Some(now),
            BreakerOp::ForceOpen { now } => Some(now),
            _ => None,
        }
    }
}

impl BreakerModel {
    /// The breaker after the call `op`.
    pub open spec fn apply(self, op: BreakerOp) -> BreakerModel {
        match op {
            BreakerOp::Configure { failure_threshold, recovery_timeout } => self.configured(
                failure_threshold,
                recovery_timeout,
            ),
            BreakerOp::AllowRequest { now } => self.after_allow(now),
            BreakerOp::RecordSuccess => self.after_success(),
            BreakerOp::RecordFailure { now } => self.after_failure(now),
            BreakerOp::ForceOpen { now } => self.after_force_open(now),
            BreakerOp::Reset => self.after_reset(),
        }
    }

    /// Whether the call `op` is an admission check that the breaker grants.
    pub open spec fn grants(self, op: BreakerOp) -> bool {
        op matches BreakerOp::AllowRequest { now } && self.admits(now)
    }

    /// The breaker after the calls `ops`, made in order.
    pub open spec fn run(self, ops: Seq<BreakerOp>) -> BreakerModel
        decreases ops.len(),
    {
        if ops.len() == 0 {
            self
        } else {
            self.run(ops.drop_last()).apply(ops.last())
        }
    }

    /// The number of admission checks among `ops` that are granted when the
    /// calls are made in order, starting from this breaker.
    pub open spec fn granted(self, ops: Seq<BreakerOp>) -> nat
        decreases ops.len(),
    {
        if ops.len() == 0 {
            0
        } else {
            let before = self.run(ops.drop_last());
            self.granted(ops.drop_last()) + if before.grants(ops.last()) {
                1nat
            } else {
                0nat
            }
        }
    }

    /// Whether the breaker is on probation before each of the calls `ops`,
    /// made in order from this breaker: all of them fall into one recovery
    /// window.
    pub open spec fn probation_lasts(self, ops: Seq<BreakerOp>) -> bool
        decreases ops.len(),
    {
        ops.len() > 0 ==> {
            &&& self.probation_lasts(ops.drop_last())
            &&& self.run(ops.drop_last()).state is HalfOpen
        }
    }
}

/// Whether all of `ops` are ordinary traffic.
pub open spec fn traffic_only(ops: Seq<BreakerOp>) -> bool {
    forall|i: int| 0 <= i < ops.len() ==> (#[trigger] ops[i]).is_traffic()
}

/// The number of reported failures among `ops`.
pub open spec fn failures_in(ops: Seq<BreakerOp>) -> nat
    decreases ops.len(),
{
    if ops.len() == 0 {
        0
    } else {
        failures_in(ops.drop_last()) + if ops.last() is RecordFailure {
            1nat
        } else {
            0nat
        }
    }
}

/// `count` reported successes in a row.
pub open spec fn successes(count: nat) -> Seq<BreakerOp> {
    Seq::new(count, |i: int| BreakerOp::RecordSuccess)
}

} // verus!

//! What holds of every breaker, whatever the host does with it. Each
//! statement is proved over the model that the contracts of the operations
//! are written in.

use vstd::prelude::*;
use crate::model::{BreakerModel, MILLIS_PER_SECOND};
use crate::state::BreakerState;
use crate::trace::{failures_in, successes, traffic_only, BreakerOp};

verus! {

/// No call breaks the invariant of a breaker.
pub proof fn lemma_apply_preserves_wf(m: BreakerModel, op: BreakerOp)
    requires
        m.wf(),
    ensures
        m.apply(op).wf(),
{
}

/// No sequence of calls breaks the invariant of a breaker: every state a
/// breaker can reach is well formed.
pub proof fn lemma_run_preserves_wf(m: BreakerModel, ops: Seq<BreakerOp>)
    requires
        m.wf(),
    ensures
        m.run(ops).wf(),
    decreases ops.len(),
{
    if ops.len() > 0 {
        lemma_run_preserves_wf(m, ops.drop_last());
        lemma_apply_preserves_wf(m.run(ops.drop_last()), ops.last());
    }
}

/// The recorded failure time never recedes while the caller's clock does
/// not: a call other than a reset, made with a time not before the recorded
/// one, leaves a failure time recorded that is not before it either. The
/// breaker itself does not enforce an order on the times it is given.
pub proof fn lemma_failure_time_never_recedes(m: BreakerModel, last: u64, op: BreakerOp)
    requires
        m.last_failure_time == Some(last),
        !(op is Reset),
        op.failure_time() matches Some(now) ==> last <= now,
    ensures
        m.apply(op).last_failure_time matches Some(latest) && last <= latest,
        op.failure_time() matches Some(now) ==> m.apply(op).last_failure_time == Some(now),
        op.failure_time() is None ==> m.apply(op).last_failure_time == Some(last),
{
}

/// A closed breaker admits every request, and the admission check leaves it
/// as it was.
pub proof fn lemma_closed_admits(m: BreakerModel, now: u64)
    requires
        m.state is Closed,
    ensures
        m.admits(now),
        m.after_allow(now) == m,
{
}

/// After a reset every request is admitted, whatever the breaker was before
/// and whatever the time of the request.
pub proof fn lemma_reset_admits(m: BreakerModel, now: u64)
    ensures
        m.after_reset().admits(now),
        m.after_reset().after_allow(now) == m.after_reset(),
{
}

/// A reset always yields the same power-on state: closed, nothing counted.
/// It depends on the prior state only through the thresholds, which it
/// keeps, so a second reset changes nothing.
pub proof fn lemma_reset_idempotent(m: BreakerModel)
    ensures
        m.after_reset().state is Closed,
        m.after_reset().failure_count == 0,
        m.after_reset().success_count == 0,
        m.after_reset().half_open_calls == 0,
        m.after_reset().last_failure_time is None,
        m.after_reset().failure_threshold == m.failure_threshold,
        m.after_reset().recovery_timeout == m.recovery_timeout,
        m.after_reset().after_reset() == m.after_reset(),
        m.wf() ==> m.after_reset() == BreakerModel::initial(
            m.failure_threshold,
            m.recovery_timeout,
        ),
{
}

/// A closed breaker stays closed, and goes on admitting every request,
/// through any traffic that brings its failure count to less than the
/// threshold.
pub proof fn lemma_closed_below_threshold(m: BreakerModel, ops: Seq<BreakerOp>)
    requires
        m.state is Closed,
        traffic_only(ops),
        m.failure_count + failures_in(ops) < m.failure_threshold,
    ensures
        m.run(ops).state is Closed,
        m.run(ops).failure_count == m.failure_count + failures_in(ops),
        m.run(ops).failure_threshold == m.failure_threshold,
        m.run(ops).recovery_timeout == m.recovery_timeout,
        forall|now: u64| #[trigger] m.run(ops).admits(now),
    decreases ops.len(),
{
    if ops.len() > 0 {
        let earlier = ops.drop_last();
        assert forall|i: int| 0 <= i < earlier.len() implies (#[trigger] earlier[i]).is_traffic() by {
            assert(earlier[i] == ops[i]);
        }
        lemma_closed_below_threshold(m, earlier);
        assert(ops.last() == ops[ops.len() - 1]);
    }
}

/// The failure that brings the count of a closed breaker to its threshold
/// opens it. From then on no request is admitted unless recovery is due.
pub proof fn lemma_trips_at_threshold(m: BreakerModel, ops: Seq<BreakerOp>, now: u64)
    requires
        m.state is Closed,
        traffic_only(ops),
        m.failure_count + failures_in(ops) + 1 == m.failure_threshold,
    ensures
        m.run(ops).state is Closed,
        m.run(ops).after_failure(now).state is Open,
        m.run(ops).after_failure(now).failure_count == m.failure_threshold,
        m.run(ops).after_failure(now).last_failure_time == Some(now),
        forall|later: u64| #[trigger]
            m.run(ops).after_failure(now).admits(later) ==> m.run(ops).after_failure(
                now,
            ).recovery_due(later),
{
    lemma_closed_below_threshold(m, ops);
}

/// An open breaker whose last failure lies at `last`, asked at any time
/// `now`: before `recovery_timeout` seconds have passed since `last`, and so
/// at every time before `last` itself, it rejects the request and stays as
/// it is; from then on it goes on probation and grants the request as the
/// first trial of the window.
pub proof fn lemma_recovery_timing(m: BreakerModel, last: u64, now: u64)
    requires
        m.wf(),
        m.state is Open,
        m.last_failure_time == Some(last),
    ensures
        now < last + m.recovery_timeout * MILLIS_PER_SECOND ==> !m.admits(now) && m.after_allow(now)
            == m,
        now >= last + m.recovery_timeout * MILLIS_PER_SECOND ==> m.admits(now) && m.after_allow(
            now,
        ) == (BreakerModel {
            state: BreakerState::HalfOpen,
            success_count: 0,
            half_open_calls: 1,
            ..m
        }),
{
}

/// Within one recovery window the trials granted never exceed the cap,
/// whatever outcomes are reported in between: the trials granted before the
/// calls `ops` and those granted by them stay within the cap together, the
/// breaker counts them exactly, and once the cap is reached it rejects
/// every further request of the window.
pub proof fn lemma_trial_cap(m: BreakerModel, ops: Seq<BreakerOp>)
    requires
        m.wf(),
        m.state is HalfOpen,
        m.probation_lasts(ops),
    ensures
        m.half_open_calls + m.granted(ops) <= m.half_open_max,
        m.run(ops).state is HalfOpen ==> m.run(ops).half_open_calls == m.half_open_calls
            + m.granted(ops),
        m.run(ops).state is HalfOpen && m.half_open_calls + m.granted(ops) == m.half_open_max
            ==> forall|now: u64| !#[trigger] m.run(ops).admits(now),
    decreases ops.len(),
{
    if ops.len() > 0 {
        let earlier = ops.drop_last();
        lemma_trial_cap(m, earlier);
        lemma_run_preserves_wf(m, earlier);
        lemma_run_preserves_wf(m, ops);
    }
}

/// A recovery window that the admission check at `now` opens grants at most
/// the cap of trials in all, the one granted by that check included.
pub proof fn lemma_recovery_window_trial_cap(m: BreakerModel, now: u64, ops: Seq<BreakerOp>)
    requires
        m.wf(),
        m.recovery_due(now),
        m.after_allow(now).probation_lasts(ops),
    ensures
        m.admits(now),
        1 + m.after_allow(now).granted(ops) <= m.half_open_max,
{
    lemma_apply_preserves_wf(m, BreakerOp::AllowRequest { now });
    lemma_trial_cap(m.after_allow(now), ops);
}

/// On probation, successes in a row keep the breaker on probation until
/// their count reaches the cap; the success that reaches it closes the
/// breaker and clears both outcome counters. In a fresh window that takes
/// exactly as many successes as the cap says.
pub proof fn lemma_successes_close_probation(m: BreakerModel, count: nat)
    requires
        m.wf(),
        m.state is HalfOpen,
        m.success_count + count <= m.half_open_max,
    ensures
        m.success_count + count < m.half_open_max ==> m.run(successes(count)) == (BreakerModel {
            success_count: (m.success_count + count) as u32,
            ..m
        }),
        m.success_count + count == m.half_open_max ==> m.run(successes(count)) == (BreakerModel {
            state: BreakerState::Closed,
            failure_count: 0,
            success_count: 0,
            ..m
        }),
    decreases count,
{
    if count > 0 {
        let earlier = (count - 1) as nat;
        assert(successes(count).drop_last() =~= successes(earlier));
        assert(successes(count).last() == BreakerOp::RecordSuccess);
        lemma_successes_close_probation(m, earlier);
    }
}

/// On probation a single failure opens the breaker, whatever the threshold.
pub proof fn lemma_failure_on_probation_trips(m: BreakerModel, now: u64)
    requires
        m.state is HalfOpen,
    ensures
        m.after_failure(now).state is Open,
        m.after_failure(now).last_failure_time == Some(now),
{
}

/// Forcing a breaker open overrides whatever state it was in: it is open
/// with the given failure time, and, unless its recovery timeout is zero, a
/// request at that same time is rejected and leaves it open.
pub proof fn lemma_force_open_rejects(m: BreakerModel, now: u64)
    requires
        m.recovery_timeout > 0,
    ensures
        m.after_force_open(now).state is Open,
        m.after_force_open(now).last_failure_time == Some(now),
        !m.after_force_open(now).admits(now),
        m.after_force_open(now).after_allow(now) == m.after_force_open(now),
{
}

} // verus!

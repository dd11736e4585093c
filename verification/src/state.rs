//! The three modes of a circuit breaker.

use vstd::prelude::*;

verus! {

/// The mode a breaker is in. Exactly one of the three holds at any time.
#[derive(Clone, Copy, Debug, PartialEq, Eq, Structural)]
pub enum BreakerState {
    /// Normal operation: every request is admitted.
    Closed,
    /// Tripped: requests are rejected until the recovery timeout has elapsed.
    Open,
    /// Probation: a bounded number of trial requests is admitted.
    HalfOpen,
}

impl BreakerState {
    /// The lower-case tag under which a state is reported.
    pub open spec fn tag(self) -> Seq<char> {
        match self {
            BreakerState::Closed => "closed"@,
            BreakerState::Open => "open"@,
            BreakerState::HalfOpen => "half_open"@,
        }
    }

    /// Returns the tag of the state: `"closed"`, `"open"` or `"half_open"`.
    pub fn as_str(&self) -> (tag: &'static str)
        ensures
            tag@ == self.tag(),
    {
        match self {
            BreakerState::Closed => "closed",
            BreakerState::Open => "open",
            BreakerState::HalfOpen => "half_open",
        }
    }
}

/// The tags of two different states differ, so a tag identifies its state.
pub proof fn lemma_tag_injective(a: BreakerState, b: BreakerState)
    requires
        a.tag() == b.tag(),
    ensures
        a == b,
{
    reveal_strlit("closed");
    reveal_strlit("open");
    reveal_strlit("half_open");
    assert("closed"@.len() == 6);
    assert("open"@.len() == 4);
    assert("half_open"@.len() == 9);
}

} // verus!

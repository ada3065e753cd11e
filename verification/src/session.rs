//! The trace session: one outcome per time-to-live, in order.
//!
//! A session records the outcome of every hop attempted, one per
//! time-to-live from 1 upward with no gaps or repeats, and terminates on the
//! first `Reached` outcome or when the configured maximum is exhausted,
//! whichever comes first.  Its invariant guarantees that a session never
//! holds more than one `Reached` outcome and that, if present, it is the
//! last.

use vstd::prelude::*;
use crate::addr::IpAddress;
use crate::error::ErrorKind;

verus! {

/// The outcome of probing one hop.  Exactly one is produced per
/// time-to-live attempted.
#[derive(Clone, Copy, Debug, PartialEq, Eq, Structural)]
pub enum HopOutcome {
    /// A reply arrived from the destination itself; `elapsed` is measured
    /// from the send in clock ticks.
    Reached { source: IpAddress, elapsed: u64 },
    /// A reply arrived from an intermediate router.
    Intermediate { source: IpAddress, elapsed: u64 },
    /// No classifiable reply arrived before the per-hop deadline.
    TimedOut,
    /// The hop failed before a reply could be awaited.
    Failed { reason: ErrorKind },
}

/// An ordered record of hop outcomes for one destination.
pub struct TraceSession {
    /// The resolved address the session probes towards.
    pub destination: IpAddress,
    /// The largest time-to-live the session will attempt: at least 1.
    pub max_ttl: u8,
    /// The per-hop timeout, in ticks of the caller's monotonic clock.
    pub per_hop_timeout: u64,
    /// Outcome of each hop attempted so far; index `i` belongs to
    /// time-to-live `i + 1`.
    pub outcomes: Vec<HopOutcome>,
}

impl TraceSession {
    /// The session invariant: no more outcomes than `max_ttl`, and a
    /// `Reached` outcome can only stand last.
    pub open spec fn wf(self) -> bool {
        &&& 1 <= self.max_ttl
        &&& self.outcomes@.len() <= self.max_ttl
        &&& forall|i: int|
            0 <= i < self.outcomes@.len() && self.outcomes@[i] is Reached ==> i == self.outcomes@.len() - 1
    }

    /// The single outcome produced for an attempted time-to-live: outcomes
    /// are stored in attempt order, so `ttl` owns the entry at `ttl - 1`.
    pub open spec fn outcome_for_ttl(self, ttl: int) -> HopOutcome
        recommends
            1 <= ttl <= self.outcomes@.len(),
    {
        self.outcomes@[ttl - 1]
    }

    /// The session is over: the destination was reached, or the maximum
    /// time-to-live is exhausted.
    pub open spec fn finished(self) -> bool {
        ||| self.outcomes@.len() == self.max_ttl
        ||| (self.outcomes@.len() > 0 && self.outcomes@.last() is Reached)
    }

    /// Opens a session towards `destination` with no hops attempted yet.
    pub fn new(destination: IpAddress, max_ttl: u8, per_hop_timeout: u64) -> (s: TraceSession)
        requires
            1 <= max_ttl,
        ensures
            s.wf(),
            !s.finished(),
            s.destination == destination,
            s.max_ttl == max_ttl,
            s.per_hop_timeout == per_hop_timeout,
            s.outcomes@.len() == 0,
    {
        TraceSession { destination, max_ttl, per_hop_timeout, outcomes: Vec::new() }
    }

    /// The next time-to-live to probe: one past the hops already recorded,
    /// or `None` once the session is finished.  Attempted values are thus
    /// strictly increasing from 1, with no gaps and no repeats.
    pub fn next_ttl(&self) -> (t: Option<u8>)
        requires
            self.wf(),
        ensures
            self.finished() ==> t is None,
            !self.finished() ==> t == Some((self.outcomes@.len() + 1) as u8),
    {
        if self.outcomes.len() >= self.max_ttl as usize {
            None
        } else if self.outcomes.len() > 0 && matches!(self.outcomes[self.outcomes.len() - 1], HopOutcome::Reached { .. }) {
            None
        } else {
            Some((self.outcomes.len() + 1) as u8)
        }
    }

    /// Appends the outcome of the hop just probed.  The session finishes
    /// exactly when this outcome is `Reached` or the maximum time-to-live
    /// has now been attempted.
    pub fn record(&mut self, outcome: HopOutcome)
        requires
            old(self).wf(),
            !old(self).finished(),
        ensures
            final(self).wf(),
            final(self).outcomes@ == old(self).outcomes@.push(outcome),
            final(self).finished() <==> (outcome is Reached || old(self).outcomes@.len() + 1
                == old(self).max_ttl),
            final(self).destination == old(self).destination,
            final(self).max_ttl == old(self).max_ttl,
            final(self).per_hop_timeout == old(self).per_hop_timeout,
    {
        proof {
            // Were any recorded outcome `Reached`, it would stand last and
            // the session would already be finished.
            assert(forall|i: int|
                0 <= i < self.outcomes@.len() ==> !(self.outcomes@[i] is Reached));
        }
        self.outcomes.push(outcome);
    }
}

/// A session holds at most one `Reached` outcome, and it is the last.
pub proof fn lemma_at_most_one_reached(s: TraceSession)
    requires
        s.wf(),
    ensures
        forall|i: int, j: int|
            0 <= i < s.outcomes@.len() && 0 <= j < s.outcomes@.len() && s.outcomes@[i] is Reached
                && s.outcomes@[j] is Reached ==> i == j,
        forall|i: int|
            0 <= i < s.outcomes@.len() && s.outcomes@[i] is Reached ==> i == s.outcomes@.len() - 1,
{
}

/// A session always completes: every recorded outcome brings it strictly
/// closer to `max_ttl`, so after at most `max_ttl` hops — fewer when the
/// destination is reached — no next time-to-live is left.
pub proof fn lemma_session_terminates(s: TraceSession)
    requires
        s.wf(),
        !s.finished(),
    ensures
        s.outcomes@.len() < s.max_ttl,
        s.max_ttl - s.outcomes@.len() > 0,
{
}

/// Every time-to-live attempted has exactly one outcome: the one at index
/// `ttl - 1`; and a finished session either exhausted its maximum
/// time-to-live or ends with the destination reached.
pub proof fn lemma_one_outcome_per_ttl(s: TraceSession)
    requires
        s.wf(),
    ensures
        forall|ttl: int|
            1 <= ttl <= s.outcomes@.len() ==> #[trigger] s.outcome_for_ttl(ttl) == s.outcomes@[ttl
                - 1],
        s.outcomes@.len() <= s.max_ttl,
        s.finished() ==> (s.outcomes@.len() == s.max_ttl || (s.outcomes@.len() > 0
            && s.outcomes@.last() is Reached)),
{
}

} // verus!

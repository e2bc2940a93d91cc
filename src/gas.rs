//! The gas counter carried by a frame and by its execution result.
use vstd::prelude::*;

verus! {

/// Gas counter of one frame: a limit fixed at creation, what is left of it,
/// the refund gathered so far and the last cost recorded.
#[derive(Clone, Copy, Debug)]
pub struct Gas {
    pub limit: u64,
    pub remaining: u64,
    pub refunded: u64,
    pub last_cost: u64,
}

impl Gas {
    /// What is left never exceeds the limit.
    pub open spec fn wf(self) -> bool {
        self.remaining <= self.limit
    }

    /// A fresh counter: all of `limit` remains.
    pub fn new(limit: u64) -> (r: Gas)
        ensures
            r == (Gas { limit, remaining: limit, refunded: 0, last_cost: 0 }),
            r.wf(),
    {
        Gas { limit, remaining: limit, refunded: 0, last_cost: 0 }
    }

    pub fn limit(&self) -> (r: u64)
        ensures
            r == self.limit,
    {
        self.limit
    }

    pub fn remaining(&self) -> (r: u64)
        ensures
            r == self.remaining,
    {
        self.remaining
    }

    pub fn refunded(&self) -> (r: u64)
        ensures
            r == self.refunded,
    {
        self.refunded
    }

    pub fn last_cost(&self) -> (r: u64)
        ensures
            r == self.last_cost,
    {
        self.last_cost
    }

    /// Gas used so far.
    pub fn spent(&self) -> (r: u64)
        requires
            self.wf(),
        ensures
            r == self.limit - self.remaining,
    {
        self.limit - self.remaining
    }

    /// The counter after charging `cost`, where at least `cost` remains.
    pub open spec fn spec_record_cost(self, cost: u64) -> Gas {
        Gas { remaining: (self.remaining - cost) as u64, last_cost: cost, ..self }
    }

    /// Charges `cost`. Fails, changing nothing, where less than `cost`
    /// remains; else takes `cost` off what remains and records it as the
    /// last cost.
    pub fn record_cost(&mut self, cost: u64) -> (ok: bool)
        ensures
            ok == (cost <= old(self).remaining),
            ok ==> *final(self) == old(self).spec_record_cost(cost),
            !ok ==> *final(self) == *old(self),
            old(self).wf() ==> final(self).wf(),
    {
        if cost <= self.remaining {
            self.remaining = self.remaining - cost;
            self.last_cost = cost;
            true
        } else {
            false
        }
    }

    /// Adds `refund` to the refund gathered, saturating at the largest `u64`.
    pub fn record_refund(&mut self, refund: u64)
        ensures
            *final(self) == (Gas {
                refunded: if old(self).refunded + refund > u64::MAX {
                    u64::MAX
                } else {
                    (old(self).refunded + refund) as u64
                },
                ..*old(self)
            }),
    {
        self.refunded = self.refunded.saturating_add(refund);
    }
}

} // verus!

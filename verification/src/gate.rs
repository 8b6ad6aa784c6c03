//! The concurrency slot gate: a counting gate that bounds how many device
//! sessions are in flight at once.
//!
//! The driver acquires one slot before a device's session starts and
//! releases it unconditionally when the session ends, success or failure.
//! A `SlotGate` itself never blocks: `try_acquire` reports whether a slot was
//! free, and a driver that got none waits and tries again.

use vstd::prelude::*;

verus! {

/// A counting gate with a fixed capacity. While every holder goes through
/// `try_acquire` and `release`, at no point do more than `limit` holders
/// exist at once.
pub struct SlotGate {
    /// The configured concurrency limit.
    pub limit: usize,
    /// How many slots are currently held.
    pub held: usize,
}

impl SlotGate {
    /// The slot-gate invariant: the held slots never exceed the limit.
    pub open spec fn wf(&self) -> bool {
        self.held <= self.limit
    }

    /// A fresh gate with `limit` free slots.
    pub fn new(limit: usize) -> (g: SlotGate)
        ensures
            g.wf(),
            g.limit == limit,
            g.held == 0,
    {
        SlotGate { limit, held: 0 }
    }

    /// Take one slot if one is free. Succeeds exactly when a slot is
    /// free, and never pushes the held count past the limit.
    pub fn try_acquire(&mut self) -> (got: bool)
        requires
            old(self).wf(),
        ensures
            final(self).wf(),
            final(self).limit == old(self).limit,
            got <==> old(self).held < old(self).limit,
            got ==> final(self).held == old(self).held + 1,
            !got ==> final(self).held == old(self).held,
    {
        if self.held < self.limit {
            self.held = self.held + 1;
            true
        } else {
            false
        }
    }

    /// Give a held slot back. Called unconditionally when a session ends,
    /// whatever its outcome.
    pub fn release(&mut self)
        requires
            old(self).wf(),
            old(self).held > 0,
        ensures
            final(self).wf(),
            final(self).limit == old(self).limit,
            final(self).held == old(self).held - 1,
    {
        self.held = self.held - 1;
    }
}

/// Law: however many devices are waiting, a well-formed gate never has
/// more than its limit of slots held — and `try_acquire` and `release`
/// each preserve well-formedness, so the bound holds at every point of a
/// run that goes through them.
pub proof fn lemma_gate_bounds_holders(g: SlotGate)
    requires
        g.wf(),
    ensures
        g.held <= g.limit,
{
}

/// The number of concurrent units a run uses: the configured limit when
/// one is given, otherwise one unit per device of the fleet.
pub fn effective_limit(fleet_size: usize, workers: Option<usize>) -> (r: usize)
    ensures
        match workers {
            Some(w) => r == w,
            None => r == fleet_size,
        },
{
    match workers {
        Some(w) => w,
        None => fleet_size,
    }
}

} // verus!

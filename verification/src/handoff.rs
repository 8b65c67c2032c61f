//! Hand-off cell: a single-slot container that transfers exclusive ownership
//! of a resource from the startup context to the interrupt context exactly
//! once. The startup side stores the resource before the interrupt line is
//! unmasked; the interrupt side empties the cell on its first activation and
//! caches what it got, so the cell is consulted at most once per side.
//!
//! The cell itself captures the sequential store/take protocol. On hardware
//! the two contexts run interleaved, so the platform layer must perform each
//! `store` and `take` under its mutual-exclusion primitive (a critical
//! section with interrupts masked); that discipline is the only
//! synchronization the whole system needs.

use vstd::prelude::*;

verus! {

/// A single-use, single-slot ownership-transfer cell.
pub struct HandoffCell<T> {
    slot: Option<T>,
}

impl<T> HandoffCell<T> {
    /// What the cell currently holds.
    pub closed spec fn contents(self) -> Option<T> {
        self.slot
    }

    /// A fresh cell holds nothing.
    pub fn new() -> (cell: Self)
        ensures
            cell.contents() is None,
    {
        HandoffCell { slot: None }
    }

    /// Startup side: place the resource in the cell. The cell must still be
    /// empty — the resource is stored exactly once, before the consuming
    /// side is armed.
    pub fn store(&mut self, resource: T)
        requires
            old(self).contents() is None,
        ensures
            final(self).contents() == Some(resource),
    {
        self.slot = Some(resource);
    }

    /// Interrupt side: empty the cell, yielding the stored resource, or
    /// nothing if the cell was never filled or was already emptied. The
    /// caller must cope with an empty answer by doing nothing.
    pub fn take(&mut self) -> (taken: Option<T>)
        ensures
            taken == old(self).contents(),
            final(self).contents() is None,
    {
        self.slot.take()
    }
}

} // verus!

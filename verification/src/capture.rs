//! Edge capture: the state and the decisions of the interrupt context. On a
//! qualifying falling edge the raw tick count read from the pulse counter is
//! smoothed by the pulse filter and remembered as the new filter memory; the
//! stateless dead-zone snap applies only to the value that is reported, so
//! the memory always holds the filter's own output. A spurious activation
//! changes nothing.
//! The hardware itself — reading the edge flag and the counter, resetting
//! the counter, clearing the flag, carrying the report to the sink — is the
//! platform layer's part; this module decides what must happen and says so
//! in its contracts.

use crate::dead_zone::spec_snap;
use crate::dead_zone::snap_to_dead_zone;
use crate::pulse_filter::{filter_pulse, lemma_weighted_avg_le_max, spec_filter, valid_filtered};
use crate::pulse_filter::PREV_WEIGHT;
use vstd::prelude::*;

verus! {

/// What one processed edge reports to the sink: the raw tick count and the
/// filtered, dead-zone-snapped value, with zero standing for "no valid
/// sample".
#[derive(Clone, Copy, Debug, PartialEq, Eq, Structural)]
pub struct EdgeReport {
    /// The raw pulse width, in counter ticks.
    pub raw: u32,
    /// The smoothed and snapped pulse value, or zero when the filter
    /// produced no valid sample.
    pub smoothed: u32,
}

/// The filter memory the interrupt context keeps between edges: absent until
/// the first valid sample, afterwards the last filtered value (before any
/// dead-zone snap, which is stateless and touches only what is reported).
pub struct FilterState {
    prev: Option<u32>,
}

/// The value reported to the sink for a filter memory: the dead-zone snap of
/// the value, or zero as the distinguishable sentinel for absence.
pub open spec fn spec_report_value(p: Option<u32>) -> u32 {
    match p {
        Some(v) => spec_snap(v),
        None => 0,
    }
}

impl FilterState {
    /// The remembered previous filtered value, if any.
    pub closed spec fn current(self) -> Option<u32> {
        self.prev
    }

    /// Every state the interrupt context can reach: the memory is strictly
    /// positive (zero is the absence sentinel) and fits the 16-bit counter
    /// domain, so the weighted sum of the next update fits the machine word.
    pub open spec fn wf(self) -> bool {
        &&& valid_filtered(self.current())
        &&& (self.current() matches Some(v) ==> v <= u16::MAX as u32)
    }

    /// A fresh filter memory: no valid sample yet.
    pub fn new() -> (state: Self)
        ensures
            state.wf(),
            state.current() is None,
    {
        FilterState { prev: None }
    }

    /// The remembered previous filtered value, if any.
    pub fn last_filtered(&self) -> (r: Option<u32>)
        ensures
            r == self.current(),
    {
        self.prev
    }

    /// One interrupt activation.
    ///
    /// `edge_detected` is the state of the falling-edge event flag for the
    /// input line, `counter` the pulse counter's current value. When the
    /// flag is not set the activation is spurious: the memory is left
    /// untouched and no report is produced, and the caller must touch
    /// nothing either — neither reset the counter nor clear the flag. When
    /// the flag is set, the raw count is filtered and remembered, and the
    /// report carries the raw count and the dead-zone snap of the new value
    /// (zero for absence); the caller must then reset the counter to zero
    /// and clear the edge flag, in that order, before returning.
    pub fn handle_edge(&mut self, edge_detected: bool, counter: u16) -> (report: Option<
        EdgeReport,
    >)
        requires
            old(self).wf(),
        ensures
            final(self).wf(),
            !edge_detected ==> *final(self) == *old(self) && report is None,
            edge_detected ==> final(self).current() == spec_filter(
                counter as u32,
                old(self).current(),
            ),
            edge_detected ==> (report matches Some(rep) && rep.raw == counter as u32
                && rep.smoothed == spec_report_value(final(self).current())),
    {
        if !edge_detected {
            return None;
        }
        let raw = counter as u32;
        proof {
            if let Some(p) = self.prev {
                assert(p * PREV_WEIGHT + raw == p * 2 + raw);
                lemma_weighted_avg_le_max(p as int, raw as int);
            }
        }
        let filtered = filter_pulse(raw, self.prev);
        self.prev = filtered;
        let smoothed = match filtered {
            Some(f) => snap_to_dead_zone(f),
            None => 0,
        };
        Some(EdgeReport { raw, smoothed })
    }
}

/// The interrupt context's persistent storage: the hardware resources it has
/// claimed from the hand-off cell (absent until the first activation) and
/// the filter memory. After the first successful claim the resources are
/// cached here and the cell is never consulted again.
pub struct IrqContext<T> {
    resources: Option<T>,
    state: FilterState,
}

impl<T> IrqContext<T> {
    /// The hardware resources this context holds, if it has claimed them.
    pub closed spec fn resources(self) -> Option<T> {
        self.resources
    }

    /// The filter memory.
    pub closed spec fn filter(self) -> FilterState {
        self.state
    }

    /// The reachable states of the interrupt context.
    pub open spec fn wf(self) -> bool {
        self.filter().wf()
    }

    /// A fresh context: no resources claimed, no valid sample yet.
    pub fn new() -> (ctx: Self)
        ensures
            ctx.wf(),
            ctx.resources() is None,
            ctx.filter().current() is None,
    {
        IrqContext { resources: None, state: FilterState::new() }
    }

    /// Whether this activation must first claim the resources from the
    /// hand-off cell.
    pub fn needs_resources(&self) -> (b: bool)
        ensures
            b == (self.resources() is None),
    {
        self.resources.is_none()
    }

    /// Install what taking the hand-off cell yielded — possibly nothing, if
    /// the cell raced a concurrent store or was never filled. Callable only
    /// while no resources are held: once a claim succeeds the context keeps
    /// the resources for the rest of the program.
    pub fn install(&mut self, taken: Option<T>)
        requires
            old(self).resources() is None,
        ensures
            final(self).resources() == taken,
            final(self).filter() == old(self).filter(),
    {
        self.resources = taken;
    }

    /// Borrow the claimed resources, so the platform layer can read the edge
    /// flag and the counter and later reset them.
    pub fn resources_ref(&self) -> (r: Option<&T>)
        ensures
            r matches Some(t) ==> self.resources() == Some(*t),
            r is None <==> self.resources() is None,
    {
        self.resources.as_ref()
    }

    /// Borrow the resource slot mutably, so the platform layer can drive the
    /// claimed hardware: read the edge flag and the counter, reset the
    /// counter, clear the flag. The filter memory is untouched; the slot
    /// afterwards holds whatever the borrow left there.
    pub fn resources_mut(&mut self) -> (r: &mut Option<T>)
        ensures
            *r == old(self).resources(),
            final(self).resources() == *final(r),
            final(self).filter() == old(self).filter(),
    {
        &mut self.resources
    }

    /// One interrupt activation of a context that owns its hardware: decide
    /// as `FilterState::handle_edge` does. The resources are untouched; a
    /// spurious activation (flag not set) changes nothing and reports
    /// nothing.
    pub fn handle_edge(&mut self, edge_detected: bool, counter: u16) -> (report: Option<
        EdgeReport,
    >)
        requires
            old(self).wf(),
            old(self).resources() is Some,
        ensures
            final(self).wf(),
            final(self).resources() == old(self).resources(),
            !edge_detected ==> final(self).filter() == old(self).filter() && report is None,
            edge_detected ==> final(self).filter().current() == spec_filter(
                counter as u32,
                old(self).filter().current(),
            ),
            edge_detected ==> (report matches Some(rep) && rep.raw == counter as u32
                && rep.smoothed == spec_report_value(final(self).filter().current())),
    {
        self.state.handle_edge(edge_detected, counter)
    }
}

} // verus!


//! Dead-zone snap: a stateless quantizer that collapses values within a
//! fixed distance of a reference center to that exact center, so that raw
//! jitter of a few ticks around the neutral position yields a stable, exact
//! neutral reading downstream.

use vstd::prelude::*;

verus! {

/// The reference center: the exact neutral value near-center readings
/// collapse to.
pub const DEAD_ZONE: u32 = 1500;

/// The tolerance distance: readings within this many ticks of the center are
/// collapsed.
pub const DEAD_ZONE_DIST: u32 = 4;

/// Distance of `v` from the dead-zone center.
pub open spec fn dist_from_center(v: int) -> int {
    if v >= DEAD_ZONE { v - DEAD_ZONE } else { DEAD_ZONE - v }
}

/// What snapping yields: the exact center for any value within
/// `DEAD_ZONE_DIST` of it, the value unchanged otherwise.
pub open spec fn spec_snap(v: u32) -> u32 {
    if dist_from_center(v as int) <= DEAD_ZONE_DIST {
        DEAD_ZONE
    } else {
        v
    }
}

/// Collapse a pulse value within the dead zone to the exact center value.
///
/// The input is a valid filtered sample and hence strictly positive; the
/// result is strictly positive as well (the center itself is), so snapping
/// never produces the zero absence sentinel.
pub fn snap_to_dead_zone(pulse: u32) -> (r: u32)
    requires
        pulse > 0,
    ensures
        r == spec_snap(pulse),
        r > 0,
{
    let dist: u32 = if pulse >= DEAD_ZONE {
        pulse - DEAD_ZONE
    } else {
        DEAD_ZONE - pulse
    };
    if dist <= DEAD_ZONE_DIST {
        DEAD_ZONE
    } else {
        pulse
    }
}

/// Law: snapping is idempotent. Snapping an already snapped value changes
/// nothing, for every value: the output is either an unchanged input outside
/// the zone, or exactly the center, and the center snaps to itself.
pub proof fn lemma_snap_idempotent(v: u32)
    ensures
        spec_snap(spec_snap(v)) == spec_snap(v),
{
}

} // verus!

//! Pulse filter: a stateful first-order recursive weighted-average smoother
//! over raw tick counts, in pure integer arithmetic. The previous filtered
//! value contributes `PREV_WEIGHT` parts in `PREV_WEIGHT + 1`, the new raw
//! sample one part; division truncates, which gives a small accepted
//! downward bias. Zero is reserved as the sentinel for "no valid sample", so
//! a computed zero becomes absence.

use vstd::arithmetic::div_mod::{lemma_div_non_zero, lemma_fundamental_div_mod, lemma_mod_bound};
use vstd::prelude::*;

verus! {

/// Weight of the previous filtered value in the recursive average: history
/// contributes `PREV_WEIGHT` parts in `PREV_WEIGHT + 1`, the new raw sample
/// one part.
pub const PREV_WEIGHT: u32 = 2;

/// A filter memory is valid when it is either empty (no valid sample yet) or
/// holds a strictly positive value: zero is reserved as the absence sentinel.
pub open spec fn valid_filtered(p: Option<u32>) -> bool {
    p matches Some(v) ==> v > 0
}

/// The truncating weighted average of a previous filtered value and the next
/// raw sample.
pub open spec fn weighted_avg(prev: int, next: int) -> int {
    (prev * PREV_WEIGHT + next) / (PREV_WEIGHT + 1) as int
}

/// What one filter update yields: the weighted average of the previous value
/// and the raw sample, or the raw sample itself on the first update, with an
/// exact zero mapped to absence.
pub open spec fn spec_filter(next: u32, prev: Option<u32>) -> Option<u32> {
    let v = match prev {
        Some(p) => weighted_avg(p as int, next as int),
        None => next as int,
    };
    if v == 0 {
        None
    } else {
        Some(v as u32)
    }
}

/// One update of the recursive weighted-average filter.
///
/// `prev` is the filter memory (absent before the first valid sample); the
/// result is the new filtered sample, absent exactly when the computed value
/// is zero. The caller keeps `prev` small enough that the weighted sum fits
/// the machine word, which holds for any pulse measured by a 16-bit counter.
pub fn filter_pulse(next: u32, prev: Option<u32>) -> (r: Option<u32>)
    requires
        valid_filtered(prev),
        prev matches Some(p) ==> p * PREV_WEIGHT + next <= u32::MAX,
    ensures
        r == spec_filter(next, prev),
        valid_filtered(r),
{
    if let Some(p) = prev {
        let weighted = (p * PREV_WEIGHT + next) / (PREV_WEIGHT + 1);
        if weighted == 0 {
            None
        } else {
            Some(weighted)
        }
    } else {
        if next == 0 {
            None
        } else {
            Some(next)
        }
    }
}

/// Law: on an empty filter memory, any strictly positive raw sample passes
/// through unchanged and becomes the new memory.
pub proof fn lemma_filter_first_sample(next: u32)
    requires
        next > 0,
    ensures
        spec_filter(next, None) == Some(next),
{
}

/// Law: on a memory holding `p`, the update yields exactly the truncating
/// weighted average of `p` and the raw sample, and that average becomes the
/// new memory. This holds whenever the average is not zero, i.e. whenever
/// the weighted sum reaches the divisor; the one excluded corner is a memory
/// of 1 together with a raw sample of 0, where the average truncates to zero
/// and the memory becomes absent instead.
pub proof fn lemma_filter_tracking(next: u32, p: u32)
    requires
        p > 0,
        p * PREV_WEIGHT + next >= PREV_WEIGHT + 1,
    ensures
        spec_filter(next, Some(p)) == Some(weighted_avg(p as int, next as int) as u32),
        weighted_avg(p as int, next as int) > 0,
{
    let sum: int = p * PREV_WEIGHT + next;
    lemma_div_non_zero(sum, (PREV_WEIGHT + 1) as int);
    lemma_fundamental_div_mod(sum, (PREV_WEIGHT + 1) as int);
    lemma_mod_bound(sum, (PREV_WEIGHT + 1) as int);
}

/// Law: the weighted average of two non-negative values is non-negative and
/// lies at or below the larger of the two. In particular, filtering never
/// drives the value above the domain its inputs came from.
pub proof fn lemma_weighted_avg_le_max(prev: int, next: int)
    requires
        0 <= prev,
        0 <= next,
    ensures
        0 <= weighted_avg(prev, next),
        weighted_avg(prev, next) <= if prev >= next {
            prev
        } else {
            next
        },
{
    let sum: int = prev * PREV_WEIGHT + next;
    lemma_fundamental_div_mod(sum, (PREV_WEIGHT + 1) as int);
    lemma_mod_bound(sum, (PREV_WEIGHT + 1) as int);
    assert(sum == prev * 2 + next);
    assert(sum == 3 * (sum / 3) + sum % 3);
}

/// The filtered value after feeding the constant raw sample `next` to a
/// filter whose memory holds `prev`, `k` times over.
pub open spec fn iterate_filter(next: int, prev: int, k: nat) -> int
    decreases k,
{
    if k == 0 {
        prev
    } else {
        iterate_filter(next, weighted_avg(prev, next), (k - 1) as nat)
    }
}

/// Law (one step, no overshoot): from a memory at or above the raw sample,
/// one update lands between the sample and the memory, moves strictly down
/// whenever the memory is above the sample, and stands still once they meet.
pub proof fn lemma_filter_step_bounds(prev: int, next: int)
    requires
        0 <= next <= prev,
    ensures
        next <= weighted_avg(prev, next) <= prev,
        prev > next ==> weighted_avg(prev, next) < prev,
        prev == next ==> weighted_avg(prev, next) == next,
{
    let sum: int = prev * PREV_WEIGHT + next;
    lemma_fundamental_div_mod(sum, (PREV_WEIGHT + 1) as int);
    lemma_mod_bound(sum, (PREV_WEIGHT + 1) as int);
    assert(sum == prev * 2 + next);
    assert(sum == 3 * (sum / 3) + sum % 3);
}

/// Law (no oscillation): feeding a constant raw sample any number of times
/// from a memory at or above it keeps the filtered value between the sample
/// and the starting memory; the filter never swings past its target.
pub proof fn lemma_filter_stays_in_band(next: int, prev: int, k: nat)
    requires
        0 <= next <= prev,
    ensures
        next <= iterate_filter(next, prev, k) <= prev,
    decreases k,
{
    if k > 0 {
        lemma_filter_step_bounds(prev, next);
        lemma_filter_stays_in_band(next, weighted_avg(prev, next), (k - 1) as nat);
    }
}

/// Law (unrolling): iterating one more time applies one more weighted
/// average to the last filtered value.
pub proof fn lemma_iterate_filter_unfold(next: int, prev: int, k: nat)
    ensures
        iterate_filter(next, prev, k + 1) == weighted_avg(iterate_filter(next, prev, k), next),
    decreases k,
{
    let w = weighted_avg(prev, next);
    if k == 0 {
        assert(iterate_filter(next, prev, 1) == iterate_filter(next, w, 0));
    } else {
        lemma_iterate_filter_unfold(next, w, (k - 1) as nat);
        assert(iterate_filter(next, prev, k + 1) == iterate_filter(next, w, k));
        assert(iterate_filter(next, prev, k) == iterate_filter(next, w, (k - 1) as nat));
    }
}

/// Law (monotone descent): under a constant raw sample at or below the
/// memory, the filtered value never increases from one update to the next
/// and never drops below the sample.
pub proof fn lemma_filter_monotone(next: int, prev: int, k: nat)
    requires
        0 <= next <= prev,
    ensures
        next <= iterate_filter(next, prev, k + 1) <= iterate_filter(next, prev, k),
{
    lemma_filter_stays_in_band(next, prev, k);
    lemma_iterate_filter_unfold(next, prev, k);
    lemma_filter_step_bounds(iterate_filter(next, prev, k), next);
}

/// Law (exact convergence in bounded time): feeding the constant raw sample
/// `next` repeatedly, starting from a memory at or above it, reaches exactly
/// `next` after at most `prev - next` updates and stays there. Together with
/// the descent and band laws this is monotonic convergence without
/// oscillation. (From a memory strictly below the sample the truncating
/// division can stop short: a memory of 1499 under a constant sample of 1500
/// stays at 1499 forever, so only the downward direction converges exactly.)
pub proof fn lemma_filter_converges(next: int, prev: int, k: nat)
    requires
        0 <= next <= prev,
        k >= prev - next,
    ensures
        iterate_filter(next, prev, k) == next,
    decreases k,
{
    if k > 0 {
        lemma_filter_step_bounds(prev, next);
        lemma_filter_converges(next, weighted_avg(prev, next), (k - 1) as nat);
    }
}

/// Law: under a constant raw sample a filter started empty locks on at once:
/// the first update yields the sample exactly, and every later update keeps
/// it — the sample is a fixpoint of the weighted average.
pub proof fn lemma_constant_input_locks_on(v: u32, k: nat)
    requires
        v > 0,
    ensures
        spec_filter(v, None) == Some(v),
        iterate_filter(v as int, v as int, k) == v,
{
    lemma_filter_converges(v as int, v as int, k);
}

} // verus!

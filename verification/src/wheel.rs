//! The weighted slot resolver.
//!
//! The weights of the slots, taken in order, cut the number line from zero
//! into consecutive half-open intervals, one per slot. A point resolves to
//! the slot whose interval holds it, and to slot 0 when no interval does.

use vstd::prelude::*;
use crate::config::ENTROPY_RANGE;

verus! {

/// Sum of the first `n` weights: where the interval of slot `n` begins.
pub open spec fn cumulative_weight(weights: Seq<u32>, n: int) -> nat
    decreases n,
{
    if n <= 0 {
        0
    } else {
        cumulative_weight(weights, n - 1) + weights[n - 1] as nat
    }
}

/// Sum of all the weights: where the last interval ends.
pub open spec fn total_weight(weights: Seq<u32>) -> nat {
    cumulative_weight(weights, weights.len() as int)
}

/// Whether `point` lies in the interval of slot `i`, which runs from the sum
/// of the weights before it up to, and not including, that sum plus its own
/// weight.
pub open spec fn slot_covers(weights: Seq<u32>, i: int, point: nat) -> bool {
    &&& 0 <= i < weights.len()
    &&& cumulative_weight(weights, i) <= point < cumulative_weight(weights, i + 1)
}

/// The slot that `point` resolves to: the one whose interval holds it, or
/// slot 0 when none does.
pub open spec fn resolved_slot(weights: Seq<u32>, point: nat) -> int {
    if exists|i: int| slot_covers(weights, i, point) {
        choose|i: int| slot_covers(weights, i, point)
    } else {
        0
    }
}

/// The map from an entropy sample to the point that is looked up on the wheel.
#[derive(Clone, Copy, Debug, PartialEq, Eq, Structural)]
pub enum SampleTransform {
    /// The sample is the point.
    Identity,
    /// The point is the cube of the sample, which stretches samples below 100
    /// over points below 1,000,000 and favours the early slots.
    Cubic,
}

impl SampleTransform {
    /// The point that `sample` is mapped to.
    pub open spec fn spec_apply(self, sample: nat) -> nat {
        match self {
            SampleTransform::Identity => sample,
            SampleTransform::Cubic => sample * sample * sample,
        }
    }

    /// Maps `sample` to the point that is looked up on the wheel.
    pub fn apply(self, sample: u32) -> (point: u128)
        ensures
            point == self.spec_apply(sample as nat),
    {
        match self {
            SampleTransform::Identity => sample as u128,
            SampleTransform::Cubic => {
                let s: u128 = sample as u128;
                assert(s * s <= 0xffff_ffff * 0xffff_ffff) by (nonlinear_arith)
                    requires
                        s <= 0xffff_ffff,
                ;
                let square: u128 = s * s;
                assert(square * s <= 0xffff_ffff * 0xffff_ffff * 0xffff_ffff) by (nonlinear_arith)
                    requires
                        square <= 0xffff_ffff * 0xffff_ffff,
                        s <= 0xffff_ffff,
                ;
                square * s
            },
        }
    }
}

/// The interval starts never decrease along the slots.
pub proof fn lemma_cumulative_weight_monotonic(weights: Seq<u32>, a: int, b: int)
    requires
        0 <= a <= b,
    ensures
        cumulative_weight(weights, a) <= cumulative_weight(weights, b),
    decreases b - a,
{
    if a < b {
        lemma_cumulative_weight_monotonic(weights, a, b - 1);
    }
}

/// No point lies in the intervals of two slots.
pub proof fn lemma_slot_covers_unique(weights: Seq<u32>, i: int, j: int, point: nat)
    requires
        slot_covers(weights, i, point),
        slot_covers(weights, j, point),
    ensures
        i == j,
{
    if i < j {
        lemma_cumulative_weight_monotonic(weights, i + 1, j);
    }
    if j < i {
        lemma_cumulative_weight_monotonic(weights, j + 1, i);
    }
}

/// A point below the sum of the first `n` weights lies in the interval of one
/// of the first `n` slots.
pub proof fn lemma_point_below_cumulative_is_covered(weights: Seq<u32>, n: int, point: nat)
    requires
        0 <= n <= weights.len(),
        point < cumulative_weight(weights, n),
    ensures
        exists|i: int| 0 <= i < n && slot_covers(weights, i, point),
    decreases n,
{
    if point < cumulative_weight(weights, n - 1) {
        lemma_point_below_cumulative_is_covered(weights, n - 1, point);
        let i = choose|i: int| 0 <= i < n - 1 && slot_covers(weights, i, point);
        assert(0 <= i < n && slot_covers(weights, i, point));
    } else {
        assert(slot_covers(weights, n - 1, point));
    }
}

/// A slot whose interval holds the point is the one the point resolves to.
pub proof fn lemma_resolved_slot_is_covering(weights: Seq<u32>, i: int, point: nat)
    requires
        slot_covers(weights, i, point),
    ensures
        resolved_slot(weights, point) == i,
{
    lemma_slot_covers_unique(weights, i, resolved_slot(weights, point), point);
}

/// A point at or past the sum of all the weights resolves to slot 0.
pub proof fn lemma_resolved_slot_fallback(weights: Seq<u32>, point: nat)
    requires
        point >= total_weight(weights),
    ensures
        resolved_slot(weights, point) == 0,
{
    assert forall|i: int| !slot_covers(weights, i, point) by {
        if 0 <= i < weights.len() {
            lemma_cumulative_weight_monotonic(weights, i + 1, weights.len() as int);
        }
    }
}

/// A point resolves to an index of a slot, or to 0 where there is none.
pub proof fn lemma_resolved_slot_in_range(weights: Seq<u32>, point: nat)
    ensures
        0 <= resolved_slot(weights, point),
        weights.len() > 0 ==> resolved_slot(weights, point) < weights.len(),
        weights.len() == 0 ==> resolved_slot(weights, point) == 0,
{
}

/// Whenever the weights sum to no more than the entropy range, a sample of
/// that range that lies below their sum resolves to exactly one slot: the
/// interval of the resolved slot holds the sample, and no other slot's does.
pub proof fn lemma_resolved_slot_covers_sample(weights: Seq<u32>, range: nat, sample: nat)
    requires
        total_weight(weights) <= range,
        sample < range,
        sample < total_weight(weights),
    ensures
        slot_covers(weights, resolved_slot(weights, sample), sample),
        forall|j: int| slot_covers(weights, j, sample) ==> j == resolved_slot(weights, sample),
{
    lemma_point_below_cumulative_is_covered(weights, weights.len() as int, sample);
    assert forall|j: int| slot_covers(weights, j, sample) implies j == resolved_slot(
        weights,
        sample,
    ) by {
        lemma_resolved_slot_is_covering(weights, j, sample);
    }
}

/// Weights that sum to zero resolve every point to slot 0.
pub proof fn lemma_zero_total_resolves_to_first(weights: Seq<u32>, point: nat)
    requires
        total_weight(weights) == 0,
    ensures
        resolved_slot(weights, point) == 0,
{
    lemma_resolved_slot_fallback(weights, point);
}

/// Samples of the entropy range are mapped by the cubic transform to points
/// below 1,000,000, and by the identity to themselves.
pub proof fn lemma_transform_range(sample: nat)
    requires
        sample < ENTROPY_RANGE,
    ensures
        SampleTransform::Identity.spec_apply(sample) < ENTROPY_RANGE,
        SampleTransform::Cubic.spec_apply(sample) < 1_000_000,
{
    assert(sample * sample * sample <= 99 * 99 * 99) by (nonlinear_arith)
        requires
            sample <= 99,
    ;
}

/// Resolves `point` against `weights`: walks the slots in order, keeping the
/// start of the current interval, and returns the first slot whose interval
/// holds the point; returns 0 when the walk ends without one.
pub fn resolve_slot(weights: &[u32], point: u128) -> (index: usize)
    ensures
        index == resolved_slot(weights@, point as nat),
        weights.len() > 0 ==> index < weights.len(),
{
    let mut cursor: u128 = 0;
    let mut i: usize = 0;
    while i < weights.len()
        invariant
            i <= weights.len(),
            cursor == cumulative_weight(weights@, i as int),
            cursor <= i * 0xffff_ffff,
            forall|j: int| 0 <= j < i ==> !slot_covers(weights@, j, point as nat),
        decreases weights.len() - i,
    {
        let interval_end: u128 = cursor + weights[i] as u128;
        if point >= cursor && point < interval_end {
            proof {
                lemma_resolved_slot_is_covering(weights@, i as int, point as nat);
            }
            return i;
        }
        cursor = interval_end;
        i += 1;
    }
    proof {
        lemma_resolved_slot_in_range(weights@, point as nat);
    }
    0
}

} // verus!

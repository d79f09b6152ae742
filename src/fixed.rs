use vstd::prelude::*;

verus! {

/// Fixed-point scale: the value 1.0 is stored as `ONE`, so every quantity of
/// the game (offsets, radii, progress ratios, seconds) is a count of millionths.
pub const ONE: u64 = 1_000_000;

/// Linear interpolation from `start` to `end` at `ratio` (a fraction of `ONE`),
/// rounding the step towards `start`.
pub open spec fn lerp_spec(start: u64, end: u64, ratio: u64) -> int {
    if end >= start {
        start + (end - start) * ratio / (ONE as int)
    } else {
        start - (start - end) * ratio / (ONE as int)
    }
}

proof fn lemma_step_bounded(d: int, ratio: int)
    requires
        0 <= d <= u64::MAX as int,
        0 <= ratio <= ONE as int,
    ensures
        0 <= d * ratio / (ONE as int) <= d,
        d * ratio <= (u64::MAX as int) * (ONE as int),
        ratio == ONE as int ==> d * ratio / (ONE as int) == d,
{
    assert(d * (ONE as int) <= (u64::MAX as int) * (ONE as int)) by (nonlinear_arith)
        requires d <= u64::MAX as int;
    assert(d * ratio <= d * (ONE as int)) by (nonlinear_arith)
        requires 0 <= d, ratio <= ONE as int;
    assert(0 <= d * ratio) by (nonlinear_arith)
        requires 0 <= d, 0 <= ratio;
    assert(d * (ONE as int) / (ONE as int) == d) by (nonlinear_arith);
    assert(d * ratio / (ONE as int) <= d * (ONE as int) / (ONE as int)) by (nonlinear_arith)
        requires d * ratio <= d * (ONE as int);
}

/// Interpolates between two fixed-point values; the result lies between them.
pub fn lerp(start: u64, end: u64, ratio: u64) -> (r: u64)
    requires
        ratio <= ONE,
    ensures
        r == lerp_spec(start, end, ratio),
        ratio == 0 ==> r == start,
        ratio == ONE ==> r == end,
{
    if end >= start {
        let d: u64 = end - start;
        proof {
            lemma_step_bounded(d as int, ratio as int);
        }
        let step: u128 = (d as u128) * (ratio as u128) / (ONE as u128);
        start + (step as u64)
    } else {
        let d: u64 = start - end;
        proof {
            lemma_step_bounded(d as int, ratio as int);
        }
        let step: u128 = (d as u128) * (ratio as u128) / (ONE as u128);
        start - (step as u64)
    }
}

} // verus!

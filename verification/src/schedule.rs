use vstd::prelude::*;

verus! {

/// The unit of the Q32 fixed-point fractions used for the decay factor
/// and the acceptance threshold: values scaled by `2^32`.
pub const FP_ONE: u64 = 0x1_0000_0000;

/// One cooling step: the temperature multiplied by a Q32 decay factor,
/// rounded down.
pub open spec fn cool_step(temp: int, decay: int) -> int {
    (temp * decay) / (FP_ONE as int)
}

/// `steps` successive applications of the Q32 factor `y` to the unit,
/// rounded down at each step: the fraction of the starting temperature
/// left after `steps` cooling steps.
pub open spec fn pow_fix(y: int, steps: nat) -> int
    decreases steps,
{
    if steps == 0 {
        FP_ONE as int
    } else {
        (pow_fix(y, (steps - 1) as nat) * y) / (FP_ONE as int)
    }
}

/// The ratio `t_min / t_max` as a Q32 fraction, capped just below one
/// so that a degenerate pair (a terminal temperature at or above the
/// starting one) still yields a decaying schedule.
pub open spec fn capped_ratio(t_min: int, t_max: int) -> int {
    let r = (t_min * (FP_ONE as int)) / t_max;
    if r >= FP_ONE - 1 {
        FP_ONE as int - 1
    } else {
        r
    }
}

/// `steps` applications of `y` starting from `p` instead of the unit.
fn pow_fix_exec(y: u64, steps: usize) -> (p: u64)
    requires
        1 <= y < FP_ONE,
    ensures
        p == pow_fix(y as int, steps as nat),
        p <= FP_ONE,
{
    let mut p: u64 = FP_ONE;
    let mut i: usize = 0;
    while i < steps
        invariant
            1 <= y < FP_ONE,
            i <= steps,
            p == pow_fix(y as int, i as nat),
            p <= FP_ONE,
        decreases steps - i,
    {
        assert(p * y <= FP_ONE * FP_ONE) by (nonlinear_arith)
            requires
                p <= FP_ONE,
                y < FP_ONE,
        ;
        let prod: u128 = (p as u128) * (y as u128);
        let next: u128 = prod / (FP_ONE as u128);
        assert(next <= FP_ONE) by (nonlinear_arith)
            requires
                prod == p * y,
                next == prod / (FP_ONE as u128),
                p <= FP_ONE,
                y < FP_ONE,
                FP_ONE == 0x1_0000_0000,
        ;
        p = next as u64;
        i = i + 1;
    }
    p
}

/// The per-step Q32 decay factor of a cooling pass: the largest factor
/// whose `steps`-fold application does not leave more than the
/// `t_min / t_max` fraction of the starting temperature, or the
/// smallest representable factor where even that overshoots. It is
/// strictly below one, so each cooling step strictly lowers a positive
/// temperature.
pub fn decay_factor(t_max: i64, t_min: i64, steps: usize) -> (d: u64)
    requires
        1 <= t_min,
        1 <= t_max <= crate::annealer::TEMP_LIMIT,
        1 <= steps,
    ensures
        1 <= d < FP_ONE,
        d == 1 || pow_fix(d as int, steps as nat) <= capped_ratio(t_min as int, t_max as int),
        d == FP_ONE - 1 || pow_fix(d + 1, steps as nat) > capped_ratio(t_min as int, t_max as int),
{
    let wide: u128 = (t_min as u128) * (FP_ONE as u128) / (t_max as u128);
    let ratio: u64 = if wide >= (FP_ONE - 1) as u128 {
        FP_ONE - 1
    } else {
        wide as u64
    };
    assert(ratio == capped_ratio(t_min as int, t_max as int));

    let mut lo: u64 = 1;
    let mut hi: u64 = FP_ONE - 1;
    while lo < hi
        invariant
            1 <= lo <= hi <= FP_ONE - 1,
            1 <= steps,
            ratio == capped_ratio(t_min as int, t_max as int),
            lo == 1 || pow_fix(lo as int, steps as nat) <= ratio,
            hi == FP_ONE - 1 || pow_fix(hi + 1, steps as nat) > ratio,
        decreases hi - lo,
    {
        let mid: u64 = lo + (hi - lo + 1) / 2;
        if pow_fix_exec(mid, steps) <= ratio {
            lo = mid;
        } else {
            hi = mid - 1;
        }
    }
    lo
}

/// One cooling step. A factor strictly below one strictly lowers any
/// positive temperature, so the temperature sequence of a pass is
/// strictly decreasing.
pub fn cool(temp: i64, decay: u64) -> (t: i64)
    requires
        1 <= temp <= crate::annealer::TEMP_LIMIT,
        1 <= decay < FP_ONE,
    ensures
        t == cool_step(temp as int, decay as int),
        0 <= t < temp,
{
    assert(temp * decay <= crate::annealer::TEMP_LIMIT * FP_ONE) by (nonlinear_arith)
        requires
            1 <= temp <= crate::annealer::TEMP_LIMIT,
            decay < FP_ONE,
    ;
    let prod: u128 = (temp as u128) * (decay as u128);
    let next: u128 = prod / (FP_ONE as u128);
    assert(next < temp) by (nonlinear_arith)
        requires
            prod == temp * decay,
            next == prod / (FP_ONE as u128),
            1 <= temp,
            decay < FP_ONE,
            FP_ONE == 0x1_0000_0000,
    ;
    next as i64
}

} // verus!

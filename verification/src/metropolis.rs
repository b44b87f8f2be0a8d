use vstd::prelude::*;

verus! {

/// `log2(e)` in Q32, rounded down.
pub const LOG2_E_Q32: u64 = 6196328018;

/// `ln(2)` in Q32, rounded down.
pub const LN_2_Q32: u64 = 2977044471;

/// A Q32 approximation of `2^(-z/2^32)`: the exponent is split into its
/// integer and fractional parts, the fractional power of two is taken
/// from the cubic truncation of the alternating series for
/// `e^(-f*ln 2)`, and the integer part becomes a halving loop. The
/// result is exactly one when the exponent is zero and never exceeds
/// one.
/// A Q32 fixed-point product: `a * b / 2^32`, rounded down. Never
/// exceeds either factor while both stay at or below one.
fn mul_shift(a: u64, b: u64) -> (r: u64)
    requires
        a <= crate::schedule::FP_ONE,
        b <= crate::schedule::FP_ONE,
    ensures
        r == (a as int) * (b as int) / (crate::schedule::FP_ONE as int),
        r <= a,
        r <= b,
{
    assert((a as int) * (b as int) <= (crate::schedule::FP_ONE as int) * (
    crate::schedule::FP_ONE as int)) by (nonlinear_arith)
        requires
            0 <= a <= crate::schedule::FP_ONE,
            0 <= b <= crate::schedule::FP_ONE,
    ;
    let prod: u128 = (a as u128) * (b as u128);
    let r_wide: u128 = prod / (crate::schedule::FP_ONE as u128);
    assert(r_wide <= a && r_wide <= b) by (nonlinear_arith)
        requires
            prod == (a as int) * (b as int),
            r_wide == (prod as int) / (crate::schedule::FP_ONE as int),
            0 <= a <= crate::schedule::FP_ONE,
            0 <= b <= crate::schedule::FP_ONE,
            crate::schedule::FP_ONE == 0x1_0000_0000,
    ;
    r_wide as u64
}

fn exp2_neg(z: u128) -> (th: u64)
    ensures
        th <= crate::schedule::FP_ONE,
        z == 0 ==> th == crate::schedule::FP_ONE,
        z >= 32 * (crate::schedule::FP_ONE as int) ==> th == 0,
{
    let unit: u64 = crate::schedule::FP_ONE;
    if z == 0 {
        return unit;
    }
    let n: u128 = z / (unit as u128);
    let f: u64 = (z % (unit as u128)) as u64;
    if n >= 32 {
        return 0;
    }
    assert(f < unit);
    let fl: u64 = mul_shift(f, LN_2_Q32);
    let half_sq: u64 = mul_shift(fl, fl) / 2;
    let cube: u64 = mul_shift(half_sq, fl) / 3;

    let lowered: u64 = unit - fl + half_sq;
    let poly: u64 = lowered - cube;
    assert(poly <= unit);
    assert(f == 0 ==> poly == unit);
    if n == 0 {
        return poly;
    }

    let mut th: u64 = poly;
    let mut i: u128 = 0;
    while i < n
        invariant
            th <= poly,
            poly <= crate::schedule::FP_ONE,
        decreases n - i,
    {
        th = th / 2;
        i = i + 1;
    }
    th
}

/// The Metropolis acceptance rule on fixed-point scores. A move that
/// does not worsen the current score is always accepted; a worsening
/// move is accepted with a probability that falls exponentially with
/// the degradation divided by the temperature, judged against one
/// uniform draw from the run's random stream.
pub fn accept(
    rng: &mut rand::rngs::SmallRng,
    cur_score: i64,
    new_score: i64,
    temp: i64,
) -> (b: bool)
    requires
        -crate::annealer::SCORE_LIMIT <= cur_score <= crate::annealer::SCORE_LIMIT,
        -crate::annealer::SCORE_LIMIT <= new_score <= crate::annealer::SCORE_LIMIT,
        1 <= temp <= crate::annealer::TEMP_LIMIT,
    ensures
        new_score <= cur_score ==> b,
        new_score > cur_score && (new_score - cur_score) * (LOG2_E_Q32 as int) / (temp as int)
            >= 32 * (crate::schedule::FP_ONE as int) ==> !b,
{
    if new_score <= cur_score {
        return true;
    }
    let diff: i64 = new_score - cur_score;
    assert((diff as int) * (LOG2_E_Q32 as int) <= 0x8_0000_0000_0000 * 6196328018)
        by (nonlinear_arith)
        requires
            0 < diff <= 0x8_0000_0000_0000,
            LOG2_E_Q32 == 6196328018,
    ;
    let z_wide: u128 = (diff as u128) * (LOG2_E_Q32 as u128);
    let z: u128 = z_wide / (temp as u128);
    let threshold: u64 = exp2_neg(z);
    let draw: u64 = crate::rng::small_rng_next_u64(rng);
    let u: u64 = draw / crate::schedule::FP_ONE;
    u < threshold
}

} // verus!

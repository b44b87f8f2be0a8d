use vstd::prelude::*;
use crate::annealer::Annealer;
use crate::annealer::SCORE_LIMIT;
use crate::annealer::TEMP_LIMIT;

verus! {

/// A small fully verified problem: bring a 16-bit register as close as
/// possible to a target value, where a move flips a single bit and the
/// objective is the squared distance. It both exercises the engine and
/// shows that the proof obligations of [`Annealer`] are dischargeable.
pub struct BitSquare {
    /// The value the register should reach; only its low 16 bits count.
    pub target: u64,
}

/// The low 16 bits of a register, as a mathematical integer.
pub open spec fn low_bits(x: u64) -> int {
    (x & 0xFFFF) as int
}

impl BitSquare {
    /// The squared distance of the register's low bits from the
    /// target's low bits.
    pub open spec fn distance_sq(self, s: u64) -> int {
        (low_bits(s) - low_bits(self.target)) * (low_bits(s) - low_bits(self.target))
    }
}

impl Annealer for BitSquare {
    type State = u64;

    type Move = u64;

    open spec fn spec_eval(&self, s: u64) -> int {
        self.distance_sq(s)
    }

    open spec fn spec_apply(&self, s: u64, m: u64) -> u64 {
        s ^ m
    }

    open spec fn spec_unapply(&self, s: u64, m: u64) -> u64 {
        s ^ m
    }

    proof fn unapply_inverts_apply(&self, s: u64, m: u64) {
        assert((s ^ m) ^ m == s) by (bit_vector);
    }

    fn init_state(&self, rng: &mut rand::rngs::SmallRng) -> u64 {
        crate::rng::small_rng_next_u64(rng) & 0xFFFF
    }

    fn start_temp(&self, init_score: i64) -> (t: i64) {
        if init_score < 16 {
            16
        } else if init_score > TEMP_LIMIT {
            TEMP_LIMIT
        } else {
            init_score
        }
    }

    fn is_done(&self, score: i64) -> bool {
        score == 0
    }

    fn eval(&self, state: &u64) -> (r: i64) {
        let sv: u64 = *state;
        let tv: u64 = self.target;
        assert(sv & 0xFFFF <= 0xFFFF) by (bit_vector);
        assert(tv & 0xFFFF <= 0xFFFF) by (bit_vector);
        let v: u64 = sv & 0xFFFF;
        let t: u64 = tv & 0xFFFF;
        let d: i64 = (v as i64) - (t as i64);
        assert(0 <= (d as int) * (d as int) <= 0xFFFF * 0xFFFF) by (nonlinear_arith)
            requires
                -0xFFFF <= d <= 0xFFFF,
        ;
        d * d
    }

    fn neighbour(&self, _state: &u64, rng: &mut rand::rngs::SmallRng) -> u64 {
        let bit: u64 = crate::rng::small_rng_next_u64(rng) % 16;
        1u64 << (bit as u32)
    }

    fn apply(&self, state: &mut u64, mov: &u64) {
        *state = *state ^ *mov;
    }

    fn unapply(&self, state: &mut u64, mov: &u64) {
        *state = *state ^ *mov;
    }

    fn clone_state(&self, state: &u64) -> u64 {
        *state
    }
}

/// A one-dimensional quadratic landscape: minimise `x^2` over a
/// position kept in micro-units, with moves that add or subtract a
/// fixed step. Far outside the well the objective saturates, so every
/// state has a bounded score; moves wrap at the integer boundary,
/// which keeps them exactly invertible everywhere.
pub struct Quadratic {
    /// The magnitude of a move, in micro-units.
    pub step: i64,
}

impl Quadratic {
    /// The objective: the squared position in whole units times a
    /// million, saturated once the position leaves the central span.
    pub open spec fn objective(s: i64) -> int {
        if -1_000_000_000 <= s <= 1_000_000_000 {
            (s * s) / 1_000_000
        } else {
            SCORE_LIMIT as int
        }
    }
}

impl Annealer for Quadratic {
    type State = i64;

    type Move = i64;

    open spec fn spec_eval(&self, s: i64) -> int {
        Quadratic::objective(s)
    }

    open spec fn spec_apply(&self, s: i64, m: i64) -> i64 {
        vstd::wrapping::i64_specs::wrapping_add(s, m)
    }

    open spec fn spec_unapply(&self, s: i64, m: i64) -> i64 {
        vstd::wrapping::i64_specs::wrapping_sub(s, m)
    }

    proof fn unapply_inverts_apply(&self, s: i64, m: i64) {
    }

    fn init_state(&self, rng: &mut rand::rngs::SmallRng) -> i64 {
        let raw = crate::rng::small_rng_next_u64(rng) % 2_000_001;
        (raw as i64) - 1_000_000
    }

    fn start_temp(&self, init_score: i64) -> (t: i64) {
        if init_score < 1_000 {
            1_000
        } else if init_score > TEMP_LIMIT {
            TEMP_LIMIT
        } else {
            init_score
        }
    }

    fn eval(&self, state: &i64) -> (r: i64) {
        let s: i64 = *state;
        if s < -1_000_000_000 || s > 1_000_000_000 {
            SCORE_LIMIT
        } else {
            assert(0 <= (s as int) * (s as int) <= 1_000_000_000 * 1_000_000_000)
                by (nonlinear_arith)
                requires
                    -1_000_000_000 <= s <= 1_000_000_000,
            ;
            (s * s) / 1_000_000
        }
    }

    fn neighbour(&self, _state: &i64, rng: &mut rand::rngs::SmallRng) -> i64 {
        if crate::rng::small_rng_next_u64(rng) % 2 == 0 {
            self.step
        } else {
            0i64.wrapping_sub(self.step)
        }
    }

    fn apply(&self, state: &mut i64, mov: &i64) {
        *state = state.wrapping_add(*mov);
    }

    fn unapply(&self, state: &mut i64, mov: &i64) {
        *state = state.wrapping_sub(*mov);
    }

    fn clone_state(&self, state: &i64) -> i64 {
        *state
    }
}

} // verus!

use vstd::prelude::*;
use rand::RngCore;
use rand::SeedableRng;

verus! {

#[verifier::external_type_specification]
#[verifier::external_body]
pub struct ExSmallRng(rand::rngs::SmallRng);

#[verifier::external_type_specification]
#[verifier::external_body]
pub struct ExStdRng(rand::rngs::StdRng);

/// Relies on rand's `SeedableRng::seed_from_u64` for `SmallRng`: builds a
/// generator from a 64-bit seed. Nothing is assumed of the stream it
/// produces.
#[verifier::external_body]
pub(crate) fn small_rng_from_seed(seed: u64) -> rand::rngs::SmallRng {
    rand::rngs::SmallRng::seed_from_u64(seed)
}

/// Relies on rand's `RngCore::next_u64` for `SmallRng`: returns the next
/// 64-bit value of the stream. Nothing is assumed of the value.
#[verifier::external_body]
pub(crate) fn small_rng_next_u64(rng: &mut rand::rngs::SmallRng) -> u64 {
    rng.next_u64()
}

/// Relies on rand's `SeedableRng::seed_from_u64` for `StdRng`: builds a
/// generator from a 64-bit seed. Nothing is assumed of the stream it
/// produces.
#[verifier::external_body]
pub(crate) fn std_rng_from_seed(seed: u64) -> rand::rngs::StdRng {
    rand::rngs::StdRng::seed_from_u64(seed)
}

/// Relies on rand's `RngCore::next_u64` for `StdRng`: returns the next
/// 64-bit value of the stream. Nothing is assumed of the value.
#[verifier::external_body]
pub(crate) fn std_rng_next_u64(rng: &mut rand::rngs::StdRng) -> u64 {
    rng.next_u64()
}

} // verus!

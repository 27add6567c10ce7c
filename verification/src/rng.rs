//! The game's randomness source: the `fastrand` crate's seeded generator,
//! taken on trust behind small wrappers. A draw's value depends on the
//! generator's hidden state, so the contracts state only what holds of
//! every outcome — the range each draw falls in — and the game logic is
//! verified for every value a draw could take.
use vstd::prelude::*;

verus! {

/// Declares fastrand::Rng so the generator can live in the level's
/// state. The type stays opaque: nothing is assumed of its insides.
#[verifier::external_type_specification]
#[verifier::external_body]
pub struct ExRng(fastrand::Rng);

/// Relies on fastrand::Rng::with_seed: builds a generator from a seed.
#[verifier::external_body]
pub fn rng_with_seed(seed: u64) -> (rng: fastrand::Rng) {
    fastrand::Rng::with_seed(seed)
}

/// Relies on fastrand::Rng::bool: a draw with no promised value.
#[verifier::external_body]
pub fn rng_bool(rng: &mut fastrand::Rng) -> (r: bool) {
    rng.bool()
}

/// Relies on fastrand::Rng::u8 over `0..n`: the draw lies below `n`, and
/// the call panics on an empty range, so `n` must be positive.
#[verifier::external_body]
pub fn rng_u8_below(rng: &mut fastrand::Rng, n: u8) -> (r: u8)
    requires
        n > 0,
    ensures
        r < n,
{
    rng.u8(0..n)
}

/// Relies on fastrand::Rng::i32 over `low..=high`: the draw lies within
/// the bounds, and the call panics on an empty range, so the bounds must
/// be ordered.
#[verifier::external_body]
pub fn rng_i32_between(rng: &mut fastrand::Rng, low: i32, high: i32) -> (r: i32)
    requires
        low <= high,
    ensures
        low <= r <= high,
{
    rng.i32(low..=high)
}

} // verus!

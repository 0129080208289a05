//! The random source: a seeded, sequential ChaCha stream injected into the
//! simulation. Saucer steering, shrapnel sampling and level layout draw
//! uniform integers from it through [`draw_in_range`].

use vstd::prelude::*;
use rand::Rng;
use rand::SeedableRng;
use rand_chacha::ChaCha8Rng;

verus! {

/// The ChaCha stream cipher generator with 8 rounds, as the random source.
#[verifier::external_type_specification]
#[verifier::external_body]
pub struct ExChaCha8Rng(ChaCha8Rng);

/// Source of random numbers for gameplay and effects.
pub struct RandomGenerator(pub ChaCha8Rng);

/// Relies on `SeedableRng::seed_from_u64` for `ChaCha8Rng`: builds a
/// generator from a 64-bit seed; never fails.
#[verifier::external_body]
pub fn seeded_rng(seed: u64) -> ChaCha8Rng {
    ChaCha8Rng::seed_from_u64(seed)
}

/// Relies on `Rng::random_range` over a half-open `i64` range: uniform in
/// `[lo, hi)`; panics only on an empty range, which the precondition rules
/// out.
#[verifier::external_body]
pub fn draw_in_range(rng: &mut ChaCha8Rng, lo: i64, hi: i64) -> (r: i64)
    requires
        lo < hi,
    ensures
        lo <= r < hi,
{
    rng.random_range(lo..hi)
}

} // verus!

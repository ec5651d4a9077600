//! The renderer's source of randomness: a small, explicitly seeded
//! generator from the `rand` crate, one instance per image row.
//!
//! These are the only trusted items through which random values enter the
//! library; everything downstream is verified for every value they may
//! return.

use vstd::prelude::*;

use rand::Rng;
use rand::SeedableRng;

verus! {

#[verifier::external_type_specification]
#[verifier::external_body]
pub struct ExSmallRng(rand::rngs::SmallRng);

/// Relies on rand's `SeedableRng::seed_from_u64`: constructs a generator
/// from the given seed.  Nothing is assumed of the stream it produces.
#[verifier::external_body]
pub fn rng_from_seed(seed: u64) -> rand::rngs::SmallRng {
    rand::rngs::SmallRng::seed_from_u64(seed)
}

/// Relies on rand's `Rng::gen_range`: a sample uniformly distributed in
/// `lo..hi`, panicking only on an empty range (excluded here).
#[verifier::external_body]
pub fn rand_fx_range(rng: &mut rand::rngs::SmallRng, lo: i64, hi: i64) -> (r: i64)
    requires
        lo < hi,
    ensures
        lo <= r < hi,
{
    rng.gen_range(lo..hi)
}

} // verus!

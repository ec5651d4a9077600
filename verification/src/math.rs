//! Random direction sampling for the scattering model.
//!
//! Unit directions are drawn by rejection: sample the cube `[-1, 1)^3`,
//! keep a sample strictly inside the unit ball and away from zero, then
//! normalize.  This avoids the directional bias a polar construction
//! would introduce.

use vstd::prelude::*;

use crate::fixed::{FX_HALF, FX_ONE};
use crate::rng::rand_fx_range;
use crate::vec3::Vec3;

verus! {

/// The rejection loop draws at most this many candidates before falling
/// back to a fixed in-ball sample; the odds of ever reaching the fallback
/// are below 2^-3000, so no measurable bias is introduced.
pub const SAMPLE_ATTEMPTS: u32 = 4096;

/// A direction obtained by normalizing some nonzero sample from the open
/// unit ball: exactly the values `random_unit_vector` can return.
pub open spec fn sampled_unit(u: Vec3) -> bool {
    exists|v: Vec3|
        0 < Vec3::norm_squared_spec(v) < FX_ONE && u == Vec3::normalize_spec(v)
}

/// A vector with each component uniform in `[0, 1)`.
pub fn random_vector(rng: &mut rand::rngs::SmallRng) -> (r: Vec3)
    ensures
        0 <= r.x < FX_ONE,
        0 <= r.y < FX_ONE,
        0 <= r.z < FX_ONE,
{
    let x = rand_fx_range(rng, 0, FX_ONE);
    let y = rand_fx_range(rng, 0, FX_ONE);
    let z = rand_fx_range(rng, 0, FX_ONE);
    Vec3 { x, y, z }
}

/// A vector with each component uniform in `[min, max)`.
fn random_vector_rang(rng: &mut rand::rngs::SmallRng, min: i64, max: i64) -> (r: Vec3)
    requires
        min < max,
    ensures
        min <= r.x < max,
        min <= r.y < max,
        min <= r.z < max,
{
    let x = rand_fx_range(rng, min, max);
    let y = rand_fx_range(rng, min, max);
    let z = rand_fx_range(rng, min, max);
    Vec3 { x, y, z }
}

/// A nonzero sample strictly inside the unit ball, by rejection from the
/// surrounding cube.
fn random_vector_in_unit_sphere(rng: &mut rand::rngs::SmallRng) -> (v: Vec3)
    ensures
        0 < Vec3::norm_squared_spec(v) < FX_ONE,
{
    let mut tries: u32 = SAMPLE_ATTEMPTS;
    while tries > 0
        decreases tries,
    {
        let v = random_vector_rang(rng, -FX_ONE, FX_ONE);
        let n = v.norm_squared();
        if 0 < n && n < FX_ONE {
            return v;
        }
        tries = tries - 1;
    }
    let fallback = Vec3 { x: 0, y: 0, z: FX_HALF };
    proof {
        assert(32768int * 32768int == 1073741824int);
        assert(1073741824int / 65536int == 16384int);
        assert(crate::fixed::fx_mul_spec(FX_HALF, FX_HALF) == 16384);
        assert(Vec3::norm_squared_spec(fallback) == 16384);
    }
    fallback
}

/// A direction of (truncated) unit length, distributed uniformly over the
/// sphere up to fixed-point rounding.
pub fn random_unit_vector(rng: &mut rand::rngs::SmallRng) -> (u: Vec3)
    ensures
        sampled_unit(u),
{
    let v = random_vector_in_unit_sphere(rng);
    let u = v.normalize();
    proof {
        assert(0 < Vec3::norm_squared_spec(v) < FX_ONE && u == Vec3::normalize_spec(v));
    }
    u
}

/// The sampled direction, flipped onto the hemisphere around `n` when its
/// dot product with `n` is not positive.
pub open spec fn hemisphere_spec(u: Vec3, n: Vec3) -> Vec3 {
    if Vec3::dot_spec(u, n) > 0 {
        u
    } else {
        Vec3::neg_spec(u)
    }
}

/// A sampled unit direction on the hemisphere around `normal`.
pub fn random_unit_vector_on_hemisphere(
    rng: &mut rand::rngs::SmallRng,
    normal: &Vec3,
) -> (r: Vec3)
    ensures
        exists|u: Vec3| #[trigger] sampled_unit(u) && r == hemisphere_spec(u, *normal),
{
    let unit = random_unit_vector(rng);
    let r = if unit.dot(normal) > 0 {
        unit
    } else {
        unit.neg()
    };
    proof {
        assert(sampled_unit(unit) && r == hemisphere_spec(unit, *normal));
    }
    r
}

} // verus!

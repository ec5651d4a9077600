//! Three-component vectors over the fixed-point scalar.
//!
//! `Vec3` serves as point, direction and linear-RGB color alike, as the
//! renderer's data model treats the three interchangeably.  Every operation
//! has an exact specification mirror built from the scalar mirrors in
//! `fixed`.

use vstd::prelude::*;

use crate::fixed::{
    fx_add, fx_add_spec, fx_div, fx_div_spec, fx_mul, fx_mul_spec, fx_neg, fx_neg_spec, fx_sqrt,
    fx_sqrt_spec, fx_sub, fx_sub_spec, fxabs, lemma_fx_mul_ge_factor_neg, lemma_fx_mul_le_factor,
    FX_ONE,
};

verus! {

/// Components whose magnitude is below this threshold count as "near zero"
/// when a scatter direction degenerates (about 1.2e-4 in real terms).
pub const NEAR_ZERO_EPS: i64 = 8;

/// A three-component vector of 16.16 fixed-point scalars.
#[derive(Clone, Copy, PartialEq, Eq, Structural, Debug)]
pub struct Vec3 {
    pub x: i64,
    pub y: i64,
    pub z: i64,
}

/// Colors are vectors whose components are linear RGB radiance.
pub type Color = Vec3;

/// Points are vectors measured from the scene origin.
pub type Point = Vec3;

impl Vec3 {
    pub open spec fn add_spec(a: Vec3, b: Vec3) -> Vec3 {
        Vec3 { x: fx_add_spec(a.x, b.x), y: fx_add_spec(a.y, b.y), z: fx_add_spec(a.z, b.z) }
    }

    pub open spec fn sub_spec(a: Vec3, b: Vec3) -> Vec3 {
        Vec3 { x: fx_sub_spec(a.x, b.x), y: fx_sub_spec(a.y, b.y), z: fx_sub_spec(a.z, b.z) }
    }

    pub open spec fn neg_spec(a: Vec3) -> Vec3 {
        Vec3 { x: fx_neg_spec(a.x), y: fx_neg_spec(a.y), z: fx_neg_spec(a.z) }
    }

    pub open spec fn scale_spec(a: Vec3, s: i64) -> Vec3 {
        Vec3 { x: fx_mul_spec(a.x, s), y: fx_mul_spec(a.y, s), z: fx_mul_spec(a.z, s) }
    }

    pub open spec fn scale_div_spec(a: Vec3, s: i64) -> Vec3 {
        Vec3 { x: fx_div_spec(a.x, s), y: fx_div_spec(a.y, s), z: fx_div_spec(a.z, s) }
    }

    pub open spec fn component_mul_spec(a: Vec3, b: Vec3) -> Vec3 {
        Vec3 { x: fx_mul_spec(a.x, b.x), y: fx_mul_spec(a.y, b.y), z: fx_mul_spec(a.z, b.z) }
    }

    pub open spec fn dot_spec(a: Vec3, b: Vec3) -> i64 {
        fx_add_spec(
            fx_add_spec(fx_mul_spec(a.x, b.x), fx_mul_spec(a.y, b.y)),
            fx_mul_spec(a.z, b.z),
        )
    }

    pub open spec fn norm_squared_spec(a: Vec3) -> i64 {
        Vec3::dot_spec(a, a)
    }

    pub open spec fn length_spec(a: Vec3) -> i64 {
        fx_sqrt_spec(Vec3::norm_squared_spec(a))
    }

    /// Division by the truncated length; degenerate (saturating) on a
    /// vector whose length underflows to zero.
    pub open spec fn normalize_spec(a: Vec3) -> Vec3 {
        Vec3::scale_div_spec(a, Vec3::length_spec(a))
    }

    /// Linear interpolation `a + t * (b - a)`, component by component.
    pub open spec fn lerp_spec(a: Vec3, b: Vec3, t: i64) -> Vec3 {
        Vec3::add_spec(a, Vec3::scale_spec(Vec3::sub_spec(b, a), t))
    }

    pub open spec fn near_zero_spec(a: Vec3) -> bool {
        fxabs(a.x as int) < NEAR_ZERO_EPS && fxabs(a.y as int) < NEAR_ZERO_EPS && fxabs(
            a.z as int,
        ) < NEAR_ZERO_EPS
    }

    pub fn new(x: i64, y: i64, z: i64) -> (r: Vec3)
        ensures
            r == (Vec3 { x, y, z }),
    {
        Vec3 { x, y, z }
    }

    pub fn zero() -> (r: Vec3)
        ensures
            r == (Vec3 { x: 0i64, y: 0i64, z: 0i64 }),
    {
        Vec3 { x: 0, y: 0, z: 0 }
    }

    pub fn add(&self, o: &Vec3) -> (r: Vec3)
        ensures
            r == Vec3::add_spec(*self, *o),
    {
        Vec3 { x: fx_add(self.x, o.x), y: fx_add(self.y, o.y), z: fx_add(self.z, o.z) }
    }

    pub fn sub(&self, o: &Vec3) -> (r: Vec3)
        ensures
            r == Vec3::sub_spec(*self, *o),
    {
        Vec3 { x: fx_sub(self.x, o.x), y: fx_sub(self.y, o.y), z: fx_sub(self.z, o.z) }
    }

    pub fn neg(&self) -> (r: Vec3)
        ensures
            r == Vec3::neg_spec(*self),
    {
        Vec3 { x: fx_neg(self.x), y: fx_neg(self.y), z: fx_neg(self.z) }
    }

    pub fn scale(&self, s: i64) -> (r: Vec3)
        ensures
            r == Vec3::scale_spec(*self, s),
    {
        Vec3 { x: fx_mul(self.x, s), y: fx_mul(self.y, s), z: fx_mul(self.z, s) }
    }

    pub fn scale_div(&self, s: i64) -> (r: Vec3)
        ensures
            r == Vec3::scale_div_spec(*self, s),
    {
        Vec3 { x: fx_div(self.x, s), y: fx_div(self.y, s), z: fx_div(self.z, s) }
    }

    pub fn component_mul(&self, o: &Vec3) -> (r: Vec3)
        ensures
            r == Vec3::component_mul_spec(*self, *o),
    {
        Vec3 { x: fx_mul(self.x, o.x), y: fx_mul(self.y, o.y), z: fx_mul(self.z, o.z) }
    }

    pub fn dot(&self, o: &Vec3) -> (r: i64)
        ensures
            r == Vec3::dot_spec(*self, *o),
    {
        fx_add(fx_add(fx_mul(self.x, o.x), fx_mul(self.y, o.y)), fx_mul(self.z, o.z))
    }

    pub fn norm_squared(&self) -> (r: i64)
        ensures
            r == Vec3::norm_squared_spec(*self),
    {
        self.dot(self)
    }

    pub fn length(&self) -> (r: i64)
        ensures
            r == Vec3::length_spec(*self),
    {
        fx_sqrt(self.norm_squared())
    }

    pub fn normalize(&self) -> (r: Vec3)
        ensures
            r == Vec3::normalize_spec(*self),
    {
        let len = self.length();
        self.scale_div(len)
    }

    pub fn lerp(&self, o: &Vec3, t: i64) -> (r: Vec3)
        ensures
            r == Vec3::lerp_spec(*self, *o, t),
    {
        self.add(&o.sub(self).scale(t))
    }
}

/// All components below the degeneracy threshold in magnitude.
pub fn vector_near_zero(v: &Vec3) -> (r: bool)
    ensures
        r == Vec3::near_zero_spec(*v),
{
    let ax = fxabs_exec(v.x);
    let ay = fxabs_exec(v.y);
    let az = fxabs_exec(v.z);
    ax < NEAR_ZERO_EPS && ay < NEAR_ZERO_EPS && az < NEAR_ZERO_EPS
}

fn fxabs_exec(x: i64) -> (r: i64)
    ensures
        x == i64::MIN ==> r == i64::MAX,
        x != i64::MIN ==> r == fxabs(x as int),
{
    if x == i64::MIN {
        i64::MAX
    } else if x < 0 {
        -x
    } else {
        x
    }
}

/// Mirror reflection about a surface normal: `v - 2 * dot(v, n) * n`.
pub open spec fn reflect_spec(v: Vec3, n: Vec3) -> Vec3 {
    Vec3::sub_spec(v, Vec3::scale_spec(n, fx_add_spec(Vec3::dot_spec(v, n), Vec3::dot_spec(v, n))))
}

pub fn vector_reflect(v: &Vec3, n: &Vec3) -> (r: Vec3)
    ensures
        r == reflect_spec(*v, *n),
{
    let d = v.dot(n);
    let twice = fx_add(d, d);
    v.sub(&n.scale(twice))
}

/// A radiance component within the displayable interval [0, 1].
pub open spec fn in_unit(c: i64) -> bool {
    0 <= c <= FX_ONE
}

/// All three radiance components within [0, 1].
pub open spec fn color_in_unit(c: Vec3) -> bool {
    in_unit(c.x) && in_unit(c.y) && in_unit(c.z)
}

/// The component-wise product of in-range colors stays in range.
pub proof fn lemma_component_mul_unit(a: Vec3, b: Vec3)
    requires
        color_in_unit(a),
        color_in_unit(b),
    ensures
        color_in_unit(Vec3::component_mul_spec(a, b)),
{
    lemma_fx_mul_le_factor(a.x, b.x);
    lemma_fx_mul_le_factor(a.y, b.y);
    lemma_fx_mul_le_factor(a.z, b.z);
}

/// A single interpolated component stays between its endpoints' bounds.
proof fn lemma_lerp_component_unit(a: i64, b: i64, t: i64)
    requires
        in_unit(a),
        in_unit(b),
        in_unit(t),
    ensures
        in_unit(fx_add_spec(a, fx_mul_spec(fx_sub_spec(b, a), t))),
{
    let d = fx_sub_spec(b, a);
    if d >= 0 {
        lemma_fx_mul_le_factor(t, d);
        lemma_fx_mul_commute(d, t);
    } else {
        lemma_fx_mul_ge_factor_neg(t, d);
        lemma_fx_mul_commute(d, t);
    }
}

/// Fixed-point multiplication is commutative (inherited from `*` on `int`).
proof fn lemma_fx_mul_commute(a: i64, b: i64)
    ensures
        fx_mul_spec(a, b) == fx_mul_spec(b, a),
{
    assert((a as int) * (b as int) == (b as int) * (a as int)) by (nonlinear_arith);
}

/// Interpolating between in-range colors with an in-range parameter
/// stays in range.
pub proof fn lemma_lerp_unit(a: Vec3, b: Vec3, t: i64)
    requires
        color_in_unit(a),
        color_in_unit(b),
        in_unit(t),
    ensures
        color_in_unit(Vec3::lerp_spec(a, b, t)),
{
    lemma_lerp_component_unit(a.x, b.x, t);
    lemma_lerp_component_unit(a.y, b.y, t);
    lemma_lerp_component_unit(a.z, b.z, t);
}

} // verus!

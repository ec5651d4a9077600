//! Rays: an origin point plus a direction vector, immutable once built.

use vstd::prelude::*;

use crate::vec3::{Point, Vec3};

verus! {

#[derive(Clone, Copy, PartialEq, Eq, Structural, Debug)]
pub struct Ray {
    pub origin: Point,
    pub dir: Vec3,
}

/// A ray/surface intersection record: the ray parameter at the hit and
/// the outward unit surface normal there.  `toi` is measured against the
/// owning ray's own parameterization.
#[derive(Clone, Copy, PartialEq, Eq, Structural, Debug)]
pub struct Intersection {
    pub toi: i64,
    pub normal: Vec3,
}

impl Ray {
    pub fn new(origin: Point, dir: Vec3) -> (r: Ray)
        ensures
            r == (Ray { origin, dir }),
    {
        Ray { origin, dir }
    }

    /// The point `origin + t * dir` along the ray.
    pub open spec fn point_at_spec(r: Ray, t: i64) -> Point {
        Vec3::add_spec(r.origin, Vec3::scale_spec(r.dir, t))
    }

    pub fn point_at(&self, t: i64) -> (p: Point)
        ensures
            p == Ray::point_at_spec(*self, t),
    {
        self.origin.add(&self.dir.scale(t))
    }
}

} // verus!

//! The scene: spheres paired with materials, and the nearest-hit query.
//!
//! `World::hit` scans all entities linearly and keeps the intersection
//! with the smallest valid time of impact, ties broken in favor of the
//! earliest entity.  Its contract states both the exact fold it computes
//! and the nearest-hit property proved from it.

use vstd::prelude::*;

use crate::fixed::{
    fx_add, fx_add_spec, fx_div, fx_div_spec, fx_mul, fx_mul_spec, fx_neg, fx_neg_spec, fx_sqrt,
    fx_sqrt_spec, fx_sub, fx_sub_spec,
};
use crate::material::{material_wf, MaterialKind};
use crate::ray::{Intersection, Ray};
use crate::vec3::{Point, Vec3};

verus! {

/// The maximum trace distance (1000.0) standing in for "no hit".
pub const MAX_TOI: i64 = 65536000;

/// Hits closer than this along the ray (about 2.4e-4) are discarded as
/// self-intersections at the ray's own origin.
pub const TOI_EPSILON: i64 = 16;

/// A usable time of impact: beyond the self-intersection guard and
/// within the trace distance.
pub open spec fn valid_toi(t: i64) -> bool {
    TOI_EPSILON < t < MAX_TOI
}

/// A scene entity: a sphere owning its geometry and its material.
#[derive(Clone, Copy, PartialEq, Eq, Structural, Debug)]
pub struct Sphere {
    pub center: Point,
    pub radius: i64,
    pub material: MaterialKind,
}

/// The discriminant of the ray/sphere quadratic, in fixed point:
/// `half_b^2 - a * c` for `a = |d|^2`, `half_b = oc . d`,
/// `c = |oc|^2 - r^2`, `oc = origin - center`.
pub open spec fn sphere_discriminant_spec(s: Sphere, ray: Ray) -> i64 {
    let oc = Vec3::sub_spec(ray.origin, s.center);
    let a = Vec3::dot_spec(ray.dir, ray.dir);
    let half_b = Vec3::dot_spec(oc, ray.dir);
    let c = fx_sub_spec(Vec3::dot_spec(oc, oc), fx_mul_spec(s.radius, s.radius));
    fx_sub_spec(fx_mul_spec(half_b, half_b), fx_mul_spec(a, c))
}

/// The nearest valid root of the ray/sphere quadratic, if any: the near
/// root `(-half_b - sqrt(disc)) / a` is preferred, then the far root.
pub open spec fn sphere_toi_spec(s: Sphere, ray: Ray) -> Option<i64> {
    let oc = Vec3::sub_spec(ray.origin, s.center);
    let a = Vec3::dot_spec(ray.dir, ray.dir);
    let half_b = Vec3::dot_spec(oc, ray.dir);
    let disc = sphere_discriminant_spec(s, ray);
    if disc < 0 {
        None
    } else {
        let sq = fx_sqrt_spec(disc);
        let t1 = fx_div_spec(fx_sub_spec(fx_neg_spec(half_b), sq), a);
        let t2 = fx_div_spec(fx_add_spec(fx_neg_spec(half_b), sq), a);
        if valid_toi(t1) {
            Some(t1)
        } else if valid_toi(t2) {
            Some(t2)
        } else {
            None
        }
    }
}

/// The full intersection record: the nearest valid root and the outward
/// normal `(hit_point - center) / radius` there.
pub open spec fn sphere_hit_spec(s: Sphere, ray: Ray) -> Option<Intersection> {
    match sphere_toi_spec(s, ray) {
        None => None,
        Some(t) => Some(
            Intersection {
                toi: t,
                normal: Vec3::scale_div_spec(
                    Vec3::sub_spec(Ray::point_at_spec(ray, t), s.center),
                    s.radius,
                ),
            },
        ),
    }
}

impl Sphere {
    pub fn new(center: Point, radius: i64, material: MaterialKind) -> (s: Sphere)
        ensures
            s == (Sphere { center, radius, material }),
    {
        Sphere { center, radius, material }
    }

    pub fn material(&self) -> (m: &MaterialKind)
        ensures
            *m == self.material,
    {
        &self.material
    }

    /// Analytic ray/sphere intersection against the maximum trace
    /// distance, discarding near-zero roots.
    pub fn hit(&self, ray: &Ray) -> (r: Option<Intersection>)
        ensures
            r == sphere_hit_spec(*self, *ray),
            r matches Some(it) ==> valid_toi(it.toi),
    {
        let oc = ray.origin.sub(&self.center);
        let a = ray.dir.dot(&ray.dir);
        let half_b = oc.dot(&ray.dir);
        let c = fx_sub(oc.dot(&oc), fx_mul(self.radius, self.radius));
        let disc = fx_sub(fx_mul(half_b, half_b), fx_mul(a, c));
        if disc < 0 {
            return None;
        }
        let sq = fx_sqrt(disc);
        let neg_half_b = fx_neg(half_b);
        let t1 = fx_div(fx_sub(neg_half_b, sq), a);
        let t2 = fx_div(fx_add(neg_half_b, sq), a);
        let t: i64 = if TOI_EPSILON < t1 && t1 < MAX_TOI {
            t1
        } else if TOI_EPSILON < t2 && t2 < MAX_TOI {
            t2
        } else {
            return None;
        };
        let normal = ray.point_at(t).sub(&self.center).scale_div(self.radius);
        Some(Intersection { toi: t, normal })
    }
}

/// The state of the nearest-hit fold after the first `n` entities.
pub open spec fn world_hit_upto_spec(entities: Seq<Sphere>, ray: Ray, n: int) -> Option<
    (Intersection, MaterialKind),
>
    decreases n,
{
    if n <= 0 {
        None
    } else {
        let prev = world_hit_upto_spec(entities, ray, n - 1);
        match sphere_hit_spec(entities[n - 1], ray) {
            None => prev,
            Some(it) => {
                let best = match prev {
                    None => MAX_TOI,
                    Some(p) => p.0.toi,
                };
                if it.toi < best {
                    Some((it, entities[n - 1].material))
                } else {
                    prev
                }
            },
        }
    }
}

/// The nearest hit over a whole scene, with its entity's material.
pub open spec fn world_hit_spec(entities: Seq<Sphere>, ray: Ray) -> Option<
    (Intersection, MaterialKind),
> {
    world_hit_upto_spec(entities, ray, entities.len() as int)
}

/// The fold keeps exactly the nearest valid hit: any result comes from
/// some entity, no entity hits strictly closer, and an empty result means
/// no entity hits at all.
pub proof fn lemma_world_hit_nearest(entities: Seq<Sphere>, ray: Ray, n: int)
    requires
        0 <= n <= entities.len(),
    ensures
        match world_hit_upto_spec(entities, ray, n) {
            Some(p) => {
                &&& valid_toi(p.0.toi)
                &&& exists|k: int|
                    0 <= k < n && #[trigger] sphere_hit_spec(entities[k], ray) == Some(p.0)
                        && entities[k].material == p.1
                &&& forall|k: int|
                    0 <= k < n ==> (#[trigger] sphere_hit_spec(entities[k], ray) matches Some(o)
                        ==> p.0.toi <= o.toi)
            },
            None => forall|k: int|
                0 <= k < n ==> #[trigger] sphere_hit_spec(entities[k], ray) is None,
        },
    decreases n,
{
    if n > 0 {
        lemma_world_hit_nearest(entities, ray, n - 1);
    }
}

/// A shape description from a parsed scene: a sphere's geometry plus the
/// index of its material in the scene's material table.
#[derive(Clone, Copy, PartialEq, Eq, Structural, Debug)]
pub struct SceneSphere {
    pub center: Point,
    pub radius: i64,
    pub material_index: usize,
}

/// An insertion-ordered scene of spheres, read-only while rendering.
pub struct World {
    pub entities: Vec<Sphere>,
}

impl World {
    /// All materials in the scene are well-formed (albedo and fuzz in
    /// their documented ranges).
    pub open spec fn wf(&self) -> bool {
        forall|k: int|
            0 <= k < self.entities@.len() ==> material_wf(#[trigger] self.entities@[k].material)
    }

    pub fn new() -> (w: World)
        ensures
            w.entities@ == Seq::<Sphere>::empty(),
    {
        World { entities: Vec::new() }
    }

    pub fn add(&mut self, e: Sphere)
        ensures
            final(self).entities@ == old(self).entities@.push(e),
    {
        self.entities.push(e);
    }

    /// Builds a world from shape descriptions and a material table, one
    /// entity per shape in order.  Construction fails exactly when some
    /// shape references a material index outside the table (an unresolved
    /// material reference is a fatal configuration error).
    pub fn from_scene(shapes: &Vec<SceneSphere>, materials: &Vec<MaterialKind>) -> (r: Option<
        World,
    >)
        ensures
            r is Some <==> (forall|k: int|
                0 <= k < shapes@.len() ==> (#[trigger] shapes@[k]).material_index
                    < materials@.len()),
            r matches Some(w) ==> {
                &&& w.entities@.len() == shapes@.len()
                &&& forall|k: int|
                    0 <= k < shapes@.len() ==> #[trigger] w.entities@[k] == (Sphere {
                        center: shapes@[k].center,
                        radius: shapes@[k].radius,
                        material: materials@[shapes@[k].material_index as int],
                    })
            },
    {
        let mut world = World::new();
        let mut idx: usize = 0;
        let n = shapes.len();
        while idx < n
            invariant
                n == shapes@.len(),
                idx <= n,
                world.entities@.len() == idx,
                forall|k: int|
                    0 <= k < idx ==> (#[trigger] shapes@[k]).material_index < materials@.len(),
                forall|k: int|
                    0 <= k < idx ==> #[trigger] world.entities@[k] == (Sphere {
                        center: shapes@[k].center,
                        radius: shapes@[k].radius,
                        material: materials@[shapes@[k].material_index as int],
                    }),
            decreases n - idx,
        {
            let sd = &shapes[idx];
            if sd.material_index >= materials.len() {
                return None;
            }
            let mat = materials[sd.material_index];
            world.add(Sphere::new(sd.center, sd.radius, mat));
            idx = idx + 1;
        }
        Some(world)
    }

    /// The nearest hit of the ray in the scene, together with the hit
    /// entity's material.  Ties go to the earliest entity; a hit at or
    /// beyond the maximum trace distance counts as a miss.
    pub fn hit(&self, ray: &Ray) -> (r: Option<(Intersection, MaterialKind)>)
        ensures
            r == world_hit_spec(self.entities@, *ray),
            r matches Some(p) ==> {
                &&& valid_toi(p.0.toi)
                &&& exists|k: int|
                    0 <= k < self.entities@.len() && #[trigger] sphere_hit_spec(
                        self.entities@[k],
                        *ray,
                    ) == Some(p.0) && self.entities@[k].material == p.1
                &&& forall|k: int|
                    0 <= k < self.entities@.len() ==> (#[trigger] sphere_hit_spec(
                        self.entities@[k],
                        *ray,
                    ) matches Some(o) ==> p.0.toi <= o.toi)
            },
            r is None ==> forall|k: int|
                0 <= k < self.entities@.len() ==> #[trigger] sphere_hit_spec(
                    self.entities@[k],
                    *ray,
                ) is None,
    {
        let mut ret: Option<(Intersection, MaterialKind)> = None;
        let mut closest_toi: i64 = MAX_TOI;
        let n = self.entities.len();
        let mut idx: usize = 0;
        while idx < n
            invariant
                n == self.entities@.len(),
                idx <= n,
                ret == world_hit_upto_spec(self.entities@, *ray, idx as int),
                closest_toi == (match ret {
                    None => MAX_TOI,
                    Some(p) => p.0.toi,
                }),
            decreases n - idx,
        {
            let entity = &self.entities[idx];
            if let Some(intersection) = entity.hit(ray) {
                if intersection.toi < closest_toi {
                    closest_toi = intersection.toi;
                    ret = Some((intersection, entity.material));
                }
            }
            idx = idx + 1;
        }
        proof {
            lemma_world_hit_nearest(self.entities@, *ray, n as int);
        }
        ret
    }
}

} // verus!

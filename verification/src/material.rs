//! The surface material model: a closed tagged union over the two
//! scattering laws, Lambertian diffuse and fuzzed metal reflection.
//!
//! Each law is split into a deterministic core (`scatter_with`), which
//! takes the sampled unit direction as an argument and has an exact
//! contract, and a sampling wrapper (`scatter`), whose contract holds for
//! every direction the sampler may produce.

use vstd::prelude::*;

use crate::fixed::FX_ONE;
use crate::math::{random_unit_vector, sampled_unit};
use crate::ray::{Intersection, Ray};
use crate::vec3::{color_in_unit, reflect_spec, vector_near_zero, vector_reflect, Color, Vec3};

verus! {

/// A diffuse surface: scatters in a cosine-weighted direction around the
/// normal, attenuating by its albedo.
#[derive(Clone, Copy, PartialEq, Eq, Structural, Debug)]
pub struct Lambertian {
    pub albedo: Color,
}

/// A reflective surface: mirrors the incoming direction, perturbed by
/// `fuzz` (in [0, 1]) times a random unit vector.
#[derive(Clone, Copy, PartialEq, Eq, Structural, Debug)]
pub struct Metal {
    pub albedo: Color,
    pub fuzz: i64,
}

/// The closed union of surface materials; immutable and freely shared.
#[derive(Clone, Copy, PartialEq, Eq, Structural, Debug)]
pub enum MaterialKind {
    Lambertian(Lambertian),
    Metal(Metal),
}

/// Diffuse scatter direction: the normal plus a sampled unit vector,
/// falling back to the bare normal when the sum degenerates to near zero.
pub open spec fn lambertian_dir_spec(normal: Vec3, u: Vec3) -> Vec3 {
    let d = Vec3::add_spec(normal, u);
    if Vec3::near_zero_spec(d) {
        normal
    } else {
        d
    }
}

/// A Lambertian surface always scatters, attenuated by its albedo.
pub open spec fn lambertian_scatter_spec(
    m: Lambertian,
    ray_in: Ray,
    hit: Intersection,
    u: Vec3,
) -> (Color, Ray) {
    (
        m.albedo,
        Ray { origin: Ray::point_at_spec(ray_in, hit.toi), dir: lambertian_dir_spec(hit.normal, u) },
    )
}

/// Metal scatter direction: the mirror reflection of the incoming
/// direction, perturbed by `fuzz` times a sampled unit vector.
pub open spec fn metal_dir_spec(ray_in: Ray, normal: Vec3, fuzz: i64, u: Vec3) -> Vec3 {
    Vec3::add_spec(reflect_spec(ray_in.dir, normal), Vec3::scale_spec(u, fuzz))
}

/// A metal surface scatters exactly when the perturbed reflection leaves
/// the surface (positive dot product with the normal); otherwise the ray
/// is absorbed.
pub open spec fn metal_scatter_spec(
    m: Metal,
    ray_in: Ray,
    hit: Intersection,
    u: Vec3,
) -> Option<(Color, Ray)> {
    let dir = metal_dir_spec(ray_in, hit.normal, m.fuzz, u);
    if Vec3::dot_spec(dir, hit.normal) > 0 {
        Some((m.albedo, Ray { origin: Ray::point_at_spec(ray_in, hit.toi), dir }))
    } else {
        None
    }
}

/// The scattering law of either material, at a given sampled direction.
pub open spec fn scatter_spec(
    m: MaterialKind,
    ray_in: Ray,
    hit: Intersection,
    u: Vec3,
) -> Option<(Color, Ray)> {
    match m {
        MaterialKind::Lambertian(l) => Some(lambertian_scatter_spec(l, ray_in, hit, u)),
        MaterialKind::Metal(mt) => metal_scatter_spec(mt, ray_in, hit, u),
    }
}

/// The base reflectance of either material.
pub open spec fn albedo_spec(m: MaterialKind) -> Color {
    match m {
        MaterialKind::Lambertian(l) => l.albedo,
        MaterialKind::Metal(mt) => mt.albedo,
    }
}

/// A physically sensible material: reflectance within [0, 1] per channel,
/// and a metal's fuzz within [0, 1].
pub open spec fn material_wf(m: MaterialKind) -> bool {
    color_in_unit(albedo_spec(m)) && (m matches MaterialKind::Metal(mt) ==> 0 <= mt.fuzz
        <= FX_ONE)
}

impl Lambertian {
    /// The deterministic core of diffuse scattering, for a given sampled
    /// unit direction.
    pub fn scatter_with(&self, ray_in: &Ray, intersection: &Intersection, unit: Vec3) -> (r: (
        Color,
        Ray,
    ))
        ensures
            r == lambertian_scatter_spec(*self, *ray_in, *intersection, unit),
    {
        let mut scatter_direction = intersection.normal.add(&unit);
        if vector_near_zero(&scatter_direction) {
            scatter_direction = intersection.normal;
        }
        let scattered = Ray::new(ray_in.point_at(intersection.toi), scatter_direction);
        (self.albedo, scattered)
    }

    /// Diffuse scattering never declines: some scatter is always returned.
    pub fn scatter(
        &self,
        rng: &mut rand::rngs::SmallRng,
        ray_in: &Ray,
        intersection: &Intersection,
    ) -> (r: Option<(Color, Ray)>)
        ensures
            r is Some,
            r matches Some((att, sc)) ==> att == self.albedo,
            exists|u: Vec3|
                #[trigger] sampled_unit(u) && r == Some(
                    lambertian_scatter_spec(*self, *ray_in, *intersection, u),
                ),
    {
        let unit = random_unit_vector(rng);
        let s = self.scatter_with(ray_in, intersection, unit);
        proof {
            assert(sampled_unit(unit) && Some(s) == Some(
                lambertian_scatter_spec(*self, *ray_in, *intersection, unit),
            ));
        }
        Some(s)
    }
}

impl Metal {
    /// The deterministic core of metal scattering, for a given sampled
    /// unit direction.  The result is `None` exactly when the perturbed
    /// reflection fails to leave the surface.
    pub fn scatter_with(&self, ray_in: &Ray, intersection: &Intersection, unit: Vec3) -> (r:
        Option<(Color, Ray)>)
        ensures
            r == metal_scatter_spec(*self, *ray_in, *intersection, unit),
            r is None <==> Vec3::dot_spec(
                metal_dir_spec(*ray_in, intersection.normal, self.fuzz, unit),
                intersection.normal,
            ) <= 0,
    {
        let reflected = vector_reflect(&ray_in.dir, &intersection.normal);
        let dir = reflected.add(&unit.scale(self.fuzz));
        let scattered = Ray::new(ray_in.point_at(intersection.toi), dir);
        if scattered.dir.dot(&intersection.normal) > 0 {
            Some((self.albedo, scattered))
        } else {
            None
        }
    }

    /// Metal scattering: absorbed whenever the perturbed reflection does
    /// not leave the surface.
    pub fn scatter(
        &self,
        rng: &mut rand::rngs::SmallRng,
        ray_in: &Ray,
        intersection: &Intersection,
    ) -> (r: Option<(Color, Ray)>)
        ensures
            r matches Some((att, sc)) ==> att == self.albedo && Vec3::dot_spec(
                sc.dir,
                intersection.normal,
            ) > 0,
            exists|u: Vec3|
                #[trigger] sampled_unit(u) && r == metal_scatter_spec(
                    *self,
                    *ray_in,
                    *intersection,
                    u,
                ),
    {
        let unit = random_unit_vector(rng);
        let s = self.scatter_with(ray_in, intersection, unit);
        proof {
            assert(sampled_unit(unit) && s == metal_scatter_spec(
                *self,
                *ray_in,
                *intersection,
                unit,
            ));
        }
        s
    }
}

impl MaterialKind {
    /// Scatter an incoming ray at an intersection.  The result follows the
    /// variant's scattering law at some sampled unit direction; a
    /// Lambertian surface always scatters, and any returned attenuation is
    /// the material's albedo.
    pub fn scatter(
        &self,
        rng: &mut rand::rngs::SmallRng,
        ray_in: &Ray,
        intersection: &Intersection,
    ) -> (r: Option<(Color, Ray)>)
        ensures
            self is Lambertian ==> r is Some,
            r matches Some((att, sc)) ==> att == albedo_spec(*self),
            self is Metal ==> (r matches Some((att, sc)) ==> Vec3::dot_spec(
                sc.dir,
                intersection.normal,
            ) > 0),
            exists|u: Vec3|
                #[trigger] sampled_unit(u) && r == scatter_spec(*self, *ray_in, *intersection, u),
    {
        match self {
            MaterialKind::Lambertian(l) => {
                let r = l.scatter(rng, ray_in, intersection);
                proof {
                    let u = choose|u: Vec3|
                        #[trigger] sampled_unit(u) && r == Some(
                            lambertian_scatter_spec(*l, *ray_in, *intersection, u),
                        );
                    assert(sampled_unit(u) && r == scatter_spec(*self, *ray_in, *intersection, u));
                }
                r
            },
            MaterialKind::Metal(m) => {
                let r = m.scatter(rng, ray_in, intersection);
                proof {
                    let u = choose|u: Vec3|
                        #[trigger] sampled_unit(u) && r == metal_scatter_spec(
                            *m,
                            *ray_in,
                            *intersection,
                            u,
                        );
                    assert(sampled_unit(u) && r == scatter_spec(*self, *ray_in, *intersection, u));
                }
                r
            },
        }
    }
}

} // verus!

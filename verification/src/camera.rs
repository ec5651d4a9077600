//! The camera: derived viewport geometry, jittered per-pixel rays, the
//! recursive radiance integrator, and the parallel render loop with tone
//! mapping to 8-bit RGB output.

use vstd::prelude::*;

use crate::fixed::{
    fx_add, fx_add_spec, fx_div, fx_div_spec, fx_from_usize, fx_from_usize_spec, fx_mul,
    fx_mul_spec, fx_sqrt, fx_sqrt_spec, quot_trunc, FX_HALF, FX_ONE,
};
use crate::material::material_wf;
use crate::ray::Ray;
use crate::rng::{rand_fx_range, rng_from_seed};
use crate::vec3::{color_in_unit, lemma_component_mul_unit, lemma_lerp_unit, Color, Point, Vec3};
use crate::world::{sphere_hit_spec, world_hit_spec, World};

use rayon::iter::{IndexedParallelIterator, IntoParallelIterator, ParallelIterator};

verus! {

/// The fixed-point representation of 2.0.
pub const FX_TWO: i64 = 131072;

/// The quantization factor 255.999, scaled by 2^16 and truncated.
pub const FX_255_999: i64 = 16777150;

/// The sky gradient's horizon color: white.
pub open spec fn sky_white_spec() -> Color {
    Vec3 { x: FX_ONE, y: FX_ONE, z: FX_ONE }
}

/// The sky gradient's zenith color: a light blue (0.5, 0.7, 1.0).
pub open spec fn sky_blue_spec() -> Color {
    Vec3 { x: FX_HALF, y: 45875, z: FX_ONE }
}

/// A scalar clamped into [0, 1].
pub open spec fn clamp_unit_spec(t: i64) -> i64 {
    if t < 0 {
        0
    } else if t > FX_ONE {
        FX_ONE
    } else {
        t
    }
}

/// The procedural sky: white blended toward blue by the normalized ray
/// direction's vertical component mapped into [0, 1].
pub open spec fn sky_spec(ray: Ray) -> Color {
    let unit = Vec3::normalize_spec(ray.dir);
    let t = clamp_unit_spec(fx_mul_spec(FX_HALF, fx_add_spec(unit.y, FX_ONE)));
    Vec3::lerp_spec(sky_white_spec(), sky_blue_spec(), t)
}

/// The sky radiance for a ray that escapes the scene; always a
/// displayable color.
fn sky_color(ray: &Ray) -> (c: Color)
    ensures
        c == sky_spec(*ray),
        color_in_unit(c),
{
    let unit = ray.dir.normalize();
    let t_raw = fx_mul(FX_HALF, fx_add(unit.y, FX_ONE));
    let t = if t_raw < 0 {
        0
    } else if t_raw > FX_ONE {
        FX_ONE
    } else {
        t_raw
    };
    let white = Vec3 { x: FX_ONE, y: FX_ONE, z: FX_ONE };
    let blue = Vec3 { x: FX_HALF, y: 45875, z: FX_ONE };
    let c = white.lerp(&blue, t);
    proof {
        lemma_lerp_unit(sky_white_spec(), sky_blue_spec(), t);
    }
    c
}

/// The recursive radiance integrator.  A depth of zero contributes
/// nothing (exact black); a miss contributes the sky gradient; a hit
/// scatters by the hit material's law and attenuates the recursive
/// radiance, or is absorbed (black).  On a well-formed scene the result
/// is always a displayable color.
pub fn ray_color(rng: &mut rand::rngs::SmallRng, ray: &Ray, world: &World, depth: usize) -> (c:
    Color)
    ensures
        depth == 0 ==> c == (Vec3 { x: 0i64, y: 0i64, z: 0i64 }),
        depth > 0 && world_hit_spec(world.entities@, *ray) is None ==> c == sky_spec(*ray),
        world.wf() ==> color_in_unit(c),
    decreases depth,
{
    if depth == 0 {
        return Vec3::zero();
    }
    match world.hit(ray) {
        Some((intersection, material)) => {
            proof {
                if world.wf() {
                    let k = choose|k: int|
                        0 <= k < world.entities@.len() && #[trigger] sphere_hit_spec(
                            world.entities@[k],
                            *ray,
                        ) == Some(intersection) && world.entities@[k].material == material;
                    assert(material_wf(material));
                }
            }
            match material.scatter(rng, ray, &intersection) {
                Some((attenuation, scattered)) => {
                    let rec = ray_color(rng, &scattered, world, depth - 1);
                    let c = attenuation.component_mul(&rec);
                    proof {
                        if world.wf() {
                            lemma_component_mul_unit(attenuation, rec);
                        }
                    }
                    c
                },
                None => Vec3::zero(),
            }
        },
        None => sky_color(ray),
    }
}

/// Square-root gamma correction (gamma 2.0) of a linear radiance value.
fn linear_to_gamma(linear_component: i64) -> (r: i64)
    ensures
        r == fx_sqrt_spec(linear_component),
{
    fx_sqrt(linear_component)
}

/// One channel of the output: average over the sample count, gamma
/// correct, scale by 255.999 and truncate, saturating into 0..=255.
pub open spec fn tone_map_spec(c: i64, samples_per_pixel: usize) -> u8 {
    let avg = fx_div_spec(c, fx_from_usize_spec(samples_per_pixel));
    let g = fx_sqrt_spec(avg);
    let scaled = fx_mul_spec(g, FX_255_999);
    let v = scaled as int / (FX_ONE as int);
    if v < 0 {
        0u8
    } else if v > 255 {
        255u8
    } else {
        v as u8
    }
}

fn tone_map(c: i64, samples_per_pixel: usize) -> (b: u8)
    ensures
        b == tone_map_spec(c, samples_per_pixel),
{
    let denom = fx_from_usize(samples_per_pixel);
    let avg = fx_div(c, denom);
    let g = linear_to_gamma(avg);
    let scaled = fx_mul(g, FX_255_999);
    if scaled <= 0 {
        0
    } else {
        let v = (scaled as u64) / 65536;
        if v > 255 {
            255
        } else {
            v as u8
        }
    }
}

/// The three tone-mapped bytes of one pixel, in R, G, B order.
pub fn write_color(c: &Color, samples_per_pixel: usize) -> (bytes: Vec<u8>)
    ensures
        bytes@.len() == 3,
        bytes@[0] == tone_map_spec(c.x, samples_per_pixel),
        bytes@[1] == tone_map_spec(c.y, samples_per_pixel),
        bytes@[2] == tone_map_spec(c.z, samples_per_pixel),
{
    let mut bytes: Vec<u8> = Vec::new();
    bytes.push(tone_map(c.x, samples_per_pixel));
    bytes.push(tone_map(c.y, samples_per_pixel));
    bytes.push(tone_map(c.z, samples_per_pixel));
    bytes
}

/// The derived, immutable viewport geometry and sampling configuration,
/// computed once from the aspect ratio, image width, sample count and
/// recursion depth.
#[derive(Clone, Copy, PartialEq, Eq, Structural, Debug)]
pub struct Camera {
    pub aspect_ratio: i64,
    pub image_width: usize,
    pub image_height: usize,
    pub center: Point,
    pub pixel00_loc: Point,
    pub pixel_delta_u: Vec3,
    pub pixel_delta_v: Vec3,
    pub samples_per_pixel: usize,
    pub max_depth: usize,
}

/// The derived image height: `width / aspect_ratio`, rounded to the
/// nearest integer and clamped to at least one row.
pub open spec fn image_height_spec(aspect_ratio: i64, image_width: usize) -> int {
    let wfx = fx_from_usize_spec(image_width);
    let hfx = fx_div_spec(wfx, aspect_ratio);
    let rounded = (hfx + FX_HALF) as int / (FX_ONE as int);
    if rounded < 1 {
        1
    } else {
        rounded
    }
}

/// The whole derived camera geometry, as the constructor computes it.
pub open spec fn camera_spec(
    aspect_ratio: i64,
    image_width: usize,
    samples_per_pixel: usize,
    max_depth: usize,
) -> Camera {
    let wfx = fx_from_usize_spec(image_width);
    let hfx0 = fx_div_spec(wfx, aspect_ratio);
    let hfx = if hfx0 < FX_ONE {
        FX_ONE
    } else {
        hfx0
    };
    let viewport_width = fx_mul_spec(FX_TWO, fx_div_spec(wfx, hfx));
    let viewport_u = Vec3 { x: viewport_width, y: 0i64, z: 0i64 };
    let viewport_v = Vec3 { x: 0i64, y: -FX_TWO as i64, z: 0i64 };
    let pixel_delta_u = Vec3::scale_div_spec(viewport_u, wfx);
    let pixel_delta_v = Vec3::scale_div_spec(viewport_v, hfx);
    let center = Vec3 { x: 0i64, y: 0i64, z: 0i64 };
    let focal = Vec3 { x: 0i64, y: 0i64, z: FX_ONE };
    let viewport_upper_left = Vec3::sub_spec(
        Vec3::sub_spec(
            Vec3::sub_spec(center, focal),
            Vec3::scale_spec(viewport_u, FX_HALF),
        ),
        Vec3::scale_spec(viewport_v, FX_HALF),
    );
    let pixel00_loc = Vec3::add_spec(
        viewport_upper_left,
        Vec3::scale_spec(Vec3::add_spec(pixel_delta_u, pixel_delta_v), FX_HALF),
    );
    Camera {
        aspect_ratio,
        image_width,
        image_height: image_height_spec(aspect_ratio, image_width) as usize,
        center,
        pixel00_loc,
        pixel_delta_u,
        pixel_delta_v,
        samples_per_pixel,
        max_depth,
    }
}

/// The ray through pixel `(i, j)` at sub-pixel offsets `(ox, oy)` (in
/// units of one pixel delta).
pub open spec fn pixel_ray_spec(cam: Camera, i: usize, j: usize, ox: i64, oy: i64) -> Ray {
    let pixel_center = Vec3::add_spec(
        Vec3::add_spec(
            cam.pixel00_loc,
            Vec3::scale_spec(cam.pixel_delta_u, fx_from_usize_spec(i)),
        ),
        Vec3::scale_spec(cam.pixel_delta_v, fx_from_usize_spec(j)),
    );
    let offset = Vec3::add_spec(
        Vec3::scale_spec(cam.pixel_delta_u, ox),
        Vec3::scale_spec(cam.pixel_delta_v, oy),
    );
    let pixel_sample = Vec3::add_spec(pixel_center, offset);
    Ray { origin: cam.center, dir: Vec3::sub_spec(pixel_sample, cam.center) }
}

impl Camera {
    /// Derives the viewport geometry from the configuration.  The image
    /// height is `width / aspect_ratio` rounded, clamped to at least 1.
    pub fn new(
        aspect_ratio: i64,
        image_width: usize,
        samples_per_pixel: usize,
        max_depth: usize,
    ) -> (c: Camera)
        requires
            aspect_ratio > 0,
            image_width >= 1,
            image_height_spec(aspect_ratio, image_width) <= usize::MAX,
        ensures
            c == camera_spec(aspect_ratio, image_width, samples_per_pixel, max_depth),
            c.image_height as int == image_height_spec(aspect_ratio, image_width),
    {
        let wfx = fx_from_usize(image_width);
        let hfx0 = fx_div(wfx, aspect_ratio);
        proof {
            assert(wfx >= 0);
            assert(image_width * (FX_ONE as int) >= 0);
            if hfx0 < 0 {
                assert(quot_trunc(wfx * (FX_ONE as int), aspect_ratio as int) == (wfx * (
                FX_ONE as int)) / (aspect_ratio as int));
                vstd::arithmetic::mul::lemma_mul_nonnegative(wfx as int, FX_ONE as int);
                vstd::arithmetic::div_mod::lemma_div_pos_is_pos(
                    wfx * (FX_ONE as int),
                    aspect_ratio as int,
                );
            }
        }
        let rounded: u64 = ((hfx0 as u64) + 32768) / 65536;
        let height64: u64 = if rounded < 1 {
            1
        } else {
            rounded
        };
        let image_height: usize = height64 as usize;
        let hfx = if hfx0 < FX_ONE {
            FX_ONE
        } else {
            hfx0
        };
        let viewport_width = fx_mul(FX_TWO, fx_div(wfx, hfx));
        let viewport_u = Vec3::new(viewport_width, 0, 0);
        let viewport_v = Vec3::new(0, -FX_TWO, 0);
        let pixel_delta_u = viewport_u.scale_div(wfx);
        let pixel_delta_v = viewport_v.scale_div(hfx);
        let center = Vec3::zero();
        let focal = Vec3::new(0, 0, FX_ONE);
        let viewport_upper_left = center
            .sub(&focal)
            .sub(&viewport_u.scale(FX_HALF))
            .sub(&viewport_v.scale(FX_HALF));
        let pixel00_loc = viewport_upper_left.add(
            &pixel_delta_u.add(&pixel_delta_v).scale(FX_HALF),
        );
        Camera {
            aspect_ratio,
            image_width,
            image_height,
            center,
            pixel00_loc,
            pixel_delta_u,
            pixel_delta_v,
            samples_per_pixel,
            max_depth,
        }
    }

    /// The deterministic core of ray generation: the ray through pixel
    /// `(i, j)` for given sub-pixel jitter offsets.
    pub fn pixel_ray(&self, i: usize, j: usize, ox: i64, oy: i64) -> (r: Ray)
        ensures
            r == pixel_ray_spec(*self, i, j, ox, oy),
    {
        let pixel_center = self
            .pixel00_loc
            .add(&self.pixel_delta_u.scale(fx_from_usize(i)))
            .add(&self.pixel_delta_v.scale(fx_from_usize(j)));
        let offset = self.pixel_delta_u.scale(ox).add(&self.pixel_delta_v.scale(oy));
        let pixel_sample = pixel_center.add(&offset);
        Ray::new(self.center, pixel_sample.sub(&self.center))
    }

    /// The ray through pixel `(i, j)`, jittered uniformly within the
    /// pixel's footprint (one half pixel delta each way, per axis).
    pub fn get_ray(&self, rng: &mut rand::rngs::SmallRng, i: usize, j: usize) -> (r: Ray)
        ensures
            exists|ox: i64, oy: i64|
                -FX_HALF <= ox < FX_HALF && -FX_HALF <= oy < FX_HALF && r == pixel_ray_spec(
                    *self,
                    i,
                    j,
                    ox,
                    oy,
                ),
    {
        let ox = rand_fx_range(rng, -FX_HALF, FX_HALF);
        let oy = rand_fx_range(rng, -FX_HALF, FX_HALF);
        let r = self.pixel_ray(i, j, ox, oy);
        proof {
            assert(-FX_HALF <= ox < FX_HALF && -FX_HALF <= oy < FX_HALF && r == pixel_ray_spec(
                *self,
                i,
                j,
                ox,
                oy,
            ));
        }
        r
    }

    /// Renders one image row: for each pixel, accumulate the integrator
    /// over the sample count and tone map, producing `3 * image_width`
    /// bytes.  The row's random stream is derived from the base seed and
    /// the row index.
    pub fn render_row(&self, world: &World, j: usize, base_seed: u64) -> (row: Vec<u8>)
        ensures
            row@.len() == 3 * self.image_width,
    {
        let mut rng = rng_from_seed(base_seed.wrapping_add(j as u64));
        let mut row: Vec<u8> = Vec::new();
        let mut i: usize = 0;
        while i < self.image_width
            invariant
                i <= self.image_width,
                row@.len() == 3 * i,
            decreases self.image_width - i,
        {
            let mut pixel_color = Vec3::zero();
            let mut s: usize = 0;
            while s < self.samples_per_pixel
                decreases self.samples_per_pixel - s,
            {
                let ray = self.get_ray(&mut rng, i, j);
                let sample = ray_color(&mut rng, &ray, world, self.max_depth);
                pixel_color = pixel_color.add(&sample);
                s = s + 1;
            }
            let mut bytes = write_color(&pixel_color, self.samples_per_pixel);
            row.append(&mut bytes);
            i = i + 1;
        }
        row
    }

    /// Renders the whole image: rows in parallel, concatenated in row
    /// order into `3 * image_width * image_height` bytes of row-major
    /// RGB, top to bottom.
    pub fn render(&self, world: &World, base_seed: u64) -> (data: Vec<u8>)
        ensures
            data@.len() == 3 * self.image_width * self.image_height,
    {
        let rows = par_render_rows(self, world, base_seed);
        let mut data: Vec<u8> = Vec::new();
        let mut j: usize = 0;
        while j < rows.len()
            invariant
                rows@.len() == self.image_height,
                forall|k: int|
                    0 <= k < rows@.len() ==> (#[trigger] rows@[k])@.len() == 3
                        * self.image_width,
                j <= rows@.len(),
                data@.len() == 3 * self.image_width * j,
            decreases rows@.len() - j,
        {
            let row = &rows[j];
            let mut b: usize = 0;
            while b < row.len()
                invariant
                    row@.len() == 3 * self.image_width,
                    b <= row@.len(),
                    data@.len() == 3 * self.image_width * j + b,
                decreases row@.len() - b,
            {
                data.push(row[b]);
                b = b + 1;
            }
            j = j + 1;
            proof {
                assert(3 * self.image_width * j == 3 * self.image_width * (j - 1) + 3
                    * self.image_width) by (nonlinear_arith);
            }
        }
        data
    }
}

/// Relies on rayon's `into_par_iter`, `map` and `collect` over a row
/// index range: an indexed parallel map whose results are collected in
/// index order, each element produced by one call of the verified row
/// renderer.
#[verifier::external_body]
fn par_render_rows(cam: &Camera, world: &World, base_seed: u64) -> (rows: Vec<Vec<u8>>)
    ensures
        rows@.len() == cam.image_height,
        forall|k: int| 0 <= k < rows@.len() ==> (#[trigger] rows@[k])@.len() == 3 * cam.image_width,
{
    (0..cam.image_height).into_par_iter().map(|j| cam.render_row(world, j, base_seed)).collect()
}

} // verus!

use photonr::camera::{ray_color, write_color, Camera};
use photonr::fixed::{FX_HALF, FX_ONE};
use photonr::material::{Lambertian, MaterialKind, Metal};
use photonr::ray::Ray;
use photonr::rng::rng_from_seed;
use photonr::vec3::Vec3;
use photonr::world::{Sphere, World};

/// 16:9 in 16.16 fixed point: (16 << 16) / 9, truncated.
const ASPECT_16_9: i64 = 116508;

#[test]
fn image_height_is_rounded_and_clamped() {
    // (16/9, 400) -> 225
    let camera = Camera::new(ASPECT_16_9, 400, 1, 1);
    assert_eq!(camera.image_width, 400);
    assert_eq!(camera.image_height, 225);
    // square aspect keeps the width
    let square = Camera::new(FX_ONE, 100, 1, 1);
    assert_eq!(square.image_height, 100);
    // a degenerate aspect ratio clamps the height to one row
    let wide = Camera::new(100 * FX_ONE, 10, 1, 1);
    assert_eq!(wide.image_height, 1);
}

#[test]
fn center_pixel_ray_points_down_the_axis() {
    let camera = Camera::new(ASPECT_16_9, 400, 1, 1);
    // the unjittered ray through the middle pixel leaves the origin and
    // points almost exactly at (0, 0, -1)
    let ray = camera.pixel_ray(200, 112, 0, 0);
    assert_eq!(ray.origin, Vec3::zero());
    assert_eq!(ray.dir.z, -FX_ONE);
    assert!(ray.dir.x.abs() < 1000, "dir.x {}", ray.dir.x);
    assert!(ray.dir.y.abs() < 1000, "dir.y {}", ray.dir.y);
}

#[test]
fn ray_color_depth_zero_is_black() {
    let mut rng = rng_from_seed(1);
    let mut world = World::new();
    world.add(Sphere::new(
        Vec3::new(0, 0, -FX_ONE),
        FX_HALF,
        MaterialKind::Lambertian(Lambertian { albedo: Vec3::new(FX_HALF, FX_HALF, FX_HALF) }),
    ));
    for dir in [
        Vec3::new(0, 0, -FX_ONE),
        Vec3::new(FX_ONE, FX_ONE, FX_ONE),
        Vec3::new(0, -FX_ONE, 0),
    ] {
        let ray = Ray::new(Vec3::zero(), dir);
        assert_eq!(ray_color(&mut rng, &ray, &world, 0), Vec3::zero());
    }
}

#[test]
fn ray_color_miss_is_sky_gradient() {
    let mut rng = rng_from_seed(2);
    let world = World::new();
    // straight up: the gradient parameter saturates at 1.0, giving the
    // zenith blue exactly
    let up = Ray::new(Vec3::zero(), Vec3::new(0, FX_ONE, 0));
    assert_eq!(ray_color(&mut rng, &up, &world, 5), Vec3::new(FX_HALF, 45875, FX_ONE));
    // straight down: the parameter saturates at 0.0, giving white
    let down = Ray::new(Vec3::zero(), Vec3::new(0, -FX_ONE, 0));
    assert_eq!(ray_color(&mut rng, &down, &world, 5), Vec3::new(FX_ONE, FX_ONE, FX_ONE));
}

#[test]
fn tone_mapping_exact_bytes() {
    // full white maps to 255 per channel, black to 0
    assert_eq!(write_color(&Vec3::new(FX_ONE, FX_ONE, FX_ONE), 1), vec![255, 255, 255]);
    assert_eq!(write_color(&Vec3::zero(), 1), vec![0, 0, 0]);
    // 0.25 linear -> sqrt -> 0.5 -> 127
    assert_eq!(write_color(&Vec3::new(16384, 16384, 16384), 1), vec![127, 127, 127]);
    // averaging over samples: 2.0 accumulated over 2 samples is full white
    assert_eq!(write_color(&Vec3::new(131072, 131072, 131072), 2), vec![255, 255, 255]);
}

fn two_sphere_world() -> World {
    let mut world = World::new();
    // ground sphere: center (0, -100.5, -1), radius 100, Lambertian
    world.add(Sphere::new(
        Vec3::new(0, -6586368, -FX_ONE),
        6553600,
        MaterialKind::Lambertian(Lambertian { albedo: Vec3::new(52429, 52429, 0) }),
    ));
    // foreground sphere: center (0, 0, -1), radius 0.5, Metal
    world.add(Sphere::new(
        Vec3::new(0, 0, -FX_ONE),
        FX_HALF,
        MaterialKind::Metal(Metal { albedo: Vec3::new(52429, 39322, 13107), fuzz: 0 }),
    ));
    world
}

#[test]
fn end_to_end_render_shape() {
    let camera = Camera::new(ASPECT_16_9, 400, 1, 1);
    assert_eq!(camera.image_height, 225);
    let world = two_sphere_world();
    let data = camera.render(&world, 1234);
    assert_eq!(data.len(), 270000);

    // the top row only sees the sky: blue channel saturated, red below it
    for i in 0..400usize {
        let r = data[3 * i];
        let b = data[3 * i + 2];
        assert_eq!(b, 255, "top row pixel {} should be sky", i);
        assert!(r < 255, "top row pixel {} should be tinted toward blue", i);
    }

    // the image center looks into the metal sphere; at depth 1 every
    // scattered path is truncated to black
    let center_row: usize = 112;
    let center_col: usize = 200;
    let at: usize = 3 * (center_row * 400 + center_col);
    assert_eq!(&data[at..at + 3], &[0, 0, 0]);
}

#[test]
fn render_is_reproducible_for_a_fixed_seed() {
    let camera = Camera::new(ASPECT_16_9, 120, 2, 3);
    assert_eq!(camera.image_height, 68);
    let world = two_sphere_world();
    let first = camera.render(&world, 7);
    let second = camera.render(&world, 7);
    assert_eq!(first, second);
    // another seed keeps the deterministic layout
    let third = camera.render(&world, 8);
    assert_eq!(third.len(), first.len());
}

use photonr::fixed::{FX_HALF, FX_ONE};
use photonr::material::{Lambertian, MaterialKind, Metal};
use photonr::ray::Ray;
use photonr::rng::rng_from_seed;
use photonr::vec3::Vec3;
use photonr::world::{SceneSphere, Sphere, World};

fn gray() -> MaterialKind {
    MaterialKind::Lambertian(Lambertian { albedo: Vec3::new(FX_HALF, FX_HALF, FX_HALF) })
}

#[test]
fn sphere_hit_head_on() {
    // ray from the origin toward (0, 0, -1), sphere at (0, 0, -1) with
    // radius 0.5: hit at toi = 0.5 with outward normal (0, 0, 1)
    let sphere = Sphere::new(Vec3::new(0, 0, -FX_ONE), FX_HALF, gray());
    let ray = Ray::new(Vec3::zero(), Vec3::new(0, 0, -FX_ONE));
    let hit = sphere.hit(&ray).expect("must hit");
    assert_eq!(hit.toi, FX_HALF);
    assert_eq!(hit.normal, Vec3::new(0, 0, FX_ONE));
}

#[test]
fn sphere_miss() {
    let sphere = Sphere::new(Vec3::new(0, 0, -131072), FX_HALF, gray());
    let ray = Ray::new(Vec3::zero(), Vec3::new(0, 0, FX_ONE));
    assert!(sphere.hit(&ray).is_none());
}

#[test]
fn sphere_origin_on_surface_skips_near_root() {
    // the root at the ray's own origin is inside the epsilon guard; the
    // exit point at toi = 2.0 is returned instead
    let sphere = Sphere::new(Vec3::new(0, 0, -FX_ONE), FX_ONE, gray());
    let ray = Ray::new(Vec3::zero(), Vec3::new(0, 0, -FX_ONE));
    let hit = sphere.hit(&ray).expect("must hit");
    assert_eq!(hit.toi, 131072);
}

#[test]
fn world_hit_returns_nearest_in_both_orders() {
    // two spheres along the ray at depths 2.0 and 4.0; the nearest
    // surface is at toi = 1.5 whichever was inserted first
    let near = Sphere::new(Vec3::new(0, 0, -131072), FX_HALF, gray());
    let far = Sphere::new(Vec3::new(0, 0, -262144), FX_HALF, gray());
    let ray = Ray::new(Vec3::zero(), Vec3::new(0, 0, -FX_ONE));

    let mut world = World::new();
    world.add(near);
    world.add(far);
    let (hit, _) = world.hit(&ray).expect("must hit");
    assert_eq!(hit.toi, 98304);

    let mut reversed = World::new();
    reversed.add(far);
    reversed.add(near);
    let (hit2, _) = reversed.hit(&ray).expect("must hit");
    assert_eq!(hit2.toi, 98304);
}

#[test]
fn world_hit_empty_is_none() {
    let world = World::new();
    let ray = Ray::new(Vec3::zero(), Vec3::new(0, 0, -FX_ONE));
    assert!(world.hit(&ray).is_none());
}

#[test]
fn lambertian_always_scatters() {
    let mut rng = rng_from_seed(3);
    let lambertian = Lambertian { albedo: Vec3::new(FX_HALF, FX_HALF, FX_HALF) };
    let sphere = Sphere::new(Vec3::new(0, 0, -FX_ONE), FX_HALF, gray());
    let ray = Ray::new(Vec3::zero(), Vec3::new(0, 0, -FX_ONE));
    let intersection = sphere.hit(&ray).expect("must hit");
    for _ in 0..50 {
        let scattered = lambertian.scatter(&mut rng, &ray, &intersection);
        let (attenuation, _) = scattered.expect("lambertian always scatters");
        assert_eq!(attenuation, Vec3::new(FX_HALF, FX_HALF, FX_HALF));
    }
}

#[test]
fn metal_absorbs_inward_reflection() {
    // incoming ray along the normal's own direction reflects inward:
    // dot(reflected, normal) <= 0, so the scatter is absorbed
    let mut rng = rng_from_seed(4);
    let metal = Metal { albedo: Vec3::new(FX_HALF, FX_HALF, FX_HALF), fuzz: 0 };
    let ray = Ray::new(Vec3::zero(), Vec3::new(0, FX_ONE, 0));
    let intersection = photonr::ray::Intersection { toi: FX_ONE, normal: Vec3::new(0, FX_ONE, 0) };
    for _ in 0..50 {
        assert!(metal.scatter(&mut rng, &ray, &intersection).is_none());
    }
    // the deterministic core agrees for a fixed perturbation direction
    assert!(metal.scatter_with(&ray, &intersection, Vec3::new(0, 0, FX_ONE)).is_none());
}

#[test]
fn metal_reflects_outward() {
    let mut rng = rng_from_seed(6);
    let metal = Metal { albedo: Vec3::new(FX_HALF, FX_HALF, FX_HALF), fuzz: 0 };
    // incoming ray downward onto an upward-facing surface
    let ray = Ray::new(Vec3::new(0, FX_ONE, 0), Vec3::new(0, -FX_ONE, 0));
    let intersection = photonr::ray::Intersection { toi: FX_ONE, normal: Vec3::new(0, FX_ONE, 0) };
    for _ in 0..50 {
        let (attenuation, scattered) =
            metal.scatter(&mut rng, &ray, &intersection).expect("reflection leaves the surface");
        assert_eq!(attenuation, Vec3::new(FX_HALF, FX_HALF, FX_HALF));
        assert_eq!(scattered.dir, Vec3::new(0, FX_ONE, 0));
    }
}

#[test]
fn material_kind_dispatch() {
    let mut rng = rng_from_seed(8);
    let kind = MaterialKind::Metal(Metal { albedo: Vec3::new(FX_ONE, 0, 0), fuzz: 0 });
    let ray = Ray::new(Vec3::new(0, FX_ONE, 0), Vec3::new(0, -FX_ONE, 0));
    let intersection = photonr::ray::Intersection { toi: FX_ONE, normal: Vec3::new(0, FX_ONE, 0) };
    let (attenuation, _) = kind.scatter(&mut rng, &ray, &intersection).expect("must scatter");
    assert_eq!(attenuation, Vec3::new(FX_ONE, 0, 0));
}

#[test]
fn from_scene_resolves_material_indices() {
    let shapes = vec![
        SceneSphere { center: Vec3::new(0, 0, -FX_ONE), radius: FX_HALF, material_index: 1 },
        SceneSphere { center: Vec3::zero(), radius: FX_ONE, material_index: 0 },
    ];
    let materials = vec![
        gray(),
        MaterialKind::Metal(Metal { albedo: Vec3::new(FX_ONE, 0, 0), fuzz: 0 }),
    ];
    let world = World::from_scene(&shapes, &materials).expect("indices resolve");
    assert_eq!(world.entities.len(), 2);
    assert_eq!(world.entities[0].material, materials[1]);
    assert_eq!(world.entities[1].material, materials[0]);
    assert_eq!(world.entities[0].radius, FX_HALF);
}

#[test]
fn from_scene_rejects_missing_material() {
    let shapes = vec![SceneSphere {
        center: Vec3::zero(),
        radius: FX_ONE,
        material_index: 2,
    }];
    let materials = vec![gray()];
    assert!(World::from_scene(&shapes, &materials).is_none());
}

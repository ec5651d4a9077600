use photonr::fixed::{fx_add, fx_div, fx_mul, fx_neg, fx_sqrt, fx_sub, FX_HALF, FX_ONE};
use photonr::math::{random_unit_vector, random_unit_vector_on_hemisphere, random_vector};
use photonr::rng::rng_from_seed;
use photonr::vec3::{vector_near_zero, vector_reflect, Vec3};

#[test]
fn fx_arithmetic_exact_values() {
    // 2.0 * 1.5 == 3.0
    assert_eq!(fx_mul(131072, 98304), 196608);
    // 1.0 / 2.0 == 0.5
    assert_eq!(fx_div(FX_ONE, 131072), FX_HALF);
    // sqrt(4.0) == 2.0 and sqrt(0.25) == 0.5
    assert_eq!(fx_sqrt(262144), 131072);
    assert_eq!(fx_sqrt(16384), FX_HALF);
    assert_eq!(fx_add(FX_ONE, FX_HALF), 98304);
    assert_eq!(fx_sub(FX_ONE, FX_HALF), FX_HALF);
    assert_eq!(fx_neg(FX_HALF), -FX_HALF);
    // truncation toward zero on both signs
    assert_eq!(fx_mul(3, 3), 0);
    assert_eq!(fx_mul(-3, 3), 0);
}

#[test]
fn fx_arithmetic_saturates() {
    assert_eq!(fx_mul(i64::MAX, 131072), i64::MAX);
    assert_eq!(fx_mul(i64::MAX, -131072), i64::MIN);
    assert_eq!(fx_add(i64::MAX, 1), i64::MAX);
    assert_eq!(fx_sub(i64::MIN, 1), i64::MIN);
    assert_eq!(fx_neg(i64::MIN), i64::MAX);
    // division by zero saturates in the numerator's direction
    assert_eq!(fx_div(FX_ONE, 0), i64::MAX);
    assert_eq!(fx_div(-FX_ONE, 0), i64::MIN);
    assert_eq!(fx_div(0, 0), 0);
}

#[test]
fn fx_sqrt_of_nonpositive_is_zero() {
    assert_eq!(fx_sqrt(0), 0);
    assert_eq!(fx_sqrt(-FX_ONE), 0);
}

#[test]
fn reflect_unit_case() {
    // v = (1, -1, 0) about n = (0, 1, 0) gives (1, 1, 0)
    let v = Vec3::new(FX_ONE, -FX_ONE, 0);
    let n = Vec3::new(0, FX_ONE, 0);
    let r = vector_reflect(&v, &n);
    assert_eq!(r, Vec3::new(FX_ONE, FX_ONE, 0));
}

#[test]
fn near_zero_threshold() {
    assert!(vector_near_zero(&Vec3::new(7, -7, 7)));
    assert!(!vector_near_zero(&Vec3::new(8, 0, 0)));
    assert!(!vector_near_zero(&Vec3::new(0, 0, -8)));
}

#[test]
fn normalize_axis_vector() {
    let v = Vec3::new(0, 0, 131072);
    assert_eq!(v.length(), 131072);
    assert_eq!(v.normalize(), Vec3::new(0, 0, FX_ONE));
}

#[test]
fn dot_and_component_mul() {
    let a = Vec3::new(FX_ONE, 131072, -FX_ONE);
    let b = Vec3::new(FX_HALF, FX_ONE, FX_ONE);
    // 1*0.5 + 2*1 + (-1)*1 == 1.5
    assert_eq!(a.dot(&b), 98304);
    assert_eq!(a.component_mul(&b), Vec3::new(FX_HALF, 131072, -FX_ONE));
}

#[test]
fn random_vector_components_in_unit_interval() {
    let mut rng = rng_from_seed(11);
    for _ in 0..100 {
        let v = random_vector(&mut rng);
        assert!(0 <= v.x && v.x < FX_ONE);
        assert!(0 <= v.y && v.y < FX_ONE);
        assert!(0 <= v.z && v.z < FX_ONE);
    }
}

#[test]
fn random_unit_vector_norm_and_mean() {
    let mut rng = rng_from_seed(42);
    let trials: i64 = 500;
    let mut sum_x: i64 = 0;
    let mut sum_y: i64 = 0;
    let mut sum_z: i64 = 0;
    for _ in 0..trials {
        let u = random_unit_vector(&mut rng);
        let norm_sq = u.dot(&u);
        // |u|^2 within fixed-point tolerance of 1.0
        assert!((norm_sq - FX_ONE).abs() <= 2048, "norm_sq {}", norm_sq);
        sum_x += u.x;
        sum_y += u.y;
        sum_z += u.z;
    }
    // no directional bias: the mean stays near the zero vector
    assert!(sum_x.abs() < 4_000_000, "sum_x {}", sum_x);
    assert!(sum_y.abs() < 4_000_000, "sum_y {}", sum_y);
    assert!(sum_z.abs() < 4_000_000, "sum_z {}", sum_z);
}

#[test]
fn hemisphere_sample_agrees_with_normal() {
    let mut rng = rng_from_seed(5);
    let normal = Vec3::new(0, FX_ONE, 0);
    for _ in 0..100 {
        let u = random_unit_vector_on_hemisphere(&mut rng, &normal);
        // flipped onto the hemisphere: never strictly below the surface
        assert!(u.dot(&normal) >= 0);
    }
}

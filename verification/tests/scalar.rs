use rand::Rng;
use ray_tracer::scalar::{INFINITY_BITS, ONE_BITS, SIGN_BIT};
use ray_tracer::{clamp, in_unit_sphere, Scalar};

fn s(x: f64) -> Scalar {
    Scalar::from_bits(x.to_bits())
}

fn f(x: Scalar) -> f64 {
    f64::from_bits(x.bits)
}

fn samples() -> Vec<f64> {
    vec![
        0.0,
        -0.0,
        1.0,
        -1.0,
        0.001,
        0.999,
        0.5,
        -0.5,
        1.5,
        -1.5,
        256.0,
        1e300,
        -1e300,
        5e-324,
        -5e-324,
        f64::MIN_POSITIVE,
        f64::MAX,
        f64::MIN,
        f64::INFINITY,
        f64::NEG_INFINITY,
        f64::NAN,
        -f64::NAN,
        f64::EPSILON,
        std::f64::consts::PI,
    ]
}

#[test]
fn test_clamp() {
    let mut rng = rand::thread_rng();

    let min: f64 = rng.gen_range(-100.0..50.0);
    let max: f64 = rng.gen_range(min + 1.0..100.0);

    let x: f64 = rng.gen_range(min + 0.25..max - 0.25);
    let result = f(clamp(s(x), s(min), s(max)));
    assert_eq!(result, x);

    let x: f64 = rng.gen_range(max..1000.0);
    let result = f(clamp(s(x), s(min), s(max)));
    assert_eq!(result, max);

    let x: f64 = rng.gen_range(-1000.0..min);
    let result = f(clamp(s(x), s(min), s(max)));
    assert_eq!(result, min);
}

#[test]
fn constants_are_the_patterns_of_their_values() {
    assert_eq!(ONE_BITS, 1.0f64.to_bits());
    assert_eq!(INFINITY_BITS, f64::INFINITY.to_bits());
    assert_eq!(SIGN_BIT, (-0.0f64).to_bits());
    assert_eq!(Scalar::zero().bits, 0.0f64.to_bits());
    assert_eq!(Scalar::one().bits, 1.0f64.to_bits());
    assert_eq!(Scalar::from_bits(0x3feff7ced916872b).bits, 0.999f64.to_bits());
}

#[test]
fn lt_agrees_with_the_numbers() {
    for a in samples() {
        for b in samples() {
            assert_eq!(s(a).lt(s(b)), a < b, "{} < {}", a, b);
            assert_eq!(s(a).gt(s(b)), a > b, "{} > {}", a, b);
        }
    }
}

#[test]
fn lt_agrees_with_the_numbers_on_random_values() {
    let mut rng = rand::thread_rng();
    for _ in 0..2000 {
        let a: f64 = f64::from_bits(rng.gen::<u64>());
        let b: f64 = f64::from_bits(rng.gen::<u64>());
        assert_eq!(s(a).lt(s(b)), a < b);
        let c: f64 = rng.gen_range(-10.0..10.0);
        let d: f64 = rng.gen_range(-10.0..10.0);
        assert_eq!(s(c).lt(s(d)), c < d);
        assert_eq!(s(c).gt(s(d)), c > d);
    }
}

#[test]
fn is_nan_agrees_with_the_numbers() {
    for a in samples() {
        assert_eq!(s(a).is_nan(), a.is_nan(), "{}", a);
    }
    assert!(Scalar::from_bits(0x7ff0000000000001).is_nan());
    assert!(Scalar::from_bits(0xfff8000000000000).is_nan());
    assert!(!Scalar::from_bits(0x7ff0000000000000).is_nan());
    assert!(!Scalar::from_bits(0xfff0000000000000).is_nan());
}

#[test]
fn the_two_zeros_are_not_below_one_another() {
    assert!(!s(0.0).lt(s(-0.0)));
    assert!(!s(-0.0).lt(s(0.0)));
    assert_ne!(s(0.0), s(-0.0));
}

#[test]
fn clamp_exact_values() {
    assert_eq!(f(clamp(s(1.5), s(0.0), s(0.999))), 0.999);
    assert_eq!(f(clamp(s(-0.25), s(0.0), s(0.999))), 0.0);
    assert_eq!(f(clamp(s(0.25), s(0.0), s(0.999))), 0.25);
    assert_eq!(f(clamp(s(0.0), s(0.0), s(0.999))), 0.0);
    assert_eq!(f(clamp(s(0.999), s(0.0), s(0.999))), 0.999);
    assert_eq!(clamp(s(-0.0), s(0.0), s(0.999)), s(-0.0));
}

#[test]
fn clamp_lets_a_nan_through() {
    assert!(f(clamp(s(f64::NAN), s(0.0), s(1.0))).is_nan());
}

#[test]
fn clamp_twice_is_clamp_once() {
    for x in samples() {
        let once = clamp(s(x), s(-1.0), s(2.0));
        assert_eq!(clamp(once, s(-1.0), s(2.0)), once);
    }
}

#[test]
fn unit_sphere_keeps_what_is_shorter_than_one() {
    assert!(in_unit_sphere(s(0.0)));
    assert!(in_unit_sphere(s(0.999999)));
    assert!(!in_unit_sphere(s(1.0)));
    assert!(!in_unit_sphere(s(2.5)));
    assert!(!in_unit_sphere(s(f64::NAN)));
}

#[test]
fn unit_sphere_agrees_with_the_numbers_on_random_points() {
    let mut rng = rand::thread_rng();
    for _ in 0..1000 {
        let x: f64 = rng.gen_range(-1.0..1.0);
        let y: f64 = rng.gen_range(-1.0..1.0);
        let z: f64 = rng.gen_range(-1.0..1.0);
        let length_squared: f64 = x * x + y * y + z * z;
        assert_eq!(in_unit_sphere(s(length_squared)), length_squared < 1.0);
    }
}

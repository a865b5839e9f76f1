use fiz_math::{Scalar, Vec3};

#[test]
fn new_keeps_components() {
    let v = Vec3::new(1u8, 5u8, 2u8);
    assert_eq!((v.x, v.y, v.z), (1, 5, 2));
    let f = Vec3::new(4.0f32, 8.0f32, 2.0f32);
    assert_eq!((f.x, f.y, f.z), (4.0, 8.0, 2.0));
}

#[test]
fn add_component_wise() {
    let a = Vec3::new(1, 2, 3);
    let b = Vec3::new(4, 5, 6);
    assert!(a + b == Vec3::new(5, 7, 9));
    assert!(!(a + b == Vec3::new(5, 7, 10)));
}

#[test]
fn sub_component_wise_signed() {
    let a = Vec3::new(1, 2, 3);
    let b = Vec3::new(4, 5, 6);
    assert!(a - b == Vec3::new(-3, -3, -3));
}

#[test]
fn mul_component_wise() {
    let a = Vec3::new(1, 2, 3);
    let b = Vec3::new(4, 5, 6);
    assert!(a * b == Vec3::new(4, 10, 18));
}

#[test]
fn div_truncates() {
    let a = Vec3::new(4, 5, 9);
    let b = Vec3::new(1, 2, 3);
    assert!(a / b == Vec3::new(4, 2, 3));
    let n = Vec3::new(-7i8, 7i8, -9i8) / Vec3::new(2i8, -2i8, -4i8);
    assert!(n == Vec3::new(-3, -3, 2));
}

#[test]
fn float_arithmetic_forwards_scalar_ops() {
    let a = Vec3::new(1.5f64, -2.0, 0.25);
    let b = Vec3::new(0.5f64, 4.0, 0.5);
    let s = a + b;
    assert_eq!((s.x, s.y, s.z), (2.0, 2.0, 0.75));
    let q = a / b;
    assert_eq!((q.x, q.y, q.z), (3.0, -0.5, 0.5));
    let z = Vec3::new(1.0f32, -1.0, 0.0) / Vec3::new(0.0f32, 0.0, 0.0);
    assert!(z.x.is_infinite() && z.y.is_infinite() && z.z.is_nan());
}

#[test]
fn add_commutes_on_values() {
    let a = Vec3::new(-12i64, 40, 7);
    let b = Vec3::new(3i64, -41, 1000);
    assert!(a + b == b + a);
    assert!(a * b == b * a);
    assert!(a * b == Vec3::new(-36, -1640, 7000));
}

#[test]
fn zero_is_additive_identity() {
    let a = Vec3::new(250u8, 0, 17);
    assert!(a + Vec3::zero() == a);
    let b = Vec3::new(i32::MIN, i32::MAX, -1);
    assert!(b + Vec3::zero() == b);
}

#[test]
fn one_is_multiplicative_identity() {
    let a = Vec3::new(usize::MAX, 3usize, 0usize);
    assert!(a * Vec3::one() == a);
    let b = Vec3::new(-5i16, 9, i16::MIN);
    assert!(b * Vec3::one() == b);
    let o = Vec3::<u32>::one();
    assert_eq!((o.x, o.y, o.z), (1, 1, 1));
}

#[test]
fn zero_detection() {
    assert!(Vec3::<u8>::zero().is_zero());
    assert!(Vec3::<i64>::zero().is_zero());
    assert!(Vec3::new(0isize, 0, 0).is_zero());
    assert!(!Vec3::new(1, 0, 0).is_zero());
    assert!(!Vec3::new(0u16, 0, 9).is_zero());
    assert!(!Vec3::new(0i8, -1, 0).is_zero());
    let z = Vec3::<u64>::zero();
    assert_eq!((z.x, z.y, z.z), (0, 0, 0));
}

#[test]
fn exact_equality_is_an_equivalence() {
    let a = Vec3::new(4, 5, 9);
    let b = Vec3::new(4, 5, 9);
    let c = Vec3::new(4, 5, 9);
    let d = Vec3::new(4, 5, 10);
    assert!(a == a);
    assert!(a == b && b == a);
    assert!(a == b && b == c && a == c);
    assert!(a != d && d != a);
}

#[test]
fn almost_equal_on_integers() {
    let a = Vec3::new(10u32, 10, 10);
    let b = Vec3::new(9u32, 11, 10);
    assert!(a.almost_equal(b, 1));
    assert!(!a.almost_equal(b, 0));
    let c = Vec3::new(i64::MIN, 0, 0);
    let d = Vec3::new(i64::MAX, 0, 0);
    assert!(!c.almost_equal(d, i64::MAX));
    assert!(a.almost_equal(a, 0));
    let e = Vec3::new(-3i8, 4, 0);
    assert!(!e.almost_equal(e, -1));
    assert!(e.almost_equal(Vec3::new(-5, 6, 2), 2));
}

#[test]
fn scalar_within_and_same() {
    assert!(200u8.within(0, 200));
    assert!(!200u8.within(0, 199));
    assert!((-128i8).within(127, 127) == false);
    assert!(5i32.same(5));
    assert!(!5i32.same(-5));
    assert_eq!(<u16 as Scalar>::zero(), 0);
    assert_eq!(<i64 as Scalar>::one(), 1);
}

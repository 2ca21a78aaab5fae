use gel::{Cross, Dot, Normalize, Repeat, Vec2, Vec3, Vec4, VecN};

#[test]
fn test_extend() {
    let x: Vec2<f32> = VecN::zero();
    let n = x.extend(1.0);
    assert_eq!(n, Vec3::new(0.0, 0.0, 1.0));
    let y: Vec3<f32> = VecN::zero();
    let m = y.extend(1.0);
    assert_eq!(m, Vec4::new(0.0, 0.0, 0.0, 1.0));
}

#[test]
fn truncate_drops_the_last_component() {
    assert_eq!(Vec4::new(1, 2, 3, 4).truncate(), Vec3::new(1, 2, 3));
    assert_eq!(Vec3::new(1, 2, 3).truncate(), Vec2::new(1, 2));
    assert_eq!(Vec3::new(1, 2, 3).extend(9).truncate(), Vec3::new(1, 2, 3));
}

#[test]
fn components_are_indexed_in_order() {
    let mut v = Vec4::new(1, 2, 3, 4);
    assert_eq!(v.get(0), 1);
    assert_eq!(v.get(3), 4);
    v.set(2, 7);
    assert_eq!(v.0, [1, 2, 7, 4]);
}

#[test]
fn component_wise_operations() {
    let a = Vec3::new(6, 8, 10);
    let b = Vec3::new(3, 2, 5);
    assert_eq!(a.add(&b).0, [9, 10, 15]);
    assert_eq!(a.sub(&b).0, [3, 6, 5]);
    assert_eq!(a.mul(&b).0, [18, 16, 50]);
    assert_eq!(a.div(&b).0, [2, 4, 2]);
    assert_eq!(a.neg().0, [-6, -8, -10]);
}

#[test]
fn scalar_operations() {
    let a = Vec2::new(6.0f32, -3.0);
    assert_eq!(a.add_scalar(1.0).0, [7.0, -2.0]);
    assert_eq!(a.sub_scalar(1.0).0, [5.0, -4.0]);
    assert_eq!(a.mul_scalar(2.0).0, [12.0, -6.0]);
    assert_eq!(a.div_scalar(3.0).0, [2.0, -1.0]);
}

#[test]
fn repeat_and_zero() {
    let r: Vec4<i64> = Repeat::repeat(5);
    assert_eq!(r.0, [5, 5, 5, 5]);
    let z: Vec3<f32> = VecN::zero();
    assert_eq!(z.0, [0.0, 0.0, 0.0]);
}

#[test]
fn dot_product() {
    let a = Vec4::new(1, 2, 3, 4);
    let b = Vec4::new(5, 6, 7, 8);
    assert_eq!(a.dot(&b), 70);
    assert_eq!(Vec2::new(3.0f32, 4.0).dot(&Vec2::new(3.0, 4.0)), 25.0);
}

#[test]
fn cross_product() {
    let x = Vec3::new(1, 0, 0);
    let y = Vec3::new(0, 1, 0);
    assert_eq!(x.cross(&y), Vec3::new(0, 0, 1));
    assert_eq!(y.cross(&x), Vec3::new(0, 0, -1));
    assert_eq!(Vec3::new(1, 2, 3).cross(&Vec3::new(4, 5, 6)), Vec3::new(-3, 6, -3));
}

#[test]
fn cross_product_is_orthogonal_to_operands() {
    let a = Vec3::new(1.5f32, -2.0, 0.25);
    let b = Vec3::new(-0.5f32, 3.0, 4.0);
    let c = a.cross(&b);
    assert!(c.dot(&a).abs() <= 1e-5);
    assert!(c.dot(&b).abs() <= 1e-5);
    let ai = Vec3::new(7, -3, 2);
    let bi = Vec3::new(-1, 4, 9);
    assert_eq!(ai.cross(&bi).dot(&ai), 0);
    assert_eq!(ai.cross(&bi).dot(&bi), 0);
}

#[test]
fn normalize_scales_by_reciprocal_length() {
    let v = Vec3::new(3.0f32, 0.0, 4.0);
    let len = v.dot(&v).sqrt();
    let n = v.normalize(len);
    assert!((n.get(0) - 0.6).abs() <= 1e-6);
    assert!((n.get(2) - 0.8).abs() <= 1e-6);
    let u = Vec3::new(0.6f32, 0.0, 0.8);
    let m = u.normalize(u.dot(&u).sqrt());
    for i in 0..3 {
        assert!((m.get(i) - u.get(i)).abs() <= 1e-6);
    }
}

#[test]
fn normalize_of_zero_vector_is_not_finite() {
    let z: Vec3<f32> = VecN::zero();
    let n = z.normalize(0.0);
    assert!(n.get(0).is_nan());
}

#[test]
fn zero_is_additive_identity() {
    let v = Vec4::new(1.25f32, -7.5, 3.0, 0.0);
    assert_eq!(v.add(&VecN::zero()), v);
    assert_eq!(v.sub(&v), VecN::zero());
    let w = Vec2::new(i64::MAX, i64::MIN);
    assert_eq!(w.add(&VecN::zero()), w);
    assert_eq!(w.sub(&w), VecN::zero());
}

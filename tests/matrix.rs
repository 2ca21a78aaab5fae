use gel::{Inverse, Mat4, Transpose, Vec3, Vec4, VecN};

fn close(a: f32, b: f32, eps: f32) -> bool {
    (a - b).abs() <= eps
}

fn sample() -> Mat4<f32> {
    Mat4::new(
        2.0, 0.0, 1.0, 3.0,
        1.0, 3.0, 0.0, -1.0,
        0.0, 1.0, 4.0, 2.0,
        1.0, 0.0, 0.0, 1.0,
    )
}

#[test]
fn test_matrix_new() {
    let mat = Mat4::new(
        1.0, 0.0, 1.0, 0.0,
        0.0, 1.0, 0.0, 1.0,
        1.0, 0.0, 1.0, 0.0,
        0.0, 1.0, 0.0, 1.0,
    );
    for i in 0..4 {
        for j in 0..4 {
            if (i + j) % 2 == 0 {
                assert!(mat.get(i, j) == 1.0);
            } else {
                assert!(mat.get(i, j) == 0.0);
            }
        }
    }
}

#[test]
fn test_matrix_transpose() {
    let mat1 = Mat4::new(
        1.0, 0.0, 0.0, 0.0,
        1.0, 1.0, 0.0, 0.0,
        1.0, 1.0, 1.0, 0.0,
        1.0, 1.0, 1.0, 1.0,
    );
    let mat2 = Mat4::new(
        1.0, 1.0, 1.0, 1.0,
        0.0, 1.0, 1.0, 1.0,
        0.0, 0.0, 1.0, 1.0,
        0.0, 0.0, 0.0, 1.0,
    );
    assert!(mat1 == mat2.transpose());
}

#[test]
fn test_matrix_zero() {
    let mat: Mat4<f32> = Mat4::zero();
    for i in 0..4 {
        for j in 0..4 {
            assert!(mat.get(i, j) == 0.0);
        }
    }
}

#[test]
fn test_matrix_one() {
    let mat: Mat4<f32> = Mat4::identity();
    for i in 0..4 {
        for j in 0..4 {
            if i == j {
                assert!(mat.get(i, j) == 1.0);
            } else {
                assert!(mat.get(i, j) == 0.0);
            }
        }
    }
}

#[test]
fn new_takes_rows_and_stores_columns() {
    let m = Mat4::new(
        1, 2, 3, 4,
        5, 6, 7, 8,
        9, 10, 11, 12,
        13, 14, 15, 16,
    );
    assert_eq!(m.col(0).0, [1, 5, 9, 13]);
    assert_eq!(m.col(3).0, [4, 8, 12, 16]);
    assert_eq!(m.get(1, 2), 10);
}

#[test]
fn flat_layout_is_column_major() {
    let m = Mat4::new(
        1, 2, 3, 4,
        5, 6, 7, 8,
        9, 10, 11, 12,
        13, 14, 15, 16,
    );
    let f = m.to_flat();
    assert_eq!(f, [1, 5, 9, 13, 2, 6, 10, 14, 3, 7, 11, 15, 4, 8, 12, 16]);
    assert_eq!(Mat4::from_flat(f), m);
    let cols = m.cols();
    assert_eq!(Mat4::from_cols(cols), m);
}

#[test]
fn set_replaces_one_component() {
    let mut m: Mat4<i64> = Mat4::identity();
    m.set(3, 0, 7);
    assert_eq!(m.get(3, 0), 7);
    assert_eq!(m.get(0, 0), 1);
    assert_eq!(m.get(0, 3), 0);
}

#[test]
fn column_wise_and_scalar_arithmetic() {
    let a = Mat4::new(
        1, 2, 3, 4,
        5, 6, 7, 8,
        9, 10, 11, 12,
        13, 14, 15, 16,
    );
    let b: Mat4<i64> = Mat4::identity();
    assert_eq!(a.add(&b).get(0, 0), 2);
    assert_eq!(a.add(&b).get(1, 0), 2);
    assert_eq!(a.sub(&b).get(1, 1), 5);
    assert_eq!(a.add_scalar(1).get(3, 3), 17);
    assert_eq!(a.sub_scalar(1).get(0, 1), 4);
    assert_eq!(a.mul_scalar(2).get(2, 0), 6);
    assert_eq!(a.div_scalar(2).get(3, 3), 8);
}

#[test]
fn product_of_matrices() {
    let a = Mat4::new(
        1, 2, 0, 0,
        0, 1, 0, 0,
        0, 0, 1, 0,
        0, 0, 0, 1,
    );
    let b = Mat4::new(
        1, 0, 0, 0,
        3, 1, 0, 0,
        0, 0, 1, 0,
        0, 0, 0, 1,
    );
    let p = a.mul(&b);
    // rows of a times columns of b
    assert_eq!(p.get(0, 0), 7);
    assert_eq!(p.get(1, 0), 2);
    assert_eq!(p.get(0, 1), 3);
    assert_eq!(p.get(1, 1), 1);
    let q = b.mul(&a);
    assert_eq!(q.get(0, 0), 1);
    assert_eq!(q.get(1, 1), 7);
}

#[test]
fn product_with_vector() {
    let m = Mat4::new(
        1, 2, 3, 4,
        5, 6, 7, 8,
        9, 10, 11, 12,
        13, 14, 15, 16,
    );
    let v = Vec4::new(1, 0, 2, 1);
    assert_eq!(m.mul_vec(&v).0, [11, 27, 43, 59]);
}

#[test]
fn matrix_example_scales_then_translates() {
    let x: Mat4<f32> = Mat4::identity().mul_scalar(3.0);
    let mut y: Mat4<f32> = Mat4::identity();
    y.set(3, 0, 3.0);
    y.set(3, 1, 2.0);
    y.set(3, 2, 4.0);
    let z = x.mul(&y);
    assert_eq!(z.col(0).0, [3.0, 0.0, 0.0, 0.0]);
    assert_eq!(z.col(3).0, [9.0, 6.0, 12.0, 3.0]);
}

#[test]
fn determinant_and_adjugate() {
    let m = Mat4::new(
        2, 0, 0, 0,
        0, 3, 0, 0,
        0, 0, 4, 0,
        0, 0, 0, 5,
    );
    assert_eq!(m.determinant(), 120);
    let a = m.adjugate();
    assert_eq!(a.get(0, 0), 60);
    assert_eq!(a.get(1, 1), 40);
    assert_eq!(a.get(2, 2), 30);
    assert_eq!(a.get(3, 3), 24);
    let s = Mat4::new(
        1, 2, 0, 0,
        3, 4, 0, 0,
        0, 0, 1, 0,
        0, 0, 0, 1,
    );
    assert_eq!(s.determinant(), -2);
}

#[test]
fn adjugate_times_matrix_is_determinant_times_identity() {
    let m = Mat4::new(
        2, 0, 1, 3,
        1, 3, 0, -1,
        0, 1, 4, 2,
        1, 0, 0, 1,
    );
    let d = m.determinant();
    let p = m.adjugate().mul(&m);
    for c in 0..4 {
        for r in 0..4 {
            assert_eq!(p.get(c, r), if c == r { d } else { 0 });
        }
    }
}

#[test]
fn inverse_of_unimodular_integer_matrix_is_exact() {
    let m = Mat4::new(
        1, 2, 0, 0,
        0, 1, 0, 0,
        0, 0, 1, 3,
        0, 0, 0, 1,
    );
    let inv = m.inverse();
    assert_eq!(inv.mul(&m), Mat4::identity());
    assert_eq!(inv.get(1, 0), -2);
    assert_eq!(inv.get(3, 2), -3);
}

#[test]
fn inverse_times_matrix_is_identity() {
    let m = sample();
    let p = m.inverse().mul(&m);
    let id: Mat4<f32> = Mat4::identity();
    for c in 0..4 {
        for r in 0..4 {
            assert!(close(p.get(c, r), id.get(c, r), 1e-4));
        }
    }
    let q = m.mul(&m.inverse());
    for c in 0..4 {
        for r in 0..4 {
            assert!(close(q.get(c, r), id.get(c, r), 1e-4));
        }
    }
}

#[test]
fn inverse_of_singular_matrix_is_not_finite() {
    let m: Mat4<f32> = Mat4::zero();
    let inv = m.inverse();
    assert!(!inv.get(0, 0).is_finite());
}

#[test]
fn identity_is_neutral_for_the_product() {
    let m = sample();
    let id: Mat4<f32> = Mat4::identity();
    assert_eq!(id.mul(&m), m);
    assert_eq!(m.mul(&id), m);
}

#[test]
fn transpose_twice_gives_back_the_matrix() {
    let m = sample();
    assert_eq!(m.transpose().transpose(), m);
    assert_eq!(m.transpose().get(0, 2), m.get(2, 0));
}

#[test]
fn translation_then_identity_moves_the_origin() {
    let t: Mat4<f32> = Mat4::translation(&Vec3::new(3.0, 2.0, 4.0));
    let m = t.mul(&Mat4::identity());
    let p = m.mul_vec(&Vec4::new(0.0, 0.0, 0.0, 1.0));
    assert_eq!(p.0, [3.0, 2.0, 4.0, 1.0]);
}

#[test]
fn translate_adds_to_points_and_keeps_directions() {
    let m: Mat4<i64> = Mat4::translation(&Vec3::new(1, -2, 5));
    assert_eq!(m.mul_vec(&Vec4::new(10, 20, 30, 1)).0, [11, 18, 35, 1]);
    assert_eq!(m.mul_vec(&Vec4::new(10, 20, 30, 0)).0, [10, 20, 30, 0]);
    let mut n: Mat4<i64> = Mat4::scaling(&Vec3::new(2, 2, 2));
    n.translate_mut(&Vec3::new(1, 1, 1));
    // the translation is applied in the scaled frame
    assert_eq!(n.col(3).0, [2, 2, 2, 1]);
}

#[test]
fn scaling_is_diagonal() {
    let m: Mat4<i64> = Mat4::scaling(&Vec3::new(2, 3, 4));
    let d = Mat4::new(
        2, 0, 0, 0,
        0, 3, 0, 0,
        0, 0, 4, 0,
        0, 0, 0, 1,
    );
    assert_eq!(m, d);
    let mut n = Mat4::translation(&Vec3::new(1, 1, 1));
    n.scale_mut(&Vec3::new(2, 3, 4));
    assert_eq!(n.col(0).0, [2, 0, 0, 0]);
    assert_eq!(n.col(2).0, [0, 0, 4, 0]);
    assert_eq!(n.col(3).0, [1, 1, 1, 1]);
    assert_eq!(n.scale(&Vec3::new(1, 1, 1)), n);
}

#[test]
fn quarter_turn_about_z_maps_x_to_y() {
    // cosine 0 and sine 1, about the unit z axis
    let r: Mat4<i64> = Mat4::rotation(0, 1, &Vec3::new(0, 0, 1), 1);
    assert_eq!(r.mul_vec(&Vec4::new(1, 0, 0, 1)).0, [0, 1, 0, 1]);
    assert_eq!(r.mul_vec(&Vec4::new(0, 1, 0, 1)).0, [-1, 0, 0, 1]);
    assert_eq!(r.mul_vec(&Vec4::new(0, 0, 1, 1)).0, [0, 0, 1, 1]);
}

#[test]
fn rotation_about_scaled_axis_in_floats() {
    let half_turn = std::f32::consts::FRAC_PI_2;
    let r: Mat4<f32> = Mat4::rotation(half_turn.cos(), half_turn.sin(), &Vec3::new(2.0, 0.0, 0.0), 2.0);
    let p = r.mul_vec(&Vec4::new(0.0, 1.0, 0.0, 1.0));
    assert!(close(p.get(0), 0.0, 1e-6));
    assert!(close(p.get(1), 0.0, 1e-6));
    assert!(close(p.get(2), 1.0, 1e-6));
    let mut m: Mat4<f32> = Mat4::identity();
    m.rotate_mut(half_turn.cos(), half_turn.sin(), &Vec3::new(2.0, 0.0, 0.0), 2.0);
    assert_eq!(m, r);
    assert_eq!(m.rotate(1.0, 0.0, &VecN([0.0, 1.0, 0.0]), 1.0), m);
}

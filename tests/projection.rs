use gel::{Cross, Dot, Mat4, Normalize, Perspective, Vec3, Vec4};

fn close(a: f32, b: f32, eps: f32) -> bool {
    (a - b).abs() <= eps
}

fn unit(v: Vec3<f32>) -> Vec3<f32> {
    v.normalize(v.dot(&v).sqrt())
}

#[test]
fn perspective_entries() {
    let p: Mat4<i64> = Mat4::perspective(1, 1, 1, 3);
    assert_eq!(p.get(0, 0), 1);
    assert_eq!(p.get(1, 1), 1);
    assert_eq!(p.get(2, 2), -2);
    assert_eq!(p.get(2, 3), -1);
    assert_eq!(p.get(3, 2), -3);
    assert_eq!(p.get(3, 3), 0);
    assert_eq!(p.get(0, 1), 0);
}

#[test]
fn perspective_maps_near_plane_to_minus_one() {
    let t = (std::f32::consts::FRAC_PI_2 / 2.0).tan();
    let p: Mat4<f32> = Mat4::perspective(t, 1.0, 0.1, 100.0);
    let c = p.mul_vec(&Vec4::new(0.0, 0.0, -0.1, 1.0));
    let ndc = c.div_scalar(c.get(3));
    assert!(close(ndc.get(2), -1.0, 1e-5));
    let f = p.mul_vec(&Vec4::new(0.0, 0.0, -100.0, 1.0));
    assert!(close(f.get(2) / f.get(3), 1.0, 1e-5));
}

#[test]
fn look_at_faces_down_negative_z() {
    let eye = Vec3::new(0.0f32, 0.0, 5.0);
    let center = Vec3::new(0.0f32, 0.0, 0.0);
    let up = Vec3::new(0.0f32, 1.0, 0.0);
    let forward = unit(center.sub(&eye));
    let side = unit(forward.cross(&up));
    assert_eq!(forward.0, [0.0, 0.0, -1.0]);
    let m = Mat4::look_at(&eye, &forward, &side);
    // rows: side, up, minus forward
    assert_eq!([m.get(0, 0), m.get(1, 0), m.get(2, 0)], [1.0, 0.0, 0.0]);
    assert_eq!([m.get(0, 1), m.get(1, 1), m.get(2, 1)], [0.0, 1.0, 0.0]);
    assert_eq!([m.get(0, 2), m.get(1, 2), m.get(2, 2)], [0.0, 0.0, 1.0]);
    assert_eq!(m.col(3).0, [0.0, 0.0, -5.0, 1.0]);
    let p = m.mul_vec(&Vec4::new(0.0, 0.0, 0.0, 1.0));
    assert_eq!(p.0, [0.0, 0.0, -5.0, 1.0]);
}

#[test]
fn look_at_in_integers() {
    let m: Mat4<i64> = Mat4::look_at(&Vec3::new(1, 2, 3), &Vec3::new(0, 0, -1), &Vec3::new(1, 0, 0));
    let expected = Mat4::new(
        1, 0, 0, -1,
        0, 1, 0, -2,
        0, 0, 1, -3,
        0, 0, 0, 1,
    );
    assert_eq!(m, expected);
}

#[test]
fn project_to_window_coordinates() {
    let id: Mat4<f32> = Mat4::identity();
    let vp = Vec4::new(10.0f32, 20.0, 200.0, 100.0);
    let w = Mat4::project(&Vec3::new(0.0, 0.0, 0.0), &id, &id, &vp);
    assert_eq!(w.0, [110.0, 70.0, 0.5]);
    let w = Mat4::project(&Vec3::new(-1.0, 1.0, 1.0), &id, &id, &vp);
    assert_eq!(w.0, [10.0, 120.0, 1.0]);
}

#[test]
fn unproject_from_window_coordinates() {
    let id: Mat4<f32> = Mat4::identity();
    let vp = Vec4::new(10.0f32, 20.0, 200.0, 100.0);
    let o = Mat4::unproject(&Vec3::new(110.0, 70.0, 0.5), &id, &id, &vp);
    assert_eq!(o.0, [0.0, 0.0, 0.0]);
}

#[test]
fn project_then_unproject_round_trip() {
    let t = (std::f32::consts::FRAC_PI_3 / 2.0).tan();
    let proj: Mat4<f32> = Mat4::perspective(t, 4.0 / 3.0, 0.1, 100.0);
    let eye = Vec3::new(1.0f32, 2.0, 6.0);
    let forward = unit(Vec3::new(0.0f32, 0.0, 0.0).sub(&eye));
    let side = unit(forward.cross(&Vec3::new(0.0, 1.0, 0.0)));
    let mv = Mat4::look_at(&eye, &forward, &side);
    let vp = Vec4::new(0.0f32, 0.0, 800.0, 600.0);
    let points = [
        Vec3::new(0.0f32, 0.0, 0.0),
        Vec3::new(0.5, -0.5, 1.0),
        Vec3::new(-1.0, 1.0, -2.0),
    ];
    for p in points.iter() {
        let w = Mat4::project(p, &mv, &proj, &vp);
        let q = Mat4::unproject(&w, &mv, &proj, &vp);
        for i in 0..3 {
            assert!(close(q.get(i), p.get(i), 1e-3));
        }
    }
}

#[test]
fn perspective_value_keeps_and_changes_aspect() {
    let mut p: Perspective<f32> = Perspective::new(1.0, 2.0, 0.5, 10.0);
    assert_eq!(p.to_mat(), Mat4::perspective(1.0, 2.0, 0.5, 10.0));
    assert_eq!(*p.as_mat(), p.to_mat());
    assert_eq!(p.aspect(), 2.0);
    p.set_aspect(4.0);
    assert_eq!(p.aspect(), 4.0);
    assert_eq!(p.as_mat().get(0, 0), 0.25);
    assert_eq!(p.as_mat().get(1, 1), 1.0);
}

//! Perspective projection, and the conversions between object space and
//! window coordinates.
use vstd::prelude::*;

verus! {

use crate::matrix::{inverse_of, inverse_of_req, mmul, mmul_req, mvec, mvec_req, Inverse, Mat4};
use crate::scalar::{computable, exact, from_int, lit, sadd, sdiv, smul, sneg, ssub, Scalar};
use crate::vector::{vadds, vadds_req, vdivs, vdivs_req, vscale, vscale_req, vsubs, vsubs_req, Vec3, Vec4, VecN};
use vstd::std_specs::ops::{AddSpec, DivSpec, MulSpec, NegSpec, SubSpec};

/// The OpenGL-style perspective matrix for the tangent `t` of half the
/// vertical field of view, the aspect ratio `a` (width over height) and the
/// near and far planes `n`, `f`: view-space depths `-n` and `-f` map to
/// clip-space depths `-1` and `1` after the division by `w = -z`.
pub open spec fn persp<T: Scalar>(t: T, a: T, n: T, f: T) -> Seq<Seq<T>> {
    let z = lit::<T>(0);
    let m00 = sdiv(lit::<T>(1), smul(a, t));
    let m11 = sdiv(lit::<T>(1), t);
    let m22 = sdiv(sneg(sadd(f, n)), ssub(f, n));
    let m32 = sdiv(sneg(smul(smul(lit::<T>(2), f), n)), ssub(f, n));
    seq![
        seq![m00, z, z, z],
        seq![z, m11, z, z],
        seq![z, z, m22, lit::<T>(-1)],
        seq![z, z, m32, z],
    ]
}

pub open spec fn persp_req<T: Scalar>(t: T, a: T, n: T, f: T) -> bool {
    &&& a.mul_req(t)
    &&& lit::<T>(1).div_req(smul(a, t))
    &&& lit::<T>(1).div_req(t)
    &&& f.add_req(n)
    &&& sadd(f, n).neg_req()
    &&& f.sub_req(n)
    &&& sneg(sadd(f, n)).div_req(ssub(f, n))
    &&& lit::<T>(2).mul_req(f)
    &&& smul(lit::<T>(2), f).mul_req(n)
    &&& smul(smul(lit::<T>(2), f), n).neg_req()
    &&& sneg(smul(smul(lit::<T>(2), f), n)).div_req(ssub(f, n))
}

/// One half, as `1 / 2`.
pub open spec fn half<T: Scalar>() -> T {
    sdiv(lit::<T>(1), lit::<T>(2))
}

/// The clip-space position of `obj` (with `w = 1`) under `proj * mv`.
pub open spec fn clip_of<T: Scalar>(obj: Seq<T>, mv: Seq<Seq<T>>, proj: Seq<Seq<T>>) -> Seq<T> {
    mvec(proj, mvec(mv, obj.push(lit::<T>(1))))
}

/// Clip space divided by `w` and mapped from `[-1, 1]` to `[0, 1]`.
pub open spec fn unit_of<T: Scalar>(c: Seq<T>) -> Seq<T> {
    vadds(vscale(vdivs(c, c[3]), half::<T>()), half::<T>())
}

/// Window coordinates of `obj`: `x` and `y` scaled to the viewport
/// `(x0, y0, width, height)` and offset by its origin; `z` a depth in `[0, 1]`.
pub open spec fn projected<T: Scalar>(obj: Seq<T>, mv: Seq<Seq<T>>, proj: Seq<Seq<T>>, vp: Seq<T>) -> Seq<T> {
    let n = unit_of(clip_of(obj, mv, proj));
    seq![sadd(smul(n[0], vp[2]), vp[0]), sadd(smul(n[1], vp[3]), vp[1]), n[2]]
}

pub open spec fn projected_req<T: Scalar>(obj: Seq<T>, mv: Seq<Seq<T>>, proj: Seq<Seq<T>>, vp: Seq<T>) -> bool {
    let p = obj.push(lit::<T>(1));
    let c = clip_of(obj, mv, proj);
    let n = unit_of(c);
    &&& lit::<T>(1).div_req(lit::<T>(2))
    &&& mvec_req(mv, p)
    &&& mvec_req(proj, mvec(mv, p))
    &&& vdivs_req(c, c[3])
    &&& vscale_req(vdivs(c, c[3]), half::<T>())
    &&& vadds_req(vscale(vdivs(c, c[3]), half::<T>()), half::<T>())
    &&& n[0].mul_req(vp[2])
    &&& smul(n[0], vp[2]).add_req(vp[0])
    &&& n[1].mul_req(vp[3])
    &&& smul(n[1], vp[3]).add_req(vp[1])
}

/// Window coordinates mapped back to `[-1, 1]`, with `w = 1`.
pub open spec fn ndc_of<T: Scalar>(win: Seq<T>, vp: Seq<T>) -> Seq<T> {
    let n = seq![sdiv(ssub(win[0], vp[0]), vp[2]), sdiv(ssub(win[1], vp[1]), vp[3]), win[2], lit::<T>(1)];
    vsubs(vscale(n, lit::<T>(2)), lit::<T>(1))
}

pub open spec fn ndc_of_req<T: Scalar>(win: Seq<T>, vp: Seq<T>) -> bool {
    let n = seq![sdiv(ssub(win[0], vp[0]), vp[2]), sdiv(ssub(win[1], vp[1]), vp[3]), win[2], lit::<T>(1)];
    &&& win[0].sub_req(vp[0])
    &&& ssub(win[0], vp[0]).div_req(vp[2])
    &&& win[1].sub_req(vp[1])
    &&& ssub(win[1], vp[1]).div_req(vp[3])
    &&& vscale_req(n, lit::<T>(2))
    &&& vsubs_req(vscale(n, lit::<T>(2)), lit::<T>(1))
}

/// Object coordinates of the window point `win`: the inverse of `proj * mv`
/// applied to its normalized device coordinates, divided by `w`.
pub open spec fn unprojected<T: Scalar>(win: Seq<T>, mv: Seq<Seq<T>>, proj: Seq<Seq<T>>, vp: Seq<T>) -> Seq<T> {
    let o = mvec(inverse_of(mmul(proj, mv)), ndc_of(win, vp));
    vdivs(o, o[3]).drop_last()
}

pub open spec fn unprojected_req<T: Scalar>(win: Seq<T>, mv: Seq<Seq<T>>, proj: Seq<Seq<T>>, vp: Seq<T>) -> bool {
    let inv = inverse_of(mmul(proj, mv));
    let o = mvec(inv, ndc_of(win, vp));
    &&& mmul_req(proj, mv)
    &&& inverse_of_req(mmul(proj, mv))
    &&& ndc_of_req(win, vp)
    &&& mvec_req(inv, ndc_of(win, vp))
    &&& vdivs_req(o, o[3])
}

impl<T: Scalar> Mat4<T> {
    /// The perspective matrix for `tan_half_fovy`, the tangent of half the
    /// vertical field of view, the aspect ratio and the near and far planes.
    pub fn perspective(tan_half_fovy: T, aspect: T, znear: T, zfar: T) -> (r: Self)
        requires
            computable::<T>(persp_req(tan_half_fovy, aspect, znear, zfar)),
        ensures
            exact::<T>() ==> r@ == persp(tan_half_fovy, aspect, znear, zfar),
    {
        let t = tan_half_fovy;
        let z: T = from_int(0);
        let one: T = from_int(1);
        let two: T = from_int(2);
        let minus: T = from_int(-1);
        let m00 = one / (aspect * t);
        let m11 = one / t;
        let m22 = (zfar + znear).neg() / (zfar - znear);
        let m32 = (two * zfar * znear).neg() / (zfar - znear);
        let r = Mat4(
            [
                Vec4::new(m00, z, z, z),
                Vec4::new(z, m11, z, z),
                Vec4::new(z, z, m22, minus),
                Vec4::new(z, z, m32, z),
            ],
        );
        proof {
            if exact::<T>() {
                assert(r@ =~= persp(tan_half_fovy, aspect, znear, zfar));
            }
        }
        r
    }

    /// Window coordinates of the object-space point `obj` under the
    /// model-view matrix `modelview`, the projection `proj` and the viewport
    /// `(x, y, width, height)`.
    pub fn project(obj: &Vec3<T>, modelview: &Mat4<T>, proj: &Mat4<T>, viewport: &Vec4<T>) -> (r: Vec3<T>)
        requires
            computable::<T>(projected_req(obj@, modelview@, proj@, viewport@)),
        ensures
            exact::<T>() ==> r@ == projected(obj@, modelview@, proj@, viewport@),
    {
        let one: T = from_int(1);
        let two: T = from_int(2);
        let half = one / two;
        let p = obj.extend(one);
        let p = modelview.mul_vec(&p);
        let p = proj.mul_vec(&p);
        let p = p.div_scalar(p.0[3]);
        let p = p.mul_scalar(half).add_scalar(half);
        let vp = viewport.0;
        let x = p.0[0] * vp[2] + vp[0];
        let y = p.0[1] * vp[3] + vp[1];
        let r = Vec3::new(x, y, p.0[2]);
        proof {
            if exact::<T>() {
                assert(r@ =~= projected(obj@, modelview@, proj@, viewport@));
            }
        }
        r
    }

    /// Object coordinates of the window point `win`: the inverse of
    /// `project` for the same matrices and viewport.
    pub fn unproject(win: &Vec3<T>, modelview: &Mat4<T>, proj: &Mat4<T>, viewport: &Vec4<T>) -> (r: Vec3<T>)
        requires
            computable::<T>(unprojected_req(win@, modelview@, proj@, viewport@)),
        ensures
            exact::<T>() ==> r@ == unprojected(win@, modelview@, proj@, viewport@),
    {
        let one: T = from_int(1);
        let two: T = from_int(2);
        let inverse = proj.mul(modelview).inverse();
        let vp = viewport.0;
        let x = (win.0[0] - vp[0]) / vp[2];
        let y = (win.0[1] - vp[1]) / vp[3];
        let n = Vec4::new(x, y, win.0[2], one);
        let n = n.mul_scalar(two).sub_scalar(one);
        proof {
            if exact::<T>() {
                assert(n@ =~= ndc_of(win@, viewport@));
            }
        }
        let o = inverse.mul_vec(&n);
        let o = o.div_scalar(o.0[3]);
        let r = o.truncate();
        r
    }
}

/// A perspective projection kept as its matrix, whose aspect ratio can be
/// read back and changed in place.
#[derive(Clone, Copy, Debug, PartialEq)]
pub struct Perspective<T> {
    mat: Mat4<T>,
}

impl<T> View for Perspective<T> {
    type V = Seq<Seq<T>>;

    closed spec fn view(&self) -> Seq<Seq<T>> {
        self.mat@
    }
}

impl<T: Scalar> Perspective<T> {
    /// The projection for `tan_half_fov`, the tangent of half the vertical
    /// field of view, the aspect ratio and the near and far planes.
    pub fn new(tan_half_fov: T, aspect: T, znear: T, zfar: T) -> (r: Self)
        requires
            computable::<T>(persp_req(tan_half_fov, aspect, znear, zfar)),
        ensures
            exact::<T>() ==> r@ == persp(tan_half_fov, aspect, znear, zfar),
    {
        Perspective { mat: Mat4::perspective(tan_half_fov, aspect, znear, zfar) }
    }

    /// The aspect ratio: component (1, 1) over component (0, 0).
    pub fn aspect(&self) -> (r: T)
        requires
            computable::<T>(self@[1][1].div_req(self@[0][0])),
        ensures
            exact::<T>() ==> r == sdiv(self@[1][1], self@[0][0]),
    {
        self.mat.0[1].0[1] / self.mat.0[0].0[0]
    }

    /// Sets the aspect ratio: component (0, 0) becomes component (1, 1)
    /// over `aspect`.
    pub fn set_aspect(&mut self, aspect: T)
        requires
            computable::<T>(old(self)@[1][1].div_req(aspect)),
        ensures
            exact::<T>() ==> final(self)@ == old(self)@.update(
                0,
                old(self)@[0].update(0, sdiv(old(self)@[1][1], aspect)),
            ),
            !exact::<T>() ==> forall|c: int, r: int|
                0 <= c < 4 && 0 <= r < 4 && (c, r) != (0int, 0int) ==> #[trigger] final(self)@[c][r]
                    == old(self)@[c][r],
    {
        let v = self.mat.0[1].0[1] / aspect;
        self.mat.set(0, 0, v);
    }
}

impl<T: Copy> Perspective<T> {
    /// The projection matrix.
    pub fn as_mat(&self) -> (r: &Mat4<T>)
        ensures
            r@ == self@,
    {
        &self.mat
    }

    /// A copy of the projection matrix.
    pub fn to_mat(&self) -> (r: Mat4<T>)
        ensures
            r@ == self@,
    {
        self.mat
    }
}

} // verus!

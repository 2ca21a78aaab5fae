//! Transform builders: translation, rotation about an axis, scaling, and the
//! view matrix of a camera.
use vstd::prelude::*;

verus! {

use crate::matrix::{mident, Mat4};
use crate::scalar::{computable, exact, from_int, lit, sadd, smul, sneg, ssub, Scalar};
use crate::vector::{
    vadd,
    vadd_req,
    vcross,
    vcross_req,
    vdot,
    vdot_req,
    vnormalize,
    vnormalize_req,
    vscale,
    vscale_req,
    Cross,
    Dot,
    Normalize,
    Vec3,
    Vec4,
    VecN,
};
use vstd::std_specs::ops::{AddSpec, MulSpec, NegSpec, SubSpec};

/// `m[0] v[0] + m[1] v[1] + m[2] v[2] + m[3]`, summed from the left.
pub open spec fn translated_col<T: Scalar>(m: Seq<Seq<T>>, v: Seq<T>) -> Seq<T> {
    vadd(vadd(vadd(vscale(m[0], v[0]), vscale(m[1], v[1])), vscale(m[2], v[2])), m[3])
}

pub open spec fn translated_col_req<T: Scalar>(m: Seq<Seq<T>>, v: Seq<T>) -> bool {
    &&& vscale_req(m[0], v[0])
    &&& vscale_req(m[1], v[1])
    &&& vscale_req(m[2], v[2])
    &&& vadd_req(vscale(m[0], v[0]), vscale(m[1], v[1]))
    &&& vadd_req(vadd(vscale(m[0], v[0]), vscale(m[1], v[1])), vscale(m[2], v[2]))
    &&& vadd_req(vadd(vadd(vscale(m[0], v[0]), vscale(m[1], v[1])), vscale(m[2], v[2])), m[3])
}

/// `m` followed by a translation by `v`: column 3 becomes
/// `m[0] v.x + m[1] v.y + m[2] v.z + m[3]`.
pub open spec fn translated<T: Scalar>(m: Seq<Seq<T>>, v: Seq<T>) -> Seq<Seq<T>> {
    m.update(3, translated_col(m, v))
}

/// The first three columns of `m` scaled by `v.x`, `v.y`, `v.z`.
pub open spec fn scaled<T: Scalar>(m: Seq<Seq<T>>, v: Seq<T>) -> Seq<Seq<T>> {
    seq![vscale(m[0], v[0]), vscale(m[1], v[1]), vscale(m[2], v[2]), m[3]]
}

pub open spec fn scaled_req<T: Scalar>(m: Seq<Seq<T>>, v: Seq<T>) -> bool {
    vscale_req(m[0], v[0]) && vscale_req(m[1], v[1]) && vscale_req(m[2], v[2])
}

/// `cols[0] w[0] + cols[1] w[1] + cols[2] w[2]`, summed from the left.
pub open spec fn lincomb3<T: Scalar>(cols: Seq<Seq<T>>, w: Seq<T>) -> Seq<T> {
    vadd(vadd(vscale(cols[0], w[0]), vscale(cols[1], w[1])), vscale(cols[2], w[2]))
}

pub open spec fn lincomb3_req<T: Scalar>(cols: Seq<Seq<T>>, w: Seq<T>) -> bool {
    &&& vscale_req(cols[0], w[0])
    &&& vscale_req(cols[1], w[1])
    &&& vscale_req(cols[2], w[2])
    &&& vadd_req(vscale(cols[0], w[0]), vscale(cols[1], w[1]))
    &&& vadd_req(vadd(vscale(cols[0], w[0]), vscale(cols[1], w[1])), vscale(cols[2], w[2]))
}

/// `t a[i] a[j]` plus `c` on the diagonal, or plus or minus `s a[k]` off it.
pub open spec fn rot_entry<T: Scalar>(t: Seq<T>, a: Seq<T>, c: T, s: T, i: int, j: int) -> T {
    let p = smul(t[i], a[j]);
    if i == j {
        sadd(c, p)
    } else if (i + 1) % 3 == j {
        sadd(p, smul(s, a[3 - i - j]))
    } else {
        ssub(p, smul(s, a[3 - i - j]))
    }
}

pub open spec fn rot_entry_req<T: Scalar>(t: Seq<T>, a: Seq<T>, c: T, s: T, i: int, j: int) -> bool {
    let p = smul(t[i], a[j]);
    &&& t[i].mul_req(a[j])
    &&& if i == j {
        c.add_req(p)
    } else if (i + 1) % 3 == j {
        s.mul_req(a[3 - i - j]) && p.add_req(smul(s, a[3 - i - j]))
    } else {
        s.mul_req(a[3 - i - j]) && p.sub_req(smul(s, a[3 - i - j]))
    }
}

/// `1 - c`.
pub open spec fn one_minus<T: Scalar>(c: T) -> T {
    ssub(lit::<T>(1), c)
}

/// The Rodrigues rotation by the angle of cosine `c` and sine `s` about the
/// unit axis `a`, as three columns of three rows: column `i`, row `j` is
/// `t a[i] a[j]` plus `c` on the diagonal, plus `s a[k]` where `j` follows `i`
/// cyclically and minus `s a[k]` where it precedes it (`t = 1 - c`, `k` the
/// third index).
pub open spec fn rot_block<T: Scalar>(c: T, s: T, a: Seq<T>) -> Seq<Seq<T>> {
    let t = vscale(a, one_minus(c));
    Seq::new(3, |i: int| Seq::new(3, |j: int| rot_entry(t, a, c, s, i, j)))
}

pub open spec fn rot_block_req<T: Scalar>(c: T, s: T, a: Seq<T>) -> bool {
    let t = vscale(a, one_minus(c));
    &&& lit::<T>(1).sub_req(c)
    &&& vscale_req(a, one_minus(c))
    &&& forall|i: int, j: int| 0 <= i < 3 && 0 <= j < 3 ==> #[trigger] rot_entry_req(t, a, c, s, i, j)
}

/// `m` followed by the rotation of `rot_block(c, s, a)`; column 3 is kept.
pub open spec fn rotated_by<T: Scalar>(m: Seq<Seq<T>>, c: T, s: T, a: Seq<T>) -> Seq<Seq<T>> {
    let r = rot_block(c, s, a);
    seq![lincomb3(m, r[0]), lincomb3(m, r[1]), lincomb3(m, r[2]), m[3]]
}

pub open spec fn rotated_by_req<T: Scalar>(m: Seq<Seq<T>>, c: T, s: T, a: Seq<T>) -> bool {
    let r = rot_block(c, s, a);
    &&& rot_block_req(c, s, a)
    &&& lincomb3_req(m, r[0])
    &&& lincomb3_req(m, r[1])
    &&& lincomb3_req(m, r[2])
}

/// The rotation about `axis`, first scaled to unit length by `axis_length`.
pub open spec fn rotated<T: Scalar>(m: Seq<Seq<T>>, c: T, s: T, axis: Seq<T>, axis_length: T) -> Seq<Seq<T>> {
    rotated_by(m, c, s, vnormalize(axis, axis_length))
}

pub open spec fn rotated_req<T: Scalar>(m: Seq<Seq<T>>, c: T, s: T, axis: Seq<T>, axis_length: T) -> bool {
    vnormalize_req(axis, axis_length) && rotated_by_req(m, c, s, vnormalize(axis, axis_length))
}

/// The view matrix of a camera at `eye` with unit forward axis `f` and unit
/// side axis `s`: rows `s`, `u`, `-f` with `u = s x f`, and translation
/// `(-(s . eye), -(u . eye), f . eye)`.
pub open spec fn view_of<T: Scalar>(eye: Seq<T>, f: Seq<T>, s: Seq<T>) -> Seq<Seq<T>> {
    let u = vcross(s, f);
    let z = lit::<T>(0);
    seq![
        seq![s[0], u[0], sneg(f[0]), z],
        seq![s[1], u[1], sneg(f[1]), z],
        seq![s[2], u[2], sneg(f[2]), z],
        seq![sneg(vdot(s, eye)), sneg(vdot(u, eye)), vdot(f, eye), lit::<T>(1)],
    ]
}

pub open spec fn view_of_req<T: Scalar>(eye: Seq<T>, f: Seq<T>, s: Seq<T>) -> bool {
    let u = vcross(s, f);
    &&& vcross_req(s, f)
    &&& f[0].neg_req()
    &&& f[1].neg_req()
    &&& f[2].neg_req()
    &&& vdot_req(s, eye)
    &&& vdot_req(u, eye)
    &&& vdot_req(f, eye)
    &&& vdot(s, eye).neg_req()
    &&& vdot(u, eye).neg_req()
}

impl<T: Scalar> Mat4<T> {
    /// This matrix followed by a translation by `v`: for a point `p` with
    /// `w = 1`, `translation(v) * p` is `p + v`.
    pub fn translate(&self, v: &Vec3<T>) -> (r: Self)
        requires
            computable::<T>(translated_col_req(self@, v@)),
        ensures
            exact::<T>() ==> r@ == translated(self@, v@),
    {
        let c0 = self.0[0].mul_scalar(v.0[0]);
        let c1 = self.0[1].mul_scalar(v.0[1]);
        let c2 = self.0[2].mul_scalar(v.0[2]);
        let col = c0.add(&c1).add(&c2).add(&self.0[3]);
        let r = Mat4([self.0[0], self.0[1], self.0[2], col]);
        proof {
            if exact::<T>() {
                assert(r@ =~= translated(self@, v@));
            }
        }
        r
    }

    /// The translation by `v`.
    pub fn translation(v: &Vec3<T>) -> (r: Self)
        requires
            computable::<T>(translated_col_req(mident::<T>(), v@)),
        ensures
            exact::<T>() ==> r@ == translated(mident::<T>(), v@),
    {
        let id = Self::identity();
        id.translate(v)
    }

    /// Replaces this matrix by its translation by `v`.
    pub fn translate_mut(&mut self, v: &Vec3<T>)
        requires
            computable::<T>(translated_col_req(old(self)@, v@)),
        ensures
            exact::<T>() ==> final(self)@ == translated(old(self)@, v@),
    {
        *self = self.translate(v);
    }

    /// This matrix with its first three columns scaled by `v.x`, `v.y`, `v.z`.
    pub fn scale(&self, v: &Vec3<T>) -> (r: Self)
        requires
            computable::<T>(scaled_req(self@, v@)),
        ensures
            exact::<T>() ==> r@ == scaled(self@, v@),
    {
        let r = Mat4(
            [
                self.0[0].mul_scalar(v.0[0]),
                self.0[1].mul_scalar(v.0[1]),
                self.0[2].mul_scalar(v.0[2]),
                self.0[3],
            ],
        );
        proof {
            if exact::<T>() {
                assert(r@ =~= scaled(self@, v@));
            }
        }
        r
    }

    /// The diagonal matrix of `(v.x, v.y, v.z, 1)`.
    pub fn scaling(v: &Vec3<T>) -> (r: Self)
        requires
            computable::<T>(scaled_req(mident::<T>(), v@)),
        ensures
            exact::<T>() ==> r@ == scaled(mident::<T>(), v@),
    {
        let id = Self::identity();
        id.scale(v)
    }

    /// This matrix followed by the rotation by the angle of cosine `cos` and
    /// sine `sin` about `axis`, which is first scaled by `1 / axis_length`.
    /// The rotation acts in the local frame of this matrix: column `i` of the
    /// result combines the first three columns with column `i` of
    /// `rot_block`; column 3 is kept.
    pub fn rotate(&self, cos: T, sin: T, axis: &Vec3<T>, axis_length: T) -> (r: Self)
        requires
            computable::<T>(rotated_req(self@, cos, sin, axis@, axis_length)),
        ensures
            exact::<T>() ==> r@ == rotated(self@, cos, sin, axis@, axis_length),
    {
        let a = axis.normalize(axis_length);
        let one: T = from_int(1);
        let t = a.mul_scalar(one - cos);
        let (c, s) = (cos, sin);
        proof {
            let (tv, av) = (t@, a@);
            assert(rot_entry_req(tv, av, c, s, 0, 0));
            assert(rot_entry_req(tv, av, c, s, 0, 1));
            assert(rot_entry_req(tv, av, c, s, 0, 2));
            assert(rot_entry_req(tv, av, c, s, 1, 0));
            assert(rot_entry_req(tv, av, c, s, 1, 1));
            assert(rot_entry_req(tv, av, c, s, 1, 2));
            assert(rot_entry_req(tv, av, c, s, 2, 0));
            assert(rot_entry_req(tv, av, c, s, 2, 1));
            assert(rot_entry_req(tv, av, c, s, 2, 2));
        }
        let t = t.0;
        let a = a.0;
        let w0 = Vec3::new(c + t[0] * a[0], t[0] * a[1] + s * a[2], t[0] * a[2] - s * a[1]);
        let w1 = Vec3::new(t[1] * a[0] - s * a[2], c + t[1] * a[1], t[1] * a[2] + s * a[0]);
        let w2 = Vec3::new(t[2] * a[0] + s * a[1], t[2] * a[1] - s * a[0], c + t[2] * a[2]);
        proof {
            if exact::<T>() {
                let rb = rot_block(c, s, vnormalize(axis@, axis_length));
                assert(w0@ =~= rb[0]);
                assert(w1@ =~= rb[1]);
                assert(w2@ =~= rb[2]);
            }
        }
        let r = Mat4([combine3(self, &w0), combine3(self, &w1), combine3(self, &w2), self.0[3]]);
        proof {
            if exact::<T>() {
                assert(r@ =~= rotated(self@, cos, sin, axis@, axis_length));
            }
        }
        r
    }

    /// The rotation by the angle of cosine `cos` and sine `sin` about `axis`.
    pub fn rotation(cos: T, sin: T, axis: &Vec3<T>, axis_length: T) -> (r: Self)
        requires
            computable::<T>(rotated_req(mident::<T>(), cos, sin, axis@, axis_length)),
        ensures
            exact::<T>() ==> r@ == rotated(mident::<T>(), cos, sin, axis@, axis_length),
    {
        let id = Self::identity();
        id.rotate(cos, sin, axis, axis_length)
    }

    /// Replaces this matrix by its rotation.
    pub fn rotate_mut(&mut self, cos: T, sin: T, axis: &Vec3<T>, axis_length: T)
        requires
            computable::<T>(rotated_req(old(self)@, cos, sin, axis@, axis_length)),
        ensures
            exact::<T>() ==> final(self)@ == rotated(old(self)@, cos, sin, axis@, axis_length),
    {
        *self = self.rotate(cos, sin, axis, axis_length);
    }

    /// The right-handed view matrix of a camera at `eye` whose unit forward
    /// axis is `forward` (towards the point looked at) and whose unit side
    /// axis is `side` (the normalized cross product of `forward` and the up
    /// direction). The camera looks down its negative z axis.
    pub fn look_at(eye: &Vec3<T>, forward: &Vec3<T>, side: &Vec3<T>) -> (r: Self)
        requires
            computable::<T>(view_of_req(eye@, forward@, side@)),
        ensures
            exact::<T>() ==> r@ == view_of(eye@, forward@, side@),
    {
        let u = side.cross(forward);
        let (f, s) = (forward.0, side.0);
        let z: T = from_int(0);
        let one: T = from_int(1);
        let ds = side.dot(eye);
        let du = u.dot(eye);
        let df = forward.dot(eye);
        let u = u.0;
        let r = Mat4(
            [
                Vec4::new(s[0], u[0], f[0].neg(), z),
                Vec4::new(s[1], u[1], f[1].neg(), z),
                Vec4::new(s[2], u[2], f[2].neg(), z),
                Vec4::new(ds.neg(), du.neg(), df, one),
            ],
        );
        proof {
            if exact::<T>() {
                assert(r@ =~= view_of(eye@, forward@, side@));
            }
        }
        r
    }

    /// Replaces this matrix by its scaling by `v`.
    pub fn scale_mut(&mut self, v: &Vec3<T>)
        requires
            computable::<T>(scaled_req(old(self)@, v@)),
        ensures
            exact::<T>() ==> final(self)@ == scaled(old(self)@, v@),
    {
        *self = self.scale(v);
    }
}

/// `cols[0] w[0] + cols[1] w[1] + cols[2] w[2]`.
fn combine3<T: Scalar>(cols: &Mat4<T>, w: &Vec3<T>) -> (r: Vec4<T>)
    requires
        computable::<T>(lincomb3_req(cols@, w@)),
    ensures
        exact::<T>() ==> r@ == lincomb3(cols@, w@),
{
    let t0 = cols.0[0].mul_scalar(w.0[0]);
    let t1 = cols.0[1].mul_scalar(w.0[1]);
    let t2 = cols.0[2].mul_scalar(w.0[2]);
    t0.add(&t1).add(&t2)
}

} // verus!

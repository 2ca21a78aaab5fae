//! The 4x4 matrix, stored as four column vectors.
use vstd::prelude::*;

verus! {

use crate::scalar::{computable, exact, from_int, lit, sadd, sdiv, smul, ssub, Scalar};
use crate::vector::{
    vadd,
    vadd_req,
    vadds,
    vadds_req,
    vdivs,
    vdivs_req,
    vfill,
    vmul,
    vmul_req,
    vscale,
    vscale_req,
    vsub,
    vsub_req,
    vsubs,
    vsubs_req,
    Vec4,
    VecN,
};
use vstd::std_specs::ops::{AddSpec, DivSpec, MulSpec, SubSpec};

/// A matrix type, with the array of columns that holds its components.
pub trait Matrix {
    type Buffer;
}

/// Exchanging rows and columns.
pub trait Transpose: View + Sized {
    spec fn transpose_view(m: Self::V) -> Self::V;

    fn transpose(&self) -> (r: Self)
        ensures
            r@ == Self::transpose_view(self@),
    ;
}

/// The inverse of a matrix, by cofactor expansion.
///
/// A singular matrix is a caller error: the determinant is then zero and, in
/// floating point, the result holds infinite or NaN components.
pub trait Inverse: View + Sized {
    spec fn inverse_req(m: Self::V) -> bool;

    spec fn inverse_exact() -> bool;

    spec fn inverse_view(m: Self::V) -> Self::V;

    fn inverse(&self) -> (r: Self)
        requires
            Self::inverse_req(self@),
        ensures
            Self::inverse_exact() ==> r@ == Self::inverse_view(self@),
    ;
}

/// A 4x4 matrix as four columns: `m.0[c].0[r]` is row `r` of column `c`, and
/// the sixteen components lie in memory column after column.
#[derive(Clone, Copy, Debug, PartialEq)]
pub struct Mat4<T>(pub [Vec4<T>; 4]);

impl<T> View for Mat4<T> {
    /// The columns, each a sequence of four rows.
    type V = Seq<Seq<T>>;

    open spec fn view(&self) -> Seq<Seq<T>> {
        seq![self.0[0]@, self.0[1]@, self.0[2]@, self.0[3]@]
    }
}

impl<T> Matrix for Mat4<T> {
    type Buffer = [Vec4<T>; 4];
}

/// Builds a matrix view from a function of column and row.
pub open spec fn mat_from<T>(f: spec_fn(int, int) -> T) -> Seq<Seq<T>> {
    Seq::new(4, |c: int| Seq::new(4, |r: int| f(c, r)))
}

/// The matrix view with four columns of four rows.
pub open spec fn is_mat<T>(m: Seq<Seq<T>>) -> bool {
    m.len() == 4 && forall|c: int| 0 <= c < 4 ==> (#[trigger] m[c]).len() == 4
}

pub open spec fn mzero<T: Scalar>() -> Seq<Seq<T>> {
    mat_from(|c: int, r: int| lit::<T>(0))
}

/// One on the diagonal, zero elsewhere.
pub open spec fn mident<T: Scalar>() -> Seq<Seq<T>> {
    mat_from(
        |c: int, r: int|
            if c == r {
                lit::<T>(1)
            } else {
                lit::<T>(0)
            },
    )
}

pub open spec fn mtranspose<T>(m: Seq<Seq<T>>) -> Seq<Seq<T>> {
    mat_from(|c: int, r: int| m[r][c])
}

pub open spec fn madd<T: Scalar>(a: Seq<Seq<T>>, b: Seq<Seq<T>>) -> Seq<Seq<T>> {
    Seq::new(4, |c: int| vadd(a[c], b[c]))
}

pub open spec fn madd_req<T: Scalar>(a: Seq<Seq<T>>, b: Seq<Seq<T>>) -> bool {
    forall|c: int| 0 <= c < 4 ==> #[trigger] vadd_req(a[c], b[c])
}

pub open spec fn msub<T: Scalar>(a: Seq<Seq<T>>, b: Seq<Seq<T>>) -> Seq<Seq<T>> {
    Seq::new(4, |c: int| vsub(a[c], b[c]))
}

pub open spec fn msub_req<T: Scalar>(a: Seq<Seq<T>>, b: Seq<Seq<T>>) -> bool {
    forall|c: int| 0 <= c < 4 ==> #[trigger] vsub_req(a[c], b[c])
}

pub open spec fn madds<T: Scalar>(a: Seq<Seq<T>>, s: T) -> Seq<Seq<T>> {
    Seq::new(4, |c: int| vadds(a[c], s))
}

pub open spec fn madds_req<T: Scalar>(a: Seq<Seq<T>>, s: T) -> bool {
    forall|c: int| 0 <= c < 4 ==> #[trigger] vadds_req(a[c], s)
}

pub open spec fn msubs<T: Scalar>(a: Seq<Seq<T>>, s: T) -> Seq<Seq<T>> {
    Seq::new(4, |c: int| vsubs(a[c], s))
}

pub open spec fn msubs_req<T: Scalar>(a: Seq<Seq<T>>, s: T) -> bool {
    forall|c: int| 0 <= c < 4 ==> #[trigger] vsubs_req(a[c], s)
}

pub open spec fn mscale<T: Scalar>(a: Seq<Seq<T>>, s: T) -> Seq<Seq<T>> {
    Seq::new(4, |c: int| vscale(a[c], s))
}

pub open spec fn mscale_req<T: Scalar>(a: Seq<Seq<T>>, s: T) -> bool {
    forall|c: int| 0 <= c < 4 ==> #[trigger] vscale_req(a[c], s)
}

pub open spec fn mdivs<T: Scalar>(a: Seq<Seq<T>>, s: T) -> Seq<Seq<T>> {
    Seq::new(4, |c: int| vdivs(a[c], s))
}

pub open spec fn mdivs_req<T: Scalar>(a: Seq<Seq<T>>, s: T) -> bool {
    forall|c: int| 0 <= c < 4 ==> #[trigger] vdivs_req(a[c], s)
}

/// `cols[0] w[0] + cols[1] w[1] + cols[2] w[2] + cols[3] w[3]`, summed from the left.
pub open spec fn lincomb<T: Scalar>(cols: Seq<Seq<T>>, w: Seq<T>) -> Seq<T> {
    vadd(
        vadd(vadd(vscale(cols[0], w[0]), vscale(cols[1], w[1])), vscale(cols[2], w[2])),
        vscale(cols[3], w[3]),
    )
}

pub open spec fn lincomb_req<T: Scalar>(cols: Seq<Seq<T>>, w: Seq<T>) -> bool {
    &&& vscale_req(cols[0], w[0])
    &&& vscale_req(cols[1], w[1])
    &&& vscale_req(cols[2], w[2])
    &&& vscale_req(cols[3], w[3])
    &&& vadd_req(vscale(cols[0], w[0]), vscale(cols[1], w[1]))
    &&& vadd_req(vadd(vscale(cols[0], w[0]), vscale(cols[1], w[1])), vscale(cols[2], w[2]))
    &&& vadd_req(
        vadd(vadd(vscale(cols[0], w[0]), vscale(cols[1], w[1])), vscale(cols[2], w[2])),
        vscale(cols[3], w[3]),
    )
}

/// The product `a b`: column `c` is `lincomb(a, b[c])`.
pub open spec fn mmul<T: Scalar>(a: Seq<Seq<T>>, b: Seq<Seq<T>>) -> Seq<Seq<T>> {
    Seq::new(4, |c: int| lincomb(a, b[c]))
}

pub open spec fn mmul_req<T: Scalar>(a: Seq<Seq<T>>, b: Seq<Seq<T>>) -> bool {
    forall|c: int| 0 <= c < 4 ==> #[trigger] lincomb_req(a, b[c])
}

/// The product `m v`: `(m[0] v[0] + m[1] v[1]) + (m[2] v[2] + m[3] v[3])`.
pub open spec fn mvec<T: Scalar>(m: Seq<Seq<T>>, v: Seq<T>) -> Seq<T> {
    vadd(
        vadd(vscale(m[0], v[0]), vscale(m[1], v[1])),
        vadd(vscale(m[2], v[2]), vscale(m[3], v[3])),
    )
}

pub open spec fn mvec_req<T: Scalar>(m: Seq<Seq<T>>, v: Seq<T>) -> bool {
    &&& vscale_req(m[0], v[0])
    &&& vscale_req(m[1], v[1])
    &&& vscale_req(m[2], v[2])
    &&& vscale_req(m[3], v[3])
    &&& vadd_req(vscale(m[0], v[0]), vscale(m[1], v[1]))
    &&& vadd_req(vscale(m[2], v[2]), vscale(m[3], v[3]))
    &&& vadd_req(
        vadd(vscale(m[0], v[0]), vscale(m[1], v[1])),
        vadd(vscale(m[2], v[2]), vscale(m[3], v[3])),
    )
}

/// `a b - c d`.
pub open spec fn cof<T: Scalar>(a: T, b: T, c: T, d: T) -> T {
    ssub(smul(a, b), smul(c, d))
}

pub open spec fn cof_req<T: Scalar>(a: T, b: T, c: T, d: T) -> bool {
    a.mul_req(b) && c.mul_req(d) && smul(a, b).sub_req(smul(c, d))
}

/// The 2x2 minor of columns `p`, `q` and rows `i`, `j`:
/// `m[p][i] m[q][j] - m[q][i] m[p][j]`.
pub open spec fn minor2<T: Scalar>(m: Seq<Seq<T>>, p: int, q: int, i: int, j: int) -> T {
    cof(m[p][i], m[q][j], m[q][i], m[p][j])
}

pub open spec fn minor2_req<T: Scalar>(m: Seq<Seq<T>>, p: int, q: int, i: int, j: int) -> bool {
    cof_req(m[p][i], m[q][j], m[q][i], m[p][j])
}

/// The minors of rows `i`, `j` over the column pairs (2,3), (2,3), (1,3), (1,2).
pub open spec fn minors<T: Scalar>(m: Seq<Seq<T>>, i: int, j: int) -> Seq<T> {
    seq![minor2(m, 2, 3, i, j), minor2(m, 2, 3, i, j), minor2(m, 1, 3, i, j), minor2(m, 1, 2, i, j)]
}

pub open spec fn minors_req<T: Scalar>(m: Seq<Seq<T>>, i: int, j: int) -> bool {
    minor2_req(m, 2, 3, i, j) && minor2_req(m, 1, 3, i, j) && minor2_req(m, 1, 2, i, j)
}

/// Row `r` of columns 1, 0, 0, 0.
pub open spec fn spread<T>(m: Seq<Seq<T>>, r: int) -> Seq<T> {
    seq![m[1][r], m[0][r], m[0][r], m[0][r]]
}

/// `a fa - b fb + c fc`, component-wise.
pub open spec fn cofactor_col<T: Scalar>(
    a: Seq<T>,
    fa: Seq<T>,
    b: Seq<T>,
    fb: Seq<T>,
    c: Seq<T>,
    fc: Seq<T>,
) -> Seq<T> {
    vadd(vsub(vmul(a, fa), vmul(b, fb)), vmul(c, fc))
}

pub open spec fn cofactor_col_req<T: Scalar>(
    a: Seq<T>,
    fa: Seq<T>,
    b: Seq<T>,
    fb: Seq<T>,
    c: Seq<T>,
    fc: Seq<T>,
) -> bool {
    &&& vmul_req(a, fa)
    &&& vmul_req(b, fb)
    &&& vmul_req(c, fc)
    &&& vsub_req(vmul(a, fa), vmul(b, fb))
    &&& vadd_req(vsub(vmul(a, fa), vmul(b, fb)), vmul(c, fc))
}

/// The signs (+, -, +, -) when `odd` is false, (-, +, -, +) when it is true.
pub open spec fn signs<T: Scalar>(odd: bool) -> Seq<T> {
    if odd {
        seq![lit::<T>(-1), lit::<T>(1), lit::<T>(-1), lit::<T>(1)]
    } else {
        seq![lit::<T>(1), lit::<T>(-1), lit::<T>(1), lit::<T>(-1)]
    }
}

/// Column `c` of the adjugate before its signs are applied.
pub open spec fn unsigned_adj_col<T: Scalar>(m: Seq<Seq<T>>, c: int) -> Seq<T> {
    if c == 0 {
        cofactor_col(spread(m, 1), minors(m, 2, 3), spread(m, 2), minors(m, 1, 3), spread(m, 3), minors(m, 1, 2))
    } else if c == 1 {
        cofactor_col(spread(m, 0), minors(m, 2, 3), spread(m, 2), minors(m, 0, 3), spread(m, 3), minors(m, 0, 2))
    } else if c == 2 {
        cofactor_col(spread(m, 0), minors(m, 1, 3), spread(m, 1), minors(m, 0, 3), spread(m, 3), minors(m, 0, 1))
    } else {
        cofactor_col(spread(m, 0), minors(m, 1, 2), spread(m, 1), minors(m, 0, 2), spread(m, 2), minors(m, 0, 1))
    }
}

pub open spec fn unsigned_adj_col_req<T: Scalar>(m: Seq<Seq<T>>, c: int) -> bool {
    if c == 0 {
        cofactor_col_req(spread(m, 1), minors(m, 2, 3), spread(m, 2), minors(m, 1, 3), spread(m, 3), minors(m, 1, 2))
    } else if c == 1 {
        cofactor_col_req(spread(m, 0), minors(m, 2, 3), spread(m, 2), minors(m, 0, 3), spread(m, 3), minors(m, 0, 2))
    } else if c == 2 {
        cofactor_col_req(spread(m, 0), minors(m, 1, 3), spread(m, 1), minors(m, 0, 3), spread(m, 3), minors(m, 0, 1))
    } else {
        cofactor_col_req(spread(m, 0), minors(m, 1, 2), spread(m, 1), minors(m, 0, 2), spread(m, 2), minors(m, 0, 1))
    }
}

/// The adjugate (transposed cofactor matrix) of `m`.
pub open spec fn adjugate_of<T: Scalar>(m: Seq<Seq<T>>) -> Seq<Seq<T>> {
    Seq::new(4, |c: int| vmul(unsigned_adj_col(m, c), signs::<T>(c % 2 == 1)))
}

pub open spec fn adjugate_req<T: Scalar>(m: Seq<Seq<T>>) -> bool {
    &&& minors_req(m, 2, 3)
    &&& minors_req(m, 1, 3)
    &&& minors_req(m, 1, 2)
    &&& minors_req(m, 0, 3)
    &&& minors_req(m, 0, 2)
    &&& minors_req(m, 0, 1)
    &&& forall|c: int|
        0 <= c < 4 ==> #[trigger] unsigned_adj_col_req(m, c) && vmul_req(
            unsigned_adj_col(m, c),
            signs::<T>(c % 2 == 1),
        )
}

/// Row 0 of `a`.
pub open spec fn row0<T>(a: Seq<Seq<T>>) -> Seq<T> {
    seq![a[0][0], a[1][0], a[2][0], a[3][0]]
}

/// The determinant of `m` by expansion along column 0, given its adjugate `a`:
/// `(d[0] + d[1]) + (d[2] + d[3])` with `d` the component-wise product of
/// column 0 of `m` and row 0 of `a`.
pub open spec fn det_with<T: Scalar>(m: Seq<Seq<T>>, a: Seq<Seq<T>>) -> T {
    let d = vmul(m[0], row0(a));
    sadd(sadd(d[0], d[1]), sadd(d[2], d[3]))
}

pub open spec fn det_with_req<T: Scalar>(m: Seq<Seq<T>>, a: Seq<Seq<T>>) -> bool {
    let d = vmul(m[0], row0(a));
    &&& vmul_req(m[0], row0(a))
    &&& d[0].add_req(d[1])
    &&& d[2].add_req(d[3])
    &&& sadd(d[0], d[1]).add_req(sadd(d[2], d[3]))
}

pub open spec fn det_of<T: Scalar>(m: Seq<Seq<T>>) -> T {
    det_with(m, adjugate_of(m))
}

pub open spec fn det_req<T: Scalar>(m: Seq<Seq<T>>) -> bool {
    adjugate_req(m) && det_with_req(m, adjugate_of(m))
}

/// The inverse: the adjugate scaled by `1 / det`.
pub open spec fn inverse_of<T: Scalar>(m: Seq<Seq<T>>) -> Seq<Seq<T>> {
    mscale(adjugate_of(m), sdiv(lit::<T>(1), det_of(m)))
}

pub open spec fn inverse_of_req<T: Scalar>(m: Seq<Seq<T>>) -> bool {
    &&& det_req(m)
    &&& lit::<T>(1).div_req(det_of(m))
    &&& mscale_req(adjugate_of(m), sdiv(lit::<T>(1), det_of(m)))
}

/// The sixteen components, column after column.
pub open spec fn flatten<T>(m: Seq<Seq<T>>) -> Seq<T> {
    Seq::new(16, |k: int| m[k / 4][k % 4])
}

impl<T: Copy> Mat4<T> {
    /// Builds a matrix from its components given row by row: `mRC` is row `R`,
    /// column `C` (both counted from one).
    pub fn new(
        m11: T,
        m12: T,
        m13: T,
        m14: T,
        m21: T,
        m22: T,
        m23: T,
        m24: T,
        m31: T,
        m32: T,
        m33: T,
        m34: T,
        m41: T,
        m42: T,
        m43: T,
        m44: T,
    ) -> (r: Self)
        ensures
            r@ == seq![
                seq![m11, m21, m31, m41],
                seq![m12, m22, m32, m42],
                seq![m13, m23, m33, m43],
                seq![m14, m24, m34, m44],
            ],
    {
        let r = Mat4(
            [
                VecN([m11, m21, m31, m41]),
                VecN([m12, m22, m32, m42]),
                VecN([m13, m23, m33, m43]),
                VecN([m14, m24, m34, m44]),
            ],
        );
        proof {
            assert(r.0[0]@ =~= seq![m11, m21, m31, m41]);
            assert(r.0[1]@ =~= seq![m12, m22, m32, m42]);
            assert(r.0[2]@ =~= seq![m13, m23, m33, m43]);
            assert(r.0[3]@ =~= seq![m14, m24, m34, m44]);
        }
        r
    }

    /// Builds a matrix from its four columns.
    pub fn from_cols(cols: [Vec4<T>; 4]) -> (r: Self)
        ensures
            r@ == seq![cols[0]@, cols[1]@, cols[2]@, cols[3]@],
    {
        Mat4(cols)
    }

    /// The four columns.
    pub fn cols(&self) -> (r: [Vec4<T>; 4])
        ensures
            r == self.0,
    {
        self.0
    }

    /// Column `c`.
    pub fn col(&self, c: usize) -> (r: Vec4<T>)
        requires
            c < 4,
        ensures
            r@ == self@[c as int],
    {
        self.0[c]
    }

    /// Row `r` of column `c`.
    pub fn get(&self, c: usize, r: usize) -> (v: T)
        requires
            c < 4,
            r < 4,
        ensures
            v == self@[c as int][r as int],
    {
        self.0[c].0[r]
    }

    /// Replaces row `r` of column `c`.
    pub fn set(&mut self, c: usize, r: usize, v: T)
        requires
            c < 4,
            r < 4,
        ensures
            final(self)@ == old(self)@.update(c as int, old(self)@[c as int].update(r as int, v)),
    {
        let mut col = self.0[c];
        col.set(r, v);
        self.0[c] = col;
        proof {
            assert(self@ =~= old(self)@.update(c as int, old(self)@[c as int].update(r as int, v)));
        }
    }

    /// The sixteen components as one flat array, column after column: the
    /// layout a graphics pipeline reads a column-major matrix in.
    pub fn to_flat(&self) -> (r: [T; 16])
        ensures
            r@ == flatten(self@),
    {
        let a = self.0[0].0;
        let b = self.0[1].0;
        let c = self.0[2].0;
        let d = self.0[3].0;
        let r = [
            a[0], a[1], a[2], a[3],
            b[0], b[1], b[2], b[3],
            c[0], c[1], c[2], c[3],
            d[0], d[1], d[2], d[3],
        ];
        proof {
            assert(r@ =~= flatten(self@));
        }
        r
    }

    /// The matrix whose components, column after column, are `f`.
    pub fn from_flat(f: [T; 16]) -> (r: Self)
        ensures
            flatten(r@) == f@,
            is_mat(r@),
    {
        let r = Mat4(
            [
                VecN([f[0], f[1], f[2], f[3]]),
                VecN([f[4], f[5], f[6], f[7]]),
                VecN([f[8], f[9], f[10], f[11]]),
                VecN([f[12], f[13], f[14], f[15]]),
            ],
        );
        proof {
            assert(flatten(r@) =~= f@);
        }
        r
    }
}

impl<T: Scalar> Mat4<T> {
    /// Column-wise sum.
    pub fn add(&self, o: &Self) -> (r: Self)
        requires
            madd_req(self@, o@),
        ensures
            exact::<T>() ==> r@ == madd(self@, o@),
    {
        proof {
            assert(vadd_req(self@[0], o@[0]));
            assert(vadd_req(self@[1], o@[1]));
            assert(vadd_req(self@[2], o@[2]));
            assert(vadd_req(self@[3], o@[3]));
        }
        let r = Mat4(
            [
                self.0[0].add(&o.0[0]),
                self.0[1].add(&o.0[1]),
                self.0[2].add(&o.0[2]),
                self.0[3].add(&o.0[3]),
            ],
        );
        proof {
            if exact::<T>() {
                assert(r@ =~= madd(self@, o@));
            }
        }
        r
    }

    /// Column-wise difference.
    pub fn sub(&self, o: &Self) -> (r: Self)
        requires
            msub_req(self@, o@),
        ensures
            exact::<T>() ==> r@ == msub(self@, o@),
    {
        proof {
            assert(vsub_req(self@[0], o@[0]));
            assert(vsub_req(self@[1], o@[1]));
            assert(vsub_req(self@[2], o@[2]));
            assert(vsub_req(self@[3], o@[3]));
        }
        let r = Mat4(
            [
                self.0[0].sub(&o.0[0]),
                self.0[1].sub(&o.0[1]),
                self.0[2].sub(&o.0[2]),
                self.0[3].sub(&o.0[3]),
            ],
        );
        proof {
            if exact::<T>() {
                assert(r@ =~= msub(self@, o@));
            }
        }
        r
    }

    /// Adds `s` to every component.
    pub fn add_scalar(&self, s: T) -> (r: Self)
        requires
            madds_req(self@, s),
        ensures
            exact::<T>() ==> r@ == madds(self@, s),
    {
        proof {
            assert(vadds_req(self@[0], s));
            assert(vadds_req(self@[1], s));
            assert(vadds_req(self@[2], s));
            assert(vadds_req(self@[3], s));
        }
        let r = Mat4(
            [
                self.0[0].add_scalar(s),
                self.0[1].add_scalar(s),
                self.0[2].add_scalar(s),
                self.0[3].add_scalar(s),
            ],
        );
        proof {
            if exact::<T>() {
                assert(r@ =~= madds(self@, s));
            }
        }
        r
    }

    /// Subtracts `s` from every component.
    pub fn sub_scalar(&self, s: T) -> (r: Self)
        requires
            msubs_req(self@, s),
        ensures
            exact::<T>() ==> r@ == msubs(self@, s),
    {
        proof {
            assert(vsubs_req(self@[0], s));
            assert(vsubs_req(self@[1], s));
            assert(vsubs_req(self@[2], s));
            assert(vsubs_req(self@[3], s));
        }
        let r = Mat4(
            [
                self.0[0].sub_scalar(s),
                self.0[1].sub_scalar(s),
                self.0[2].sub_scalar(s),
                self.0[3].sub_scalar(s),
            ],
        );
        proof {
            if exact::<T>() {
                assert(r@ =~= msubs(self@, s));
            }
        }
        r
    }

    /// Multiplies every component by `s`.
    pub fn mul_scalar(&self, s: T) -> (r: Self)
        requires
            mscale_req(self@, s),
        ensures
            exact::<T>() ==> r@ == mscale(self@, s),
    {
        proof {
            assert(vscale_req(self@[0], s));
            assert(vscale_req(self@[1], s));
            assert(vscale_req(self@[2], s));
            assert(vscale_req(self@[3], s));
        }
        let r = Mat4(
            [
                self.0[0].mul_scalar(s),
                self.0[1].mul_scalar(s),
                self.0[2].mul_scalar(s),
                self.0[3].mul_scalar(s),
            ],
        );
        proof {
            if exact::<T>() {
                assert(r@ =~= mscale(self@, s));
            }
        }
        r
    }

    /// Divides every component by `s`.
    pub fn div_scalar(&self, s: T) -> (r: Self)
        requires
            mdivs_req(self@, s),
        ensures
            exact::<T>() ==> r@ == mdivs(self@, s),
    {
        proof {
            assert(vdivs_req(self@[0], s));
            assert(vdivs_req(self@[1], s));
            assert(vdivs_req(self@[2], s));
            assert(vdivs_req(self@[3], s));
        }
        let r = Mat4(
            [
                self.0[0].div_scalar(s),
                self.0[1].div_scalar(s),
                self.0[2].div_scalar(s),
                self.0[3].div_scalar(s),
            ],
        );
        proof {
            if exact::<T>() {
                assert(r@ =~= mdivs(self@, s));
            }
        }
        r
    }

    /// The matrix whose components are all zero.
    pub fn zero() -> (r: Self)
        ensures
            exact::<T>() ==> r@ == mzero::<T>(),
    {
        let z: Vec4<T> = VecN::zero();
        let r = Mat4([z, z, z, z]);
        proof {
            if exact::<T>() {
                assert(r@ =~~= mzero::<T>());
            }
        }
        r
    }

    /// The identity: one on the diagonal, zero elsewhere.
    pub fn identity() -> (r: Self)
        ensures
            exact::<T>() ==> r@ == mident::<T>(),
    {
        let z: T = from_int(0);
        let o: T = from_int(1);
        let r = Mat4(
            [
                VecN([o, z, z, z]),
                VecN([z, o, z, z]),
                VecN([z, z, o, z]),
                VecN([z, z, z, o]),
            ],
        );
        proof {
            if exact::<T>() {
                assert(r@ =~~= mident::<T>());
            }
        }
        r
    }

    /// The product `self * o`: column `c` of the result combines the columns
    /// of `self` with the components of column `c` of `o` as weights.
    pub fn mul(&self, o: &Self) -> (r: Self)
        requires
            computable::<T>(mmul_req(self@, o@)),
        ensures
            exact::<T>() ==> r@ == mmul(self@, o@),
    {
        proof {
            assert(lincomb_req(self@, o@[0]));
            assert(lincomb_req(self@, o@[1]));
            assert(lincomb_req(self@, o@[2]));
            assert(lincomb_req(self@, o@[3]));
        }
        let r = Mat4(
            [
                combine(self, &o.0[0]),
                combine(self, &o.0[1]),
                combine(self, &o.0[2]),
                combine(self, &o.0[3]),
            ],
        );
        proof {
            if exact::<T>() {
                assert(r@ =~= mmul(self@, o@));
            }
        }
        r
    }

    /// The 2x2 minor of columns `p`, `q` and rows `i`, `j`.
    fn minor(&self, p: usize, q: usize, i: usize, j: usize) -> (r: T)
        requires
            p < 4,
            q < 4,
            i < 4,
            j < 4,
            computable::<T>(minor2_req(self@, p as int, q as int, i as int, j as int)),
        ensures
            exact::<T>() ==> r == minor2(self@, p as int, q as int, i as int, j as int),
    {
        let m = self.0;
        m[p].0[i] * m[q].0[j] - m[q].0[i] * m[p].0[j]
    }

    fn minors(&self, i: usize, j: usize) -> (r: Vec4<T>)
        requires
            i < 4,
            j < 4,
            computable::<T>(minors_req(self@, i as int, j as int)),
        ensures
            exact::<T>() ==> r@ == minors(self@, i as int, j as int),
    {
        let a = self.minor(2, 3, i, j);
        let b = self.minor(1, 3, i, j);
        let c = self.minor(1, 2, i, j);
        Vec4::new(a, a, b, c)
    }

    fn spread(&self, r: usize) -> (v: Vec4<T>)
        requires
            r < 4,
        ensures
            v@ == spread(self@, r as int),
    {
        let m = self.0;
        Vec4::new(m[1].0[r], m[0].0[r], m[0].0[r], m[0].0[r])
    }

    /// The adjugate: the transposed matrix of cofactors, so that
    /// `adjugate(m) * m` is `det(m)` times the identity.
    pub fn adjugate(&self) -> (r: Self)
        requires
            computable::<T>(adjugate_req(self@)),
        ensures
            exact::<T>() ==> r@ == adjugate_of(self@),
    {
        let f0 = self.minors(2, 3);
        let f1 = self.minors(1, 3);
        let f2 = self.minors(1, 2);
        let f3 = self.minors(0, 3);
        let f4 = self.minors(0, 2);
        let f5 = self.minors(0, 1);
        let v0 = self.spread(0);
        let v1 = self.spread(1);
        let v2 = self.spread(2);
        let v3 = self.spread(3);
        proof {
            assert(unsigned_adj_col_req(self@, 0));
            assert(unsigned_adj_col_req(self@, 1));
            assert(unsigned_adj_col_req(self@, 2));
            assert(unsigned_adj_col_req(self@, 3));
        }
        let i0 = cofactor_column(&v1, &f0, &v2, &f1, &v3, &f2);
        let i1 = cofactor_column(&v0, &f0, &v2, &f3, &v3, &f4);
        let i2 = cofactor_column(&v0, &f1, &v1, &f3, &v3, &f5);
        let i3 = cofactor_column(&v0, &f2, &v1, &f4, &v2, &f5);
        let one: T = from_int(1);
        let minus: T = from_int(-1);
        let sign_a = Vec4::new(one, minus, one, minus);
        let sign_b = Vec4::new(minus, one, minus, one);
        proof {
            assert(signs::<T>(false) == seq![lit::<T>(1), lit::<T>(-1), lit::<T>(1), lit::<T>(-1)]);
            assert(signs::<T>(true) == seq![lit::<T>(-1), lit::<T>(1), lit::<T>(-1), lit::<T>(1)]);
            if exact::<T>() {
                assert(sign_a@ == signs::<T>(0int % 2 == 1));
                assert(sign_b@ == signs::<T>(1int % 2 == 1));
                assert(sign_a@ == signs::<T>(2int % 2 == 1));
                assert(sign_b@ == signs::<T>(3int % 2 == 1));
            }
        }
        let r = Mat4([i0.mul(&sign_a), i1.mul(&sign_b), i2.mul(&sign_a), i3.mul(&sign_b)]);
        proof {
            if exact::<T>() {
                assert(r@ =~= adjugate_of(self@));
            }
        }
        r
    }

    /// The determinant from column 0 of `self` and row 0 of its adjugate `a`.
    fn det_with(&self, a: &Self) -> (r: T)
        requires
            computable::<T>(det_with_req(self@, a@)),
        ensures
            exact::<T>() ==> r == det_with(self@, a@),
    {
        let row = Vec4::new(a.0[0].0[0], a.0[1].0[0], a.0[2].0[0], a.0[3].0[0]);
        let d = self.0[0].mul(&row);
        (d.0[0] + d.0[1]) + (d.0[2] + d.0[3])
    }

    /// The determinant, by cofactor expansion along column 0.
    pub fn determinant(&self) -> (r: T)
        requires
            computable::<T>(det_req(self@)),
        ensures
            exact::<T>() ==> r == det_of(self@),
    {
        let a = self.adjugate();
        self.det_with(&a)
    }

    /// The product `self * v` of the matrix and a column vector.
    pub fn mul_vec(&self, v: &Vec4<T>) -> (r: Vec4<T>)
        requires
            computable::<T>(mvec_req(self@, v@)),
        ensures
            exact::<T>() ==> r@ == mvec(self@, v@),
    {
        let m0 = self.0[0].mul_scalar(v.0[0]);
        let m1 = self.0[1].mul_scalar(v.0[1]);
        let a0 = m0.add(&m1);
        let m2 = self.0[2].mul_scalar(v.0[2]);
        let m3 = self.0[3].mul_scalar(v.0[3]);
        let a1 = m2.add(&m3);
        a0.add(&a1)
    }
}

/// `cols[0] w[0] + cols[1] w[1] + cols[2] w[2] + cols[3] w[3]`.
fn combine<T: Scalar>(cols: &Mat4<T>, w: &Vec4<T>) -> (r: Vec4<T>)
    requires
        computable::<T>(lincomb_req(cols@, w@)),
    ensures
        exact::<T>() ==> r@ == lincomb(cols@, w@),
{
    let t0 = cols.0[0].mul_scalar(w.0[0]);
    let t1 = cols.0[1].mul_scalar(w.0[1]);
    let s = t0.add(&t1);
    let t2 = cols.0[2].mul_scalar(w.0[2]);
    let s = s.add(&t2);
    let t3 = cols.0[3].mul_scalar(w.0[3]);
    s.add(&t3)
}

/// `a fa - b fb + c fc`, component-wise.
fn cofactor_column<T: Scalar>(
    a: &Vec4<T>,
    fa: &Vec4<T>,
    b: &Vec4<T>,
    fb: &Vec4<T>,
    c: &Vec4<T>,
    fc: &Vec4<T>,
) -> (r: Vec4<T>)
    requires
        computable::<T>(cofactor_col_req(a@, fa@, b@, fb@, c@, fc@)),
    ensures
        exact::<T>() ==> r@ == cofactor_col(a@, fa@, b@, fb@, c@, fc@),
{
    let x = a.mul(fa);
    let y = b.mul(fb);
    let z = c.mul(fc);
    x.sub(&y).add(&z)
}

impl<T: Scalar> Inverse for Mat4<T> {
    open spec fn inverse_req(m: Seq<Seq<T>>) -> bool {
        computable::<T>(inverse_of_req(m))
    }

    open spec fn inverse_exact() -> bool {
        exact::<T>()
    }

    open spec fn inverse_view(m: Seq<Seq<T>>) -> Seq<Seq<T>> {
        inverse_of(m)
    }

    /// The adjugate divided by the determinant.
    fn inverse(&self) -> (r: Self) {
        let a = self.adjugate();
        let det = self.det_with(&a);
        let one: T = from_int(1);
        let s = one / det;
        a.mul_scalar(s)
    }
}

impl<T: Copy> Transpose for Mat4<T> {
    open spec fn transpose_view(m: Seq<Seq<T>>) -> Seq<Seq<T>> {
        mtranspose(m)
    }

    fn transpose(&self) -> (r: Self) {
        let m = self.0;
        let r = Mat4(
            [
                VecN([m[0].0[0], m[1].0[0], m[2].0[0], m[3].0[0]]),
                VecN([m[0].0[1], m[1].0[1], m[2].0[1], m[3].0[1]]),
                VecN([m[0].0[2], m[1].0[2], m[2].0[2], m[3].0[2]]),
                VecN([m[0].0[3], m[1].0[3], m[2].0[3], m[3].0[3]]),
            ],
        );
        proof {
            assert(r@ =~~= mtranspose(self@));
        }
        r
    }
}

} // verus!

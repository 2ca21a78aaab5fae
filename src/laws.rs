//! Algebraic laws of the kernel.
//!
//! Each law is stated over the specification functions that the operations'
//! contracts use. Laws that hold for any scalar are stated generically; laws
//! of arithmetic are stated for `i64`, whose operations are exact wherever
//! they are defined.
use vstd::prelude::*;

verus! {

use crate::matrix::{lincomb, lincomb_req, mident, mmul, mmul_req, mtranspose, Mat4};
use crate::scalar::{lit, smul};
use crate::vector::{
    dot_to,
    vadd,
    vcross,
    vcross_req,
    vdot,
    vdot_req,
    vfill,
    vnormalize,
    vscale,
    vsub,
    VecN,
};
use vstd::std_specs::ops::{AddSpec, MulSpec};

/// Transposing twice gives back the matrix.
pub proof fn lemma_transpose_involutive<T>(m: Mat4<T>)
    ensures
        mtranspose(mtranspose(m@)) == m@,
{
    assert(mtranspose(mtranspose(m@)) =~~= m@);
}

/// Adding the zero vector leaves a vector unchanged, and a vector minus
/// itself is the zero vector.
pub proof fn lemma_zero_vector<const N: usize>(v: VecN<i64, N>)
    ensures
        vadd(v@, vfill(N as nat, lit::<i64>(0))) == v@,
        vsub(v@, v@) == vfill(N as nat, lit::<i64>(0)),
{
    assert(vadd(v@, vfill(N as nat, lit::<i64>(0))) =~= v@);
    assert(vsub(v@, v@) =~= vfill(N as nat, lit::<i64>(0)));
}

/// Normalizing by a length of one leaves a vector unchanged.
pub proof fn lemma_normalize_unit<const N: usize>(v: VecN<i64, N>)
    ensures
        vnormalize(v@, lit::<i64>(1)) == v@,
{
    assert(vnormalize(v@, lit::<i64>(1)) =~= v@);
}

/// The identity is a left and a right identity of the matrix product.
pub proof fn lemma_identity_mul(m: Mat4<i64>)
    ensures
        mmul(mident::<i64>(), m@) == m@,
        mmul(m@, mident::<i64>()) == m@,
{
    let id = mident::<i64>();
    let mv = m@;
    assert(lit::<i64>(1) == 1 && lit::<i64>(0) == 0);
    assert forall|c: int| 0 <= c < 4 implies #[trigger] lincomb(id, mv[c]) == mv[c] by {
        let w = mv[c];
        assert(w.len() == 4);
        assert forall|r: int| 0 <= r < 4 implies lincomb(id, w)[r] == w[r] by {
            assert forall|k: int| 0 <= k < 4 implies (#[trigger] id[k])[r] == if k == r {
                1i64
            } else {
                0i64
            } by {}
            assert forall|k: int| 0 <= k < 4 implies (#[trigger] vscale(id[k], w[k]))[r] == if k
                == r {
                w[k]
            } else {
                0i64
            } by {}
        }
        assert(lincomb(id, w) =~= w);
    }
    assert(mmul(id, mv) =~= mv);
    assert forall|c: int| 0 <= c < 4 implies #[trigger] lincomb(mv, id[c]) == mv[c] by {
        assert forall|r: int| 0 <= r < 4 implies lincomb(mv, id[c])[r] == mv[c][r] by {
            assert forall|k: int| 0 <= k < 4 implies (#[trigger] vscale(mv[k], id[c][k]))[r] == if k
                == c {
                mv[k][r]
            } else {
                0i64
            } by {
                assert(id[c][k] == if k == c {
                    1i64
                } else {
                    0i64
                });
                assert(mv[k].len() == 4);
            }
        }
        assert(lincomb(mv, id[c]) =~= mv[c]);
    }
    assert(mmul(mv, id) =~= mv);
}

/// The cross product is orthogonal to both of its operands, wherever the
/// products and sums involved do not overflow.
pub proof fn lemma_cross_orthogonal(a: VecN<i64, 3>, b: VecN<i64, 3>)
    requires
        vcross_req(a@, b@),
        vdot_req(vcross(a@, b@), a@),
        vdot_req(vcross(a@, b@), b@),
    ensures
        vdot(vcross(a@, b@), a@) == 0,
        vdot(vcross(a@, b@), b@) == 0,
{
    let c = vcross(a@, b@);
    let (x0, x1, x2) = (a@[0] as int, a@[1] as int, a@[2] as int);
    let (y0, y1, y2) = (b@[0] as int, b@[1] as int, b@[2] as int);
    assert(c[0] == x1 * y2 - x2 * y1);
    assert(c[1] == x2 * y0 - x0 * y2);
    assert(c[2] == x0 * y1 - x1 * y0);
    lemma_dot3(c, a@);
    lemma_dot3(c, b@);
    assert((x1 * y2 - x2 * y1) * x0 + (x2 * y0 - x0 * y2) * x1 + (x0 * y1 - x1 * y0) * x2 == 0)
        by (nonlinear_arith);
    assert((x1 * y2 - x2 * y1) * y0 + (x2 * y0 - x0 * y2) * y1 + (x0 * y1 - x1 * y0) * y2 == 0)
        by (nonlinear_arith);
}

/// The dot product of three components, where nothing overflows, is the
/// integer sum of products.
proof fn lemma_dot3(u: Seq<i64>, v: Seq<i64>)
    requires
        u.len() == 3,
        vdot_req(u, v),
    ensures
        vdot(u, v) == (u[0] as int) * (v[0] as int) + (u[1] as int) * (v[1] as int) + (u[2] as int)
            * (v[2] as int),
{
    assert(u[0].mul_req(v[0]) && dot_to(u, v, 0).add_req(smul(u[0], v[0])));
    assert(u[1].mul_req(v[1]) && dot_to(u, v, 1).add_req(smul(u[1], v[1])));
    assert(u[2].mul_req(v[2]) && dot_to(u, v, 2).add_req(smul(u[2], v[2])));
    assert(dot_to(u, v, 1) == u[0] * v[0]);
    assert(dot_to(u, v, 2) == u[0] * v[0] + u[1] * v[1]);
    assert(dot_to(u, v, 3) == u[0] * v[0] + u[1] * v[1] + u[2] * v[2]);
}


/// Every component lies in `[-b, b]`.
pub open spec fn bounded(s: Seq<i64>, b: int) -> bool {
    forall|i: int| 0 <= i < s.len() ==> -b <= #[trigger] s[i] <= b
}

/// Every component of every column lies in `[-b, b]`.
pub open spec fn mat_bounded(m: Seq<Seq<i64>>, b: int) -> bool {
    forall|c: int| 0 <= c < 4 ==> bounded(#[trigger] m[c], b)
}

/// The largest magnitude of components for which the products and sums of
/// the dot product and the matrix product stay within `i64`.
pub open spec fn small() -> int {
    0x4000
}

proof fn lemma_product_bound(x: i64, y: i64)
    requires
        -small() <= x <= small(),
        -small() <= y <= small(),
    ensures
        -small() * small() <= x * y <= small() * small(),
{
    assert(-small() * small() <= x * y <= small() * small()) by (nonlinear_arith)
        requires
            -small() <= x <= small(),
            -small() <= y <= small(),
            small() == 0x4000,
    ;
}

proof fn lemma_dot_to_bound(a: Seq<i64>, b: Seq<i64>, k: int)
    requires
        0 <= k <= a.len(),
        a.len() == b.len(),
        bounded(a, small()),
        bounded(b, small()),
    ensures
        -k * small() * small() <= dot_to(a, b, k) <= k * small() * small(),
    decreases k,
{
    if k > 0 {
        lemma_dot_to_bound(a, b, k - 1);
        lemma_product_bound(a[k - 1], b[k - 1]);
    }
}

/// The dot product of vectors of at most four components, each of magnitude
/// at most `small()`, is defined in `i64`.
pub proof fn lemma_dot_defined(a: Seq<i64>, b: Seq<i64>)
    requires
        a.len() == b.len(),
        a.len() <= 4,
        bounded(a, small()),
        bounded(b, small()),
    ensures
        vdot_req(a, b),
{
    assert forall|k: int| 0 <= k < a.len() implies #[trigger] a[k].mul_req(b[k]) && dot_to(
        a,
        b,
        k,
    ).add_req(smul(a[k], b[k])) by {
        lemma_product_bound(a[k], b[k]);
        lemma_dot_to_bound(a, b, k);
    }
}

/// The product of two matrices whose components have magnitude at most
/// `small()` is defined in `i64`.
pub proof fn lemma_mul_defined(a: Mat4<i64>, b: Mat4<i64>)
    requires
        mat_bounded(a@, small()),
        mat_bounded(b@, small()),
    ensures
        mmul_req(a@, b@),
{
    let (av, bv) = (a@, b@);
    assert forall|c: int| 0 <= c < 4 implies #[trigger] lincomb_req(av, bv[c]) by {
        let w = bv[c];
        assert(bounded(w, small()));
        assert forall|k: int, r: int| 0 <= k < 4 && 0 <= r < 4 implies -small() * small() <= #[trigger] (
        av[k][r] * w[k]) <= small() * small() by {
            assert(bounded(av[k], small()));
            lemma_product_bound(av[k][r], w[k]);
        }
    }
}

} // verus!

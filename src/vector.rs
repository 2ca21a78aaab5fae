//! Fixed-size vectors of two, three and four components.
use vstd::prelude::*;

verus! {

use crate::scalar::{computable, exact, from_int, lit, sadd, sdiv, smul, sneg, ssub, Scalar};
use vstd::std_specs::ops::{AddSpec, DivSpec, MulSpec, NegSpec, SubSpec};

/// A vector of `N` components, stored contiguously in index order.
#[derive(Clone, Copy, Debug, PartialEq)]
pub struct VecN<T, const N: usize>(pub [T; N]);

/// A vector type, with the flat array that holds its components.
pub trait Vector {
    type Buffer;
}

/// The dot product.
pub trait Dot<S>: View + Sized {
    /// The operations of the dot product are defined on these operands.
    spec fn dot_req(a: Self::V, b: Self::V) -> bool;

    /// The scalar operations follow their specifications.
    spec fn dot_exact() -> bool;

    /// The dot product of two vectors, in exact scalar arithmetic.
    spec fn dot_view(a: Self::V, b: Self::V) -> S;

    fn dot(&self, other: &Self) -> (r: S)
        requires
            Self::dot_req(self@, other@),
        ensures
            Self::dot_exact() ==> r == Self::dot_view(self@, other@),
    ;
}

/// The cross product of three-component vectors.
pub trait Cross: View + Sized {
    spec fn cross_req(a: Self::V, b: Self::V) -> bool;

    spec fn cross_exact() -> bool;

    spec fn cross_view(a: Self::V, b: Self::V) -> Self::V;

    fn cross(&self, other: &Self) -> (r: Self)
        requires
            Self::cross_req(self@, other@),
        ensures
            Self::cross_exact() ==> r@ == Self::cross_view(self@, other@),
    ;
}

/// Scaling a vector to unit length, given its length.
///
/// The length (a square root) is computed by the caller; a zero length is a
/// caller error and, in floating point, yields infinite or NaN components.
pub trait Normalize<S>: View + Sized {
    spec fn normalize_req(a: Self::V, length: S) -> bool;

    spec fn normalize_exact() -> bool;

    spec fn normalize_view(a: Self::V, length: S) -> Self::V;

    fn normalize(&self, length: S) -> (r: Self)
        requires
            Self::normalize_req(self@, length),
        ensures
            Self::normalize_exact() ==> r@ == Self::normalize_view(self@, length),
    ;
}

/// A vector with every component equal to one value.
pub trait Repeat<S>: View + Sized {
    spec fn repeat_view(n: S) -> Self::V;

    fn repeat(n: S) -> (r: Self)
        ensures
            r@ == Self::repeat_view(n),
    ;
}

/// A vector of two components, `x` and `y`.
pub type Vec2<T> = VecN<T, 2>;

/// A vector of three components, `x`, `y` and `z`.
pub type Vec3<T> = VecN<T, 3>;

/// A vector of four components, `x`, `y`, `z` and `w`.
pub type Vec4<T> = VecN<T, 4>;

impl<T, const N: usize> View for VecN<T, N> {
    type V = Seq<T>;

    open spec fn view(&self) -> Seq<T> {
        self.0@
    }
}

// Component-wise operations on vector views. Each `v*_req` says that the
// scalar operations of its `v*` are defined on every component.

pub open spec fn vadd<T: Scalar>(a: Seq<T>, b: Seq<T>) -> Seq<T> {
    Seq::new(a.len(), |i: int| sadd(a[i], b[i]))
}

pub open spec fn vadd_req<T: Scalar>(a: Seq<T>, b: Seq<T>) -> bool {
    forall|i: int| 0 <= i < a.len() ==> #[trigger] a[i].add_req(b[i])
}

pub open spec fn vsub<T: Scalar>(a: Seq<T>, b: Seq<T>) -> Seq<T> {
    Seq::new(a.len(), |i: int| ssub(a[i], b[i]))
}

pub open spec fn vsub_req<T: Scalar>(a: Seq<T>, b: Seq<T>) -> bool {
    forall|i: int| 0 <= i < a.len() ==> #[trigger] a[i].sub_req(b[i])
}

pub open spec fn vmul<T: Scalar>(a: Seq<T>, b: Seq<T>) -> Seq<T> {
    Seq::new(a.len(), |i: int| smul(a[i], b[i]))
}

pub open spec fn vmul_req<T: Scalar>(a: Seq<T>, b: Seq<T>) -> bool {
    forall|i: int| 0 <= i < a.len() ==> #[trigger] a[i].mul_req(b[i])
}

pub open spec fn vdiv<T: Scalar>(a: Seq<T>, b: Seq<T>) -> Seq<T> {
    Seq::new(a.len(), |i: int| sdiv(a[i], b[i]))
}

pub open spec fn vdiv_req<T: Scalar>(a: Seq<T>, b: Seq<T>) -> bool {
    forall|i: int| 0 <= i < a.len() ==> #[trigger] a[i].div_req(b[i])
}

pub open spec fn vadds<T: Scalar>(a: Seq<T>, s: T) -> Seq<T> {
    Seq::new(a.len(), |i: int| sadd(a[i], s))
}

pub open spec fn vadds_req<T: Scalar>(a: Seq<T>, s: T) -> bool {
    forall|i: int| 0 <= i < a.len() ==> #[trigger] a[i].add_req(s)
}

pub open spec fn vsubs<T: Scalar>(a: Seq<T>, s: T) -> Seq<T> {
    Seq::new(a.len(), |i: int| ssub(a[i], s))
}

pub open spec fn vsubs_req<T: Scalar>(a: Seq<T>, s: T) -> bool {
    forall|i: int| 0 <= i < a.len() ==> #[trigger] a[i].sub_req(s)
}

pub open spec fn vscale<T: Scalar>(a: Seq<T>, s: T) -> Seq<T> {
    Seq::new(a.len(), |i: int| smul(a[i], s))
}

pub open spec fn vscale_req<T: Scalar>(a: Seq<T>, s: T) -> bool {
    forall|i: int| 0 <= i < a.len() ==> #[trigger] a[i].mul_req(s)
}

pub open spec fn vdivs<T: Scalar>(a: Seq<T>, s: T) -> Seq<T> {
    Seq::new(a.len(), |i: int| sdiv(a[i], s))
}

pub open spec fn vdivs_req<T: Scalar>(a: Seq<T>, s: T) -> bool {
    forall|i: int| 0 <= i < a.len() ==> #[trigger] a[i].div_req(s)
}

pub open spec fn vneg<T: Scalar>(a: Seq<T>) -> Seq<T> {
    Seq::new(a.len(), |i: int| sneg(a[i]))
}

pub open spec fn vneg_req<T: Scalar>(a: Seq<T>) -> bool {
    forall|i: int| 0 <= i < a.len() ==> #[trigger] a[i].neg_req()
}

/// The dot product of the first `n` components, summed from the first.
pub open spec fn dot_to<T: Scalar>(a: Seq<T>, b: Seq<T>, n: int) -> T
    decreases n,
{
    if n <= 0 {
        lit::<T>(0)
    } else {
        sadd(dot_to(a, b, n - 1), smul(a[n - 1], b[n - 1]))
    }
}

pub open spec fn vdot<T: Scalar>(a: Seq<T>, b: Seq<T>) -> T {
    dot_to(a, b, a.len() as int)
}

pub open spec fn vdot_req<T: Scalar>(a: Seq<T>, b: Seq<T>) -> bool {
    forall|k: int|
        0 <= k < a.len() ==> #[trigger] a[k].mul_req(b[k]) && dot_to(a, b, k).add_req(
            smul(a[k], b[k]),
        )
}

/// The cross product `(y1 z2 - z1 y2, z1 x2 - x1 z2, x1 y2 - y1 x2)`.
pub open spec fn vcross<T: Scalar>(a: Seq<T>, b: Seq<T>) -> Seq<T> {
    seq![
        ssub(smul(a[1], b[2]), smul(a[2], b[1])),
        ssub(smul(a[2], b[0]), smul(a[0], b[2])),
        ssub(smul(a[0], b[1]), smul(a[1], b[0])),
    ]
}

pub open spec fn vcross_req<T: Scalar>(a: Seq<T>, b: Seq<T>) -> bool {
    &&& a[1].mul_req(b[2]) &&& a[2].mul_req(b[1])
    &&& a[2].mul_req(b[0]) &&& a[0].mul_req(b[2])
    &&& a[0].mul_req(b[1]) &&& a[1].mul_req(b[0])
    &&& smul(a[1], b[2]).sub_req(smul(a[2], b[1]))
    &&& smul(a[2], b[0]).sub_req(smul(a[0], b[2]))
    &&& smul(a[0], b[1]).sub_req(smul(a[1], b[0]))
}

/// `a` scaled by the reciprocal of `length`.
pub open spec fn vnormalize<T: Scalar>(a: Seq<T>, length: T) -> Seq<T> {
    vscale(a, sdiv(lit::<T>(1), length))
}

pub open spec fn vnormalize_req<T: Scalar>(a: Seq<T>, length: T) -> bool {
    lit::<T>(1).div_req(length) && vscale_req(a, sdiv(lit::<T>(1), length))
}

/// The vector of `n` components, all equal to `c`.
pub open spec fn vfill<T>(n: nat, c: T) -> Seq<T> {
    Seq::new(n, |i: int| c)
}

impl<T: Scalar, const N: usize> VecN<T, N> {
    /// Component-wise sum.
    pub fn add(&self, o: &Self) -> (r: Self)
        requires
            vadd_req(self@, o@),
        ensures
            exact::<T>() ==> r@ == vadd(self@, o@),
    {
        let mut v = self.0;
        let mut i: usize = 0;
        while i < N
            invariant
                i <= N,
                vadd_req(self@, o@),
                forall|j: int| 0 <= j < i ==> exact::<T>() ==> #[trigger] v[j] == sadd(self.0[j], o.0[j]),
                forall|j: int| i <= j < N ==> #[trigger] v[j] == self.0[j],
            decreases N - i,
        {
            proof {
                assert(self@[i as int].add_req(o@[i as int]));
            }
            let c = v[i] + o.0[i];
            v[i] = c;
            i += 1;
        }
        proof {
            if exact::<T>() {
                assert(v@ =~= vadd(self@, o@));
            }
        }
        VecN(v)
    }

    /// Component-wise difference.
    pub fn sub(&self, o: &Self) -> (r: Self)
        requires
            vsub_req(self@, o@),
        ensures
            exact::<T>() ==> r@ == vsub(self@, o@),
    {
        let mut v = self.0;
        let mut i: usize = 0;
        while i < N
            invariant
                i <= N,
                vsub_req(self@, o@),
                forall|j: int| 0 <= j < i ==> exact::<T>() ==> #[trigger] v[j] == ssub(self.0[j], o.0[j]),
                forall|j: int| i <= j < N ==> #[trigger] v[j] == self.0[j],
            decreases N - i,
        {
            proof {
                assert(self@[i as int].sub_req(o@[i as int]));
            }
            let c = v[i] - o.0[i];
            v[i] = c;
            i += 1;
        }
        proof {
            if exact::<T>() {
                assert(v@ =~= vsub(self@, o@));
            }
        }
        VecN(v)
    }

    /// Component-wise product.
    pub fn mul(&self, o: &Self) -> (r: Self)
        requires
            vmul_req(self@, o@),
        ensures
            exact::<T>() ==> r@ == vmul(self@, o@),
    {
        let mut v = self.0;
        let mut i: usize = 0;
        while i < N
            invariant
                i <= N,
                vmul_req(self@, o@),
                forall|j: int| 0 <= j < i ==> exact::<T>() ==> #[trigger] v[j] == smul(self.0[j], o.0[j]),
                forall|j: int| i <= j < N ==> #[trigger] v[j] == self.0[j],
            decreases N - i,
        {
            proof {
                assert(self@[i as int].mul_req(o@[i as int]));
            }
            let c = v[i] * o.0[i];
            v[i] = c;
            i += 1;
        }
        proof {
            if exact::<T>() {
                assert(v@ =~= vmul(self@, o@));
            }
        }
        VecN(v)
    }

    /// Component-wise quotient.
    pub fn div(&self, o: &Self) -> (r: Self)
        requires
            vdiv_req(self@, o@),
        ensures
            exact::<T>() ==> r@ == vdiv(self@, o@),
    {
        let mut v = self.0;
        let mut i: usize = 0;
        while i < N
            invariant
                i <= N,
                vdiv_req(self@, o@),
                forall|j: int| 0 <= j < i ==> exact::<T>() ==> #[trigger] v[j] == sdiv(self.0[j], o.0[j]),
                forall|j: int| i <= j < N ==> #[trigger] v[j] == self.0[j],
            decreases N - i,
        {
            proof {
                assert(self@[i as int].div_req(o@[i as int]));
            }
            let c = v[i] / o.0[i];
            v[i] = c;
            i += 1;
        }
        proof {
            if exact::<T>() {
                assert(v@ =~= vdiv(self@, o@));
            }
        }
        VecN(v)
    }

    /// Adds `s` to every component.
    pub fn add_scalar(&self, s: T) -> (r: Self)
        requires
            vadds_req(self@, s),
        ensures
            exact::<T>() ==> r@ == vadds(self@, s),
    {
        let mut v = self.0;
        let mut i: usize = 0;
        while i < N
            invariant
                i <= N,
                vadds_req(self@, s),
                forall|j: int| 0 <= j < i ==> exact::<T>() ==> #[trigger] v[j] == sadd(self.0[j], s),
                forall|j: int| i <= j < N ==> #[trigger] v[j] == self.0[j],
            decreases N - i,
        {
            proof {
                assert(self@[i as int].add_req(s));
            }
            let c = v[i] + s;
            v[i] = c;
            i += 1;
        }
        proof {
            if exact::<T>() {
                assert(v@ =~= vadds(self@, s));
            }
        }
        VecN(v)
    }

    /// Subtracts `s` from every component.
    pub fn sub_scalar(&self, s: T) -> (r: Self)
        requires
            vsubs_req(self@, s),
        ensures
            exact::<T>() ==> r@ == vsubs(self@, s),
    {
        let mut v = self.0;
        let mut i: usize = 0;
        while i < N
            invariant
                i <= N,
                vsubs_req(self@, s),
                forall|j: int| 0 <= j < i ==> exact::<T>() ==> #[trigger] v[j] == ssub(self.0[j], s),
                forall|j: int| i <= j < N ==> #[trigger] v[j] == self.0[j],
            decreases N - i,
        {
            proof {
                assert(self@[i as int].sub_req(s));
            }
            let c = v[i] - s;
            v[i] = c;
            i += 1;
        }
        proof {
            if exact::<T>() {
                assert(v@ =~= vsubs(self@, s));
            }
        }
        VecN(v)
    }

    /// Multiplies every component by `s`.
    pub fn mul_scalar(&self, s: T) -> (r: Self)
        requires
            vscale_req(self@, s),
        ensures
            exact::<T>() ==> r@ == vscale(self@, s),
    {
        let mut v = self.0;
        let mut i: usize = 0;
        while i < N
            invariant
                i <= N,
                vscale_req(self@, s),
                forall|j: int| 0 <= j < i ==> exact::<T>() ==> #[trigger] v[j] == smul(self.0[j], s),
                forall|j: int| i <= j < N ==> #[trigger] v[j] == self.0[j],
            decreases N - i,
        {
            proof {
                assert(self@[i as int].mul_req(s));
            }
            let c = v[i] * s;
            v[i] = c;
            i += 1;
        }
        proof {
            if exact::<T>() {
                assert(v@ =~= vscale(self@, s));
            }
        }
        VecN(v)
    }

    /// Divides every component by `s`.
    pub fn div_scalar(&self, s: T) -> (r: Self)
        requires
            vdivs_req(self@, s),
        ensures
            exact::<T>() ==> r@ == vdivs(self@, s),
    {
        let mut v = self.0;
        let mut i: usize = 0;
        while i < N
            invariant
                i <= N,
                vdivs_req(self@, s),
                forall|j: int| 0 <= j < i ==> exact::<T>() ==> #[trigger] v[j] == sdiv(self.0[j], s),
                forall|j: int| i <= j < N ==> #[trigger] v[j] == self.0[j],
            decreases N - i,
        {
            proof {
                assert(self@[i as int].div_req(s));
            }
            let c = v[i] / s;
            v[i] = c;
            i += 1;
        }
        proof {
            if exact::<T>() {
                assert(v@ =~= vdivs(self@, s));
            }
        }
        VecN(v)
    }

    /// Negates every component.
    pub fn neg(&self) -> (r: Self)
        requires
            vneg_req(self@),
        ensures
            exact::<T>() ==> r@ == vneg(self@),
    {
        let mut v = self.0;
        let mut i: usize = 0;
        while i < N
            invariant
                i <= N,
                vneg_req(self@),
                forall|j: int| 0 <= j < i ==> exact::<T>() ==> #[trigger] v[j] == sneg(self.0[j]),
                forall|j: int| i <= j < N ==> #[trigger] v[j] == self.0[j],
            decreases N - i,
        {
            proof {
                assert(self@[i as int].neg_req());
            }
            let c = v[i].neg();
            v[i] = c;
            i += 1;
        }
        proof {
            if exact::<T>() {
                assert(v@ =~= vneg(self@));
            }
        }
        VecN(v)
    }

    /// The vector whose components are all zero.
    pub fn zero() -> (r: Self)
        ensures
            exact::<T>() ==> r@ == vfill(N as nat, lit::<T>(0)),
    {
        let z: T = from_int(0);
        Self::repeat(z)
    }
}

impl<T: Copy, const N: usize> VecN<T, N> {
    /// The component at index `i` (`x` is at index 0, `y` at 1, and so on).
    pub fn get(&self, i: usize) -> (r: T)
        requires
            i < N,
        ensures
            r == self@[i as int],
    {
        self.0[i]
    }

    /// Replaces the component at index `i`.
    pub fn set(&mut self, i: usize, c: T)
        requires
            i < N,
        ensures
            final(self)@ == old(self)@.update(i as int, c),
    {
        self.0[i] = c;
        proof {
            assert(self@ =~= old(self)@.update(i as int, c));
        }
    }
}

impl<T, const N: usize> Vector for VecN<T, N> {
    type Buffer = [T; N];
}

impl<T: Copy, const N: usize> Repeat<T> for VecN<T, N> {
    open spec fn repeat_view(n: T) -> Seq<T> {
        vfill(N as nat, n)
    }

    fn repeat(n: T) -> (r: Self) {
        let r = VecN([n; N]);
        proof {
            assert(r@ =~= vfill(N as nat, n));
        }
        r
    }
}

impl<T: Scalar, const N: usize> Dot<T> for VecN<T, N> {
    open spec fn dot_req(a: Seq<T>, b: Seq<T>) -> bool {
        computable::<T>(vdot_req(a, b))
    }

    open spec fn dot_exact() -> bool {
        exact::<T>()
    }

    open spec fn dot_view(a: Seq<T>, b: Seq<T>) -> T {
        vdot(a, b)
    }

    /// Sums the products of the components, from the first to the last.
    fn dot(&self, other: &Self) -> (r: T) {
        let mut acc: T = from_int(0);
        let mut i: usize = 0;
        while i < N
            invariant
                i <= N,
                computable::<T>(vdot_req(self@, other@)),
                exact::<T>() ==> acc == dot_to(self@, other@, i as int),
            decreases N - i,
        {
            proof {
                assert(self@[i as int].mul_req(other@[i as int]));
            }
            let p = self.0[i] * other.0[i];
            let s = acc + p;
            acc = s;
            i += 1;
        }
        acc
    }
}

impl<T: Scalar> Cross for VecN<T, 3> {
    open spec fn cross_req(a: Seq<T>, b: Seq<T>) -> bool {
        computable::<T>(vcross_req(a, b))
    }

    open spec fn cross_exact() -> bool {
        exact::<T>()
    }

    open spec fn cross_view(a: Seq<T>, b: Seq<T>) -> Seq<T> {
        vcross(a, b)
    }

    fn cross(&self, other: &Self) -> (r: Self) {
        let a = self.0;
        let b = other.0;
        let x = a[1] * b[2] - a[2] * b[1];
        let y = a[2] * b[0] - a[0] * b[2];
        let z = a[0] * b[1] - a[1] * b[0];
        let r = VecN([x, y, z]);
        proof {
            if exact::<T>() {
                assert(r@ =~= vcross(self@, other@));
            }
        }
        r
    }
}

impl<T: Scalar, const N: usize> Normalize<T> for VecN<T, N> {
    open spec fn normalize_req(a: Seq<T>, length: T) -> bool {
        computable::<T>(vnormalize_req(a, length))
    }

    open spec fn normalize_exact() -> bool {
        exact::<T>()
    }

    open spec fn normalize_view(a: Seq<T>, length: T) -> Seq<T> {
        vnormalize(a, length)
    }

    /// Multiplies the vector by `1 / length`.
    fn normalize(&self, length: T) -> (r: Self) {
        let one: T = from_int(1);
        let scale = one / length;
        self.mul_scalar(scale)
    }
}

impl<T: Copy> VecN<T, 2> {
    pub fn new(x: T, y: T) -> (r: Self)
        ensures
            r@ == seq![x, y],
    {
        let r = VecN([x, y]);
        proof {
            assert(r@ =~= seq![x, y]);
        }
        r
    }

    /// Appends `z`, giving a vector of three components.
    pub fn extend(&self, z: T) -> (r: Vec3<T>)
        ensures
            r@ == self@.push(z),
    {
        let r = VecN([self.0[0], self.0[1], z]);
        proof {
            assert(r@ =~= self@.push(z));
        }
        r
    }
}

impl<T: Copy> VecN<T, 3> {
    pub fn new(x: T, y: T, z: T) -> (r: Self)
        ensures
            r@ == seq![x, y, z],
    {
        let r = VecN([x, y, z]);
        proof {
            assert(r@ =~= seq![x, y, z]);
        }
        r
    }

    /// Drops `z`, giving a vector of two components.
    pub fn truncate(&self) -> (r: Vec2<T>)
        ensures
            r@ == self@.drop_last(),
    {
        let r = VecN([self.0[0], self.0[1]]);
        proof {
            assert(r@ =~= self@.drop_last());
        }
        r
    }

    /// Appends `w`, giving a vector of four components.
    pub fn extend(&self, w: T) -> (r: Vec4<T>)
        ensures
            r@ == self@.push(w),
    {
        let r = VecN([self.0[0], self.0[1], self.0[2], w]);
        proof {
            assert(r@ =~= self@.push(w));
        }
        r
    }
}

impl<T: Copy> VecN<T, 4> {
    pub fn new(x: T, y: T, z: T, w: T) -> (r: Self)
        ensures
            r@ == seq![x, y, z, w],
    {
        let r = VecN([x, y, z, w]);
        proof {
            assert(r@ =~= seq![x, y, z, w]);
        }
        r
    }

    /// Drops `w`, giving a vector of three components.
    pub fn truncate(&self) -> (r: Vec3<T>)
        ensures
            r@ == self@.drop_last(),
    {
        let r = VecN([self.0[0], self.0[1], self.0[2]]);
        proof {
            assert(r@ =~= self@.drop_last());
        }
        r
    }
}

} // verus!

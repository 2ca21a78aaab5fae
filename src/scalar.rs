//! The scalar type the kernel computes with.
//!
//! Every operation of the kernel is written once for any `T: Scalar` and is
//! specified through the operator specifications of vstd: when `T`'s
//! operations follow their specifications (`exact::<T>()`, as machine integers
//! do) results are stated exactly; otherwise (single-precision floats) the
//! same code runs without a claim on the rounded values.
use vstd::prelude::*;

verus! {

use core::ops::{Add, Div, Mul, Neg, Sub};
use vstd::std_specs::convert::FromSpec;
use vstd::std_specs::ops::{AddSpec, DivSpec, MulSpec, NegSpec, SubSpec};

/// A value with the five arithmetic operators and small integer constants.
pub trait Scalar: Copy + Add<Output = Self> + Sub<Output = Self> + Mul<Output = Self> + Div<
    Output = Self,
> + Neg<Output = Self> + From<i8> {

}

impl<
    T: Copy + Add<Output = T> + Sub<Output = T> + Mul<Output = T> + Div<Output = T> + Neg<
        Output = T,
    > + From<i8>,
> Scalar for T {

}

/// The operations of `T` return what their specifications say.
pub open spec fn exact<T: Scalar>() -> bool {
    &&& <T as AddSpec>::obeys_add_spec()
    &&& <T as SubSpec>::obeys_sub_spec()
    &&& <T as MulSpec>::obeys_mul_spec()
    &&& <T as DivSpec>::obeys_div_spec()
    &&& <T as NegSpec>::obeys_neg_spec()
    &&& <T as FromSpec<i8>>::obeys_from_spec()
}

/// Every operation of `T` is defined on every pair of operands.
pub open spec fn total<T: Scalar>() -> bool {
    &&& forall|a: T, b: T| #[trigger] a.add_req(b)
    &&& forall|a: T, b: T| #[trigger] a.sub_req(b)
    &&& forall|a: T, b: T| #[trigger] a.mul_req(b)
    &&& forall|a: T, b: T| #[trigger] a.div_req(b)
    &&& forall|a: T| #[trigger] a.neg_req()
}

/// The precondition of a computation made of several operations: either all
/// operations of `T` are defined, or they are exact and every intermediate
/// value described by `req` lies in their domain.
pub open spec fn computable<T: Scalar>(req: bool) -> bool {
    total::<T>() || (exact::<T>() && req)
}

/// The scalar that stands for the integer `n`.
pub open spec fn lit<T: Scalar>(n: int) -> T {
    <T as FromSpec<i8>>::from_spec(n as i8)
}

pub open spec fn sadd<T: Scalar>(a: T, b: T) -> T {
    a.add_spec(b)
}

pub open spec fn ssub<T: Scalar>(a: T, b: T) -> T {
    a.sub_spec(b)
}

pub open spec fn smul<T: Scalar>(a: T, b: T) -> T {
    a.mul_spec(b)
}

pub open spec fn sdiv<T: Scalar>(a: T, b: T) -> T {
    a.div_spec(b)
}

pub open spec fn sneg<T: Scalar>(a: T) -> T {
    a.neg_spec()
}

/// Builds the scalar for the integer `n`.
pub fn from_int<T: Scalar>(n: i8) -> (r: T)
    ensures
        exact::<T>() ==> r == lit::<T>(n as int),
{
    T::from(n)
}

} // verus!

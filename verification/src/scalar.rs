//! The scalar a vector or a matrix is made of.
//!
//! A scalar is any `Copy` type with the five arithmetic operators and a
//! conversion from `u8`, which supplies the constants 0, 1 and 2. The
//! single-precision and double-precision floating-point types are scalars.
use core::ops::{Add, Div, Mul, Neg, Sub};
use vstd::prelude::*;
use vstd::std_specs::convert::FromSpec;
use vstd::std_specs::ops::{AddSpec, DivSpec, MulSpec, NegSpec, SubSpec};

verus! {

/// What a component type has to offer. Every type with these operators is a
/// scalar; there is nothing to implement.
pub trait Scalar: Copy + Add<Output = Self> + Sub<Output = Self> + Mul<Output = Self> + Div<
    Output = Self,
> + Neg<Output = Self> + From<u8> {

}

impl<T> Scalar for T where
    T: Copy + Add<Output = T> + Sub<Output = T> + Mul<Output = T> + Div<Output = T> + Neg<
        Output = T,
    > + From<u8>,
 {

}

/// Every operator of `T` accepts every operand: none of them has a
/// precondition, so none can fail. Floating-point arithmetic is total in this
/// sense (a division by zero yields an infinity or a NaN); the operators of
/// the machine integers, which overflow, are not.
pub open spec fn total<T: Scalar>() -> bool {
    &&& forall|x: T, y: T| #[trigger] x.add_req(y)
    &&& forall|x: T, y: T| #[trigger] x.sub_req(y)
    &&& forall|x: T, y: T| #[trigger] x.mul_req(y)
    &&& forall|x: T, y: T| #[trigger] x.div_req(y)
    &&& forall|x: T| #[trigger] x.neg_req()
}

/// Each operator of `T`, and its conversion from `u8`, is a function of its
/// operands: it returns what `plus`, `minus`, `times`, `over`, `negated` and
/// `constant` say. Results of the library are stated for such scalars.
pub open spec fn deterministic<T: Scalar>() -> bool {
    &&& T::obeys_add_spec()
    &&& T::obeys_sub_spec()
    &&& T::obeys_mul_spec()
    &&& T::obeys_div_spec()
    &&& T::obeys_neg_spec()
    &&& T::obeys_from_spec()
}

/// `x + y` as `T` computes it.
pub open spec fn plus<T: Scalar>(x: T, y: T) -> T {
    x.add_spec(y)
}

/// `x - y` as `T` computes it.
pub open spec fn minus<T: Scalar>(x: T, y: T) -> T {
    x.sub_spec(y)
}

/// `x * y` as `T` computes it.
pub open spec fn times<T: Scalar>(x: T, y: T) -> T {
    x.mul_spec(y)
}

/// `x / y` as `T` computes it.
pub open spec fn over<T: Scalar>(x: T, y: T) -> T {
    x.div_spec(y)
}

/// `-x` as `T` computes it.
pub open spec fn negated<T: Scalar>(x: T) -> T {
    x.neg_spec()
}

/// The scalar that stands for the small integer `n`.
pub open spec fn constant<T: Scalar>(n: u8) -> T {
    T::from_spec(n)
}

/// The scalar 0.
pub open spec fn zero<T: Scalar>() -> T {
    constant(0)
}

/// The scalar 1.
pub open spec fn one<T: Scalar>() -> T {
    constant(1)
}

/// The scalar 2.
pub open spec fn two<T: Scalar>() -> T {
    constant(2)
}

} // verus!

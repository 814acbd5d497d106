use vstd::prelude::*;
use vstd::std_specs::convert::FromSpec;
use vstd::std_specs::ops::AddSpec;
use vstd::std_specs::ops::DivSpec;
use vstd::std_specs::ops::MulSpec;
use vstd::std_specs::ops::NegSpec;
use vstd::std_specs::ops::SubSpec;

verus! {

/// A number type that the geometry can compute with: it is copied freely,
/// has the four arithmetic operators and negation, and takes small integer
/// constants.
pub trait Scalar: Copy + From<i8> + core::ops::Add<Output = Self> + core::ops::Sub<
    Output = Self,
> + core::ops::Mul<Output = Self> + core::ops::Div<Output = Self> + core::ops::Neg<Output = Self> {

}

impl<
    T: Copy + From<i8> + core::ops::Add<Output = T> + core::ops::Sub<Output = T> + core::ops::Mul<
        Output = T,
    > + core::ops::Div<Output = T> + core::ops::Neg<Output = T>,
> Scalar for T {

}

/// The operators of `T` compute what their specifications say.
pub open spec fn exact<T: Scalar>() -> bool {
    &&& T::obeys_add_spec()
    &&& T::obeys_sub_spec()
    &&& T::obeys_mul_spec()
    &&& T::obeys_div_spec()
    &&& T::obeys_neg_spec()
    &&& <T as FromSpec<i8>>::obeys_from_spec()
}

/// Addition of `T` accepts every pair of operands.
pub open spec fn always_adds<T: core::ops::Add<Output = T>>() -> bool {
    forall|a: T, b: T| #[trigger] a.add_req(b)
}

/// Subtraction of `T` accepts every pair of operands.
pub open spec fn always_subtracts<T: core::ops::Sub<Output = T>>() -> bool {
    forall|a: T, b: T| #[trigger] a.sub_req(b)
}

/// Multiplication of `T` accepts every pair of operands.
pub open spec fn always_multiplies<T: core::ops::Mul<Output = T>>() -> bool {
    forall|a: T, b: T| #[trigger] a.mul_req(b)
}

/// Division of `T` accepts every pair of operands.
pub open spec fn always_divides<T: core::ops::Div<Output = T>>() -> bool {
    forall|a: T, b: T| #[trigger] a.div_req(b)
}

/// Negation of `T` accepts every operand.
pub open spec fn always_negates<T: core::ops::Neg<Output = T>>() -> bool {
    forall|a: T| #[trigger] a.neg_req()
}

/// No operator of `T` refuses any operands.
pub open spec fn unfailing<T: Scalar>() -> bool {
    &&& always_adds::<T>()
    &&& always_subtracts::<T>()
    &&& always_multiplies::<T>()
    &&& always_divides::<T>()
    &&& always_negates::<T>()
}

/// `value` is what converting the constant `n` to `T` gave.
pub open spec fn is_constant<T: From<i8>>(value: T, n: i8) -> bool {
    call_ensures(<T as From<i8>>::from, (n,), value)
}

/// `value` is what adding `b` to `a` gave.
pub open spec fn is_sum<T: core::ops::Add<Output = T>>(a: T, b: T, value: T) -> bool {
    call_ensures(<T as core::ops::Add>::add, (a, b), value)
}

/// `value` is what taking `b` away from `a` gave.
pub open spec fn is_difference<T: core::ops::Sub<Output = T>>(a: T, b: T, value: T) -> bool {
    call_ensures(<T as core::ops::Sub>::sub, (a, b), value)
}

/// `value` is what multiplying `a` by `b` gave.
pub open spec fn is_product<T: core::ops::Mul<Output = T>>(a: T, b: T, value: T) -> bool {
    call_ensures(<T as core::ops::Mul>::mul, (a, b), value)
}

/// `value` is what dividing `a` by `b` gave.
pub open spec fn is_quotient<T: core::ops::Div<Output = T>>(a: T, b: T, value: T) -> bool {
    call_ensures(<T as core::ops::Div>::div, (a, b), value)
}

/// `value` is what negating `of` gave.
pub open spec fn is_negation<T: core::ops::Neg<Output = T>>(value: T, of: T) -> bool {
    call_ensures(<T as core::ops::Neg>::neg, (of,), value)
}

/// The constant `n` as a scalar.
pub fn constant<T: Scalar>(n: i8) -> (value: T)
    ensures
        is_constant(value, n),
        exact::<T>() ==> value == T::from_spec(n),
{
    T::from(n)
}

} // verus!

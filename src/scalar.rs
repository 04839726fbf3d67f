//! The element operations that only `num_traits` or std's compound
//! assignment traits provide for a generic element type.

use vstd::prelude::*;
use vstd::float::FloatBitsProperties;
use vstd::std_specs::cmp::{PartialOrdIs, PartialOrdSpec};
use vstd::std_specs::ops::{add_ensures, mul_ensures, sub_ensures, NegSpec};

verus! {

/// Relies on `num_traits::Float::is_nan`: true exactly for the NaN values
/// (for `f32` and `f64` it forwards to the primitive `is_nan`).
#[verifier::external_body]
pub(crate) fn is_nan<T: num_traits::Float + FloatBitsProperties>(v: T) -> (r: bool)
    ensures
        r == v.is_nan_spec(),
{
    v.is_nan()
}

/// Relies on `num_traits::Float::sqrt` (the IEEE square root for `f32` and
/// `f64`): NaN stays NaN, and a root of a value that is neither NaN nor
/// negative is a number. Verus has no semantics for the root's value.
#[verifier::external_body]
pub(crate) fn sqrt<T: num_traits::Float + FloatBitsProperties>(v: T) -> (r: T)
    ensures
        v.is_nan_spec() ==> r.is_nan_spec(),
        !v.is_nan_spec() && !v.is_sign_negative_spec() ==> !r.is_nan_spec(),
{
    v.sqrt()
}

/// Relies on `num_traits::Signed::abs`: for integers
/// `if v.is_negative() { -v } else { v }`. The negation of the least integer
/// overflows, so negation must be defined on `v`.
#[verifier::external_body]
pub(crate) fn abs<T: num_traits::Signed + core::ops::Neg<Output = T> + PartialOrd>(v: &T) -> (r: T)
    requires
        v.neg_req(),
    ensures
        T::obeys_neg_spec() && T::obeys_partial_cmp_spec() ==> r == (if v.is_lt(&v.neg_spec()) {
            v.neg_spec()
        } else {
            *v
        }),
{
    v.abs()
}

/// Relies on std's `AddAssign::add_assign` (`a += b`) for the floating-point
/// types, the implementors of `FloatBitsProperties`: it stores `a + b`, which
/// never panics, so the new value is a result of the element `+`.
#[verifier::external_body]
pub(crate) fn add_assign<T: FloatBitsProperties + core::ops::AddAssign>(a: &mut T, b: T)
    ensures
        add_ensures::<T>(*old(a), b, *final(a)),
{
    *a += b;
}

/// Relies on std's `SubAssign::sub_assign` (`a -= b`) for the floating-point
/// types, the implementors of `FloatBitsProperties`: it stores `a - b`, which
/// never panics, so the new value is a result of the element `-`.
#[verifier::external_body]
pub(crate) fn sub_assign<T: FloatBitsProperties + core::ops::SubAssign>(a: &mut T, b: T)
    ensures
        sub_ensures::<T>(*old(a), b, *final(a)),
{
    *a -= b;
}

/// Relies on std's `MulAssign::mul_assign` (`a *= b`) for the floating-point
/// types, the implementors of `FloatBitsProperties`: it stores `a * b`, which
/// never panics, so the new value is a result of the element `*`.
#[verifier::external_body]
pub(crate) fn mul_assign<T: FloatBitsProperties + core::ops::MulAssign>(a: &mut T, b: T)
    ensures
        mul_ensures::<T>(*old(a), b, *final(a)),
{
    *a *= b;
}

} // verus!

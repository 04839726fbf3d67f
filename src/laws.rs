//! Algebraic laws that relate the vector operations to one another.

use vstd::prelude::*;
use vstd::float::FloatBitsProperties;
use vstd::std_specs::convert::FromSpec;
use vstd::std_specs::ops::{AddSpec, DivSpec, MulSpec};

use crate::vector2::Vector2;
use crate::vector3::Vector3;

verus! {

/// Addition of integer plane vectors commutes: when `a + b` is representable,
/// so is `b + a`, and the two sums are equal.
pub proof fn vector2_add_commutes(a: Vector2<i32>, b: Vector2<i32>)
    requires
        a.add_req(b),
    ensures
        b.add_req(a),
        a.add_spec(b) == b.add_spec(a),
{
}

/// Addition of integer space vectors commutes: when `a + b` is representable,
/// so is `b + a`, and the two sums are equal.
pub proof fn vector3_add_commutes(a: Vector3<i32>, b: Vector3<i32>)
    requires
        a.add_req(b),
    ensures
        b.add_req(a),
        a.add_spec(b) == b.add_spec(a),
{
}

/// Addition of plane vectors commutes over any element type whose own
/// addition commutes: when `a + b` is defined, so is `b + a`, and the two sums
/// are equal.
pub proof fn vector2_add_commutes_when_elements_do<T>(a: Vector2<T>, b: Vector2<T>)
    where
        T: Copy + core::ops::Add<T, Output = T>,
    requires
        forall|p: T, q: T| #[trigger] p.add_req(q) ==> q.add_req(p) && p.add_spec(q) == q.add_spec(p),
        a.add_req(b),
    ensures
        b.add_req(a),
        a.add_spec(b) == b.add_spec(a),
{
    assert(a.x.add_req(b.x));
    assert(a.y.add_req(b.y));
}

/// Addition of space vectors commutes over any element type whose own
/// addition commutes: when `a + b` is defined, so is `b + a`, and the two sums
/// are equal.
pub proof fn vector3_add_commutes_when_elements_do<T>(a: Vector3<T>, b: Vector3<T>)
    where
        T: Copy + core::ops::Add<T, Output = T>,
    requires
        forall|p: T, q: T| #[trigger] p.add_req(q) ==> q.add_req(p) && p.add_spec(q) == q.add_spec(p),
        a.add_req(b),
    ensures
        b.add_req(a),
        a.add_spec(b) == b.add_spec(a),
{
    assert(a.x.add_req(b.x));
    assert(a.y.add_req(b.y));
    assert(a.z.add_req(b.z));
}

/// Dividing a plane vector by `s` is scaling it by the reciprocal `1 / s`.
pub proof fn vector2_div_is_reciprocal_scaling<T>(v: Vector2<T>, s: T)
    where
        T: FloatBitsProperties + Copy + From<u8> + core::ops::Mul<T, Output = T> + core::ops::Div<T, Output = T>,
    ensures
        v.div_spec(s) == v.mul_spec(T::from_spec(1u8).div_spec(s)),
{
}

/// Dividing a space vector by `s` is scaling it by the reciprocal `1 / s`.
pub proof fn vector3_div_is_reciprocal_scaling<T>(v: Vector3<T>, s: T)
    where
        T: FloatBitsProperties + Copy + From<u8> + core::ops::Mul<T, Output = T> + core::ops::Div<T, Output = T>,
    ensures
        v.div_spec(s) == v.mul_spec(T::from_spec(1u8).div_spec(s)),
{
}

/// The squared length of a plane vector is its dot product with itself.
pub proof fn vector2_length_squared_is_self_dot<T>(v: Vector2<T>)
    where
        T: core::ops::Mul<T, Output = T> + core::ops::Add<T, Output = T>,
    ensures
        v.length_squared_spec() == v.dot_spec(v),
{
}

/// The squared length of a space vector is its dot product with itself.
pub proof fn vector3_length_squared_is_self_dot<T>(v: Vector3<T>)
    where
        T: core::ops::Mul<T, Output = T> + core::ops::Add<T, Output = T>,
    ensures
        v.length_squared_spec() == v.dot_spec(v),
{
}

} // verus!

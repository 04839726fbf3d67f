//! The three-component vector.

use vstd::prelude::*;
use vstd::float::FloatBitsProperties;
use vstd::std_specs::cmp::{PartialOrdIs, PartialOrdSpec};
use vstd::std_specs::convert::FromSpec;
use vstd::std_specs::ops::{add_ensures, mul_ensures, sub_ensures};
use vstd::std_specs::ops::{AddSpec, DivSpec, DivSpecImpl, MulSpec, NegSpec, SubSpec};

use crate::scalar;

verus! {

/// A point or displacement in space.
#[derive(Debug, PartialEq, Clone, Copy)]
pub struct Vector3<T> {
    pub x: T,
    pub y: T,
    pub z: T,
}

impl<T> Vector3<T> where T: num_traits::Float + FloatBitsProperties {
    /// The validating constructor: no component may be NaN. A vector built
    /// from its fields directly carries no such guarantee.
    pub fn new(x: T, y: T, z: T) -> (r: Self)
        requires
            !x.is_nan_spec(),
            !y.is_nan_spec(),
            !z.is_nan_spec(),
        ensures
            r == (Vector3 { x, y, z }),
    {
        Vector3 { x: x, y: y, z: z }
    }

    /// Whether some component is NaN.
    pub fn has_nans(self) -> (r: bool)
        ensures
            r == (self.x.is_nan_spec() || self.y.is_nan_spec() || self.z.is_nan_spec()),
    {
        scalar::is_nan(self.x) || scalar::is_nan(self.y) || scalar::is_nan(self.z)
    }
}

impl<T> Vector3<T> where
    T: num_traits::Float + FloatBitsProperties + Copy + core::ops::Mul<T, Output = T> + core::ops::Add<T, Output = T>,
{
    /// The Euclidean length: the square root of `length_squared`.
    pub fn length(self) -> (r: T)
        requires
            self.dot_req(self),
        ensures
            self.length_squared_spec().is_nan_spec() ==> r.is_nan_spec(),
            !self.length_squared_spec().is_nan_spec() && !self.length_squared_spec().is_sign_negative_spec()
                ==> !r.is_nan_spec(),
    {
        scalar::sqrt(self.length_squared())
    }
}

impl<T> Vector3<T> where T: num_traits::Signed + core::ops::Neg<Output = T> + PartialOrd {
    /// The componentwise absolute value.
    pub fn abs(self) -> (r: Vector3<T>)
        requires
            self.x.neg_req(),
            self.y.neg_req(),
            self.z.neg_req(),
        ensures
            T::obeys_neg_spec() && T::obeys_partial_cmp_spec() ==> r.x == (if self.x.is_lt(&self.x.neg_spec()) {
                self.x.neg_spec()
            } else {
                self.x
            }),
            T::obeys_neg_spec() && T::obeys_partial_cmp_spec() ==> r.y == (if self.y.is_lt(&self.y.neg_spec()) {
                self.y.neg_spec()
            } else {
                self.y
            }),
            T::obeys_neg_spec() && T::obeys_partial_cmp_spec() ==> r.z == (if self.z.is_lt(&self.z.neg_spec()) {
                self.z.neg_spec()
            } else {
                self.z
            }),
    {
        Vector3 { x: scalar::abs(&self.x), y: scalar::abs(&self.y), z: scalar::abs(&self.z) }
    }
}

impl<T> Vector3<T> where T: core::ops::Mul<T, Output = T> + core::ops::Add<T, Output = T> {
    /// The dot product `self.x * rhs.x + self.y * rhs.y + self.z * rhs.z`,
    /// as the element type's own arithmetic defines it.
    pub open spec fn dot_spec(self, rhs: Vector3<T>) -> T {
        self.x.mul_spec(rhs.x).add_spec(self.y.mul_spec(rhs.y)).add_spec(self.z.mul_spec(rhs.z))
    }

    /// The element type's arithmetic is known to Verus, and no step of the
    /// dot product with `rhs` fails (for integers: none overflows).
    pub open spec fn dot_req(self, rhs: Vector3<T>) -> bool {
        &&& T::obeys_mul_spec()
        &&& T::obeys_add_spec()
        &&& self.x.mul_req(rhs.x)
        &&& self.y.mul_req(rhs.y)
        &&& self.z.mul_req(rhs.z)
        &&& self.x.mul_spec(rhs.x).add_req(self.y.mul_spec(rhs.y))
        &&& self.x.mul_spec(rhs.x).add_spec(self.y.mul_spec(rhs.y)).add_req(self.z.mul_spec(rhs.z))
    }

    /// The sum of the squared components.
    pub open spec fn length_squared_spec(self) -> T {
        self.x.mul_spec(self.x).add_spec(self.y.mul_spec(self.y)).add_spec(self.z.mul_spec(self.z))
    }

    /// The sum of the squared components.
    pub fn length_squared(self) -> (r: T)
        where T: Copy
        requires
            self.dot_req(self),
        ensures
            r == self.length_squared_spec(),
    {
        self.x * self.x + self.y * self.y + self.z * self.z
    }

    /// The dot product of `self` and `rhs`.
    pub fn dot(self, rhs: Vector3<T>) -> (r: T)
        requires
            self.dot_req(rhs),
        ensures
            r == self.dot_spec(rhs),
    {
        self.x * rhs.x + self.y * rhs.y + self.z * rhs.z
    }
}

/// The dot product of `a` and `b`, the same as `a.dot(b)`.
pub fn vec3_dot<T>(a: Vector3<T>, b: Vector3<T>) -> (r: T)
    where T: core::ops::Mul<T, Output = T> + core::ops::Add<T, Output = T>
    requires
        a.dot_req(b),
    ensures
        r == a.dot_spec(b),
{
    a.x * b.x + a.y * b.y + a.z * b.z
}

impl<T> vstd::std_specs::ops::AddSpecImpl for Vector3<T> where T: Copy + core::ops::Add<T, Output = T> {
    open spec fn obeys_add_spec() -> bool {
        T::obeys_add_spec()
    }

    open spec fn add_req(self, rhs: Vector3<T>) -> bool {
        self.x.add_req(rhs.x) && self.y.add_req(rhs.y) && self.z.add_req(rhs.z)
    }

    open spec fn add_spec(self, rhs: Vector3<T>) -> Vector3<T> {
        Vector3 { x: self.x.add_spec(rhs.x), y: self.y.add_spec(rhs.y), z: self.z.add_spec(rhs.z) }
    }
}

impl<T> core::ops::Add for Vector3<T> where T: Copy + core::ops::Add<T, Output = T> {
    type Output = Vector3<T>;

    fn add(self, rhs: Vector3<T>) -> Vector3<T> {
        Vector3 { x: self.x + rhs.x, y: self.y + rhs.y, z: self.z + rhs.z }
    }
}

impl<T> vstd::std_specs::ops::SubSpecImpl for Vector3<T> where T: Copy + core::ops::Sub<T, Output = T> {
    open spec fn obeys_sub_spec() -> bool {
        T::obeys_sub_spec()
    }

    open spec fn sub_req(self, rhs: Vector3<T>) -> bool {
        self.x.sub_req(rhs.x) && self.y.sub_req(rhs.y) && self.z.sub_req(rhs.z)
    }

    open spec fn sub_spec(self, rhs: Vector3<T>) -> Vector3<T> {
        Vector3 { x: self.x.sub_spec(rhs.x), y: self.y.sub_spec(rhs.y), z: self.z.sub_spec(rhs.z) }
    }
}

impl<T> core::ops::Sub for Vector3<T> where T: Copy + core::ops::Sub<T, Output = T> {
    type Output = Vector3<T>;

    fn sub(self, rhs: Vector3<T>) -> Vector3<T> {
        Vector3 { x: self.x - rhs.x, y: self.y - rhs.y, z: self.z - rhs.z }
    }
}

impl<T> vstd::std_specs::ops::MulSpecImpl<T> for Vector3<T> where
    T: FloatBitsProperties + Copy + core::ops::Mul<T, Output = T>,
{
    open spec fn obeys_mul_spec() -> bool {
        T::obeys_mul_spec()
    }

    open spec fn mul_req(self, rhs: T) -> bool {
        self.x.mul_req(rhs) && self.y.mul_req(rhs) && self.z.mul_req(rhs)
    }

    open spec fn mul_spec(self, rhs: T) -> Vector3<T> {
        Vector3 { x: self.x.mul_spec(rhs), y: self.y.mul_spec(rhs), z: self.z.mul_spec(rhs) }
    }
}

impl<T> core::ops::Mul<T> for Vector3<T> where
    T: FloatBitsProperties + Copy + core::ops::Mul<T, Output = T>,
{
    type Output = Vector3<T>;

    /// Scales every component by `rhs`; like division, offered for
    /// floating-point element types.
    fn mul(self, rhs: T) -> Vector3<T> {
        Vector3 { x: self.x * rhs, y: self.y * rhs, z: self.z * rhs }
    }
}

impl<T> Vector3<T> where T: Copy {
    /// Adds `rhs` to `self` in place, for any element type whose sums of
    /// the components are defined (for integers: do not overflow).
    pub fn add_in_place(&mut self, rhs: Vector3<T>)
        where T: core::ops::Add<T, Output = T>
        requires
            old(self).add_req(rhs),
        ensures
            T::obeys_add_spec() ==> *final(self) == old(self).add_spec(rhs),
    {
        self.x = self.x + rhs.x;
        self.y = self.y + rhs.y;
        self.z = self.z + rhs.z;
    }

    /// Subtracts `rhs` from `self` in place, for any element type whose
    /// differences of the components are defined (for integers: do not
    /// overflow).
    pub fn sub_in_place(&mut self, rhs: Vector3<T>)
        where T: core::ops::Sub<T, Output = T>
        requires
            old(self).sub_req(rhs),
        ensures
            T::obeys_sub_spec() ==> *final(self) == old(self).sub_spec(rhs),
    {
        self.x = self.x - rhs.x;
        self.y = self.y - rhs.y;
        self.z = self.z - rhs.z;
    }

    /// Scales `self` by `constant` in place, for any element type whose
    /// products of the components are defined (for integers: do not overflow).
    pub fn scale_in_place(&mut self, constant: T)
        where T: core::ops::Mul<T, Output = T>
        requires
            old(self).x.mul_req(constant),
            old(self).y.mul_req(constant),
            old(self).z.mul_req(constant),
        ensures
            T::obeys_mul_spec() ==> final(self).x == old(self).x.mul_spec(constant),
            T::obeys_mul_spec() ==> final(self).y == old(self).y.mul_spec(constant),
            T::obeys_mul_spec() ==> final(self).z == old(self).z.mul_spec(constant),
    {
        self.x = self.x * constant;
        self.y = self.y * constant;
        self.z = self.z * constant;
    }
}

impl<T> core::ops::AddAssign for Vector3<T> where T: FloatBitsProperties + core::ops::AddAssign + Copy {
    /// Componentwise, for floating-point element types, whose compound
    /// assignment cannot panic; other element types have `add_in_place`.
    fn add_assign(&mut self, rhs: Vector3<T>)
        ensures
            add_ensures::<T>(old(self).x, rhs.x, final(self).x),
            add_ensures::<T>(old(self).y, rhs.y, final(self).y),
            add_ensures::<T>(old(self).z, rhs.z, final(self).z),
    {
        scalar::add_assign(&mut self.x, rhs.x);
        scalar::add_assign(&mut self.y, rhs.y);
        scalar::add_assign(&mut self.z, rhs.z);
    }
}

impl<T> core::ops::SubAssign for Vector3<T> where T: FloatBitsProperties + core::ops::SubAssign + Copy {
    /// Componentwise, for floating-point element types, whose compound
    /// assignment cannot panic; other element types have `sub_in_place`.
    fn sub_assign(&mut self, rhs: Vector3<T>)
        ensures
            sub_ensures::<T>(old(self).x, rhs.x, final(self).x),
            sub_ensures::<T>(old(self).y, rhs.y, final(self).y),
            sub_ensures::<T>(old(self).z, rhs.z, final(self).z),
    {
        scalar::sub_assign(&mut self.x, rhs.x);
        scalar::sub_assign(&mut self.y, rhs.y);
        scalar::sub_assign(&mut self.z, rhs.z);
    }
}

impl<T> core::ops::MulAssign<T> for Vector3<T> where T: FloatBitsProperties + core::ops::MulAssign + Copy {
    /// Componentwise, for floating-point element types, whose compound
    /// assignment cannot panic; other element types have `scale_in_place`.
    fn mul_assign(&mut self, constant: T)
        ensures
            mul_ensures::<T>(old(self).x, constant, final(self).x),
            mul_ensures::<T>(old(self).y, constant, final(self).y),
            mul_ensures::<T>(old(self).z, constant, final(self).z),
    {
        scalar::mul_assign(&mut self.x, constant);
        scalar::mul_assign(&mut self.y, constant);
        scalar::mul_assign(&mut self.z, constant);
    }
}

impl<T> DivSpecImpl<T> for Vector3<T> where
    T: FloatBitsProperties + Copy + From<u8> + core::ops::Mul<T, Output = T> + core::ops::Div<T, Output = T>,
{
    open spec fn obeys_div_spec() -> bool {
        T::obeys_mul_spec() && T::obeys_div_spec() && T::obeys_from_spec()
    }

    open spec fn div_req(self, rhs: T) -> bool {
        &&& T::obeys_from_spec()
        &&& T::obeys_div_spec()
        &&& T::from_spec(1u8).div_req(rhs)
        &&& self.mul_req(T::from_spec(1u8).div_spec(rhs))
    }

    /// Scaling by the reciprocal `1 / rhs`.
    open spec fn div_spec(self, rhs: T) -> Vector3<T> {
        self.mul_spec(T::from_spec(1u8).div_spec(rhs))
    }
}

impl<T> core::ops::Div<T> for Vector3<T> where
    T: FloatBitsProperties + Copy + From<u8> + core::ops::Mul<T, Output = T> + core::ops::Div<T, Output = T>,
{
    type Output = Vector3<T>;

    /// Multiplies by the reciprocal of `rhs`, computed once.
    fn div(self, rhs: T) -> Vector3<T> {
        let one: T = T::from(1u8);
        self * (one / rhs)
    }
}

impl<T> vstd::std_specs::ops::NegSpecImpl for Vector3<T> where T: Copy + core::ops::Neg<Output = T> {
    open spec fn obeys_neg_spec() -> bool {
        T::obeys_neg_spec()
    }

    open spec fn neg_req(self) -> bool {
        self.x.neg_req() && self.y.neg_req() && self.z.neg_req()
    }

    open spec fn neg_spec(self) -> Vector3<T> {
        Vector3 { x: self.x.neg_spec(), y: self.y.neg_spec(), z: self.z.neg_spec() }
    }
}

impl<T> core::ops::Neg for Vector3<T> where T: Copy + core::ops::Neg<Output = T> {
    type Output = Vector3<T>;

    fn neg(self) -> Vector3<T> {
        Vector3 { x: self.x.neg(), y: self.y.neg(), z: self.z.neg() }
    }
}

impl<T> vstd::std_specs::core::IndexSpecImpl<u32> for Vector3<T> {
    open spec fn index_req(&self, index: &u32) -> bool {
        *index < 3
    }
}

impl<T> core::ops::Index<u32> for Vector3<T> {
    type Output = T;

    fn index(&self, index: u32) -> (r: &T)
        ensures
            index == 0 ==> *r == self.x,
            index == 1 ==> *r == self.y,
            index == 2 ==> *r == self.z,
    {
        let parts: [&T; 3] = [&self.x, &self.y, &self.z];
        parts[index as usize]
    }
}

} // verus!

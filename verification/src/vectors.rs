//! Vectors of two, three and four components over any `Number`.
//!
//! A generic number has no integer behind it that a contract could speak of,
//! so what these functions return is stated over the spec functions of the
//! operators themselves (`add_spec`, `mul_spec`, ...), and what they require
//! is that each operation they perform is defined (`add_req`, `mul_req`,
//! ...): for the machine integers, that it does not overflow. Where one
//! operation feeds another, the operators of `T` must also follow their spec
//! functions (`obeys_add_spec`, ...), as those of the machine integers and of
//! the angle do.

use core::ops::{Add, Div, Mul, Neg, Sub};
use vstd::prelude::*;
use vstd::std_specs::cmp::{PartialOrdIs, PartialOrdSpec};
use vstd::std_specs::ops::{AddSpec, DivSpec, MulSpec, NegSpec, SubSpec};

use crate::angle::Angle;
use crate::traits::{
    is_isqrt, lemma_isqrt_fits, lemma_isqrt_is_root, Number, Signed, Sqrt, Trigonometry,
    Unsigned,
};

verus! {

/// A vector of two components.
#[derive(Copy, PartialEq, Eq, Hash, Default, Debug)]
pub struct Vec2<T: Number>(pub T, pub T);

/// A vector of three components.
#[derive(Copy, PartialEq, Eq, Hash, Default, Debug)]
pub struct Vec3<T: Number>(pub T, pub T, pub T);

/// A vector of four components.
#[derive(Copy, PartialEq, Eq, Hash, Default, Debug)]
pub struct Vec4<T: Number>(pub T, pub T, pub T, pub T);

impl<T: Number> Clone for Vec2<T> {
    fn clone(&self) -> (r: Self)
        ensures
            r == *self,
    {
        *self
    }
}

impl<T: Number> Clone for Vec3<T> {
    fn clone(&self) -> (r: Self)
        ensures
            r == *self,
    {
        *self
    }
}

impl<T: Number> Clone for Vec4<T> {
    fn clone(&self) -> (r: Self)
        ensures
            r == *self,
    {
        *self
    }
}

impl<T: Number> Vec2<T> {
    /// The `x` component.
    pub fn x(&self) -> (r: T)
        ensures
            r == self.0,
    {
        self.0
    }

    /// The `y` component.
    pub fn y(&self) -> (r: T)
        ensures
            r == self.1,
    {
        self.1
    }

    /// The `x` component, to write through: the other components
    /// stay as they are.
    pub fn x_mut(&mut self) -> (r: &mut T)
        ensures
            *r == old(self).0,
            *final(self) == Vec2(*final(r), old(self).1),
    {
        &mut self.0
    }

    /// The `y` component, to write through: the other components
    /// stay as they are.
    pub fn y_mut(&mut self) -> (r: &mut T)
        ensures
            *r == old(self).1,
            *final(self) == Vec2(old(self).0, *final(r)),
    {
        &mut self.1
    }

    /// Whether every operation of the dot product of `a` and `b` is defined.
    pub open spec fn dot_req(a: Self, b: Self) -> bool {
        &&& a.0.mul_req(b.0)
        &&& a.1.mul_req(b.1)
        &&& a.0.mul_spec(b.0).add_req(a.1.mul_spec(b.1))
    }

    /// The dot product: `a.0 * b.0 + a.1 * b.1`.
    pub open spec fn dot_spec(a: Self, b: Self) -> T {
        a.0.mul_spec(b.0).add_spec(a.1.mul_spec(b.1))
    }

    /// The squared length: the dot product of the vector with itself.
    pub open spec fn squared_magnitude_spec(self) -> T {
        Self::dot_spec(self, self)
    }

    /// The dot product of two vectors.
    pub fn dot(a: Self, b: Self) -> (r: T)
        requires
            T::obeys_mul_spec(),
            T::obeys_add_spec(),
            Self::dot_req(a, b),
        ensures
            r == Self::dot_spec(a, b),
    {
        a.0 * b.0 + a.1 * b.1
    }

    /// The squared length of the vector.
    pub fn squared_magnitude(&self) -> (r: T)
        requires
            T::obeys_mul_spec(),
            T::obeys_add_spec(),
            Self::dot_req(*self, *self),
        ensures
            r == self.squared_magnitude_spec(),
    {
        self.0 * self.0 + self.1 * self.1
    }

    /// Whether `b` lies beyond `a` in both components.
    pub open spec fn beyond(a: Self, b: Self) -> bool {
        b.0.is_gt(&a.0) && b.1.is_gt(&a.1)
    }

    /// Whether the subtraction that `uvec2_distance` makes is defined.
    pub open spec fn span_req(a: Self, b: Self) -> bool {
        if Self::beyond(a, b) {
            b.sub_req(a)
        } else {
            a.sub_req(b)
        }
    }

    /// The difference of two unsigned vectors: `b - a` where `b` lies
    /// beyond `a` in both components, `a - b` otherwise.
    pub open spec fn span_spec(a: Self, b: Self) -> Self {
        if Self::beyond(a, b) {
            b.sub_spec(a)
        } else {
            a.sub_spec(b)
        }
    }
}

impl<T: Unsigned> Vec2<T> {
    /// The length of an unsigned vector: the square root of its squared
    /// length.
    pub fn uvec2_magnitude(&self) -> (r: T) where T: Sqrt
        requires
            T::obeys_mul_spec(),
            T::obeys_add_spec(),
            Self::dot_req(*self, *self),
        ensures
            r == self.squared_magnitude_spec().sqrt_spec(),
    {
        (self.0 * self.0 + self.1 * self.1).sqrt()
    }

    /// The distance between two unsigned vectors: the length of their
    /// difference, taken as `b - a` where `b` lies beyond `a` in both
    /// components and as `a - b` otherwise.
    pub fn uvec2_distance(a: Self, b: Self) -> (r: T) where T: Sqrt
        requires
            T::obeys_sub_spec(),
            T::obeys_mul_spec(),
            T::obeys_add_spec(),
            T::obeys_partial_cmp_spec(),
            Self::span_req(a, b),
            Self::dot_req(Self::span_spec(a, b), Self::span_spec(a, b)),
        ensures
            r == Self::span_spec(a, b).squared_magnitude_spec().sqrt_spec(),
    {
        let span = if b.0 > a.0 && b.1 > a.1 {
            b - a
        } else {
            a - b
        };
        span.uvec2_magnitude()
    }
}

impl<T: Signed> Vec2<T> {
    /// The length of a signed vector, in the unsigned type: the square root
    /// of its squared length.
    pub fn ivec2_magnitude(&self) -> (r: T::Unsigned) where T::Unsigned: Sqrt
        requires
            T::obeys_mul_spec(),
            T::obeys_add_spec(),
            Self::dot_req(*self, *self),
            self.squared_magnitude_spec().unsigned_req(),
        ensures
            r == self.squared_magnitude_spec().unsigned_spec().sqrt_spec(),
    {
        (self.0 * self.0 + self.1 * self.1).into_unsigned().sqrt()
    }

    /// The distance between two signed vectors: the length of `b - a`.
    pub fn ivec2_distance(a: Self, b: Self) -> (r: T::Unsigned) where T::Unsigned: Sqrt
        requires
            T::obeys_sub_spec(),
            T::obeys_mul_spec(),
            T::obeys_add_spec(),
            b.sub_req(a),
            Self::dot_req(b.sub_spec(a), b.sub_spec(a)),
            b.sub_spec(a).squared_magnitude_spec().unsigned_req(),
        ensures
            r == b.sub_spec(a).squared_magnitude_spec().unsigned_spec().sqrt_spec(),
    {
        (b - a).ivec2_magnitude()
    }
}

impl vstd::std_specs::convert::FromSpecImpl<Vec2<u8>> for Vec2<u16> {
    open spec fn obeys_from_spec() -> bool {
        true
    }

    open spec fn from_spec(v: Vec2<u8>) -> Vec2<u16> {
        Vec2(v.0 as u16, v.1 as u16)
    }
}

/// Widens each component.
impl From<Vec2<u8>> for Vec2<u16> {
    fn from(vec2: Vec2<u8>) -> (r: Self) {
        Vec2(vec2.0 as u16, vec2.1 as u16)
    }
}

impl vstd::std_specs::convert::FromSpecImpl<Angle> for Vec2<i32> {
    open spec fn obeys_from_spec() -> bool {
        true
    }

    open spec fn from_spec(angle: Angle) -> Vec2<i32> {
        Vec2(angle.cos_spec() as i32, angle.sin_spec() as i32)
    }
}

/// The unit vector at an angle, from polar coordinates: `(cos, sin)` as
/// fixed-point integers in units of `2^-29`.
impl From<Angle> for Vec2<i32> {
    fn from(angle: Angle) -> (r: Self) {
        Vec2(angle.cos(), angle.sin())
    }
}

impl<T: Signed> vstd::std_specs::ops::NegSpecImpl for Vec2<T> {
    open spec fn obeys_neg_spec() -> bool {
        T::obeys_neg_spec()
    }

    open spec fn neg_req(self) -> bool {
        self.0.neg_req() && self.1.neg_req()
    }

    open spec fn neg_spec(self) -> Vec2<T> {
        Vec2(self.0.neg_spec(), self.1.neg_spec())
    }
}

/// Negation, component by component.
impl<T: Signed> Neg for Vec2<T> {
    type Output = Self;

    fn neg(self) -> (r: Self) {
        Vec2(self.0.neg(), self.1.neg())
    }
}

impl<T: Number> vstd::std_specs::ops::AddSpecImpl for Vec2<T> {
    open spec fn obeys_add_spec() -> bool {
        T::obeys_add_spec()
    }

    open spec fn add_req(self, rhs: Vec2<T>) -> bool {
        self.0.add_req(rhs.0) && self.1.add_req(rhs.1)
    }

    open spec fn add_spec(self, rhs: Vec2<T>) -> Vec2<T> {
        Vec2(self.0.add_spec(rhs.0), self.1.add_spec(rhs.1))
    }
}

/// Addition, component by component.
impl<T: Number> Add for Vec2<T> {
    type Output = Self;

    fn add(self, rhs: Vec2<T>) -> (r: Self) {
        Vec2(self.0 + rhs.0, self.1 + rhs.1)
    }
}

impl<T: Number> vstd::std_specs::ops::SubSpecImpl for Vec2<T> {
    open spec fn obeys_sub_spec() -> bool {
        T::obeys_sub_spec()
    }

    open spec fn sub_req(self, rhs: Vec2<T>) -> bool {
        self.0.sub_req(rhs.0) && self.1.sub_req(rhs.1)
    }

    open spec fn sub_spec(self, rhs: Vec2<T>) -> Vec2<T> {
        Vec2(self.0.sub_spec(rhs.0), self.1.sub_spec(rhs.1))
    }
}

/// Subtraction, component by component.
impl<T: Number> Sub for Vec2<T> {
    type Output = Self;

    fn sub(self, rhs: Vec2<T>) -> (r: Self) {
        Vec2(self.0 - rhs.0, self.1 - rhs.1)
    }
}

impl<T: Number> vstd::std_specs::ops::MulSpecImpl<T> for Vec2<T> {
    open spec fn obeys_mul_spec() -> bool {
        T::obeys_mul_spec()
    }

    open spec fn mul_req(self, rhs: T) -> bool {
        self.0.mul_req(rhs) && self.1.mul_req(rhs)
    }

    open spec fn mul_spec(self, rhs: T) -> Vec2<T> {
        Vec2(self.0.mul_spec(rhs), self.1.mul_spec(rhs))
    }
}

/// Scaling: each component times `rhs`.
impl<T: Number> Mul<T> for Vec2<T> {
    type Output = Self;

    fn mul(self, rhs: T) -> (r: Self) {
        Vec2(self.0 * rhs, self.1 * rhs)
    }
}

impl<T: Number> vstd::std_specs::ops::DivSpecImpl<T> for Vec2<T> {
    open spec fn obeys_div_spec() -> bool {
        T::obeys_div_spec()
    }

    open spec fn div_req(self, rhs: T) -> bool {
        self.0.div_req(rhs) && self.1.div_req(rhs)
    }

    open spec fn div_spec(self, rhs: T) -> Vec2<T> {
        Vec2(self.0.div_spec(rhs), self.1.div_spec(rhs))
    }
}

/// Each component divided by `rhs`.
impl<T: Number> Div<T> for Vec2<T> {
    type Output = Self;

    fn div(self, rhs: T) -> (r: Self) {
        Vec2(self.0 / rhs, self.1 / rhs)
    }
}

impl<T: Number> Vec2<T> {
    /// Adds `rhs` to the vector in place.
    pub fn add_assign(&mut self, rhs: Self)
        requires
            old(self).add_req(rhs),
        ensures
            T::obeys_add_spec() ==> *final(self) == old(self).add_spec(rhs),
    {
        self.0 = self.0 + rhs.0;
        self.1 = self.1 + rhs.1;
    }

    /// Subtracts `rhs` from the vector in place.
    pub fn sub_assign(&mut self, rhs: Self)
        requires
            old(self).sub_req(rhs),
        ensures
            T::obeys_sub_spec() ==> *final(self) == old(self).sub_spec(rhs),
    {
        self.0 = self.0 - rhs.0;
        self.1 = self.1 - rhs.1;
    }

    /// Scales the vector by `rhs` in place.
    pub fn mul_assign(&mut self, rhs: T)
        requires
            old(self).mul_req(rhs),
        ensures
            T::obeys_mul_spec() ==> *final(self) == old(self).mul_spec(rhs),
    {
        self.0 = self.0 * rhs;
        self.1 = self.1 * rhs;
    }

    /// Divides the vector by `rhs` in place.
    pub fn div_assign(&mut self, rhs: T)
        requires
            old(self).div_req(rhs),
        ensures
            T::obeys_div_spec() ==> *final(self) == old(self).div_spec(rhs),
    {
        self.0 = self.0 / rhs;
        self.1 = self.1 / rhs;
    }
}

impl<T: Number> Vec3<T> {
    /// The `x` component.
    pub fn x(&self) -> (r: T)
        ensures
            r == self.0,
    {
        self.0
    }

    /// The `y` component.
    pub fn y(&self) -> (r: T)
        ensures
            r == self.1,
    {
        self.1
    }

    /// The `z` component.
    pub fn z(&self) -> (r: T)
        ensures
            r == self.2,
    {
        self.2
    }

    /// The `x` component, to write through: the other components
    /// stay as they are.
    pub fn x_mut(&mut self) -> (r: &mut T)
        ensures
            *r == old(self).0,
            *final(self) == Vec3(*final(r), old(self).1, old(self).2),
    {
        &mut self.0
    }

    /// The `y` component, to write through: the other components
    /// stay as they are.
    pub fn y_mut(&mut self) -> (r: &mut T)
        ensures
            *r == old(self).1,
            *final(self) == Vec3(old(self).0, *final(r), old(self).2),
    {
        &mut self.1
    }

    /// The `z` component, to write through: the other components
    /// stay as they are.
    pub fn z_mut(&mut self) -> (r: &mut T)
        ensures
            *r == old(self).2,
            *final(self) == Vec3(old(self).0, old(self).1, *final(r)),
    {
        &mut self.2
    }

    /// The components `x` and `y`, in that order.
    pub fn xy(&self) -> (r: Vec2<T>)
        ensures
            r == Vec2(self.0, self.1),
    {
        Vec2(self.0, self.1)
    }

    /// The components `y` and `z`, in that order.
    pub fn yz(&self) -> (r: Vec2<T>)
        ensures
            r == Vec2(self.1, self.2),
    {
        Vec2(self.1, self.2)
    }

    /// The components `x` and `z`, in that order.
    pub fn xz(&self) -> (r: Vec2<T>)
        ensures
            r == Vec2(self.0, self.2),
    {
        Vec2(self.0, self.2)
    }
}

impl<T: Signed> vstd::std_specs::ops::NegSpecImpl for Vec3<T> {
    open spec fn obeys_neg_spec() -> bool {
        T::obeys_neg_spec()
    }

    open spec fn neg_req(self) -> bool {
        self.0.neg_req() && self.1.neg_req() && self.2.neg_req()
    }

    open spec fn neg_spec(self) -> Vec3<T> {
        Vec3(self.0.neg_spec(), self.1.neg_spec(), self.2.neg_spec())
    }
}

/// Negation, component by component.
impl<T: Signed> Neg for Vec3<T> {
    type Output = Self;

    fn neg(self) -> (r: Self) {
        Vec3(self.0.neg(), self.1.neg(), self.2.neg())
    }
}

impl<T: Number> vstd::std_specs::ops::AddSpecImpl for Vec3<T> {
    open spec fn obeys_add_spec() -> bool {
        T::obeys_add_spec()
    }

    open spec fn add_req(self, rhs: Vec3<T>) -> bool {
        self.0.add_req(rhs.0) && self.1.add_req(rhs.1) && self.2.add_req(rhs.2)
    }

    open spec fn add_spec(self, rhs: Vec3<T>) -> Vec3<T> {
        Vec3(self.0.add_spec(rhs.0), self.1.add_spec(rhs.1), self.2.add_spec(rhs.2))
    }
}

/// Addition, component by component.
impl<T: Number> Add for Vec3<T> {
    type Output = Self;

    fn add(self, rhs: Vec3<T>) -> (r: Self) {
        Vec3(self.0 + rhs.0, self.1 + rhs.1, self.2 + rhs.2)
    }
}

impl<T: Number> vstd::std_specs::ops::SubSpecImpl for Vec3<T> {
    open spec fn obeys_sub_spec() -> bool {
        T::obeys_sub_spec()
    }

    open spec fn sub_req(self, rhs: Vec3<T>) -> bool {
        self.0.sub_req(rhs.0) && self.1.sub_req(rhs.1) && self.2.sub_req(rhs.2)
    }

    open spec fn sub_spec(self, rhs: Vec3<T>) -> Vec3<T> {
        Vec3(self.0.sub_spec(rhs.0), self.1.sub_spec(rhs.1), self.2.sub_spec(rhs.2))
    }
}

/// Subtraction, component by component.
impl<T: Number> Sub for Vec3<T> {
    type Output = Self;

    fn sub(self, rhs: Vec3<T>) -> (r: Self) {
        Vec3(self.0 - rhs.0, self.1 - rhs.1, self.2 - rhs.2)
    }
}

impl<T: Number> vstd::std_specs::ops::MulSpecImpl<T> for Vec3<T> {
    open spec fn obeys_mul_spec() -> bool {
        T::obeys_mul_spec()
    }

    open spec fn mul_req(self, rhs: T) -> bool {
        self.0.mul_req(rhs) && self.1.mul_req(rhs) && self.2.mul_req(rhs)
    }

    open spec fn mul_spec(self, rhs: T) -> Vec3<T> {
        Vec3(self.0.mul_spec(rhs), self.1.mul_spec(rhs), self.2.mul_spec(rhs))
    }
}

/// Scaling: each component times `rhs`.
impl<T: Number> Mul<T> for Vec3<T> {
    type Output = Self;

    fn mul(self, rhs: T) -> (r: Self) {
        Vec3(self.0 * rhs, self.1 * rhs, self.2 * rhs)
    }
}

impl<T: Number> vstd::std_specs::ops::DivSpecImpl<T> for Vec3<T> {
    open spec fn obeys_div_spec() -> bool {
        T::obeys_div_spec()
    }

    open spec fn div_req(self, rhs: T) -> bool {
        self.0.div_req(rhs) && self.1.div_req(rhs) && self.2.div_req(rhs)
    }

    open spec fn div_spec(self, rhs: T) -> Vec3<T> {
        Vec3(self.0.div_spec(rhs), self.1.div_spec(rhs), self.2.div_spec(rhs))
    }
}

/// Each component divided by `rhs`.
impl<T: Number> Div<T> for Vec3<T> {
    type Output = Self;

    fn div(self, rhs: T) -> (r: Self) {
        Vec3(self.0 / rhs, self.1 / rhs, self.2 / rhs)
    }
}

impl<T: Number> Vec3<T> {
    /// Adds `rhs` to the vector in place.
    pub fn add_assign(&mut self, rhs: Self)
        requires
            old(self).add_req(rhs),
        ensures
            T::obeys_add_spec() ==> *final(self) == old(self).add_spec(rhs),
    {
        self.0 = self.0 + rhs.0;
        self.1 = self.1 + rhs.1;
        self.2 = self.2 + rhs.2;
    }

    /// Subtracts `rhs` from the vector in place.
    pub fn sub_assign(&mut self, rhs: Self)
        requires
            old(self).sub_req(rhs),
        ensures
            T::obeys_sub_spec() ==> *final(self) == old(self).sub_spec(rhs),
    {
        self.0 = self.0 - rhs.0;
        self.1 = self.1 - rhs.1;
        self.2 = self.2 - rhs.2;
    }

    /// Scales the vector by `rhs` in place.
    pub fn mul_assign(&mut self, rhs: T)
        requires
            old(self).mul_req(rhs),
        ensures
            T::obeys_mul_spec() ==> *final(self) == old(self).mul_spec(rhs),
    {
        self.0 = self.0 * rhs;
        self.1 = self.1 * rhs;
        self.2 = self.2 * rhs;
    }

    /// Divides the vector by `rhs` in place.
    pub fn div_assign(&mut self, rhs: T)
        requires
            old(self).div_req(rhs),
        ensures
            T::obeys_div_spec() ==> *final(self) == old(self).div_spec(rhs),
    {
        self.0 = self.0 / rhs;
        self.1 = self.1 / rhs;
        self.2 = self.2 / rhs;
    }
}

impl<T: Number> Vec4<T> {
    /// The `x` component.
    pub fn x(&self) -> (r: T)
        ensures
            r == self.0,
    {
        self.0
    }

    /// The `y` component.
    pub fn y(&self) -> (r: T)
        ensures
            r == self.1,
    {
        self.1
    }

    /// The `z` component.
    pub fn z(&self) -> (r: T)
        ensures
            r == self.2,
    {
        self.2
    }

    /// The `w` component.
    pub fn w(&self) -> (r: T)
        ensures
            r == self.3,
    {
        self.3
    }

    /// The `x` component, to write through: the other components
    /// stay as they are.
    pub fn x_mut(&mut self) -> (r: &mut T)
        ensures
            *r == old(self).0,
            *final(self) == Vec4(*final(r), old(self).1, old(self).2, old(self).3),
    {
        &mut self.0
    }

    /// The `y` component, to write through: the other components
    /// stay as they are.
    pub fn y_mut(&mut self) -> (r: &mut T)
        ensures
            *r == old(self).1,
            *final(self) == Vec4(old(self).0, *final(r), old(self).2, old(self).3),
    {
        &mut self.1
    }

    /// The `z` component, to write through: the other components
    /// stay as they are.
    pub fn z_mut(&mut self) -> (r: &mut T)
        ensures
            *r == old(self).2,
            *final(self) == Vec4(old(self).0, old(self).1, *final(r), old(self).3),
    {
        &mut self.2
    }

    /// The `w` component, to write through: the other components
    /// stay as they are.
    pub fn w_mut(&mut self) -> (r: &mut T)
        ensures
            *r == old(self).3,
            *final(self) == Vec4(old(self).0, old(self).1, old(self).2, *final(r)),
    {
        &mut self.3
    }

    /// The components `x` and `y`, in that order.
    pub fn xy(&self) -> (r: Vec2<T>)
        ensures
            r == Vec2(self.0, self.1),
    {
        Vec2(self.0, self.1)
    }

    /// The components `x` and `z`, in that order.
    pub fn xz(&self) -> (r: Vec2<T>)
        ensures
            r == Vec2(self.0, self.2),
    {
        Vec2(self.0, self.2)
    }

    /// The components `x` and `w`, in that order.
    pub fn xw(&self) -> (r: Vec2<T>)
        ensures
            r == Vec2(self.0, self.3),
    {
        Vec2(self.0, self.3)
    }

    /// The components `y` and `z`, in that order.
    pub fn yz(&self) -> (r: Vec2<T>)
        ensures
            r == Vec2(self.1, self.2),
    {
        Vec2(self.1, self.2)
    }

    /// The components `y` and `w`, in that order.
    pub fn yw(&self) -> (r: Vec2<T>)
        ensures
            r == Vec2(self.1, self.3),
    {
        Vec2(self.1, self.3)
    }

    /// The components `z` and `w`, in that order.
    pub fn zw(&self) -> (r: Vec2<T>)
        ensures
            r == Vec2(self.2, self.3),
    {
        Vec2(self.2, self.3)
    }

    /// The components `x`, `y` and `z`, in that order.
    pub fn xyz(&self) -> (r: Vec3<T>)
        ensures
            r == Vec3(self.0, self.1, self.2),
    {
        Vec3(self.0, self.1, self.2)
    }

    /// The components `x`, `y` and `w`, in that order.
    pub fn xyw(&self) -> (r: Vec3<T>)
        ensures
            r == Vec3(self.0, self.1, self.3),
    {
        Vec3(self.0, self.1, self.3)
    }

    /// The components `x`, `z` and `w`, in that order.
    pub fn xzw(&self) -> (r: Vec3<T>)
        ensures
            r == Vec3(self.0, self.2, self.3),
    {
        Vec3(self.0, self.2, self.3)
    }

    /// The components `y`, `z` and `w`, in that order.
    pub fn yzw(&self) -> (r: Vec3<T>)
        ensures
            r == Vec3(self.1, self.2, self.3),
    {
        Vec3(self.1, self.2, self.3)
    }
}

impl<T: Signed> vstd::std_specs::ops::NegSpecImpl for Vec4<T> {
    open spec fn obeys_neg_spec() -> bool {
        T::obeys_neg_spec()
    }

    open spec fn neg_req(self) -> bool {
        self.0.neg_req() && self.1.neg_req() && self.2.neg_req() && self.3.neg_req()
    }

    open spec fn neg_spec(self) -> Vec4<T> {
        Vec4(self.0.neg_spec(), self.1.neg_spec(), self.2.neg_spec(), self.3.neg_spec())
    }
}

/// Negation, component by component.
impl<T: Signed> Neg for Vec4<T> {
    type Output = Self;

    fn neg(self) -> (r: Self) {
        Vec4(self.0.neg(), self.1.neg(), self.2.neg(), self.3.neg())
    }
}

impl<T: Number> vstd::std_specs::ops::AddSpecImpl for Vec4<T> {
    open spec fn obeys_add_spec() -> bool {
        T::obeys_add_spec()
    }

    open spec fn add_req(self, rhs: Vec4<T>) -> bool {
        self.0.add_req(rhs.0) && self.1.add_req(rhs.1) && self.2.add_req(rhs.2) && self.3.add_req(rhs.3)
    }

    open spec fn add_spec(self, rhs: Vec4<T>) -> Vec4<T> {
        Vec4(self.0.add_spec(rhs.0), self.1.add_spec(rhs.1), self.2.add_spec(rhs.2), self.3.add_spec(rhs.3))
    }
}

/// Addition, component by component.
impl<T: Number> Add for Vec4<T> {
    type Output = Self;

    fn add(self, rhs: Vec4<T>) -> (r: Self) {
        Vec4(self.0 + rhs.0, self.1 + rhs.1, self.2 + rhs.2, self.3 + rhs.3)
    }
}

impl<T: Number> vstd::std_specs::ops::SubSpecImpl for Vec4<T> {
    open spec fn obeys_sub_spec() -> bool {
        T::obeys_sub_spec()
    }

    open spec fn sub_req(self, rhs: Vec4<T>) -> bool {
        self.0.sub_req(rhs.0) && self.1.sub_req(rhs.1) && self.2.sub_req(rhs.2) && self.3.sub_req(rhs.3)
    }

    open spec fn sub_spec(self, rhs: Vec4<T>) -> Vec4<T> {
        Vec4(self.0.sub_spec(rhs.0), self.1.sub_spec(rhs.1), self.2.sub_spec(rhs.2), self.3.sub_spec(rhs.3))
    }
}

/// Subtraction, component by component.
impl<T: Number> Sub for Vec4<T> {
    type Output = Self;

    fn sub(self, rhs: Vec4<T>) -> (r: Self) {
        Vec4(self.0 - rhs.0, self.1 - rhs.1, self.2 - rhs.2, self.3 - rhs.3)
    }
}

impl<T: Number> vstd::std_specs::ops::MulSpecImpl<T> for Vec4<T> {
    open spec fn obeys_mul_spec() -> bool {
        T::obeys_mul_spec()
    }

    open spec fn mul_req(self, rhs: T) -> bool {
        self.0.mul_req(rhs) && self.1.mul_req(rhs) && self.2.mul_req(rhs) && self.3.mul_req(rhs)
    }

    open spec fn mul_spec(self, rhs: T) -> Vec4<T> {
        Vec4(self.0.mul_spec(rhs), self.1.mul_spec(rhs), self.2.mul_spec(rhs), self.3.mul_spec(rhs))
    }
}

/// Scaling: each component times `rhs`.
impl<T: Number> Mul<T> for Vec4<T> {
    type Output = Self;

    fn mul(self, rhs: T) -> (r: Self) {
        Vec4(self.0 * rhs, self.1 * rhs, self.2 * rhs, self.3 * rhs)
    }
}

impl<T: Number> vstd::std_specs::ops::DivSpecImpl<T> for Vec4<T> {
    open spec fn obeys_div_spec() -> bool {
        T::obeys_div_spec()
    }

    open spec fn div_req(self, rhs: T) -> bool {
        self.0.div_req(rhs) && self.1.div_req(rhs) && self.2.div_req(rhs) && self.3.div_req(rhs)
    }

    open spec fn div_spec(self, rhs: T) -> Vec4<T> {
        Vec4(self.0.div_spec(rhs), self.1.div_spec(rhs), self.2.div_spec(rhs), self.3.div_spec(rhs))
    }
}

/// Each component divided by `rhs`.
impl<T: Number> Div<T> for Vec4<T> {
    type Output = Self;

    fn div(self, rhs: T) -> (r: Self) {
        Vec4(self.0 / rhs, self.1 / rhs, self.2 / rhs, self.3 / rhs)
    }
}

impl<T: Number> Vec4<T> {
    /// Adds `rhs` to the vector in place.
    pub fn add_assign(&mut self, rhs: Self)
        requires
            old(self).add_req(rhs),
        ensures
            T::obeys_add_spec() ==> *final(self) == old(self).add_spec(rhs),
    {
        self.0 = self.0 + rhs.0;
        self.1 = self.1 + rhs.1;
        self.2 = self.2 + rhs.2;
        self.3 = self.3 + rhs.3;
    }

    /// Subtracts `rhs` from the vector in place.
    pub fn sub_assign(&mut self, rhs: Self)
        requires
            old(self).sub_req(rhs),
        ensures
            T::obeys_sub_spec() ==> *final(self) == old(self).sub_spec(rhs),
    {
        self.0 = self.0 - rhs.0;
        self.1 = self.1 - rhs.1;
        self.2 = self.2 - rhs.2;
        self.3 = self.3 - rhs.3;
    }

    /// Scales the vector by `rhs` in place.
    pub fn mul_assign(&mut self, rhs: T)
        requires
            old(self).mul_req(rhs),
        ensures
            T::obeys_mul_spec() ==> *final(self) == old(self).mul_spec(rhs),
    {
        self.0 = self.0 * rhs;
        self.1 = self.1 * rhs;
        self.2 = self.2 * rhs;
        self.3 = self.3 * rhs;
    }

    /// Divides the vector by `rhs` in place.
    pub fn div_assign(&mut self, rhs: T)
        requires
            old(self).div_req(rhs),
        ensures
            T::obeys_div_spec() ==> *final(self) == old(self).div_spec(rhs),
    {
        self.0 = self.0 / rhs;
        self.1 = self.1 / rhs;
        self.2 = self.2 / rhs;
        self.3 = self.3 / rhs;
    }
}

/// A scalar times a vector is the vector times the scalar.
impl vstd::std_specs::ops::MulSpecImpl<Vec2<u8>> for u8 {
    open spec fn obeys_mul_spec() -> bool {
        true
    }

    open spec fn mul_req(self, rhs: Vec2<u8>) -> bool {
        MulSpec::mul_req(rhs, self)
    }

    open spec fn mul_spec(self, rhs: Vec2<u8>) -> Vec2<u8> {
        MulSpec::mul_spec(rhs, self)
    }
}

impl Mul<Vec2<u8>> for u8 {
    type Output = Vec2<u8>;

    fn mul(self, rhs: Vec2<u8>) -> (r: Vec2<u8>) {
        rhs * self
    }
}

/// A scalar times a vector is the vector times the scalar.
impl vstd::std_specs::ops::MulSpecImpl<Vec3<u8>> for u8 {
    open spec fn obeys_mul_spec() -> bool {
        true
    }

    open spec fn mul_req(self, rhs: Vec3<u8>) -> bool {
        MulSpec::mul_req(rhs, self)
    }

    open spec fn mul_spec(self, rhs: Vec3<u8>) -> Vec3<u8> {
        MulSpec::mul_spec(rhs, self)
    }
}

impl Mul<Vec3<u8>> for u8 {
    type Output = Vec3<u8>;

    fn mul(self, rhs: Vec3<u8>) -> (r: Vec3<u8>) {
        rhs * self
    }
}

/// A scalar times a vector is the vector times the scalar.
impl vstd::std_specs::ops::MulSpecImpl<Vec4<u8>> for u8 {
    open spec fn obeys_mul_spec() -> bool {
        true
    }

    open spec fn mul_req(self, rhs: Vec4<u8>) -> bool {
        MulSpec::mul_req(rhs, self)
    }

    open spec fn mul_spec(self, rhs: Vec4<u8>) -> Vec4<u8> {
        MulSpec::mul_spec(rhs, self)
    }
}

impl Mul<Vec4<u8>> for u8 {
    type Output = Vec4<u8>;

    fn mul(self, rhs: Vec4<u8>) -> (r: Vec4<u8>) {
        rhs * self
    }
}

/// A scalar times a vector is the vector times the scalar.
impl vstd::std_specs::ops::MulSpecImpl<Vec2<u16>> for u16 {
    open spec fn obeys_mul_spec() -> bool {
        true
    }

    open spec fn mul_req(self, rhs: Vec2<u16>) -> bool {
        MulSpec::mul_req(rhs, self)
    }

    open spec fn mul_spec(self, rhs: Vec2<u16>) -> Vec2<u16> {
        MulSpec::mul_spec(rhs, self)
    }
}

impl Mul<Vec2<u16>> for u16 {
    type Output = Vec2<u16>;

    fn mul(self, rhs: Vec2<u16>) -> (r: Vec2<u16>) {
        rhs * self
    }
}

/// A scalar times a vector is the vector times the scalar.
impl vstd::std_specs::ops::MulSpecImpl<Vec3<u16>> for u16 {
    open spec fn obeys_mul_spec() -> bool {
        true
    }

    open spec fn mul_req(self, rhs: Vec3<u16>) -> bool {
        MulSpec::mul_req(rhs, self)
    }

    open spec fn mul_spec(self, rhs: Vec3<u16>) -> Vec3<u16> {
        MulSpec::mul_spec(rhs, self)
    }
}

impl Mul<Vec3<u16>> for u16 {
    type Output = Vec3<u16>;

    fn mul(self, rhs: Vec3<u16>) -> (r: Vec3<u16>) {
        rhs * self
    }
}

/// A scalar times a vector is the vector times the scalar.
impl vstd::std_specs::ops::MulSpecImpl<Vec4<u16>> for u16 {
    open spec fn obeys_mul_spec() -> bool {
        true
    }

    open spec fn mul_req(self, rhs: Vec4<u16>) -> bool {
        MulSpec::mul_req(rhs, self)
    }

    open spec fn mul_spec(self, rhs: Vec4<u16>) -> Vec4<u16> {
        MulSpec::mul_spec(rhs, self)
    }
}

impl Mul<Vec4<u16>> for u16 {
    type Output = Vec4<u16>;

    fn mul(self, rhs: Vec4<u16>) -> (r: Vec4<u16>) {
        rhs * self
    }
}

/// A scalar times a vector is the vector times the scalar.
impl vstd::std_specs::ops::MulSpecImpl<Vec2<u32>> for u32 {
    open spec fn obeys_mul_spec() -> bool {
        true
    }

    open spec fn mul_req(self, rhs: Vec2<u32>) -> bool {
        MulSpec::mul_req(rhs, self)
    }

    open spec fn mul_spec(self, rhs: Vec2<u32>) -> Vec2<u32> {
        MulSpec::mul_spec(rhs, self)
    }
}

impl Mul<Vec2<u32>> for u32 {
    type Output = Vec2<u32>;

    fn mul(self, rhs: Vec2<u32>) -> (r: Vec2<u32>) {
        rhs * self
    }
}

/// A scalar times a vector is the vector times the scalar.
impl vstd::std_specs::ops::MulSpecImpl<Vec3<u32>> for u32 {
    open spec fn obeys_mul_spec() -> bool {
        true
    }

    open spec fn mul_req(self, rhs: Vec3<u32>) -> bool {
        MulSpec::mul_req(rhs, self)
    }

    open spec fn mul_spec(self, rhs: Vec3<u32>) -> Vec3<u32> {
        MulSpec::mul_spec(rhs, self)
    }
}

impl Mul<Vec3<u32>> for u32 {
    type Output = Vec3<u32>;

    fn mul(self, rhs: Vec3<u32>) -> (r: Vec3<u32>) {
        rhs * self
    }
}

/// A scalar times a vector is the vector times the scalar.
impl vstd::std_specs::ops::MulSpecImpl<Vec4<u32>> for u32 {
    open spec fn obeys_mul_spec() -> bool {
        true
    }

    open spec fn mul_req(self, rhs: Vec4<u32>) -> bool {
        MulSpec::mul_req(rhs, self)
    }

    open spec fn mul_spec(self, rhs: Vec4<u32>) -> Vec4<u32> {
        MulSpec::mul_spec(rhs, self)
    }
}

impl Mul<Vec4<u32>> for u32 {
    type Output = Vec4<u32>;

    fn mul(self, rhs: Vec4<u32>) -> (r: Vec4<u32>) {
        rhs * self
    }
}

/// A scalar times a vector is the vector times the scalar.
impl vstd::std_specs::ops::MulSpecImpl<Vec2<i8>> for i8 {
    open spec fn obeys_mul_spec() -> bool {
        true
    }

    open spec fn mul_req(self, rhs: Vec2<i8>) -> bool {
        MulSpec::mul_req(rhs, self)
    }

    open spec fn mul_spec(self, rhs: Vec2<i8>) -> Vec2<i8> {
        MulSpec::mul_spec(rhs, self)
    }
}

impl Mul<Vec2<i8>> for i8 {
    type Output = Vec2<i8>;

    fn mul(self, rhs: Vec2<i8>) -> (r: Vec2<i8>) {
        rhs * self
    }
}

/// A scalar times a vector is the vector times the scalar.
impl vstd::std_specs::ops::MulSpecImpl<Vec3<i8>> for i8 {
    open spec fn obeys_mul_spec() -> bool {
        true
    }

    open spec fn mul_req(self, rhs: Vec3<i8>) -> bool {
        MulSpec::mul_req(rhs, self)
    }

    open spec fn mul_spec(self, rhs: Vec3<i8>) -> Vec3<i8> {
        MulSpec::mul_spec(rhs, self)
    }
}

impl Mul<Vec3<i8>> for i8 {
    type Output = Vec3<i8>;

    fn mul(self, rhs: Vec3<i8>) -> (r: Vec3<i8>) {
        rhs * self
    }
}

/// A scalar times a vector is the vector times the scalar.
impl vstd::std_specs::ops::MulSpecImpl<Vec4<i8>> for i8 {
    open spec fn obeys_mul_spec() -> bool {
        true
    }

    open spec fn mul_req(self, rhs: Vec4<i8>) -> bool {
        MulSpec::mul_req(rhs, self)
    }

    open spec fn mul_spec(self, rhs: Vec4<i8>) -> Vec4<i8> {
        MulSpec::mul_spec(rhs, self)
    }
}

impl Mul<Vec4<i8>> for i8 {
    type Output = Vec4<i8>;

    fn mul(self, rhs: Vec4<i8>) -> (r: Vec4<i8>) {
        rhs * self
    }
}

/// A scalar times a vector is the vector times the scalar.
impl vstd::std_specs::ops::MulSpecImpl<Vec2<i16>> for i16 {
    open spec fn obeys_mul_spec() -> bool {
        true
    }

    open spec fn mul_req(self, rhs: Vec2<i16>) -> bool {
        MulSpec::mul_req(rhs, self)
    }

    open spec fn mul_spec(self, rhs: Vec2<i16>) -> Vec2<i16> {
        MulSpec::mul_spec(rhs, self)
    }
}

impl Mul<Vec2<i16>> for i16 {
    type Output = Vec2<i16>;

    fn mul(self, rhs: Vec2<i16>) -> (r: Vec2<i16>) {
        rhs * self
    }
}

/// A scalar times a vector is the vector times the scalar.
impl vstd::std_specs::ops::MulSpecImpl<Vec3<i16>> for i16 {
    open spec fn obeys_mul_spec() -> bool {
        true
    }

    open spec fn mul_req(self, rhs: Vec3<i16>) -> bool {
        MulSpec::mul_req(rhs, self)
    }

    open spec fn mul_spec(self, rhs: Vec3<i16>) -> Vec3<i16> {
        MulSpec::mul_spec(rhs, self)
    }
}

impl Mul<Vec3<i16>> for i16 {
    type Output = Vec3<i16>;

    fn mul(self, rhs: Vec3<i16>) -> (r: Vec3<i16>) {
        rhs * self
    }
}

/// A scalar times a vector is the vector times the scalar.
impl vstd::std_specs::ops::MulSpecImpl<Vec4<i16>> for i16 {
    open spec fn obeys_mul_spec() -> bool {
        true
    }

    open spec fn mul_req(self, rhs: Vec4<i16>) -> bool {
        MulSpec::mul_req(rhs, self)
    }

    open spec fn mul_spec(self, rhs: Vec4<i16>) -> Vec4<i16> {
        MulSpec::mul_spec(rhs, self)
    }
}

impl Mul<Vec4<i16>> for i16 {
    type Output = Vec4<i16>;

    fn mul(self, rhs: Vec4<i16>) -> (r: Vec4<i16>) {
        rhs * self
    }
}

/// A scalar times a vector is the vector times the scalar.
impl vstd::std_specs::ops::MulSpecImpl<Vec2<i32>> for i32 {
    open spec fn obeys_mul_spec() -> bool {
        true
    }

    open spec fn mul_req(self, rhs: Vec2<i32>) -> bool {
        MulSpec::mul_req(rhs, self)
    }

    open spec fn mul_spec(self, rhs: Vec2<i32>) -> Vec2<i32> {
        MulSpec::mul_spec(rhs, self)
    }
}

impl Mul<Vec2<i32>> for i32 {
    type Output = Vec2<i32>;

    fn mul(self, rhs: Vec2<i32>) -> (r: Vec2<i32>) {
        rhs * self
    }
}

/// A scalar times a vector is the vector times the scalar.
impl vstd::std_specs::ops::MulSpecImpl<Vec3<i32>> for i32 {
    open spec fn obeys_mul_spec() -> bool {
        true
    }

    open spec fn mul_req(self, rhs: Vec3<i32>) -> bool {
        MulSpec::mul_req(rhs, self)
    }

    open spec fn mul_spec(self, rhs: Vec3<i32>) -> Vec3<i32> {
        MulSpec::mul_spec(rhs, self)
    }
}

impl Mul<Vec3<i32>> for i32 {
    type Output = Vec3<i32>;

    fn mul(self, rhs: Vec3<i32>) -> (r: Vec3<i32>) {
        rhs * self
    }
}

/// A scalar times a vector is the vector times the scalar.
impl vstd::std_specs::ops::MulSpecImpl<Vec4<i32>> for i32 {
    open spec fn obeys_mul_spec() -> bool {
        true
    }

    open spec fn mul_req(self, rhs: Vec4<i32>) -> bool {
        MulSpec::mul_req(rhs, self)
    }

    open spec fn mul_spec(self, rhs: Vec4<i32>) -> Vec4<i32> {
        MulSpec::mul_spec(rhs, self)
    }
}

impl Mul<Vec4<i32>> for i32 {
    type Output = Vec4<i32>;

    fn mul(self, rhs: Vec4<i32>) -> (r: Vec4<i32>) {
        rhs * self
    }
}

/// On the machine integers the dot product is the sum of the two products,
/// wherever it is defined, that is wherever nothing overflows.
pub proof fn lemma_dot_of_integers(a: Vec2<i32>, b: Vec2<i32>)
    requires
        Vec2::dot_req(a, b),
    ensures
        Vec2::dot_spec(a, b) == a.0 * b.0 + a.1 * b.1,
{
}

/// On the machine integers the length of a vector is the integer square
/// root of the sum of the squares of its components.
pub proof fn lemma_magnitude_of_integers(v: Vec2<u32>)
    requires
        Vec2::dot_req(v, v),
    ensures
        is_isqrt(v.0 * v.0 + v.1 * v.1, v.squared_magnitude_spec().sqrt_spec() as int),
{
    lemma_isqrt_is_root((v.0 * v.0 + v.1 * v.1) as nat);
    lemma_isqrt_fits(v.squared_magnitude_spec() as nat, u32::MAX as nat);
}

/// On the machine integers the distance of two signed vectors is the
/// integer square root of the sum of the squares of the differences. The
/// sum of squares is never negative, so it always carries over to the
/// unsigned type.
pub proof fn lemma_distance_of_integers(a: Vec2<i32>, b: Vec2<i32>)
    requires
        b.sub_req(a),
        Vec2::dot_req(b.sub_spec(a), b.sub_spec(a)),
    ensures
        b.sub_spec(a).squared_magnitude_spec().unsigned_req(),
        is_isqrt(
            (b.0 - a.0) * (b.0 - a.0) + (b.1 - a.1) * (b.1 - a.1),
            b.sub_spec(a).squared_magnitude_spec().unsigned_spec().sqrt_spec() as int,
        ),
{
    let dx = b.0 - a.0;
    let dy = b.1 - a.1;
    assert(dx * dx >= 0 && dy * dy >= 0) by (nonlinear_arith);
    lemma_isqrt_is_root((dx * dx + dy * dy) as nat);
    lemma_isqrt_fits((dx * dx + dy * dy) as nat, u32::MAX as nat);
}

} // verus!

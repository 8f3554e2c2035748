//! 3x3 and 4x4 matrices over any `Number`, held as columns.
//!
//! As with the vectors, results are stated over the operators' own spec
//! functions, and each function requires that the operations it performs are
//! defined and that the operators of `T` follow their spec functions.

use core::ops::{Mul, Neg};
use vstd::prelude::*;
use vstd::std_specs::ops::{AddSpec, DivSpec, MulSpec, NegSpec, SubSpec};

use crate::tables::UNIT;
use crate::traits::{Number, One, Signed, Trigonometry, Zero};
use crate::vectors::{Vec2, Vec3, Vec4};

verus! {

/// A 3x3 matrix: three columns.
#[derive(Copy, PartialEq, Eq, Hash, Default, Debug)]
pub struct Mat3<T: Number>(pub Vec3<T>, pub Vec3<T>, pub Vec3<T>);

/// A 4x4 matrix: four columns.
#[derive(Copy, PartialEq, Eq, Hash, Default, Debug)]
pub struct Mat4<T: Number>(pub Vec4<T>, pub Vec4<T>, pub Vec4<T>, pub Vec4<T>);

impl<T: Number> Clone for Mat3<T> {
    fn clone(&self) -> (r: Self)
        ensures
            r == *self,
    {
        *self
    }
}

impl<T: Number> Clone for Mat4<T> {
    fn clone(&self) -> (r: Self)
        ensures
            r == *self,
    {
        *self
    }
}

impl<T: Number> Mat3<T> {
    /// The identity matrix.
    pub open spec fn identity_spec() -> Self {
        Mat3(
            Vec3(T::one_spec(), T::zero_spec(), T::zero_spec()),
            Vec3(T::zero_spec(), T::one_spec(), T::zero_spec()),
            Vec3(T::zero_spec(), T::zero_spec(), T::one_spec()),
        )
    }

    /// The identity matrix: ones on the diagonal, zeros elsewhere.
    pub fn identity() -> (r: Self)
        ensures
            r == Self::identity_spec(),
    {
        Mat3(
            Vec3(T::one(), T::zero(), T::zero()),
            Vec3(T::zero(), T::one(), T::zero()),
            Vec3(T::zero(), T::zero(), T::one()),
        )
    }

    /// The matrix that scales the plane by `vector`, in homogeneous
    /// coordinates.
    pub fn new_2d_homogeneous_scaling_mat(vector: Vec2<T>) -> (r: Self)
        ensures
            r == Mat3(
                Vec3(vector.0, T::zero_spec(), T::zero_spec()),
                Vec3(T::zero_spec(), vector.1, T::zero_spec()),
                Vec3(T::zero_spec(), T::zero_spec(), T::one_spec()),
            ),
    {
        Mat3(
            Vec3(vector.0, T::zero(), T::zero()),
            Vec3(T::zero(), vector.1, T::zero()),
            Vec3(T::zero(), T::zero(), T::one()),
        )
    }

    /// The matrix that moves the plane by `vector`, in homogeneous
    /// coordinates.
    pub fn new_2d_homogeneous_translation_mat(vector: Vec2<T>) -> (r: Self)
        ensures
            r == Mat3(
                Vec3(T::one_spec(), T::zero_spec(), T::zero_spec()),
                Vec3(T::zero_spec(), T::one_spec(), T::zero_spec()),
                Vec3(vector.0, vector.1, T::one_spec()),
            ),
    {
        Mat3(
            Vec3(T::one(), T::zero(), T::zero()),
            Vec3(T::zero(), T::one(), T::zero()),
            Vec3(vector.0, vector.1, T::one()),
        )
    }

    /// The entries as one array, column after column.
    pub fn into_array(self) -> (r: [T; 9])
        ensures
            r@ == seq![
                self.0.0, self.0.1, self.0.2,
                self.1.0, self.1.1, self.1.2,
                self.2.0, self.2.1, self.2.2,
            ],
    {
        [
            self.0.0, self.0.1, self.0.2,
            self.1.0, self.1.1, self.1.2,
            self.2.0, self.2.1, self.2.2,
        ]
    }

    /// Whether every operation of `blend_spec` is defined.
    pub open spec fn blend_req(a: Vec3<T>, b: Vec3<T>, c: Vec3<T>, k: Vec3<T>) -> bool {
        &&& a.mul_req(k.0)
        &&& b.mul_req(k.1)
        &&& c.mul_req(k.2)
        &&& a.mul_spec(k.0).add_req(b.mul_spec(k.1))
        &&& a.mul_spec(k.0).add_spec(b.mul_spec(k.1)).add_req(c.mul_spec(k.2))
    }

    /// The columns `a`, `b`, `c` weighted by the components of `k` and
    /// summed, left to right.
    pub open spec fn blend_spec(a: Vec3<T>, b: Vec3<T>, c: Vec3<T>, k: Vec3<T>) -> Vec3<T> {
        a.mul_spec(k.0).add_spec(b.mul_spec(k.1)).add_spec(c.mul_spec(k.2))
    }

    /// Whether every operation of `row_spec` is defined.
    pub open spec fn row_req(a: T, b: T, c: T, x: T, y: T, z: T) -> bool {
        &&& a.mul_req(x)
        &&& b.mul_req(y)
        &&& c.mul_req(z)
        &&& a.mul_spec(x).add_req(b.mul_spec(y))
        &&& a.mul_spec(x).add_spec(b.mul_spec(y)).add_req(c.mul_spec(z))
    }

    /// One component of a matrix times a vector:
    /// `a * x + b * y + c * z`.
    pub open spec fn row_spec(a: T, b: T, c: T, x: T, y: T, z: T) -> T {
        a.mul_spec(x).add_spec(b.mul_spec(y)).add_spec(c.mul_spec(z))
    }

    /// Whether every operation of `affine_spec` is defined.
    pub open spec fn affine_req(a: T, b: T, c: T, x: T, y: T) -> bool {
        &&& a.mul_req(x)
        &&& b.mul_req(y)
        &&& a.mul_spec(x).add_req(b.mul_spec(y))
        &&& a.mul_spec(x).add_spec(b.mul_spec(y)).add_req(c)
    }

    /// One component of a matrix applied to a point with a last coordinate
    /// of one: `a * x + b * y + c`.
    pub open spec fn affine_spec(a: T, b: T, c: T, x: T, y: T) -> T {
        a.mul_spec(x).add_spec(b.mul_spec(y)).add_spec(c)
    }
}

impl Mat3<i32> {
    /// What `new_2d_homogeneous_rotation_mat` returns for a sine `s` and a
    /// cosine `c`.
    pub open spec fn rotation_spec(s: int, c: int) -> Self {
        Mat3(
            Vec3(c as i32, (-s) as i32, 0i32),
            Vec3(s as i32, c as i32, 0i32),
            Vec3(0i32, 0i32, UNIT),
        )
    }

    /// The matrix that turns the plane by `angle`, in homogeneous
    /// coordinates, as fixed-point integers: `UNIT` stands for `1.0`.
    pub fn new_2d_homogeneous_rotation_mat<T: Trigonometry>(angle: T) -> (r: Self)
        ensures
            r == Self::rotation_spec(angle.sin_spec(), angle.cos_spec()),
    {
        Mat3(
            Vec3(angle.cos(), -angle.sin(), 0),
            Vec3(angle.sin(), angle.cos(), 0),
            Vec3(0, 0, UNIT),
        )
    }
}

impl<T: Number> vstd::std_specs::ops::MulSpecImpl for Mat3<T> {
    open spec fn obeys_mul_spec() -> bool {
        T::obeys_mul_spec() && T::obeys_add_spec()
    }

    open spec fn mul_req(self, rhs: Mat3<T>) -> bool {
        &&& T::obeys_mul_spec()
        &&& T::obeys_add_spec()
        &&& Mat3::blend_req(self.0, self.1, self.2, rhs.0)
        &&& Mat3::blend_req(self.1, self.1, self.2, rhs.1)
        &&& Mat3::blend_req(self.2, self.1, self.2, rhs.2)
    }

    open spec fn mul_spec(self, rhs: Mat3<T>) -> Mat3<T> {
        Mat3(
            Mat3::blend_spec(self.0, self.1, self.2, rhs.0),
            Mat3::blend_spec(self.1, self.1, self.2, rhs.1),
            Mat3::blend_spec(self.2, self.1, self.2, rhs.2),
        )
    }
}

/// The product of two matrices, column by column: each column of the result
/// is a blend of columns of `self` weighted by the matching column of `rhs`.
/// The first column blends all the columns of `self` in order; each later
/// column takes its own column of `self` in the first place of the blend.
impl<T: Number> Mul for Mat3<T> {
    type Output = Self;

    fn mul(self, rhs: Self) -> (r: Self) {
        Mat3(
            self.0 * rhs.0.0 + self.1 * rhs.0.1 + self.2 * rhs.0.2,
            self.1 * rhs.1.0 + self.1 * rhs.1.1 + self.2 * rhs.1.2,
            self.2 * rhs.2.0 + self.1 * rhs.2.1 + self.2 * rhs.2.2,
        )
    }
}

impl<T: Number> Mat3<T> {
    /// Whether every operation of `mul_assign` is defined.
    pub open spec fn mul_assign_req(self, rhs: Self) -> bool {
        let c1 = Mat3::blend_spec(self.1, self.1, self.2, rhs.1);
        &&& Mat3::blend_req(self.0, self.1, self.2, rhs.0)
        &&& Mat3::blend_req(self.1, self.1, self.2, rhs.1)
        &&& Mat3::blend_req(self.2, c1, self.2, rhs.2)
    }

    /// What `mul_assign` leaves behind. The columns are replaced one after
    /// another, so a later column is blended from the columns as they then
    /// stand, the earlier ones already replaced.
    pub open spec fn mul_assign_spec(self, rhs: Self) -> Self {
        let c0 = Mat3::blend_spec(self.0, self.1, self.2, rhs.0);
        let c1 = Mat3::blend_spec(self.1, self.1, self.2, rhs.1);
        let c2 = Mat3::blend_spec(self.2, c1, self.2, rhs.2);
        Mat3(c0, c1, c2)
    }

    /// Multiplies the matrix by `rhs` in place, column after column.
    pub fn mul_assign(&mut self, rhs: Self)
        requires
            T::obeys_mul_spec(),
            T::obeys_add_spec(),
            old(self).mul_assign_req(rhs),
        ensures
            *final(self) == old(self).mul_assign_spec(rhs),
    {
        self.0 = self.0 * rhs.0.0 + self.1 * rhs.0.1 + self.2 * rhs.0.2;
        self.1 = self.1 * rhs.1.0 + self.1 * rhs.1.1 + self.2 * rhs.1.2;
        self.2 = self.2 * rhs.2.0 + self.1 * rhs.2.1 + self.2 * rhs.2.2;
    }
}

impl<T: Number> vstd::std_specs::ops::MulSpecImpl<Vec2<T>> for Mat3<T> {
    open spec fn obeys_mul_spec() -> bool {
        T::obeys_mul_spec() && T::obeys_add_spec()
    }

    open spec fn mul_req(self, rhs: Vec2<T>) -> bool {
        &&& T::obeys_mul_spec()
        &&& T::obeys_add_spec()
        &&& Mat3::affine_req(self.0.0, self.1.0, self.2.0, rhs.0, rhs.1)
        &&& Mat3::affine_req(self.0.1, self.1.1, self.2.1, rhs.0, rhs.1)
        &&& Mat3::affine_req(self.0.2, self.1.2, self.2.2, rhs.0, rhs.1)
    }

    open spec fn mul_spec(self, rhs: Vec2<T>) -> Vec3<T> {
        Vec3(
            Mat3::affine_spec(self.0.0, self.1.0, self.2.0, rhs.0, rhs.1),
            Mat3::affine_spec(self.0.1, self.1.1, self.2.1, rhs.0, rhs.1),
            Mat3::affine_spec(self.0.2, self.1.2, self.2.2, rhs.0, rhs.1),
        )
    }
}

/// The matrix applied to a point in homogeneous coordinates: the vector is
/// taken with a last coordinate of one, so the last column is added as it is.
impl<T: Number> Mul<Vec2<T>> for Mat3<T> {
    type Output = Vec3<T>;

    fn mul(self, rhs: Vec2<T>) -> (r: Vec3<T>) {
        Vec3(
            self.0.0 * rhs.0 + self.1.0 * rhs.1 + self.2.0,
            self.0.1 * rhs.0 + self.1.1 * rhs.1 + self.2.1,
            self.0.2 * rhs.0 + self.1.2 * rhs.1 + self.2.2,
        )
    }
}

impl<T: Number> vstd::std_specs::ops::MulSpecImpl<Vec3<T>> for Mat3<T> {
    open spec fn obeys_mul_spec() -> bool {
        T::obeys_mul_spec() && T::obeys_add_spec()
    }

    open spec fn mul_req(self, rhs: Vec3<T>) -> bool {
        &&& T::obeys_mul_spec()
        &&& T::obeys_add_spec()
        &&& Mat3::row_req(self.0.0, self.1.0, self.2.0, rhs.0, rhs.1, rhs.2)
        &&& Mat3::row_req(self.0.1, self.1.1, self.2.1, rhs.0, rhs.1, rhs.2)
        &&& Mat3::row_req(self.0.2, self.1.2, self.2.2, rhs.0, rhs.1, rhs.2)
    }

    open spec fn mul_spec(self, rhs: Vec3<T>) -> Vec3<T> {
        Vec3(
            Mat3::row_spec(self.0.0, self.1.0, self.2.0, rhs.0, rhs.1, rhs.2),
            Mat3::row_spec(self.0.1, self.1.1, self.2.1, rhs.0, rhs.1, rhs.2),
            Mat3::row_spec(self.0.2, self.1.2, self.2.2, rhs.0, rhs.1, rhs.2),
        )
    }
}

/// The matrix applied to a vector: the columns weighted by the vector's
/// components and summed.
impl<T: Number> Mul<Vec3<T>> for Mat3<T> {
    type Output = Vec3<T>;

    fn mul(self, rhs: Vec3<T>) -> (r: Vec3<T>) {
        Vec3(
            self.0.0 * rhs.0 + self.1.0 * rhs.1 + self.2.0 * rhs.2,
            self.0.1 * rhs.0 + self.1.1 * rhs.1 + self.2.1 * rhs.2,
            self.0.2 * rhs.0 + self.1.2 * rhs.1 + self.2.2 * rhs.2,
        )
    }
}

impl<T: Number> Mat4<T> {
    /// The identity matrix.
    pub open spec fn identity_spec() -> Self {
        Mat4(
            Vec4(T::one_spec(), T::zero_spec(), T::zero_spec(), T::zero_spec()),
            Vec4(T::zero_spec(), T::one_spec(), T::zero_spec(), T::zero_spec()),
            Vec4(T::zero_spec(), T::zero_spec(), T::one_spec(), T::zero_spec()),
            Vec4(T::zero_spec(), T::zero_spec(), T::zero_spec(), T::one_spec()),
        )
    }

    /// The identity matrix: ones on the diagonal, zeros elsewhere.
    pub fn identity() -> (r: Self)
        ensures
            r == Self::identity_spec(),
    {
        Mat4(
            Vec4(T::one(), T::zero(), T::zero(), T::zero()),
            Vec4(T::zero(), T::one(), T::zero(), T::zero()),
            Vec4(T::zero(), T::zero(), T::one(), T::zero()),
            Vec4(T::zero(), T::zero(), T::zero(), T::one()),
        )
    }

    /// The entries as one array, column after column.
    pub fn into_array(self) -> (r: [T; 16])
        ensures
            r@ == seq![
                self.0.0, self.0.1, self.0.2, self.0.3,
                self.1.0, self.1.1, self.1.2, self.1.3,
                self.2.0, self.2.1, self.2.2, self.2.3,
                self.3.0, self.3.1, self.3.2, self.3.3,
            ],
    {
        [
            self.0.0, self.0.1, self.0.2, self.0.3,
            self.1.0, self.1.1, self.1.2, self.1.3,
            self.2.0, self.2.1, self.2.2, self.2.3,
            self.3.0, self.3.1, self.3.2, self.3.3,
        ]
    }

    /// Whether every operation of `blend_spec` is defined.
    pub open spec fn blend_req(a: Vec4<T>, b: Vec4<T>, c: Vec4<T>, d: Vec4<T>, k: Vec4<T>) -> bool {
        &&& a.mul_req(k.0)
        &&& b.mul_req(k.1)
        &&& c.mul_req(k.2)
        &&& d.mul_req(k.3)
        &&& a.mul_spec(k.0).add_req(b.mul_spec(k.1))
        &&& a.mul_spec(k.0).add_spec(b.mul_spec(k.1)).add_req(c.mul_spec(k.2))
        &&& a.mul_spec(k.0).add_spec(b.mul_spec(k.1)).add_spec(c.mul_spec(k.2)).add_req(d.mul_spec(k.3))
    }

    /// The columns `a`, `b`, `c`, `d` weighted by the components of `k` and
    /// summed, left to right.
    pub open spec fn blend_spec(a: Vec4<T>, b: Vec4<T>, c: Vec4<T>, d: Vec4<T>, k: Vec4<T>) -> Vec4<T> {
        a.mul_spec(k.0).add_spec(b.mul_spec(k.1)).add_spec(c.mul_spec(k.2)).add_spec(d.mul_spec(k.3))
    }

    /// Whether every operation of `row_spec` is defined.
    pub open spec fn row_req(a: T, b: T, c: T, d: T, x: T, y: T, z: T, w: T) -> bool {
        &&& a.mul_req(x)
        &&& b.mul_req(y)
        &&& c.mul_req(z)
        &&& d.mul_req(w)
        &&& a.mul_spec(x).add_req(b.mul_spec(y))
        &&& a.mul_spec(x).add_spec(b.mul_spec(y)).add_req(c.mul_spec(z))
        &&& a.mul_spec(x).add_spec(b.mul_spec(y)).add_spec(c.mul_spec(z)).add_req(d.mul_spec(w))
    }

    /// One component of a matrix times a vector:
    /// `a * x + b * y + c * z + d * w`.
    pub open spec fn row_spec(a: T, b: T, c: T, d: T, x: T, y: T, z: T, w: T) -> T {
        a.mul_spec(x).add_spec(b.mul_spec(y)).add_spec(c.mul_spec(z)).add_spec(d.mul_spec(w))
    }

    /// Whether every operation of `affine_spec` is defined.
    pub open spec fn affine_req(a: T, b: T, c: T, d: T, x: T, y: T, z: T) -> bool {
        &&& a.mul_req(x)
        &&& b.mul_req(y)
        &&& c.mul_req(z)
        &&& a.mul_spec(x).add_req(b.mul_spec(y))
        &&& a.mul_spec(x).add_spec(b.mul_spec(y)).add_req(c.mul_spec(z))
        &&& a.mul_spec(x).add_spec(b.mul_spec(y)).add_spec(c.mul_spec(z)).add_req(d)
    }

    /// One component of a matrix applied to a point with a last coordinate
    /// of one: `a * x + b * y + c * z + d`.
    pub open spec fn affine_spec(a: T, b: T, c: T, d: T, x: T, y: T, z: T) -> T {
        a.mul_spec(x).add_spec(b.mul_spec(y)).add_spec(c.mul_spec(z)).add_spec(d)
    }
}

impl<T: Signed> Mat4<T> {
    /// The number two: one plus one.
    pub open spec fn two_spec() -> T {
        T::one_spec().add_spec(T::one_spec())
    }

    /// Minus two: minus one, minus one.
    pub open spec fn minus_two_spec() -> T {
        T::one_spec().neg_spec().sub_spec(T::one_spec())
    }

    /// Whether the scale and the offset of an axis from `low` to `high` can
    /// be computed with the numerator `k` for the scale.
    pub open spec fn axis_req(k: T, low: T, high: T) -> bool {
        &&& high.sub_req(low)
        &&& k.div_req(high.sub_spec(low))
        &&& high.add_req(low)
        &&& high.add_spec(low).neg_req()
        &&& high.add_spec(low).neg_spec().div_req(high.sub_spec(low))
    }

    /// The scale of an axis: `k / (high - low)`.
    pub open spec fn axis_scale_spec(k: T, low: T, high: T) -> T {
        k.div_spec(high.sub_spec(low))
    }

    /// The offset of an axis: `-(high + low) / (high - low)`.
    pub open spec fn axis_offset_spec(low: T, high: T) -> T {
        high.add_spec(low).neg_spec().div_spec(high.sub_spec(low))
    }

    /// Whether every operation of `new_orthogonal_projection_mat` is
    /// defined.
    pub open spec fn projection_req(horizontal: (T, T), vertical: (T, T), depth: (T, T)) -> bool {
        &&& T::one_spec().add_req(T::one_spec())
        &&& T::one_spec().neg_req()
        &&& T::one_spec().neg_spec().sub_req(T::one_spec())
        &&& Self::axis_req(Self::two_spec(), horizontal.0, horizontal.1)
        &&& Self::axis_req(Self::two_spec(), vertical.0, vertical.1)
        &&& Self::axis_req(Self::minus_two_spec(), depth.0, depth.1)
    }

    /// The orthogonal projection of the box between the given bounds: each
    /// axis is scaled by `2 / (high - low)`, the depth by `-2 / (high - low)`,
    /// and moved by `-(high + low) / (high - low)`.
    pub open spec fn projection_spec(horizontal: (T, T), vertical: (T, T), depth: (T, T)) -> Self {
        let zero = T::zero_spec();
        Mat4(
            Vec4(Self::axis_scale_spec(Self::two_spec(), horizontal.0, horizontal.1), zero, zero, zero),
            Vec4(zero, Self::axis_scale_spec(Self::two_spec(), vertical.0, vertical.1), zero, zero),
            Vec4(zero, zero, Self::axis_scale_spec(Self::minus_two_spec(), depth.0, depth.1), zero),
            Vec4(
                Self::axis_offset_spec(horizontal.0, horizontal.1),
                Self::axis_offset_spec(vertical.0, vertical.1),
                Self::axis_offset_spec(depth.0, depth.1),
                T::one_spec(),
            ),
        )
    }

    /// The matrix of the orthogonal projection that maps the box between the
    /// given `(low, high)` bounds onto the cube from minus one to one.
    pub fn new_orthogonal_projection_mat(horizontal: (T, T), vertical: (T, T), depth: (T, T)) -> (r: Self)
        requires
            T::obeys_add_spec(),
            T::obeys_sub_spec(),
            T::obeys_div_spec(),
            T::obeys_neg_spec(),
            Self::projection_req(horizontal, vertical, depth),
        ensures
            r == Self::projection_spec(horizontal, vertical, depth),
    {
        Mat4(
            Vec4((T::one() + T::one()) / (horizontal.1 - horizontal.0), T::zero(), T::zero(), T::zero()),
            Vec4(T::zero(), (T::one() + T::one()) / (vertical.1 - vertical.0), T::zero(), T::zero()),
            Vec4(T::zero(), T::zero(), (T::one().neg() - T::one()) / (depth.1 - depth.0), T::zero()),
            Vec4(
                (horizontal.1 + horizontal.0).neg() / (horizontal.1 - horizontal.0),
                (vertical.1 + vertical.0).neg() / (vertical.1 - vertical.0),
                (depth.1 + depth.0).neg() / (depth.1 - depth.0),
                T::one(),
            ),
        )
    }
}

impl<T: Number> vstd::std_specs::ops::MulSpecImpl for Mat4<T> {
    open spec fn obeys_mul_spec() -> bool {
        T::obeys_mul_spec() && T::obeys_add_spec()
    }

    open spec fn mul_req(self, rhs: Mat4<T>) -> bool {
        &&& T::obeys_mul_spec()
        &&& T::obeys_add_spec()
        &&& Mat4::blend_req(self.0, self.1, self.2, self.3, rhs.0)
        &&& Mat4::blend_req(self.1, self.1, self.2, self.3, rhs.1)
        &&& Mat4::blend_req(self.2, self.1, self.2, self.3, rhs.2)
        &&& Mat4::blend_req(self.3, self.1, self.2, self.3, rhs.3)
    }

    open spec fn mul_spec(self, rhs: Mat4<T>) -> Mat4<T> {
        Mat4(
            Mat4::blend_spec(self.0, self.1, self.2, self.3, rhs.0),
            Mat4::blend_spec(self.1, self.1, self.2, self.3, rhs.1),
            Mat4::blend_spec(self.2, self.1, self.2, self.3, rhs.2),
            Mat4::blend_spec(self.3, self.1, self.2, self.3, rhs.3),
        )
    }
}

/// The product of two matrices, column by column: each column of the result
/// is a blend of columns of `self` weighted by the matching column of `rhs`.
/// The first column blends all the columns of `self` in order; each later
/// column takes its own column of `self` in the first place of the blend.
impl<T: Number> Mul for Mat4<T> {
    type Output = Self;

    fn mul(self, rhs: Self) -> (r: Self) {
        Mat4(
            self.0 * rhs.0.0 + self.1 * rhs.0.1 + self.2 * rhs.0.2 + self.3 * rhs.0.3,
            self.1 * rhs.1.0 + self.1 * rhs.1.1 + self.2 * rhs.1.2 + self.3 * rhs.1.3,
            self.2 * rhs.2.0 + self.1 * rhs.2.1 + self.2 * rhs.2.2 + self.3 * rhs.2.3,
            self.3 * rhs.3.0 + self.1 * rhs.3.1 + self.2 * rhs.3.2 + self.3 * rhs.3.3,
        )
    }
}

impl<T: Number> Mat4<T> {
    /// Whether every operation of `mul_assign` is defined.
    pub open spec fn mul_assign_req(self, rhs: Self) -> bool {
        let c1 = Mat4::blend_spec(self.1, self.1, self.2, self.3, rhs.1);
        let c2 = Mat4::blend_spec(self.2, c1, self.2, self.3, rhs.2);
        &&& Mat4::blend_req(self.0, self.1, self.2, self.3, rhs.0)
        &&& Mat4::blend_req(self.1, self.1, self.2, self.3, rhs.1)
        &&& Mat4::blend_req(self.2, c1, self.2, self.3, rhs.2)
        &&& Mat4::blend_req(self.3, c1, c2, self.3, rhs.3)
    }

    /// What `mul_assign` leaves behind. The columns are replaced one after
    /// another, so a later column is blended from the columns as they then
    /// stand, the earlier ones already replaced.
    pub open spec fn mul_assign_spec(self, rhs: Self) -> Self {
        let c0 = Mat4::blend_spec(self.0, self.1, self.2, self.3, rhs.0);
        let c1 = Mat4::blend_spec(self.1, self.1, self.2, self.3, rhs.1);
        let c2 = Mat4::blend_spec(self.2, c1, self.2, self.3, rhs.2);
        let c3 = Mat4::blend_spec(self.3, c1, c2, self.3, rhs.3);
        Mat4(c0, c1, c2, c3)
    }

    /// Multiplies the matrix by `rhs` in place, column after column.
    pub fn mul_assign(&mut self, rhs: Self)
        requires
            T::obeys_mul_spec(),
            T::obeys_add_spec(),
            old(self).mul_assign_req(rhs),
        ensures
            *final(self) == old(self).mul_assign_spec(rhs),
    {
        self.0 = self.0 * rhs.0.0 + self.1 * rhs.0.1 + self.2 * rhs.0.2 + self.3 * rhs.0.3;
        self.1 = self.1 * rhs.1.0 + self.1 * rhs.1.1 + self.2 * rhs.1.2 + self.3 * rhs.1.3;
        self.2 = self.2 * rhs.2.0 + self.1 * rhs.2.1 + self.2 * rhs.2.2 + self.3 * rhs.2.3;
        self.3 = self.3 * rhs.3.0 + self.1 * rhs.3.1 + self.2 * rhs.3.2 + self.3 * rhs.3.3;
    }
}

impl<T: Number> vstd::std_specs::ops::MulSpecImpl<Vec3<T>> for Mat4<T> {
    open spec fn obeys_mul_spec() -> bool {
        T::obeys_mul_spec() && T::obeys_add_spec()
    }

    open spec fn mul_req(self, rhs: Vec3<T>) -> bool {
        &&& T::obeys_mul_spec()
        &&& T::obeys_add_spec()
        &&& Mat4::affine_req(self.0.0, self.1.0, self.2.0, self.3.0, rhs.0, rhs.1, rhs.2)
        &&& Mat4::affine_req(self.0.1, self.1.1, self.2.1, self.3.1, rhs.0, rhs.1, rhs.2)
        &&& Mat4::affine_req(self.0.2, self.1.2, self.2.2, self.3.2, rhs.0, rhs.1, rhs.2)
        &&& Mat4::affine_req(self.0.3, self.1.3, self.2.3, self.3.3, rhs.0, rhs.1, rhs.2)
    }

    open spec fn mul_spec(self, rhs: Vec3<T>) -> Vec4<T> {
        Vec4(
            Mat4::affine_spec(self.0.0, self.1.0, self.2.0, self.3.0, rhs.0, rhs.1, rhs.2),
            Mat4::affine_spec(self.0.1, self.1.1, self.2.1, self.3.1, rhs.0, rhs.1, rhs.2),
            Mat4::affine_spec(self.0.2, self.1.2, self.2.2, self.3.2, rhs.0, rhs.1, rhs.2),
            Mat4::affine_spec(self.0.3, self.1.3, self.2.3, self.3.3, rhs.0, rhs.1, rhs.2),
        )
    }
}

/// The matrix applied to a point in homogeneous coordinates: the vector is
/// taken with a last coordinate of one, so the last column is added as it is.
impl<T: Number> Mul<Vec3<T>> for Mat4<T> {
    type Output = Vec4<T>;

    fn mul(self, rhs: Vec3<T>) -> (r: Vec4<T>) {
        Vec4(
            self.0.0 * rhs.0 + self.1.0 * rhs.1 + self.2.0 * rhs.2 + self.3.0,
            self.0.1 * rhs.0 + self.1.1 * rhs.1 + self.2.1 * rhs.2 + self.3.1,
            self.0.2 * rhs.0 + self.1.2 * rhs.1 + self.2.2 * rhs.2 + self.3.2,
            self.0.3 * rhs.0 + self.1.3 * rhs.1 + self.2.3 * rhs.2 + self.3.3,
        )
    }
}

impl<T: Number> vstd::std_specs::ops::MulSpecImpl<Vec4<T>> for Mat4<T> {
    open spec fn obeys_mul_spec() -> bool {
        T::obeys_mul_spec() && T::obeys_add_spec()
    }

    open spec fn mul_req(self, rhs: Vec4<T>) -> bool {
        &&& T::obeys_mul_spec()
        &&& T::obeys_add_spec()
        &&& Mat4::row_req(self.0.0, self.1.0, self.2.0, self.3.0, rhs.0, rhs.1, rhs.2, rhs.3)
        &&& Mat4::row_req(self.0.1, self.1.1, self.2.1, self.3.1, rhs.0, rhs.1, rhs.2, rhs.3)
        &&& Mat4::row_req(self.0.2, self.1.2, self.2.2, self.3.2, rhs.0, rhs.1, rhs.2, rhs.3)
        &&& Mat4::row_req(self.0.3, self.1.3, self.2.3, self.3.3, rhs.0, rhs.1, rhs.2, rhs.3)
    }

    open spec fn mul_spec(self, rhs: Vec4<T>) -> Vec4<T> {
        Vec4(
            Mat4::row_spec(self.0.0, self.1.0, self.2.0, self.3.0, rhs.0, rhs.1, rhs.2, rhs.3),
            Mat4::row_spec(self.0.1, self.1.1, self.2.1, self.3.1, rhs.0, rhs.1, rhs.2, rhs.3),
            Mat4::row_spec(self.0.2, self.1.2, self.2.2, self.3.2, rhs.0, rhs.1, rhs.2, rhs.3),
            Mat4::row_spec(self.0.3, self.1.3, self.2.3, self.3.3, rhs.0, rhs.1, rhs.2, rhs.3),
        )
    }
}

/// The matrix applied to a vector: the columns weighted by the vector's
/// components and summed.
impl<T: Number> Mul<Vec4<T>> for Mat4<T> {
    type Output = Vec4<T>;

    fn mul(self, rhs: Vec4<T>) -> (r: Vec4<T>) {
        Vec4(
            self.0.0 * rhs.0 + self.1.0 * rhs.1 + self.2.0 * rhs.2 + self.3.0 * rhs.3,
            self.0.1 * rhs.0 + self.1.1 * rhs.1 + self.2.1 * rhs.2 + self.3.1 * rhs.3,
            self.0.2 * rhs.0 + self.1.2 * rhs.1 + self.2.2 * rhs.2 + self.3.2 * rhs.3,
            self.0.3 * rhs.0 + self.1.3 * rhs.1 + self.2.3 * rhs.2 + self.3.3 * rhs.3,
        )
    }
}

} // verus!

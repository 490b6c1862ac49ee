//! A point or vector in 3D space over a generic numeric scalar, with
//! elementary geometric operations. Every operation is pure and returns a
//! new value.

use vstd::prelude::*;

use crate::scalar::Scalar;

verus! {

/// The mathematical value of a coordinate: three unbounded integers.
pub struct Vec3 {
    pub x: int,
    pub y: int,
    pub z: int,
}

impl Vec3 {
    /// The zero vector.
    pub open spec fn origin() -> Vec3 {
        Vec3 { x: 0, y: 0, z: 0 }
    }

    /// All three components shifted by `a`.
    pub open spec fn shift_all(self, a: int) -> Vec3 {
        Vec3 { x: self.x + a, y: self.y + a, z: self.z + a }
    }

    /// The x component shifted by `a`, the others unchanged.
    pub open spec fn shift_x(self, a: int) -> Vec3 {
        Vec3 { x: self.x + a, y: self.y, z: self.z }
    }

    /// The y component shifted by `a`, the others unchanged.
    pub open spec fn shift_y(self, a: int) -> Vec3 {
        Vec3 { x: self.x, y: self.y + a, z: self.z }
    }

    /// The z component shifted by `a`, the others unchanged.
    pub open spec fn shift_z(self, a: int) -> Vec3 {
        Vec3 { x: self.x, y: self.y, z: self.z + a }
    }

    /// All three components multiplied by `a`.
    pub open spec fn scale(self, a: int) -> Vec3 {
        Vec3 { x: self.x * a, y: self.y * a, z: self.z * a }
    }

    /// Component-wise sum of two vectors.
    pub open spec fn add_coord(self, other: Vec3) -> Vec3 {
        Vec3 { x: self.x + other.x, y: self.y + other.y, z: self.z + other.z }
    }

    /// The dot product of the vector with itself: its squared magnitude.
    pub open spec fn inner_product(self) -> int {
        self.x * self.x + self.y * self.y + self.z * self.z
    }

    /// The component on axis `i`, counting x, y, z as 0, 1, 2.
    pub open spec fn axis(self, i: int) -> int {
        if i == 0 {
            self.x
        } else if i == 1 {
            self.y
        } else {
            self.z
        }
    }

    /// The squared Euclidean distance between `self` and `other`.
    pub open spec fn distance_squared(self, other: Vec3) -> int {
        (self.x - other.x) * (self.x - other.x) + (self.y - other.y) * (self.y - other.y) + (
        self.z - other.z) * (self.z - other.z)
    }
}

/// Shifting by zero leaves a vector unchanged, on each single axis and on
/// all three at once.
pub proof fn lemma_shift_zero_identity(v: Vec3)
    ensures
        v.shift_x(0) == v,
        v.shift_y(0) == v,
        v.shift_z(0) == v,
        v.shift_all(0) == v,
{
}

/// Two shifts of all components compose into one shift by the sum of the
/// two scalars.
pub proof fn lemma_shift_all_additive(v: Vec3, a: int, b: int)
    ensures
        v.shift_all(a).shift_all(b) == v.shift_all(a + b),
{
}

/// The squared distance from a vector to itself is zero.
pub proof fn lemma_distance_squared_self(v: Vec3)
    ensures
        v.distance_squared(v) == 0,
{
}

/// The squared distance is symmetric in its two vectors.
pub proof fn lemma_distance_squared_symmetric(v: Vec3, w: Vec3)
    ensures
        v.distance_squared(w) == w.distance_squared(v),
{
    assert((v.x - w.x) * (v.x - w.x) == (w.x - v.x) * (w.x - v.x)) by (nonlinear_arith);
    assert((v.y - w.y) * (v.y - w.y) == (w.y - v.y) * (w.y - v.y)) by (nonlinear_arith);
    assert((v.z - w.z) * (v.z - w.z) == (w.z - v.z) * (w.z - v.z)) by (nonlinear_arith);
}

/// The zero vector's inner product is zero.
pub proof fn lemma_origin_inner_product_zero()
    ensures
        Vec3::origin().inner_product() == 0,
{
}

/// A point or vector in 3D space: three components of one scalar type,
/// always simultaneously defined. Its mathematical value is the `Vec3`
/// view.
#[derive(Debug, Clone, Copy, PartialEq, Eq, Structural)]
pub struct Coord3d<U> {
    pub x: U,
    pub y: U,
    pub z: U,
}

impl<U: Scalar> View for Coord3d<U> {
    type V = Vec3;

    open spec fn view(&self) -> Vec3 {
        Vec3 { x: self.x.sval(), y: self.y.sval(), z: self.z.sval() }
    }
}

impl<U: Scalar> Coord3d<U> {
    /// Whether every component of `self` shifted by `a` stays in range.
    pub open spec fn can_shift_all(self, a: U) -> bool {
        &&& U::in_range(self@.x + a.sval())
        &&& U::in_range(self@.y + a.sval())
        &&& U::in_range(self@.z + a.sval())
    }

    /// Whether the x component of `self` shifted by `a` stays in range.
    pub open spec fn can_shift_x(self, a: U) -> bool {
        U::in_range(self@.x + a.sval())
    }

    /// Whether the y component of `self` shifted by `a` stays in range.
    pub open spec fn can_shift_y(self, a: U) -> bool {
        U::in_range(self@.y + a.sval())
    }

    /// Whether the z component of `self` shifted by `a` stays in range.
    pub open spec fn can_shift_z(self, a: U) -> bool {
        U::in_range(self@.z + a.sval())
    }

    /// Whether every component of `self` scaled by `a` stays in range.
    pub open spec fn can_scale(self, a: U) -> bool {
        &&& U::in_range(self@.x * a.sval())
        &&& U::in_range(self@.y * a.sval())
        &&& U::in_range(self@.z * a.sval())
    }

    /// Whether the component-wise sum of `self` and `other` stays in range.
    pub open spec fn can_add_coord(self, other: Coord3d<U>) -> bool {
        &&& U::in_range(self@.x + other@.x)
        &&& U::in_range(self@.y + other@.y)
        &&& U::in_range(self@.z + other@.z)
    }

    /// Whether the inner product of `self`, and each partial sum on the
    /// way to it, stays in range.
    pub open spec fn can_inner_product(self) -> bool {
        &&& U::in_range(self@.x * self@.x)
        &&& U::in_range(self@.y * self@.y)
        &&& U::in_range(self@.z * self@.z)
        &&& U::in_range(self@.x * self@.x + self@.y * self@.y)
        &&& U::in_range(self@.inner_product())
    }

    /// Whether every pairwise product of a component of `self` and a
    /// component of `other` stays in range.
    pub open spec fn can_outter_product(self, other: Coord3d<U>) -> bool {
        &&& U::in_range(self@.x * other@.x)
        &&& U::in_range(self@.x * other@.y)
        &&& U::in_range(self@.x * other@.z)
        &&& U::in_range(self@.y * other@.x)
        &&& U::in_range(self@.y * other@.y)
        &&& U::in_range(self@.y * other@.z)
        &&& U::in_range(self@.z * other@.x)
        &&& U::in_range(self@.z * other@.y)
        &&& U::in_range(self@.z * other@.z)
    }

    /// Whether each component-wise difference of `self` and `other`, its
    /// square, and each partial sum of the squares stays in range.
    pub open spec fn can_distance_squared(self, other: Coord3d<U>) -> bool {
        let dx = self@.x - other@.x;
        let dy = self@.y - other@.y;
        let dz = self@.z - other@.z;
        &&& U::in_range(dx)
        &&& U::in_range(dy)
        &&& U::in_range(dz)
        &&& U::in_range(dx * dx)
        &&& U::in_range(dy * dy)
        &&& U::in_range(dz * dz)
        &&& U::in_range(dx * dx + dy * dy)
        &&& U::in_range(self@.distance_squared(other@))
    }

    /// Construct a coordinate from three scalars.
    pub fn new(x: U, y: U, z: U) -> (r: Self)
        ensures
            r@ == (Vec3 { x: x.sval(), y: y.sval(), z: z.sval() }),
    {
        Coord3d { x, y, z }
    }

    /// Add the scalar `a` to all three components.
    pub fn shift_all(&self, a: U) -> (r: Self)
        requires
            self.can_shift_all(a),
        ensures
            r@ == self@.shift_all(a.sval()),
    {
        Coord3d { x: self.x.add_val(a), y: self.y.add_val(a), z: self.z.add_val(a) }
    }

    /// Add the scalar `a` to the x component, leaving the others unchanged.
    pub fn shift_x(&self, a: U) -> (r: Self)
        requires
            self.can_shift_x(a),
        ensures
            r@ == self@.shift_x(a.sval()),
    {
        Coord3d { x: self.x.add_val(a), y: self.y, z: self.z }
    }

    /// Add the scalar `a` to the y component, leaving the others unchanged.
    pub fn shift_y(&self, a: U) -> (r: Self)
        requires
            self.can_shift_y(a),
        ensures
            r@ == self@.shift_y(a.sval()),
    {
        Coord3d { x: self.x, y: self.y.add_val(a), z: self.z }
    }

    /// Add the scalar `a` to the z component, leaving the others unchanged.
    pub fn shift_z(&self, a: U) -> (r: Self)
        requires
            self.can_shift_z(a),
        ensures
            r@ == self@.shift_z(a.sval()),
    {
        Coord3d { x: self.x, y: self.y, z: self.z.add_val(a) }
    }

    /// Multiply all three components by the scalar `a`.
    pub fn scale(&self, a: U) -> (r: Self)
        requires
            self.can_scale(a),
        ensures
            r@ == self@.scale(a.sval()),
    {
        Coord3d { x: self.x.mul_val(a), y: self.y.mul_val(a), z: self.z.mul_val(a) }
    }

    /// Add another coordinate component-wise.
    pub fn add_coord(&self, coord3d: Coord3d<U>) -> (r: Self)
        requires
            self.can_add_coord(coord3d),
        ensures
            r@ == self@.add_coord(coord3d@),
    {
        Coord3d {
            x: self.x.add_val(coord3d.x),
            y: self.y.add_val(coord3d.y),
            z: self.z.add_val(coord3d.z),
        }
    }

    /// The zero vector, built from the scalar's zero value.
    pub fn origin() -> (r: Self)
        ensures
            r@ == Vec3::origin(),
    {
        Coord3d { x: U::zero(), y: U::zero(), z: U::zero() }
    }

    /// The dot product of the vector with itself: x² + y² + z².
    pub fn inner_product(&self) -> (r: U)
        requires
            self.can_inner_product(),
        ensures
            r.sval() == self@.inner_product(),
    {
        self.x.mul_val(self.x).add_val(self.y.mul_val(self.y)).add_val(self.z.mul_val(self.z))
    }

    /// The 3×3 grid of all pairwise products of a component of `self` and
    /// a component of `other`, in row order.
    pub fn outter_product(&self, other: &Coord3d<U>) -> (r: [[U; 3]; 3])
        requires
            self.can_outter_product(*other),
        ensures
            forall|i: int, j: int|
                0 <= i < 3 && 0 <= j < 3 ==> (#[trigger] r@[i]@[j]).sval() == self@.axis(i)
                    * other@.axis(j),
    {
        [
            [self.x.mul_val(other.x), self.x.mul_val(other.y), self.x.mul_val(other.z)],
            [self.y.mul_val(other.x), self.y.mul_val(other.y), self.y.mul_val(other.z)],
            [self.z.mul_val(other.x), self.z.mul_val(other.y), self.z.mul_val(other.z)],
        ]
    }

    /// The squared Euclidean distance between `self` and `coord3d`: the
    /// component-wise differences, squared and summed, still as a scalar.
    /// Converting the result to a float and taking its square root is left
    /// to the caller.
    pub fn distance_squared(&self, coord3d: Coord3d<U>) -> (r: U)
        requires
            self.can_distance_squared(coord3d),
        ensures
            r.sval() == self@.distance_squared(coord3d@),
    {
        let dx = self.x.sub_val(coord3d.x);
        let dy = self.y.sub_val(coord3d.y);
        let dz = self.z.sub_val(coord3d.z);
        dx.mul_val(dx).add_val(dy.mul_val(dy)).add_val(dz.mul_val(dz))
    }
}

} // verus!


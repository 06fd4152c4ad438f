//! Three-dimensional vectors with integer coordinates.
//!
//! A `Vector3` is either a point or a free direction; which of the two is
//! decided where a transform is applied to it. Its mathematical model is
//! `Vec3`, a triple of unbounded integers, and every operation states its
//! result over that model.
use std::ops::{Add, Index, IndexMut, Mul, Neg, Sub};
use vstd::prelude::*;
use vstd::std_specs::ops::{AddSpecImpl, MulSpecImpl, NegSpecImpl, SubSpecImpl};
use crate::scalar::{
    fits, lemma_distribute_signed, lemma_negated_factor, lemma_reorder,
    lemma_times_is_multiplication, narrow, product, times,
};

verus! {

/// The mathematical vector that a `Vector3` stands for.
pub struct Vec3 {
    pub x: int,
    pub y: int,
    pub z: int,
}

impl Vec3 {
    /// The additive identity.
    pub open spec fn zero() -> Vec3 {
        Vec3 { x: 0, y: 0, z: 0 }
    }

    /// Component-wise sum.
    pub open spec fn sum(self, other: Vec3) -> Vec3 {
        Vec3 { x: self.x + other.x, y: self.y + other.y, z: self.z + other.z }
    }

    /// Every component with its sign flipped.
    pub open spec fn negated(self) -> Vec3 {
        Vec3 { x: -self.x, y: -self.y, z: -self.z }
    }

    /// Subtraction, defined as the sum with the negation.
    pub open spec fn difference(self, other: Vec3) -> Vec3 {
        self.sum(other.negated())
    }

    /// Every component multiplied by `s`.
    pub open spec fn scaled(self, s: int) -> Vec3 {
        Vec3 { x: times(s, self.x), y: times(s, self.y), z: times(s, self.z) }
    }

    /// The dot product.
    pub open spec fn dot(self, other: Vec3) -> int {
        times(self.x, other.x) + times(self.y, other.y) + times(self.z, other.z)
    }

    /// The right-handed cross product.
    pub open spec fn cross(self, other: Vec3) -> Vec3 {
        Vec3 {
            x: times(self.y, other.z) - times(self.z, other.y),
            y: times(self.z, other.x) - times(self.x, other.z),
            z: times(self.x, other.y) - times(self.y, other.x),
        }
    }

    /// The coordinates of the point in homogeneous form: x, y, z and a
    /// fourth coordinate that is always 1.
    pub open spec fn homogeneous(self) -> Seq<int> {
        seq![self.x, self.y, self.z, 1int]
    }

    /// The vector with coordinate `i` (0, 1 or 2) replaced by `value`.
    pub open spec fn with_coordinate(self, i: int, value: int) -> Vec3 {
        if i == 0 {
            Vec3 { x: value, ..self }
        } else if i == 1 {
            Vec3 { y: value, ..self }
        } else if i == 2 {
            Vec3 { z: value, ..self }
        } else {
            self
        }
    }

    /// Whether every component can be stored in a `Vector3`.
    pub open spec fn fits(self) -> bool {
        fits(self.x) && fits(self.y) && fits(self.z)
    }

    /// The `Vector3` that stores this vector, meaningful when it fits.
    pub open spec fn stored(self) -> Vector3 {
        Vector3 { x: self.x as i32, y: self.y as i32, z: self.z as i32 }
    }
}

/// A vector of three integer coordinates.
///
/// Equality is exact and component-wise.
#[derive(Clone, Copy, Debug, PartialEq, Eq, Structural)]
pub struct Vector3 {
    pub x: i32,
    pub y: i32,
    pub z: i32,
}

impl View for Vector3 {
    type V = Vec3;

    open spec fn view(&self) -> Vec3 {
        Vec3 { x: self.x as int, y: self.y as int, z: self.z as int }
    }
}

impl AddSpecImpl<Vector3> for Vector3 {
    open spec fn obeys_add_spec() -> bool {
        true
    }

    open spec fn add_req(self, rhs: Vector3) -> bool {
        self@.sum(rhs@).fits()
    }

    open spec fn add_spec(self, rhs: Vector3) -> Vector3 {
        self@.sum(rhs@).stored()
    }
}

impl Add<Vector3> for Vector3 {
    type Output = Vector3;

    /// Component-wise sum; callable when every coordinate of the sum fits.
    fn add(self, rhs: Vector3) -> (r: Vector3)
        ensures
            r@ == self@.sum(rhs@),
    {
        Vector3 { x: self.x + rhs.x, y: self.y + rhs.y, z: self.z + rhs.z }
    }
}

impl AddSpecImpl<&Vector3> for Vector3 {
    open spec fn obeys_add_spec() -> bool {
        true
    }

    open spec fn add_req(self, rhs: &Vector3) -> bool {
        self@.sum(rhs@).fits()
    }

    open spec fn add_spec(self, rhs: &Vector3) -> Vector3 {
        self@.sum(rhs@).stored()
    }
}

impl Add<&Vector3> for Vector3 {
    type Output = Vector3;

    /// Component-wise sum with a borrowed right operand.
    fn add(self, rhs: &Vector3) -> (r: Vector3)
        ensures
            r@ == self@.sum(rhs@),
    {
        Vector3 { x: self.x + rhs.x, y: self.y + rhs.y, z: self.z + rhs.z }
    }
}

impl NegSpecImpl for Vector3 {
    open spec fn obeys_neg_spec() -> bool {
        true
    }

    open spec fn neg_req(self) -> bool {
        self@.negated().fits()
    }

    open spec fn neg_spec(self) -> Vector3 {
        self@.negated().stored()
    }
}

impl Neg for Vector3 {
    type Output = Vector3;

    /// The negated vector; callable unless a coordinate is `i32::MIN`.
    fn neg(self) -> (r: Vector3)
        ensures
            r@ == self@.negated(),
    {
        Vector3 { x: -self.x, y: -self.y, z: -self.z }
    }
}

impl NegSpecImpl for &Vector3 {
    open spec fn obeys_neg_spec() -> bool {
        true
    }

    open spec fn neg_req(self) -> bool {
        self@.negated().fits()
    }

    open spec fn neg_spec(self) -> Vector3 {
        self@.negated().stored()
    }
}

impl Neg for &Vector3 {
    type Output = Vector3;

    /// The negated vector of a borrowed operand.
    fn neg(self) -> (r: Vector3)
        ensures
            r@ == self@.negated(),
    {
        Vector3 { x: -self.x, y: -self.y, z: -self.z }
    }
}

impl SubSpecImpl<Vector3> for Vector3 {
    open spec fn obeys_sub_spec() -> bool {
        true
    }

    open spec fn sub_req(self, rhs: Vector3) -> bool {
        self@.difference(rhs@).fits()
    }

    open spec fn sub_spec(self, rhs: Vector3) -> Vector3 {
        self@.difference(rhs@).stored()
    }
}

impl Sub<Vector3> for Vector3 {
    type Output = Vector3;

    /// The sum of `self` and the negation of `rhs`. Only the difference
    /// itself has to fit, so the coordinates are subtracted directly.
    fn sub(self, rhs: Vector3) -> (r: Vector3)
        ensures
            r@ == self@.difference(rhs@),
    {
        Vector3 { x: self.x - rhs.x, y: self.y - rhs.y, z: self.z - rhs.z }
    }
}

impl SubSpecImpl<&Vector3> for Vector3 {
    open spec fn obeys_sub_spec() -> bool {
        true
    }

    open spec fn sub_req(self, rhs: &Vector3) -> bool {
        self@.difference(rhs@).fits()
    }

    open spec fn sub_spec(self, rhs: &Vector3) -> Vector3 {
        self@.difference(rhs@).stored()
    }
}

impl Sub<&Vector3> for Vector3 {
    type Output = Vector3;

    /// Subtraction with a borrowed right operand.
    fn sub(self, rhs: &Vector3) -> (r: Vector3)
        ensures
            r@ == self@.difference(rhs@),
    {
        Vector3 { x: self.x - rhs.x, y: self.y - rhs.y, z: self.z - rhs.z }
    }
}

impl MulSpecImpl<Vector3> for Vector3 {
    open spec fn obeys_mul_spec() -> bool {
        true
    }

    open spec fn mul_req(self, rhs: Vector3) -> bool {
        fits(self@.dot(rhs@))
    }

    open spec fn mul_spec(self, rhs: Vector3) -> i32 {
        self@.dot(rhs@) as i32
    }
}

impl Mul<Vector3> for Vector3 {
    type Output = i32;

    /// The dot product: a vector times a vector is a scalar. Callable when
    /// the dot product fits.
    fn mul(self, rhs: Vector3) -> (r: i32)
        ensures
            r == self@.dot(rhs@),
    {
        let exact: i128 = product(self.x, rhs.x) + product(self.y, rhs.y) + product(self.z, rhs.z);
        narrow(exact)
    }
}

impl MulSpecImpl<i32> for Vector3 {
    open spec fn obeys_mul_spec() -> bool {
        true
    }

    open spec fn mul_req(self, rhs: i32) -> bool {
        self@.scaled(rhs as int).fits()
    }

    open spec fn mul_spec(self, rhs: i32) -> Vector3 {
        self@.scaled(rhs as int).stored()
    }
}

impl Mul<i32> for Vector3 {
    type Output = Vector3;

    /// Uniform scaling: a vector times a scalar is a vector. Callable when
    /// every scaled coordinate fits.
    fn mul(self, rhs: i32) -> (r: Vector3)
        ensures
            r@ == self@.scaled(rhs as int),
    {
        Vector3 {
            x: narrow(product(rhs, self.x)),
            y: narrow(product(rhs, self.y)),
            z: narrow(product(rhs, self.z)),
        }
    }
}

impl vstd::std_specs::core::IndexSpecImpl<usize> for Vector3 {
    open spec fn index_req(&self, index: &usize) -> bool {
        *index <= 3
    }
}

impl Index<usize> for Vector3 {
    type Output = i32;

    /// Positions 0, 1 and 2 are x, y and z; position 3 reads the implicit
    /// homogeneous coordinate 1. Callable for `i <= 3`.
    fn index(&self, i: usize) -> (r: &i32)
        ensures
            *r == self@.homogeneous()[i as int],
    {
        match i {
            0 => &self.x,
            1 => &self.y,
            2 => &self.z,
            3 => &1,
            _ => unreached(),
        }
    }
}

impl IndexMut<usize> for Vector3 {
    /// Write access to x, y or z. The homogeneous coordinate cannot be
    /// written, so only positions 0, 1 and 2 are admitted.
    fn index_mut(&mut self, i: usize) -> (r: &mut i32)
        requires
            i < 3,
        ensures
            *r == old(self)@.homogeneous()[i as int],
            final(self)@ == old(self)@.with_coordinate(i as int, *final(r) as int),
    {
        match i {
            0 => &mut self.x,
            1 => &mut self.y,
            2 => &mut self.z,
            _ => unreached(),
        }
    }
}

/// The right-handed cross product of `a` and `b`.
pub fn cross(a: Vector3, b: Vector3) -> (r: Vector3)
    requires
        a@.cross(b@).fits(),
    ensures
        r@ == a@.cross(b@),
{
    Vector3 {
        x: narrow(product(a.y, b.z) - product(a.z, b.y)),
        y: narrow(product(a.z, b.x) - product(a.x, b.z)),
        z: narrow(product(a.x, b.y) - product(a.y, b.x)),
    }
}

/// The additive identity.
pub fn zero() -> (r: Vector3)
    ensures
        r@ == Vec3::zero(),
{
    Vector3 { x: 0, y: 0, z: 0 }
}

/// Swapping the operands of the cross product negates it.
pub proof fn law_cross_anticommutes(a: Vec3, b: Vec3)
    ensures
        b.cross(a) == a.cross(b).negated(),
{
    lemma_times_is_multiplication();
    lemma_negated_factor(a.x, b.y);
    lemma_negated_factor(a.x, b.z);
    lemma_negated_factor(a.y, b.x);
    lemma_negated_factor(a.y, b.z);
    lemma_negated_factor(a.z, b.x);
    lemma_negated_factor(a.z, b.y);
}

/// The cross product is perpendicular to both of its operands.
pub proof fn law_cross_is_perpendicular(a: Vec3, b: Vec3)
    ensures
        a.cross(b).dot(a) == 0,
        a.cross(b).dot(b) == 0,
{
    lemma_times_is_multiplication();
    lemma_distribute_signed(a.y * b.z, a.z * b.y, 0, a.x);
    lemma_distribute_signed(a.z * b.x, a.x * b.z, 0, a.y);
    lemma_distribute_signed(a.x * b.y, a.y * b.x, 0, a.z);
    lemma_distribute_signed(a.y * b.z, a.z * b.y, 0, b.x);
    lemma_distribute_signed(a.z * b.x, a.x * b.z, 0, b.y);
    lemma_distribute_signed(a.x * b.y, a.y * b.x, 0, b.z);
    lemma_reorder(a.y, b.z, a.x);
    lemma_reorder(a.z, b.y, a.x);
    lemma_reorder(a.z, b.x, a.y);
    lemma_reorder(a.x, b.z, a.y);
    lemma_reorder(a.x, b.y, a.z);
    lemma_reorder(a.y, b.x, a.z);
    lemma_reorder(a.y, b.z, b.x);
    lemma_reorder(a.z, b.y, b.x);
    lemma_reorder(a.z, b.x, b.y);
    lemma_reorder(a.x, b.z, b.y);
    lemma_reorder(a.x, b.y, b.z);
    lemma_reorder(a.y, b.x, b.z);
    lemma_negated_factor(a.x, a.y);
    lemma_negated_factor(a.y, a.z);
    lemma_negated_factor(a.z, a.x);
    lemma_negated_factor(b.x, b.y);
    lemma_negated_factor(b.y, b.z);
    lemma_negated_factor(b.z, b.x);
}

} // verus!

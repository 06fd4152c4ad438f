//! Quaternions with integer components.
//!
//! A quaternion represents a rotation when its squared magnitude is 1. The
//! type does not enforce that; the operations here are defined for every
//! quaternion. The mathematical model is `Quat`, four unbounded integers.
use std::ops::{Add, Mul};
use vstd::prelude::*;
use vstd::std_specs::ops::{AddSpecImpl, MulSpecImpl};
use crate::scalar::{
    fits, lemma_negated_factor, lemma_times_is_multiplication, narrow, product, times,
};
use crate::vector3::Vec3;

verus! {

/// The mathematical quaternion that a `Quaternion` stands for: a scalar
/// part `w` and a vector part (`x`, `y`, `z`).
pub struct Quat {
    pub w: int,
    pub x: int,
    pub y: int,
    pub z: int,
}

impl Quat {
    /// The quaternion with scalar part `w` and vector part `v`.
    pub open spec fn from_parts(w: int, v: Vec3) -> Quat {
        Quat { w, x: v.x, y: v.y, z: v.z }
    }

    /// The vector part.
    pub open spec fn vector_part(self) -> Vec3 {
        Vec3 { x: self.x, y: self.y, z: self.z }
    }

    /// The vector `v` embedded as a quaternion with scalar part 0.
    pub open spec fn pure(v: Vec3) -> Quat {
        Quat::from_parts(0, v)
    }

    /// The multiplicative identity.
    pub open spec fn identity() -> Quat {
        Quat { w: 1, x: 0, y: 0, z: 0 }
    }

    /// Component-wise sum.
    pub open spec fn sum(self, other: Quat) -> Quat {
        Quat { w: self.w + other.w, x: self.x + other.x, y: self.y + other.y, z: self.z + other.z }
    }

    /// The Hamilton product. With `self` = (w1, v1) and `other` = (w2, v2)
    /// it is (w1 w2 - v1 . v2, v1 x v2 + w1 v2 + w2 v1).
    pub open spec fn product(self, other: Quat) -> Quat {
        let v1 = self.vector_part();
        let v2 = other.vector_part();
        Quat::from_parts(
            times(self.w, other.w) - v1.dot(v2),
            v1.cross(v2).sum(v2.scaled(self.w)).sum(v1.scaled(other.w)),
        )
    }

    /// The conjugate: the vector part negated.
    pub open spec fn conjugate(self) -> Quat {
        Quat::from_parts(self.w, self.vector_part().negated())
    }

    /// The sum of the squares of the four components.
    pub open spec fn magnitude_squared(self) -> int {
        times(self.w, self.w) + times(self.x, self.x) + times(self.y, self.y) + times(self.z, self.z)
    }

    /// Whether every component can be stored in a `Quaternion`.
    pub open spec fn fits(self) -> bool {
        fits(self.w) && fits(self.x) && fits(self.y) && fits(self.z)
    }

    /// The `Quaternion` that stores this quaternion, meaningful when it
    /// fits.
    pub open spec fn stored(self) -> Quaternion {
        Quaternion { w: self.w as i32, x: self.x as i32, y: self.y as i32, z: self.z as i32 }
    }
}

/// A quaternion of four integer components.
#[derive(Clone, Copy, Debug, PartialEq, Eq, Structural)]
pub struct Quaternion {
    pub w: i32,
    pub x: i32,
    pub y: i32,
    pub z: i32,
}

impl View for Quaternion {
    type V = Quat;

    open spec fn view(&self) -> Quat {
        Quat { w: self.w as int, x: self.x as int, y: self.y as int, z: self.z as int }
    }
}

impl AddSpecImpl<Quaternion> for Quaternion {
    open spec fn obeys_add_spec() -> bool {
        true
    }

    open spec fn add_req(self, rhs: Quaternion) -> bool {
        self@.sum(rhs@).fits()
    }

    open spec fn add_spec(self, rhs: Quaternion) -> Quaternion {
        self@.sum(rhs@).stored()
    }
}

impl Add<Quaternion> for Quaternion {
    type Output = Quaternion;

    /// Component-wise sum; callable when every component of the sum fits.
    fn add(self, rhs: Quaternion) -> (r: Quaternion)
        ensures
            r@ == self@.sum(rhs@),
    {
        Quaternion {
            w: self.w + rhs.w,
            x: self.x + rhs.x,
            y: self.y + rhs.y,
            z: self.z + rhs.z,
        }
    }
}

impl MulSpecImpl<Quaternion> for Quaternion {
    open spec fn obeys_mul_spec() -> bool {
        true
    }

    open spec fn mul_req(self, rhs: Quaternion) -> bool {
        self@.product(rhs@).fits()
    }

    open spec fn mul_spec(self, rhs: Quaternion) -> Quaternion {
        self@.product(rhs@).stored()
    }
}

impl Mul<Quaternion> for Quaternion {
    type Output = Quaternion;

    /// The Hamilton product, which is not commutative. Callable when every
    /// component of the product fits.
    fn mul(self, rhs: Quaternion) -> (r: Quaternion)
        ensures
            r@ == self@.product(rhs@),
    {
        let dot: i128 = product(self.x, rhs.x) + product(self.y, rhs.y) + product(self.z, rhs.z);
        let w: i128 = product(self.w, rhs.w) - dot;
        let x: i128 = product(self.y, rhs.z) - product(self.z, rhs.y) + product(self.w, rhs.x)
            + product(rhs.w, self.x);
        let y: i128 = product(self.z, rhs.x) - product(self.x, rhs.z) + product(self.w, rhs.y)
            + product(rhs.w, self.y);
        let z: i128 = product(self.x, rhs.y) - product(self.y, rhs.x) + product(self.w, rhs.z)
            + product(rhs.w, self.z);
        Quaternion { w: narrow(w), x: narrow(x), y: narrow(y), z: narrow(z) }
    }
}

/// The multiplicative identity (1, 0, 0, 0).
pub fn identity() -> (r: Quaternion)
    ensures
        r@ == Quat::identity(),
{
    Quaternion { w: 1, x: 0, y: 0, z: 0 }
}

/// The conjugate of `q`: the vector part negated.
pub fn conjugate(q: Quaternion) -> (r: Quaternion)
    requires
        q@.conjugate().fits(),
    ensures
        r@ == q@.conjugate(),
{
    Quaternion { w: q.w, x: -q.x, y: -q.y, z: -q.z }
}

/// The squared magnitude of `q`.
pub fn magnitude_squared(q: Quaternion) -> (r: i32)
    requires
        fits(q@.magnitude_squared()),
    ensures
        r == q@.magnitude_squared(),
{
    let exact: i128 = product(q.w, q.w) + product(q.x, q.x) + product(q.y, q.y) + product(q.z, q.z);
    narrow(exact)
}

/// The identity is neutral for the Hamilton product, on either side.
pub proof fn law_identity_is_neutral(q: Quat)
    ensures
        Quat::identity().product(q) == q,
        q.product(Quat::identity()) == q,
{
}

/// Conjugating twice gives the quaternion back.
pub proof fn law_conjugate_is_an_involution(q: Quat)
    ensures
        q.conjugate().conjugate() == q,
{
}

/// A quaternion times its conjugate, in either order, is its squared
/// magnitude: a quaternion with no vector part.
pub proof fn law_product_with_conjugate(q: Quat)
    ensures
        q.product(q.conjugate()) == (Quat { w: q.magnitude_squared(), x: 0, y: 0, z: 0 }),
        q.conjugate().product(q) == (Quat { w: q.magnitude_squared(), x: 0, y: 0, z: 0 }),
{
    lemma_times_is_multiplication();
    lemma_negated_factor(q.w, q.x);
    lemma_negated_factor(q.w, q.y);
    lemma_negated_factor(q.w, q.z);
    lemma_negated_factor(q.x, q.x);
    lemma_negated_factor(q.x, q.y);
    lemma_negated_factor(q.x, q.z);
    lemma_negated_factor(q.y, q.x);
    lemma_negated_factor(q.y, q.y);
    lemma_negated_factor(q.y, q.z);
    lemma_negated_factor(q.z, q.x);
    lemma_negated_factor(q.z, q.y);
    lemma_negated_factor(q.z, q.z);
    lemma_negated_factor(-q.x, q.x);
    lemma_negated_factor(-q.x, q.y);
    lemma_negated_factor(-q.x, q.z);
    lemma_negated_factor(-q.y, q.x);
    lemma_negated_factor(-q.y, q.y);
    lemma_negated_factor(-q.y, q.z);
    lemma_negated_factor(-q.z, q.x);
    lemma_negated_factor(-q.z, q.y);
    lemma_negated_factor(-q.z, q.z);
    lemma_negated_factor(-q.x, q.w);
    lemma_negated_factor(-q.y, q.w);
    lemma_negated_factor(-q.z, q.w);
}

} // verus!

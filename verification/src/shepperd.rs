//! Shepperd's method for reading a quaternion off a rotation matrix: the
//! part of it that is exact.
//!
//! For the rotation matrix `m` of a unit quaternion (w, x, y, z) the
//! diagonal gives the squares of the components,
//!
//! ```text
//! 4w^2 = 1 + m00 + m11 + m22      4x^2 = 1 + m00 - m11 - m22
//! 4y^2 = 1 - m00 + m11 - m22      4z^2 = 1 - m00 - m11 + m22
//! ```
//!
//! and the off-diagonal entries give the products of pairs of components,
//!
//! ```text
//! 4xw = m21 - m12    4yw = m02 - m20    4zw = m10 - m01
//! 4xy = m10 + m01    4xz = m02 + m20    4yz = m21 + m12
//! ```
//!
//! The method takes the component of largest magnitude as the pivot, makes
//! it positive, and gives every other component the sign of its product
//! with the pivot. What is left after that is a square root of each
//! magnitude and a normalization, neither of which is exact; they are not
//! done here. The result is therefore handed out in signed-square form.
//!
//! The two decisions, which component is the pivot and which sign each
//! component gets, are functions of their own on plain values, so that a
//! caller who computes magnitudes in another number type can use them too.
use std::ops::Index;
use vstd::prelude::*;
use crate::matrix4::{Mat4, Matrix4};
use crate::quaternion::Quat;
use crate::rotation_matrix;
use crate::scalar::{lemma_times_is_multiplication, times};

verus! {

/// The component of a quaternion that was chosen as the pivot.
#[derive(Clone, Copy, Debug, PartialEq, Eq, Structural)]
pub enum Pivot {
    W,
    X,
    Y,
    Z,
}

/// For each pair of components, whether the off-diagonal combination that
/// is four times their product is non-negative.
#[derive(Clone, Copy, Debug, PartialEq, Eq, Structural)]
pub struct PairSigns {
    pub xw: bool,
    pub yw: bool,
    pub zw: bool,
    pub xy: bool,
    pub xz: bool,
    pub yz: bool,
}

/// For each component, whether it is taken as non-negative (`true`) or as
/// negative (`false`).
#[derive(Clone, Copy, Debug, PartialEq, Eq, Structural)]
pub struct ComponentSigns {
    pub w: bool,
    pub x: bool,
    pub y: bool,
    pub z: bool,
}

/// A quaternion in signed-square form: a stored value `s` stands for the
/// component of sign `sign(s)` and magnitude `sqrt(|s|) / 2`. The view is
/// the four stored values.
#[derive(Clone, Copy, Debug, PartialEq, Eq, Structural)]
pub struct SquaredQuaternion {
    pub w: i64,
    pub x: i64,
    pub y: i64,
    pub z: i64,
}

impl View for SquaredQuaternion {
    type V = Quat;

    open spec fn view(&self) -> Quat {
        Quat { w: self.w as int, x: self.x as int, y: self.y as int, z: self.z as int }
    }
}

/// The pivot for the magnitudes `w`, `x`, `y`, `z`: the component with the
/// largest one. Among equal largest magnitudes the first in the order W,
/// X, Y, Z is taken.
pub open spec fn largest_of(w: int, x: int, y: int, z: int) -> Pivot {
    if w >= x && w >= y && w >= z {
        Pivot::W
    } else if x >= y && x >= z {
        Pivot::X
    } else if y >= z {
        Pivot::Y
    } else {
        Pivot::Z
    }
}

/// The condition under which `p` is the pivot: its magnitude is at least
/// every other one, and strictly larger than those of the components
/// before it in the order W, X, Y, Z.
pub open spec fn is_pivot(p: Pivot, w: int, x: int, y: int, z: int) -> bool {
    match p {
        Pivot::W => w >= x && w >= y && w >= z,
        Pivot::X => x > w && x >= y && x >= z,
        Pivot::Y => y > w && y > x && y >= z,
        Pivot::Z => z > w && z > x && z > y,
    }
}

/// The component `p` of `q`.
pub open spec fn component(q: Quat, p: Pivot) -> int {
    match p {
        Pivot::W => q.w,
        Pivot::X => q.x,
        Pivot::Y => q.y,
        Pivot::Z => q.z,
    }
}

/// The signs of the components for pivot `p`: the pivot is positive, and
/// every other component has the sign of its product with the pivot.
pub open spec fn signs_for(p: Pivot, s: PairSigns) -> ComponentSigns {
    match p {
        Pivot::W => ComponentSigns { w: true, x: s.xw, y: s.yw, z: s.zw },
        Pivot::X => ComponentSigns { w: s.xw, x: true, y: s.xy, z: s.xz },
        Pivot::Y => ComponentSigns { w: s.yw, x: s.xy, y: true, z: s.yz },
        Pivot::Z => ComponentSigns { w: s.zw, x: s.xz, y: s.yz, z: true },
    }
}

/// `v`, or 0 where `v` is negative.
pub open spec fn clamped(v: int) -> int {
    if v < 0 {
        0
    } else {
        v
    }
}

/// `v` with the sign that `non_negative` asks for; `v` itself is not
/// negative.
pub open spec fn signed(non_negative: bool, v: int) -> int {
    if non_negative {
        v
    } else {
        -v
    }
}

/// The four candidates of `m`: four times the square of each component,
/// read off the diagonal and clamped at zero.
pub open spec fn candidates(m: Mat4) -> Quat {
    Quat {
        w: clamped(1 + m.m00 + m.m11 + m.m22),
        x: clamped(1 + m.m00 - m.m11 - m.m22),
        y: clamped(1 - m.m00 + m.m11 - m.m22),
        z: clamped(1 - m.m00 - m.m11 + m.m22),
    }
}

/// The signs of the six off-diagonal combinations of `m`.
pub open spec fn pair_signs(m: Mat4) -> PairSigns {
    PairSigns {
        xw: m.m21 - m.m12 >= 0,
        yw: m.m02 - m.m20 >= 0,
        zw: m.m10 - m.m01 >= 0,
        xy: m.m10 + m.m01 >= 0,
        xz: m.m02 + m.m20 >= 0,
        yz: m.m21 + m.m12 >= 0,
    }
}

/// The pivot of `m`: the component with the largest candidate.
pub open spec fn pivot_of(m: Mat4) -> Pivot {
    let c = candidates(m);
    largest_of(c.w, c.x, c.y, c.z)
}

/// The quaternion of `m` in signed-square form: each candidate with the
/// sign that the pivot gives to its component.
pub open spec fn squared_quaternion(m: Mat4) -> Quat {
    let c = candidates(m);
    let s = signs_for(pivot_of(m), pair_signs(m));
    Quat { w: signed(s.w, c.w), x: signed(s.x, c.x), y: signed(s.y, c.y), z: signed(s.z, c.z) }
}

/// Chooses the pivot among four magnitudes. Any values that are ordered
/// as the magnitudes are will do, their squares for instance.
pub fn select_pivot(w: i64, x: i64, y: i64, z: i64) -> (p: Pivot)
    ensures
        p == largest_of(w as int, x as int, y as int, z as int),
        is_pivot(p, w as int, x as int, y as int, z as int),
{
    if w >= x && w >= y && w >= z {
        Pivot::W
    } else if x >= y && x >= z {
        Pivot::X
    } else if y >= z {
        Pivot::Y
    } else {
        Pivot::Z
    }
}

/// Gives each component its sign, once the pivot is known.
pub fn component_signs(pivot: Pivot, pairs: PairSigns) -> (r: ComponentSigns)
    ensures
        r == signs_for(pivot, pairs),
{
    match pivot {
        Pivot::W => ComponentSigns { w: true, x: pairs.xw, y: pairs.yw, z: pairs.zw },
        Pivot::X => ComponentSigns { w: pairs.xw, x: true, y: pairs.xy, z: pairs.xz },
        Pivot::Y => ComponentSigns { w: pairs.yw, x: pairs.xy, y: true, z: pairs.yz },
        Pivot::Z => ComponentSigns { w: pairs.zw, x: pairs.xz, y: pairs.yz, z: true },
    }
}

/// `v`, or 0 where `v` is negative.
fn clamp(v: i64) -> (r: i64)
    ensures
        r == clamped(v as int),
{
    if v < 0 {
        0
    } else {
        v
    }
}

/// `v` with the sign that `non_negative` asks for.
fn with_sign(non_negative: bool, v: i64) -> (r: i64)
    requires
        v != i64::MIN,
    ensures
        r == signed(non_negative, v as int),
{
    if non_negative {
        v
    } else {
        -v
    }
}

/// The four candidates of `m`, none of them negative.
pub fn trace_candidates(m: &Matrix4) -> (r: SquaredQuaternion)
    ensures
        r@ == candidates(m@),
{
    let m00: i64 = m[0][0] as i64;
    let m11: i64 = m[1][1] as i64;
    let m22: i64 = m[2][2] as i64;
    SquaredQuaternion {
        w: clamp(1 + m00 + m11 + m22),
        x: clamp(1 + m00 - m11 - m22),
        y: clamp(1 - m00 + m11 - m22),
        z: clamp(1 - m00 - m11 + m22),
    }
}

/// The signs of the six off-diagonal combinations of `m`.
pub fn off_diagonal_signs(m: &Matrix4) -> (r: PairSigns)
    ensures
        r == pair_signs(m@),
{
    let m01: i64 = m[0][1] as i64;
    let m02: i64 = m[0][2] as i64;
    let m10: i64 = m[1][0] as i64;
    let m12: i64 = m[1][2] as i64;
    let m20: i64 = m[2][0] as i64;
    let m21: i64 = m[2][1] as i64;
    PairSigns {
        xw: m21 - m12 >= 0,
        yw: m02 - m20 >= 0,
        zw: m10 - m01 >= 0,
        xy: m10 + m01 >= 0,
        xz: m02 + m20 >= 0,
        yz: m21 + m12 >= 0,
    }
}

/// Reads the quaternion of the rotation matrix `m` off its entries, in
/// signed-square form. The matrix is not checked to be a rotation; for
/// one that is not, the result is still what the formulas give.
pub fn matrix_to_squared_quaternion(m: Matrix4) -> (r: SquaredQuaternion)
    ensures
        r@ == squared_quaternion(m@),
{
    let c = trace_candidates(&m);
    let pivot = select_pivot(c.w, c.x, c.y, c.z);
    let s = component_signs(pivot, off_diagonal_signs(&m));
    SquaredQuaternion {
        w: with_sign(s.w, c.w),
        x: with_sign(s.x, c.x),
        y: with_sign(s.y, c.y),
        z: with_sign(s.z, c.z),
    }
}

/// For every four magnitudes exactly one component meets the condition of
/// the pivot, and it is the one that is chosen.
pub proof fn law_one_pivot(p: Pivot, w: int, x: int, y: int, z: int)
    ensures
        is_pivot(p, w, x, y, z) <==> p == largest_of(w, x, y, z),
        component(Quat { w, x, y, z }, largest_of(w, x, y, z)) >= w,
        component(Quat { w, x, y, z }, largest_of(w, x, y, z)) >= x,
        component(Quat { w, x, y, z }, largest_of(w, x, y, z)) >= y,
        component(Quat { w, x, y, z }, largest_of(w, x, y, z)) >= z,
{
}

/// `q`, or its negation where component `p` of `q` is negative. Both stand
/// for the same rotation.
pub open spec fn with_positive(q: Quat, p: Pivot) -> Quat {
    if component(q, p) >= 0 {
        q
    } else {
        Quat { w: -q.w, x: -q.x, y: -q.y, z: -q.z }
    }
}

/// The signed-square form of the component `c`: four times its square,
/// with its sign.
pub open spec fn signed_square(c: int) -> int {
    signed(c >= 0, 4 * times(c, c))
}

/// The signed-square form of `q`.
pub open spec fn in_signed_squares(q: Quat) -> Quat {
    Quat {
        w: signed_square(q.w),
        x: signed_square(q.x),
        y: signed_square(q.y),
        z: signed_square(q.z),
    }
}

/// What the entries of the matrix of a quaternion hold, whatever its
/// magnitude: the six off-diagonal combinations are four times the
/// products of pairs of components, and the four diagonal combinations are
/// four times the squares of the components; the one for `w` has in
/// addition four times what the squared magnitude lacks to 1.
pub proof fn law_matrix_holds_products(q: Quat)
    ensures
        ({
            let m = rotation_matrix(q);
            let rest = 4 * (1 - q.magnitude_squared());
            &&& m.m21 - m.m12 == 4 * times(q.x, q.w)
            &&& m.m02 - m.m20 == 4 * times(q.y, q.w)
            &&& m.m10 - m.m01 == 4 * times(q.z, q.w)
            &&& m.m10 + m.m01 == 4 * times(q.x, q.y)
            &&& m.m02 + m.m20 == 4 * times(q.x, q.z)
            &&& m.m21 + m.m12 == 4 * times(q.y, q.z)
            &&& 1 + m.m00 + m.m11 + m.m22 == 4 * times(q.w, q.w) + rest
            &&& 1 + m.m00 - m.m11 - m.m22 == 4 * times(q.x, q.x)
            &&& 1 - m.m00 + m.m11 - m.m22 == 4 * times(q.y, q.y)
            &&& 1 - m.m00 - m.m11 + m.m22 == 4 * times(q.z, q.z)
        }),
{
}

/// The sign of a product, read from the signs of its factors.
proof fn lemma_sign_of_product(a: int, b: int)
    by (nonlinear_arith)
    ensures
        a > 0 ==> (a * b >= 0 <==> b >= 0) && (b * a >= 0 <==> b >= 0),
        a < 0 ==> (a * b >= 0 <==> b <= 0) && (b * a >= 0 <==> b <= 0),
        a * a >= 0,
        (-a) * (-a) == a * a,
        a == 0 <==> a * a == 0,
{
}

/// Expanding a quaternion of squared magnitude 1 into its matrix and
/// reading the matrix back gives the quaternion again, up to the sign of
/// the whole: the result is the signed-square form of `q` or of `-q`,
/// whichever has a positive pivot. The pivot component is never 0.
pub proof fn law_extraction_inverts_expansion(q: Quat)
    requires
        q.magnitude_squared() == 1,
    ensures
        component(q, pivot_of(rotation_matrix(q))) != 0,
        squared_quaternion(rotation_matrix(q)) == in_signed_squares(
            with_positive(q, pivot_of(rotation_matrix(q))),
        ),
{
    lemma_times_is_multiplication();
    law_matrix_holds_products(q);
    lemma_sign_of_product(q.w, q.x);
    lemma_sign_of_product(q.w, q.y);
    lemma_sign_of_product(q.w, q.z);
    lemma_sign_of_product(q.x, q.w);
    lemma_sign_of_product(q.x, q.y);
    lemma_sign_of_product(q.x, q.z);
    lemma_sign_of_product(q.y, q.w);
    lemma_sign_of_product(q.y, q.x);
    lemma_sign_of_product(q.y, q.z);
    lemma_sign_of_product(q.z, q.w);
    lemma_sign_of_product(q.z, q.x);
    lemma_sign_of_product(q.z, q.y);
    assert(candidates(rotation_matrix(q)) == Quat {
        w: 4 * times(q.w, q.w),
        x: 4 * times(q.x, q.x),
        y: 4 * times(q.y, q.y),
        z: 4 * times(q.z, q.z),
    });
}

} // verus!

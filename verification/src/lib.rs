//! Exact spatial-transform algebra on the integer lattice.
//!
//! The value types are `Vector3`, `Matrix4` and `Quaternion`, with one
//! mathematical model each (`Vec3`, `Mat4`, `Quat`). This module holds the
//! layer that connects them: applying a homogeneous matrix to a point,
//! building the quaternion of a rotation about an axis, expanding a
//! quaternion into its rotation matrix, and rotating a vector by a
//! quaternion. Reading a quaternion back off a rotation matrix is in
//! `shepperd`.
//!
//! All arithmetic is exact. A function may be called whenever its exact
//! result can be stored in the components of the value it returns. An
//! angle enters only through its cosine and sine, or those of its half;
//! taking them, like taking a square root, is left to the caller.
pub mod scalar;
pub mod vector3;
pub mod matrix4;
pub mod quaternion;
pub mod shepperd;

use std::ops::{Index, IndexMut};
use vstd::prelude::*;
use crate::matrix4::{lemma_filled, Mat4, Matrix4};
use crate::quaternion::{Quat, Quaternion};
use crate::scalar::{
    fits, inner_product, lemma_associate, lemma_distribute, lemma_distribute_doubled,
    lemma_distribute_less_one, lemma_distribute_signed, lemma_inner_product_of_four,
    lemma_negated_factor, lemma_reorder, lemma_square_of_product,
    lemma_times_is_multiplication, lemma_unit_factor, narrow, product, product_limit, times,
    wide_product, wide_product_negated,
};
use crate::vector3::{zero, Vec3, Vector3};

verus! {

/// The image of the point `v` under `m`: the first three coordinates of
/// `m` times the homogeneous point (x, y, z, 1). Coordinate `i` is the sum
/// over `j` of `m[i][j]` times the `j`-th homogeneous coordinate, the
/// fourth of which is 1; the fourth row of `m` plays no part.
pub open spec fn transformed_point(m: Mat4, v: Vec3) -> Vec3 {
    Vec3 {
        x: times(m.m00, v.x) + times(m.m01, v.y) + times(m.m02, v.z) + m.m03,
        y: times(m.m10, v.x) + times(m.m11, v.y) + times(m.m12, v.z) + m.m13,
        z: times(m.m20, v.x) + times(m.m21, v.y) + times(m.m22, v.z) + m.m23,
    }
}

/// The rotation matrix of the quaternion `q`, in closed form: a 3x3 block
/// in the top-left corner, zeros in the rest of the last row and column,
/// and 1 in the bottom-right corner. It is a rotation when `q` has
/// squared magnitude 1.
pub open spec fn rotation_matrix(q: Quat) -> Mat4 {
    let xx: int = times(q.x, q.x);
    let yy: int = times(q.y, q.y);
    let zz: int = times(q.z, q.z);
    let xy: int = times(q.x, q.y);
    let xz: int = times(q.x, q.z);
    let yz: int = times(q.y, q.z);
    let xw: int = times(q.x, q.w);
    let yw: int = times(q.y, q.w);
    let zw: int = times(q.z, q.w);
    Mat4 {
        m00: 1 - 2 * yy - 2 * zz,
        m01: 2 * xy - 2 * zw,
        m02: 2 * xz + 2 * yw,
        m03: 0,
        m10: 2 * xy + 2 * zw,
        m11: 1 - 2 * xx - 2 * zz,
        m12: 2 * yz - 2 * xw,
        m13: 0,
        m20: 2 * xz - 2 * yw,
        m21: 2 * yz + 2 * xw,
        m22: 1 - 2 * xx - 2 * yy,
        m23: 0,
        m30: 0,
        m31: 0,
        m32: 0,
        m33: 1,
    }
}

/// The vector `v` rotated by `q`: the vector part of `q (0, v) q*`, where
/// `q*` is the conjugate of `q`.
pub open spec fn rotated(q: Quat, v: Vec3) -> Vec3 {
    q.product(Quat::pure(v)).product(q.conjugate()).vector_part()
}

/// The quaternion of the rotation about `axis` for an angle whose half has
/// cosine `c` and sine `s`: the scalar part is `c` and the vector part is
/// `axis` with every coordinate multiplied by `s`. It has squared magnitude
/// 1 when `axis` has length 1 and the squares of `c` and `s` add up to 1.
pub open spec fn axis_angle_quaternion(axis: Vec3, c: int, s: int) -> Quat {
    Quat { w: c, x: times(axis.x, s), y: times(axis.y, s), z: times(axis.z, s) }
}

/// Coordinate `i` of the image of a point is row `i` of the matrix times
/// the homogeneous coordinates of the point.
proof fn lemma_row_image(m: Mat4, v: Vec3, i: int)
    requires
        0 <= i < 3,
    ensures
        inner_product(m.row(i), v.homogeneous(), 4) == transformed_point(m, v).homogeneous()[i],
{
    let a = m.row(i);
    let h = v.homogeneous();
    lemma_inner_product_of_four(a, h);
    assert(h[0] == v.x && h[1] == v.y && h[2] == v.z && h[3] == 1);
}

/// Applies `m` to the point `v`: the result is `m` times the homogeneous
/// point (x, y, z, 1), without the fourth coordinate. Callable when every
/// coordinate of the image fits; the sums are exact whatever the size of
/// their terms.
pub fn matrix_vector_transform(v: Vector3, m: Matrix4) -> (r: Vector3)
    requires
        transformed_point(m@, v@).fits(),
    ensures
        r@ == transformed_point(m@, v@),
{
    let ghost target = transformed_point(m@, v@);
    let mut result = zero();
    let mut i: usize = 0;
    while i < 4
        invariant
            i <= 4,
            target == transformed_point(m@, v@),
            target.fits(),
            i > 0 ==> result@.x == target.x,
            i > 1 ==> result@.y == target.y,
            i > 2 ==> result@.z == target.z,
        decreases 4 - i,
    {
        if i != 3 {
            let mut sum: i128 = 0;
            let mut j: usize = 0;
            while j < 4
                invariant
                    i < 3,
                    j <= 4,
                    sum == inner_product(m@.row(i as int), v@.homogeneous(), j as int),
                    -(j * product_limit()) <= sum <= j * product_limit(),
                decreases 4 - j,
            {
                sum = sum + product(m[i][j], v[j]);
                j += 1;
            }
            proof {
                lemma_row_image(m@, v@, i as int);
            }
            *result.index_mut(i) = narrow(sum);
        }
        i += 1;
    }
    result
}

/// The quaternion of the rotation about `axis` by an angle, given by the
/// cosine and the sine of half the angle. `axis` is taken as it is: a
/// caller who wants a rotation passes an axis of length 1. Callable when
/// every component of the result fits.
pub fn quaternion_from_axis_angle(axis: Vector3, cos_half: i32, sin_half: i32) -> (r: Quaternion)
    requires
        axis_angle_quaternion(axis@, cos_half as int, sin_half as int).fits(),
    ensures
        r@ == axis_angle_quaternion(axis@, cos_half as int, sin_half as int),
{
    Quaternion {
        w: cos_half,
        x: narrow(product(axis.x, sin_half)),
        y: narrow(product(axis.y, sin_half)),
        z: narrow(product(axis.z, sin_half)),
    }
}

/// Expands `q` into its rotation matrix. `q` is taken as it is and is not
/// normalized: a caller who wants a rotation passes a quaternion of squared
/// magnitude 1. Callable when every entry of the matrix fits.
pub fn quaternion_to_matrix(q: Quaternion) -> (r: Matrix4)
    requires
        rotation_matrix(q@).fits(),
    ensures
        r@ == rotation_matrix(q@),
{
    let ghost target = rotation_matrix(q@);
    let xx: i128 = product(q.x, q.x);
    let yy: i128 = product(q.y, q.y);
    let zz: i128 = product(q.z, q.z);
    let xy: i128 = product(q.x, q.y);
    let xz: i128 = product(q.x, q.z);
    let yz: i128 = product(q.y, q.z);
    let xw: i128 = product(q.x, q.w);
    let yw: i128 = product(q.y, q.w);
    let zw: i128 = product(q.z, q.w);
    assert(fits(target.entry(0, 0)) && fits(target.entry(0, 1)) && fits(target.entry(0, 2)));
    assert(fits(target.entry(1, 0)) && fits(target.entry(1, 1)) && fits(target.entry(1, 2)));
    assert(fits(target.entry(2, 0)) && fits(target.entry(2, 1)) && fits(target.entry(2, 2)));
    let r = Matrix4 {
        matrix: [
            [narrow(1 - 2 * yy - 2 * zz), narrow(2 * xy - 2 * zw), narrow(2 * xz + 2 * yw), 0],
            [narrow(2 * xy + 2 * zw), narrow(1 - 2 * xx - 2 * zz), narrow(2 * yz - 2 * xw), 0],
            [narrow(2 * xz - 2 * yw), narrow(2 * yz + 2 * xw), narrow(1 - 2 * xx - 2 * yy), 0],
            [0, 0, 0, 1],
        ],
    };
    proof {
        lemma_filled(r, target);
    }
    r
}

/// Rotates `v` by `q`: embeds `v` as a quaternion with scalar part 0,
/// multiplies by `q` on the left and by the conjugate of `q` on the right,
/// and returns the vector part. The intermediate products are exact
/// whatever their size; only the result has to fit.
pub fn transform(v: Vector3, q: Quaternion) -> (r: Vector3)
    requires
        rotated(q@, v@).fits(),
    ensures
        r@ == rotated(q@, v@),
{
    let pw: i128 = -(product(q.x, v.x) + product(q.y, v.y) + product(q.z, v.z));
    let px: i128 = product(q.y, v.z) - product(q.z, v.y) + product(q.w, v.x);
    let py: i128 = product(q.z, v.x) - product(q.x, v.z) + product(q.w, v.y);
    let pz: i128 = product(q.x, v.y) - product(q.y, v.x) + product(q.w, v.z);
    proof {
        assert(q@.product(Quat::pure(v@)) == Quat {
            w: pw as int,
            x: px as int,
            y: py as int,
            z: pz as int,
        });
    }
    let x: i128 = wide_product_negated(py, q.z) - wide_product_negated(pz, q.y)
        + wide_product_negated(pw, q.x) + wide_product(px, q.w);
    let y: i128 = wide_product_negated(pz, q.x) - wide_product_negated(px, q.z)
        + wide_product_negated(pw, q.y) + wide_product(py, q.w);
    let z: i128 = wide_product_negated(px, q.y) - wide_product_negated(py, q.x)
        + wide_product_negated(pw, q.z) + wide_product(pz, q.w);
    Vector3 { x: narrow(x), y: narrow(y), z: narrow(z) }
}

/// The identity matrix leaves every point where it is.
pub proof fn law_identity_fixes_every_point(v: Vec3)
    ensures
        transformed_point(Mat4::identity(), v) == v,
{
}

/// The translation by (`x`, `y`, `z`) moves every point by that offset.
pub proof fn law_translation_adds_offset(x: int, y: int, z: int, v: Vec3)
    ensures
        transformed_point(Mat4::translation(x, y, z), v) == v.sum(Vec3 { x, y, z }),
{
}

/// Translating the origin by `a` along x, then by `b` along y, then by `c`
/// along z, ends at the point (`a`, `b`, `c`).
pub proof fn law_axis_translations_compose(a: int, b: int, c: int)
    ensures
        transformed_point(
            Mat4::translation(0, 0, c),
            transformed_point(
                Mat4::translation(0, b, 0),
                transformed_point(Mat4::translation(a, 0, 0), Vec3::zero()),
            ),
        ) == (Vec3 { x: a, y: b, z: c }),
{
    let first = transformed_point(Mat4::translation(a, 0, 0), Vec3::zero());
    law_translation_adds_offset(a, 0, 0, Vec3::zero());
    let second = transformed_point(Mat4::translation(0, b, 0), first);
    law_translation_adds_offset(0, b, 0, first);
    law_translation_adds_offset(0, 0, c, second);
}

/// Scaling by the same factor `s` along every axis multiplies every
/// coordinate of a point by `s`.
pub proof fn law_uniform_scaling_scales(s: int, v: Vec3)
    ensures
        transformed_point(Mat4::scaling(s, s, s), v) == v.scaled(s),
{
}

/// One coordinate of the image under a product of matrices, for a second
/// matrix `b` whose last row is (0, 0, 0, 1): a row (`a0`, `a1`, `a2`,
/// `a3`) of the first matrix times the columns of `b`, applied to a point,
/// is that row applied to the image of the point under `b`.
proof fn lemma_row_of_composition(a0: int, a1: int, a2: int, a3: int, b: Mat4, v: Vec3)
    requires
        b.m30 == 0,
        b.m31 == 0,
        b.m32 == 0,
        b.m33 == 1,
    ensures
        (a0 * b.m00 + a1 * b.m10 + a2 * b.m20 + a3 * b.m30) * v.x + (a0 * b.m01 + a1 * b.m11 + a2
            * b.m21 + a3 * b.m31) * v.y + (a0 * b.m02 + a1 * b.m12 + a2 * b.m22 + a3 * b.m32) * v.z
            + (a0 * b.m03 + a1 * b.m13 + a2 * b.m23 + a3 * b.m33) == a0 * transformed_point(b, v).x
            + a1 * transformed_point(b, v).y + a2 * transformed_point(b, v).z + a3,
{
    lemma_times_is_multiplication();
    lemma_distribute(a0, b.m00 * v.x, b.m01 * v.y, b.m02 * v.z, b.m03);
    lemma_distribute(a1, b.m10 * v.x, b.m11 * v.y, b.m12 * v.z, b.m13);
    lemma_distribute(a2, b.m20 * v.x, b.m21 * v.y, b.m22 * v.z, b.m23);
    lemma_associate(a0, b.m00, v.x);
    lemma_associate(a0, b.m01, v.y);
    lemma_associate(a0, b.m02, v.z);
    lemma_associate(a1, b.m10, v.x);
    lemma_associate(a1, b.m11, v.y);
    lemma_associate(a1, b.m12, v.z);
    lemma_associate(a2, b.m20, v.x);
    lemma_associate(a2, b.m21, v.y);
    lemma_associate(a2, b.m22, v.z);
    lemma_distribute(v.x, a0 * b.m00, a1 * b.m10, a2 * b.m20, a3 * b.m30);
    lemma_distribute(v.y, a0 * b.m01, a1 * b.m11, a2 * b.m21, a3 * b.m31);
    lemma_distribute(v.z, a0 * b.m02, a1 * b.m12, a2 * b.m22, a3 * b.m32);
    assert(a3 * b.m30 == 0 && a3 * b.m31 == 0 && a3 * b.m32 == 0 && a3 * b.m33 == a3)
        by (nonlinear_arith)
        requires
            b.m30 == 0,
            b.m31 == 0,
            b.m32 == 0,
            b.m33 == 1,
    ;
    lemma_unit_factor(a3 * b.m30, v.x);
    lemma_unit_factor(a3 * b.m31, v.y);
    lemma_unit_factor(a3 * b.m32, v.z);
}

/// Applying a product of matrices is applying the second matrix and then
/// the first, provided that the second keeps points points: its last row
/// is (0, 0, 0, 1), as it is for every translation, scaling and rotation.
pub proof fn law_product_composes(a: Mat4, b: Mat4, v: Vec3)
    requires
        b.m30 == 0,
        b.m31 == 0,
        b.m32 == 0,
        b.m33 == 1,
    ensures
        transformed_point(a.product(b), v) == transformed_point(a, transformed_point(b, v)),
{
    lemma_times_is_multiplication();
    lemma_row_of_composition(a.m00, a.m01, a.m02, a.m03, b, v);
    lemma_row_of_composition(a.m10, a.m11, a.m12, a.m13, b, v);
    lemma_row_of_composition(a.m20, a.m21, a.m22, a.m23, b, v);
    let c = a.product(b);
    assert(c.m00 == a.row_times_column(b, 0, 0) && c.m01 == a.row_times_column(b, 0, 1) && c.m02
        == a.row_times_column(b, 0, 2) && c.m03 == a.row_times_column(b, 0, 3));
    assert(c.m10 == a.row_times_column(b, 1, 0) && c.m11 == a.row_times_column(b, 1, 1) && c.m12
        == a.row_times_column(b, 1, 2) && c.m13 == a.row_times_column(b, 1, 3));
    assert(c.m20 == a.row_times_column(b, 2, 0) && c.m21 == a.row_times_column(b, 2, 1) && c.m22
        == a.row_times_column(b, 2, 2) && c.m23 == a.row_times_column(b, 2, 3));
}

/// One coordinate of a vector rotated by a quaternion. The quaternion is
/// (`w`, `x`, `y`, `z`) and the vector (`a`, `b`, `c`); (`pw`, `px`, `py`,
/// `pz`) is the product of the quaternion and the embedded vector. The
/// coordinate along `x` of that product times the conjugate is row `x` of
/// the rotation matrix applied to the vector, plus `a` times what the
/// squared magnitude has above 1.
proof fn lemma_rotated_coordinate(
    w: int,
    x: int,
    y: int,
    z: int,
    a: int,
    b: int,
    c: int,
    pw: int,
    px: int,
    py: int,
    pz: int,
)
    requires
        pw == -(x * a + y * b + z * c),
        px == y * c - z * b + w * a,
        py == z * a - x * c + w * b,
        pz == x * b - y * a + w * c,
    ensures
        py * (-z) - pz * (-y) + pw * (-x) + w * px == (1 - 2 * (y * y) - 2 * (z * z)) * a + (2 * (x
            * y) - 2 * (z * w)) * b + (2 * (x * z) + 2 * (y * w)) * c + (w * w + x * x + y * y + z * z
            - 1) * a,
{
    lemma_negated_factor(py, z);
    lemma_negated_factor(pz, y);
    lemma_negated_factor(pw, x);
    lemma_distribute_signed(z * a, x * c, w * b, z);
    lemma_distribute_signed(x * b, y * a, w * c, y);
    lemma_distribute_signed(x * a, y * b, z * c, x);
    lemma_distribute_signed(y * c, z * b, w * a, w);
    lemma_reorder(z, a, z);
    lemma_reorder(x, c, z);
    lemma_reorder(w, b, z);
    lemma_reorder(x, b, y);
    lemma_reorder(y, a, y);
    lemma_reorder(w, c, y);
    lemma_reorder(x, a, x);
    lemma_reorder(y, b, x);
    lemma_reorder(z, c, x);
    lemma_reorder(y, c, w);
    lemma_reorder(z, b, w);
    lemma_reorder(w, a, w);
    lemma_distribute_doubled(y * y, z * z, a);
    lemma_distribute_doubled(x * y, z * w, b);
    lemma_distribute_doubled(x * z, y * w, c);
    lemma_distribute_less_one(w * w, x * x, y * y, z * z, a);
}

/// Rotating a vector by a quaternion and applying the rotation matrix of
/// the quaternion differ by the vector times what the squared magnitude of
/// the quaternion has above 1. For a quaternion of squared magnitude 1 the
/// two are the same.
pub proof fn law_rotation_agrees_with_matrix(q: Quat, v: Vec3)
    ensures
        rotated(q, v) == transformed_point(rotation_matrix(q), v).sum(
            v.scaled(q.magnitude_squared() - 1),
        ),
        q.magnitude_squared() == 1 ==> rotated(q, v) == transformed_point(rotation_matrix(q), v),
{
    lemma_times_is_multiplication();
    let p = q.product(Quat::pure(v));
    lemma_rotated_coordinate(q.w, q.x, q.y, q.z, v.x, v.y, v.z, p.w, p.x, p.y, p.z);
    lemma_rotated_coordinate(q.w, q.y, q.z, q.x, v.y, v.z, v.x, p.w, p.y, p.z, p.x);
    lemma_rotated_coordinate(q.w, q.z, q.x, q.y, v.z, v.x, v.y, p.w, p.z, p.x, p.y);
    lemma_negated_factor(q.x, q.y);
    lemma_negated_factor(q.y, q.z);
    lemma_negated_factor(q.z, q.x);
    lemma_negated_factor(q.x, q.w);
    lemma_negated_factor(q.y, q.w);
    lemma_negated_factor(q.z, q.w);
    lemma_unit_factor(q.magnitude_squared() - 1, v.x);
    lemma_unit_factor(q.magnitude_squared() - 1, v.y);
    lemma_unit_factor(q.magnitude_squared() - 1, v.z);
}

/// The quaternion about an axis of length 1, for a half angle whose cosine
/// and sine have squares that add up to 1, has squared magnitude 1. What
/// its scalar part lacks to 1 in the square is the square of the sine, so
/// that the axis is its vector part divided by the sine.
pub proof fn law_axis_angle_quaternion_is_unit(axis: Vec3, c: int, s: int)
    requires
        axis.dot(axis) == 1,
        times(c, c) + times(s, s) == 1,
    ensures
        axis_angle_quaternion(axis, c, s).magnitude_squared() == 1,
        1 - times(axis_angle_quaternion(axis, c, s).w, axis_angle_quaternion(axis, c, s).w) == times(
            s,
            s,
        ),
{
    lemma_times_is_multiplication();
    lemma_square_of_product(axis.x, s);
    lemma_square_of_product(axis.y, s);
    lemma_square_of_product(axis.z, s);
    lemma_distribute(s * s, axis.x * axis.x, axis.y * axis.y, axis.z * axis.z, 0);
    lemma_unit_factor(axis.x * axis.x + axis.y * axis.y + axis.z * axis.z + 0, s * s);
}

/// The matrix of the quaternion about a coordinate axis is the rotation
/// matrix about that axis for the opposite angle: with `c` and `s` the
/// cosine and sine of half the angle, it is the rotation for the cosine
/// `1 - 2 s^2` and the sine `-2 s c`. Rotations given by a quaternion and
/// rotations given by `Mat4::rotation_x`, `rotation_y` and `rotation_z`
/// turn in opposite senses.
pub proof fn law_axis_quaternion_matches_rotation(c: int, s: int)
    ensures
        rotation_matrix(axis_angle_quaternion(Vec3 { x: 1, y: 0, z: 0 }, c, s)) == Mat4::rotation_x(
            1 - 2 * times(s, s),
            -2 * times(s, c),
        ),
        rotation_matrix(axis_angle_quaternion(Vec3 { x: 0, y: 1, z: 0 }, c, s)) == Mat4::rotation_y(
            1 - 2 * times(s, s),
            -2 * times(s, c),
        ),
        rotation_matrix(axis_angle_quaternion(Vec3 { x: 0, y: 0, z: 1 }, c, s)) == Mat4::rotation_z(
            1 - 2 * times(s, s),
            -2 * times(s, c),
        ),
{
}

} // verus!

//! Four-by-four integer matrices in row-major order.
//!
//! A `Matrix4` represents an affine or general linear transform in
//! homogeneous coordinates. Its mathematical model is `Mat4`, sixteen
//! unbounded integers. No invariant is imposed on the entries.
use std::ops::{Add, Index, IndexMut, Mul, Neg, Sub};
use vstd::prelude::*;
use vstd::std_specs::cmp::PartialEqSpecImpl;
use vstd::std_specs::ops::{AddSpecImpl, MulSpecImpl, NegSpecImpl, SubSpecImpl};
use crate::scalar::{
    fits, inner_product, lemma_inner_product_of_four, lemma_negated_factor,
    lemma_times_is_multiplication, narrow, product, product_limit, times,
};

verus! {

/// The mathematical matrix that a `Matrix4` stands for: sixteen integers,
/// `mij` being the entry in row `i` and column `j`.
pub struct Mat4 {
    pub m00: int,
    pub m01: int,
    pub m02: int,
    pub m03: int,
    pub m10: int,
    pub m11: int,
    pub m12: int,
    pub m13: int,
    pub m20: int,
    pub m21: int,
    pub m22: int,
    pub m23: int,
    pub m30: int,
    pub m31: int,
    pub m32: int,
    pub m33: int,
}

impl Mat4 {
    /// The matrix whose entry in row `i` and column `j` is `f(i, j)`.
    pub open spec fn from_entries(f: spec_fn(int, int) -> int) -> Mat4 {
        Mat4 {
            m00: f(0, 0), m01: f(0, 1), m02: f(0, 2), m03: f(0, 3),
            m10: f(1, 0), m11: f(1, 1), m12: f(1, 2), m13: f(1, 3),
            m20: f(2, 0), m21: f(2, 1), m22: f(2, 2), m23: f(2, 3),
            m30: f(3, 0), m31: f(3, 1), m32: f(3, 2), m33: f(3, 3),
        }
    }

    /// The entry in row `i` and column `j`, for `i` and `j` from 0 to 3.
    pub open spec fn entry(self, i: int, j: int) -> int {
        if i == 0 {
            if j == 0 {
                self.m00
            } else if j == 1 {
                self.m01
            } else if j == 2 {
                self.m02
            } else {
                self.m03
            }
        } else if i == 1 {
            if j == 0 {
                self.m10
            } else if j == 1 {
                self.m11
            } else if j == 2 {
                self.m12
            } else {
                self.m13
            }
        } else if i == 2 {
            if j == 0 {
                self.m20
            } else if j == 1 {
                self.m21
            } else if j == 2 {
                self.m22
            } else {
                self.m23
            }
        } else {
            if j == 0 {
                self.m30
            } else if j == 1 {
                self.m31
            } else if j == 2 {
                self.m32
            } else {
                self.m33
            }
        }
    }

    /// Row `i`, read from the left.
    pub open spec fn row(self, i: int) -> Seq<int> {
        seq![self.entry(i, 0), self.entry(i, 1), self.entry(i, 2), self.entry(i, 3)]
    }

    /// Column `j`, read from the top.
    pub open spec fn column(self, j: int) -> Seq<int> {
        seq![self.entry(0, j), self.entry(1, j), self.entry(2, j), self.entry(3, j)]
    }

    /// The matrix of zeros.
    pub open spec fn zero() -> Mat4 {
        Mat4 {
            m00: 0, m01: 0, m02: 0, m03: 0,
            m10: 0, m11: 0, m12: 0, m13: 0,
            m20: 0, m21: 0, m22: 0, m23: 0,
            m30: 0, m31: 0, m32: 0, m33: 0,
        }
    }

    /// The identity matrix.
    pub open spec fn identity() -> Mat4 {
        Mat4 {
            m00: 1, m01: 0, m02: 0, m03: 0,
            m10: 0, m11: 1, m12: 0, m13: 0,
            m20: 0, m21: 0, m22: 1, m23: 0,
            m30: 0, m31: 0, m32: 0, m33: 1,
        }
    }

    /// The identity with the first three rows of the rightmost column set
    /// to `x`, `y` and `z`.
    pub open spec fn translation(x: int, y: int, z: int) -> Mat4 {
        Mat4 {
            m00: 1, m01: 0, m02: 0, m03: x,
            m10: 0, m11: 1, m12: 0, m13: y,
            m20: 0, m21: 0, m22: 1, m23: z,
            m30: 0, m31: 0, m32: 0, m33: 1,
        }
    }

    /// The diagonal matrix with `x`, `y`, `z` and 1 on the diagonal.
    pub open spec fn scaling(x: int, y: int, z: int) -> Mat4 {
        Mat4 {
            m00: x, m01: 0, m02: 0, m03: 0,
            m10: 0, m11: y, m12: 0, m13: 0,
            m20: 0, m21: 0, m22: z, m23: 0,
            m30: 0, m31: 0, m32: 0, m33: 1,
        }
    }

    /// The rotation about the x axis for an angle of cosine `c` and sine
    /// `s`. The angle is taken negated: this is the standard right-handed
    /// rotation by minus the angle. It is a rotation when the squares of
    /// `c` and `s` add up to 1.
    pub open spec fn rotation_x(c: int, s: int) -> Mat4 {
        Mat4 {
            m00: 1, m01: 0, m02: 0, m03: 0,
            m10: 0, m11: c, m12: s, m13: 0,
            m20: 0, m21: -s, m22: c, m23: 0,
            m30: 0, m31: 0, m32: 0, m33: 1,
        }
    }

    /// The rotation about the y axis for an angle of cosine `c` and sine
    /// `s`, with the angle taken negated as in `rotation_x`.
    pub open spec fn rotation_y(c: int, s: int) -> Mat4 {
        Mat4 {
            m00: c, m01: 0, m02: -s, m03: 0,
            m10: 0, m11: 1, m12: 0, m13: 0,
            m20: s, m21: 0, m22: c, m23: 0,
            m30: 0, m31: 0, m32: 0, m33: 1,
        }
    }

    /// The rotation about the z axis for an angle of cosine `c` and sine
    /// `s`, with the angle taken negated as in `rotation_x`.
    pub open spec fn rotation_z(c: int, s: int) -> Mat4 {
        Mat4 {
            m00: c, m01: s, m02: 0, m03: 0,
            m10: -s, m11: c, m12: 0, m13: 0,
            m20: 0, m21: 0, m22: 1, m23: 0,
            m30: 0, m31: 0, m32: 0, m33: 1,
        }
    }

    /// Entry-wise sum.
    pub open spec fn sum(self, other: Mat4) -> Mat4 {
        Mat4::from_entries(|i: int, j: int| self.entry(i, j) + other.entry(i, j))
    }

    /// Every entry with its sign flipped.
    pub open spec fn negated(self) -> Mat4 {
        Mat4::from_entries(|i: int, j: int| -self.entry(i, j))
    }

    /// Subtraction, defined as the sum with the negation.
    pub open spec fn difference(self, other: Mat4) -> Mat4 {
        self.sum(other.negated())
    }

    /// Row `i` of `self` times column `j` of `other`: the sum over `k` of
    /// `self[i][k] * other[k][j]`.
    pub open spec fn row_times_column(self, other: Mat4, i: int, j: int) -> int {
        times(self.entry(i, 0), other.entry(0, j)) + times(self.entry(i, 1), other.entry(1, j))
            + times(self.entry(i, 2), other.entry(2, j)) + times(self.entry(i, 3), other.entry(3, j))
    }

    /// The matrix product: entry (i, j) is row `i` of `self` times column
    /// `j` of `other`.
    pub open spec fn product(self, other: Mat4) -> Mat4 {
        Mat4::from_entries(|i: int, j: int| self.row_times_column(other, i, j))
    }

    /// Every entry multiplied by `s`.
    pub open spec fn scaled(self, s: int) -> Mat4 {
        Mat4::from_entries(|i: int, j: int| times(self.entry(i, j), s))
    }

    /// Rows and columns swapped.
    pub open spec fn transposed(self) -> Mat4 {
        Mat4::from_entries(|i: int, j: int| self.entry(j, i))
    }

    /// The `Matrix4` that stands for this matrix, meaningful when it fits.
    pub open spec fn stored(self) -> Matrix4 {
        choose|m: Matrix4| m@ == self
    }

    /// Whether every entry can be stored in a `Matrix4`.
    pub open spec fn fits(self) -> bool {
        forall|i: int, j: int| 0 <= i < 4 && 0 <= j < 4 ==> fits(#[trigger] self.entry(i, j))
    }
}

/// A four-by-four matrix of integers, stored row by row.
#[derive(Clone, Copy, Debug)]
pub struct Matrix4 {
    pub matrix: [[i32; 4]; 4],
}

impl View for Matrix4 {
    type V = Mat4;

    open spec fn view(&self) -> Mat4 {
        Mat4 {
            m00: self.matrix[0][0] as int,
            m01: self.matrix[0][1] as int,
            m02: self.matrix[0][2] as int,
            m03: self.matrix[0][3] as int,
            m10: self.matrix[1][0] as int,
            m11: self.matrix[1][1] as int,
            m12: self.matrix[1][2] as int,
            m13: self.matrix[1][3] as int,
            m20: self.matrix[2][0] as int,
            m21: self.matrix[2][1] as int,
            m22: self.matrix[2][2] as int,
            m23: self.matrix[2][3] as int,
            m30: self.matrix[3][0] as int,
            m31: self.matrix[3][1] as int,
            m32: self.matrix[3][2] as int,
            m33: self.matrix[3][3] as int,
        }
    }
}

impl Matrix4 {
    /// The stored entry in row `i` and column `j`.
    pub(crate) open spec fn entry(&self, i: int, j: int) -> int {
        self.matrix[i][j] as int
    }

    /// Stores `value` in row `i` and column `j`; every other entry stays
    /// as it is.
    pub(crate) fn put(&mut self, i: usize, j: usize, value: i32)
        requires
            i < 4,
            j < 4,
        ensures
            final(self).entry(i as int, j as int) == value,
            forall|a: int, b: int|
                0 <= a < 4 && 0 <= b < 4 && !(a == i && b == j) ==> #[trigger] final(self).entry(a, b)
                    == old(self).entry(a, b),
    {
        self.matrix[i][j] = value;
    }

    /// Whether the first `i` rows, and the first `j` entries of row `i`,
    /// hold the entries of `target`.
    pub(crate) open spec fn filled_to(&self, target: Mat4, i: int, j: int) -> bool {
        forall|a: int, b: int|
            0 <= a < 4 && 0 <= b < 4 && (a < i || (a == i && b < j)) ==> #[trigger] self.entry(a, b)
                == target.entry(a, b)
    }
}

impl vstd::std_specs::core::IndexSpecImpl<usize> for Matrix4 {
    open spec fn index_req(&self, index: &usize) -> bool {
        *index < 4
    }
}

impl Index<usize> for Matrix4 {
    type Output = [i32; 4];

    /// Row `i`, itself indexable by column. Callable for `i < 4`.
    fn index(&self, i: usize) -> (r: &[i32; 4])
        ensures
            *r == self.matrix[i as int],
            forall|j: int| 0 <= j < 4 ==> r[j] as int == #[trigger] self@.entry(i as int, j),
    {
        &self.matrix[i]
    }
}

impl IndexMut<usize> for Matrix4 {
    /// Write access to row `i`; the other rows stay as they are.
    fn index_mut(&mut self, i: usize) -> (r: &mut [i32; 4])
        requires
            i < 4,
        ensures
            *r == old(self).matrix[i as int],
            final(self).matrix@ == old(self).matrix@.update(i as int, *final(r)),
    {
        &mut self.matrix[i]
    }
}

impl PartialEqSpecImpl for Matrix4 {
    open spec fn obeys_eq_spec() -> bool {
        true
    }

    open spec fn eq_spec(&self, other: &Matrix4) -> bool {
        self@ == other@
    }
}

impl PartialEq for Matrix4 {
    /// Exact entry-wise equality.
    fn eq(&self, other: &Matrix4) -> (r: bool)
        ensures
            r == (self@ == other@),
    {
        let mut i: usize = 0;
        while i < 4
            invariant
                i <= 4,
                self.filled_to(other@, i as int, 0),
            decreases 4 - i,
        {
            let mut j: usize = 0;
            while j < 4
                invariant
                    i < 4,
                    j <= 4,
                    self.filled_to(other@, i as int, j as int),
                decreases 4 - j,
            {
                if self[i][j] != other[i][j] {
                    assert(self@.entry(i as int, j as int) != other@.entry(i as int, j as int));
                    return false;
                }
                j += 1;
            }
            i += 1;
        }
        proof {
            lemma_filled(*self, other@);
        }
        true
    }
}

impl Eq for Matrix4 {}

/// A matrix whose sixteen stored entries are those of `target` stands for
/// `target`.
pub(crate) proof fn lemma_filled(m: Matrix4, target: Mat4)
    requires
        m.filled_to(target, 4, 0),
    ensures
        m@ == target,
{
    assert(m.entry(0, 0) == target.m00 && m.entry(0, 1) == target.m01 && m.entry(0, 2) == target.m02
        && m.entry(0, 3) == target.m03);
    assert(m.entry(1, 0) == target.m10 && m.entry(1, 1) == target.m11 && m.entry(1, 2) == target.m12
        && m.entry(1, 3) == target.m13);
    assert(m.entry(2, 0) == target.m20 && m.entry(2, 1) == target.m21 && m.entry(2, 2) == target.m22
        && m.entry(2, 3) == target.m23);
    assert(m.entry(3, 0) == target.m30 && m.entry(3, 1) == target.m31 && m.entry(3, 2) == target.m32
        && m.entry(3, 3) == target.m33);
}

/// Two matrices that stand for the same grid store the same entries.
pub proof fn lemma_view_is_injective(a: Matrix4, b: Matrix4)
    requires
        a@ == b@,
    ensures
        a == b,
{
    assert forall|i: int| 0 <= i < 4 implies a.matrix[i] == b.matrix[i] by {
        assert forall|j: int| 0 <= j < 4 implies a.matrix[i][j] == b.matrix[i][j] by {
            assert(a@.entry(i, j) == a.entry(i, j));
            assert(b@.entry(i, j) == b.entry(i, j));
        }
        assert(a.matrix[i] =~= b.matrix[i]);
    }
    assert(a.matrix =~= b.matrix);
}

/// A matrix is the one that stores its own grid.
pub proof fn lemma_stored(m: Matrix4)
    ensures
        m@.stored() == m,
{
    lemma_view_is_injective(m@.stored(), m);
}

impl AddSpecImpl<Matrix4> for Matrix4 {
    open spec fn obeys_add_spec() -> bool {
        true
    }

    open spec fn add_req(self, rhs: Matrix4) -> bool {
        self@.sum(rhs@).fits()
    }

    open spec fn add_spec(self, rhs: Matrix4) -> Matrix4 {
        self@.sum(rhs@).stored()
    }
}

impl Add<Matrix4> for Matrix4 {
    type Output = Matrix4;

    /// Entry-wise sum; callable when every entry of the sum fits.
    fn add(self, rhs: Matrix4) -> (r: Matrix4)
        ensures
            r@ == self@.sum(rhs@),
    {
        let ghost target = self@.sum(rhs@);
        let mut result = zero();
        let mut i: usize = 0;
        while i < 4
            invariant
                i <= 4,
                target == self@.sum(rhs@),
                target.fits(),
                result.filled_to(target, i as int, 0),
            decreases 4 - i,
        {
            let mut j: usize = 0;
            while j < 4
                invariant
                    i < 4,
                    j <= 4,
                    target == self@.sum(rhs@),
                    target.fits(),
                    result.filled_to(target, i as int, j as int),
                decreases 4 - j,
            {
                assert(fits(target.entry(i as int, j as int)));
                result.put(i, j, self[i][j] + rhs[i][j]);
                j += 1;
            }
            i += 1;
        }
        proof {
            lemma_filled(result, target);
            lemma_stored(result);
        }
        result
    }
}

impl NegSpecImpl for Matrix4 {
    open spec fn obeys_neg_spec() -> bool {
        true
    }

    open spec fn neg_req(self) -> bool {
        self@.negated().fits()
    }

    open spec fn neg_spec(self) -> Matrix4 {
        self@.negated().stored()
    }
}

impl Neg for Matrix4 {
    type Output = Matrix4;

    /// Flips the sign of every entry; callable unless an entry is
    /// `i32::MIN`.
    fn neg(self) -> (r: Matrix4)
        ensures
            r@ == self@.negated(),
    {
        let ghost target = self@.negated();
        let mut result = zero();
        let mut i: usize = 0;
        while i < 4
            invariant
                i <= 4,
                target == self@.negated(),
                target.fits(),
                result.filled_to(target, i as int, 0),
            decreases 4 - i,
        {
            let mut j: usize = 0;
            while j < 4
                invariant
                    i < 4,
                    j <= 4,
                    target == self@.negated(),
                    target.fits(),
                    result.filled_to(target, i as int, j as int),
                decreases 4 - j,
            {
                assert(fits(target.entry(i as int, j as int)));
                result.put(i, j, -self[i][j]);
                j += 1;
            }
            i += 1;
        }
        proof {
            lemma_filled(result, target);
            lemma_stored(result);
        }
        result
    }
}

impl SubSpecImpl<Matrix4> for Matrix4 {
    open spec fn obeys_sub_spec() -> bool {
        true
    }

    open spec fn sub_req(self, rhs: Matrix4) -> bool {
        self@.difference(rhs@).fits()
    }

    open spec fn sub_spec(self, rhs: Matrix4) -> Matrix4 {
        self@.difference(rhs@).stored()
    }
}

impl Sub<Matrix4> for Matrix4 {
    type Output = Matrix4;

    /// The sum of `self` and the negation of `rhs`. Only the difference
    /// itself has to fit, so the entries are subtracted directly.
    fn sub(self, rhs: Matrix4) -> (r: Matrix4)
        ensures
            r@ == self@.difference(rhs@),
    {
        let ghost target = self@.difference(rhs@);
        let mut result = zero();
        let mut i: usize = 0;
        while i < 4
            invariant
                i <= 4,
                target == self@.difference(rhs@),
                target.fits(),
                result.filled_to(target, i as int, 0),
            decreases 4 - i,
        {
            let mut j: usize = 0;
            while j < 4
                invariant
                    i < 4,
                    j <= 4,
                    target == self@.difference(rhs@),
                    target.fits(),
                    result.filled_to(target, i as int, j as int),
                decreases 4 - j,
            {
                assert(fits(target.entry(i as int, j as int)));
                result.put(i, j, self[i][j] - rhs[i][j]);
                j += 1;
            }
            i += 1;
        }
        proof {
            lemma_filled(result, target);
            lemma_stored(result);
        }
        result
    }
}

impl MulSpecImpl<Matrix4> for Matrix4 {
    open spec fn obeys_mul_spec() -> bool {
        true
    }

    open spec fn mul_req(self, rhs: Matrix4) -> bool {
        self@.product(rhs@).fits()
    }

    open spec fn mul_spec(self, rhs: Matrix4) -> Matrix4 {
        self@.product(rhs@).stored()
    }
}

impl Mul<Matrix4> for Matrix4 {
    type Output = Matrix4;

    /// The matrix product, accumulated entry by entry over the shared
    /// index. Callable when every entry of the product fits; the partial
    /// sums are exact whatever their size.
    fn mul(self, rhs: Matrix4) -> (r: Matrix4)
        ensures
            r@ == self@.product(rhs@),
    {
        let ghost target = self@.product(rhs@);
        let mut result = zero();
        let mut i: usize = 0;
        while i < 4
            invariant
                i <= 4,
                target == self@.product(rhs@),
                target.fits(),
                result.filled_to(target, i as int, 0),
            decreases 4 - i,
        {
            let mut j: usize = 0;
            while j < 4
                invariant
                    i < 4,
                    j <= 4,
                    target == self@.product(rhs@),
                    target.fits(),
                    result.filled_to(target, i as int, j as int),
                decreases 4 - j,
            {
                let mut sum: i128 = 0;
                let mut k: usize = 0;
                while k < 4
                    invariant
                        i < 4,
                        j < 4,
                        k <= 4,
                        sum == inner_product(self@.row(i as int), rhs@.column(j as int), k as int),
                        -(k * product_limit()) <= sum <= k * product_limit(),
                    decreases 4 - k,
                {
                    sum = sum + product(self[i][k], rhs[k][j]);
                    k += 1;
                }
                proof {
                    lemma_inner_product_of_four(self@.row(i as int), rhs@.column(j as int));
                }
                assert(fits(target.entry(i as int, j as int)));
                result.put(i, j, narrow(sum));
                j += 1;
            }
            i += 1;
        }
        proof {
            lemma_filled(result, target);
            lemma_stored(result);
        }
        result
    }
}

impl MulSpecImpl<i32> for Matrix4 {
    open spec fn obeys_mul_spec() -> bool {
        true
    }

    open spec fn mul_req(self, rhs: i32) -> bool {
        self@.scaled(rhs as int).fits()
    }

    open spec fn mul_spec(self, rhs: i32) -> Matrix4 {
        self@.scaled(rhs as int).stored()
    }
}

impl Mul<i32> for Matrix4 {
    type Output = Matrix4;

    /// Every entry multiplied by `rhs`. All sixteen entries of the result
    /// are written, so nothing of the matrix the loop starts from is left
    /// in it. Callable when every scaled entry fits.
    fn mul(self, rhs: i32) -> (r: Matrix4)
        ensures
            r@ == self@.scaled(rhs as int),
    {
        let ghost target = self@.scaled(rhs as int);
        let mut result = identity();
        let mut i: usize = 0;
        while i < 4
            invariant
                i <= 4,
                target == self@.scaled(rhs as int),
                target.fits(),
                result.filled_to(target, i as int, 0),
            decreases 4 - i,
        {
            let mut j: usize = 0;
            while j < 4
                invariant
                    i < 4,
                    j <= 4,
                    target == self@.scaled(rhs as int),
                    target.fits(),
                    result.filled_to(target, i as int, j as int),
                decreases 4 - j,
            {
                assert(fits(target.entry(i as int, j as int)));
                result.put(i, j, narrow(product(self[i][j], rhs)));
                j += 1;
            }
            i += 1;
        }
        proof {
            lemma_filled(result, target);
            lemma_stored(result);
        }
        result
    }
}

/// The translation by (`x`, `y`, `z`): the identity with the first three
/// rows of the rightmost column set to `x`, `y` and `z`.
pub fn create_translation_matrix(x: i32, y: i32, z: i32) -> (r: Matrix4)
    ensures
        r@ == Mat4::translation(x as int, y as int, z as int),
{
    let r = Matrix4 { matrix: [[1, 0, 0, x], [0, 1, 0, y], [0, 0, 1, z], [0, 0, 0, 1]] };
    proof {
        lemma_filled(r, Mat4::translation(x as int, y as int, z as int));
    }
    r
}

/// The scaling by `x`, `y` and `z` along the axes: the diagonal matrix
/// with `x`, `y`, `z` and 1 on the diagonal.
pub fn create_scale_matrix(x: i32, y: i32, z: i32) -> (r: Matrix4)
    ensures
        r@ == Mat4::scaling(x as int, y as int, z as int),
{
    let r = Matrix4 { matrix: [[x, 0, 0, 0], [0, y, 0, 0], [0, 0, z, 0], [0, 0, 0, 1]] };
    proof {
        lemma_filled(r, Mat4::scaling(x as int, y as int, z as int));
    }
    r
}

/// The rotation about the x axis for the angle whose cosine and sine are
/// `cos` and `sin`. The angle is taken negated, so that the matrix is the
/// standard right-handed rotation by minus the angle. Only the negated
/// sine has to fit.
pub fn create_rotation_x(cos: i32, sin: i32) -> (r: Matrix4)
    requires
        fits(-sin),
    ensures
        r@ == Mat4::rotation_x(cos as int, sin as int),
{
    let r = Matrix4 {
        matrix: [[1, 0, 0, 0], [0, cos, sin, 0], [0, -sin, cos, 0], [0, 0, 0, 1]],
    };
    proof {
        lemma_filled(r, Mat4::rotation_x(cos as int, sin as int));
    }
    r
}

/// The rotation about the y axis for the angle whose cosine and sine are
/// `cos` and `sin`, with the angle taken negated as in `create_rotation_x`.
pub fn create_rotation_y(cos: i32, sin: i32) -> (r: Matrix4)
    requires
        fits(-sin),
    ensures
        r@ == Mat4::rotation_y(cos as int, sin as int),
{
    let r = Matrix4 {
        matrix: [[cos, 0, -sin, 0], [0, 1, 0, 0], [sin, 0, cos, 0], [0, 0, 0, 1]],
    };
    proof {
        lemma_filled(r, Mat4::rotation_y(cos as int, sin as int));
    }
    r
}

/// The rotation about the z axis for the angle whose cosine and sine are
/// `cos` and `sin`, with the angle taken negated as in `create_rotation_x`.
pub fn create_rotation_z(cos: i32, sin: i32) -> (r: Matrix4)
    requires
        fits(-sin),
    ensures
        r@ == Mat4::rotation_z(cos as int, sin as int),
{
    let r = Matrix4 {
        matrix: [[cos, sin, 0, 0], [-sin, cos, 0, 0], [0, 0, 1, 0], [0, 0, 0, 1]],
    };
    proof {
        lemma_filled(r, Mat4::rotation_z(cos as int, sin as int));
    }
    r
}

/// The transpose of `x`: rows and columns swapped.
pub fn transpose(x: Matrix4) -> (r: Matrix4)
    ensures
        r@ == x@.transposed(),
{
    let r = Matrix4 {
        matrix: [
            [x[0][0], x[1][0], x[2][0], x[3][0]],
            [x[0][1], x[1][1], x[2][1], x[3][1]],
            [x[0][2], x[1][2], x[2][2], x[3][2]],
            [x[0][3], x[1][3], x[2][3], x[3][3]],
        ],
    };
    proof {
        lemma_filled(r, x@.transposed());
    }
    r
}

/// The matrix of zeros.
pub fn zero() -> (r: Matrix4)
    ensures
        r@ == Mat4::zero(),
{
    let r = Matrix4 { matrix: [[0, 0, 0, 0], [0, 0, 0, 0], [0, 0, 0, 0], [0, 0, 0, 0]] };
    proof {
        lemma_filled(r, Mat4::zero());
    }
    r
}

/// The identity matrix.
pub fn identity() -> (r: Matrix4)
    ensures
        r@ == Mat4::identity(),
{
    let r = Matrix4 { matrix: [[1, 0, 0, 0], [0, 1, 0, 0], [0, 0, 1, 0], [0, 0, 0, 1]] };
    proof {
        lemma_filled(r, Mat4::identity());
    }
    r
}

/// Adding a matrix to itself doubles every entry.
pub proof fn law_sum_with_itself_doubles(m: Mat4)
    ensures
        m.sum(m) == m.scaled(2),
{
}

/// A matrix minus itself is the matrix of zeros, and a matrix minus the
/// matrix of zeros is the matrix itself.
pub proof fn law_difference_cancels(m: Mat4)
    ensures
        m.difference(m) == Mat4::zero(),
        m.difference(Mat4::zero()) == m,
{
}

/// Transposing twice gives the matrix back; the identity and the matrix of
/// zeros are their own transposes.
pub proof fn law_transpose_is_an_involution(m: Mat4)
    ensures
        m.transposed().transposed() == m,
        Mat4::identity().transposed() == Mat4::identity(),
        Mat4::zero().transposed() == Mat4::zero(),
{
}

/// The identity is neutral for the matrix product, and a product with the
/// matrix of zeros is the matrix of zeros.
pub proof fn law_product_with_identity_and_zero(m: Mat4)
    ensures
        Mat4::identity().product(m) == m,
        m.product(Mat4::identity()) == m,
        Mat4::zero().product(m) == Mat4::zero(),
        m.product(Mat4::zero()) == Mat4::zero(),
{
}

/// A rotation about an axis, for a cosine and a sine whose squares add up
/// to 1, is orthonormal: its product with its transpose is the identity.
/// Its transpose is the rotation for the negated sine, which is the
/// rotation by the opposite angle.
pub proof fn law_axis_rotations_are_orthonormal(c: int, s: int)
    requires
        times(c, c) + times(s, s) == 1,
    ensures
        Mat4::rotation_x(c, s).product(Mat4::rotation_x(c, s).transposed()) == Mat4::identity(),
        Mat4::rotation_y(c, s).product(Mat4::rotation_y(c, s).transposed()) == Mat4::identity(),
        Mat4::rotation_z(c, s).product(Mat4::rotation_z(c, s).transposed()) == Mat4::identity(),
        Mat4::rotation_x(c, s).transposed() == Mat4::rotation_x(c, -s),
        Mat4::rotation_y(c, s).transposed() == Mat4::rotation_y(c, -s),
        Mat4::rotation_z(c, s).transposed() == Mat4::rotation_z(c, -s),
{
    lemma_times_is_multiplication();
    lemma_negated_factor(c, s);
    lemma_negated_factor(s, c);
    lemma_negated_factor(s, s);
    lemma_negated_factor(-s, s);
    lemma_negated_factor(-s, c);
}

} // verus!

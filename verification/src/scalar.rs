//! The scalar type of the library and exact arithmetic on it.
//!
//! Every coordinate, matrix entry and quaternion component is an `i32`.
//! Contracts are stated over mathematical integers; an operation may be
//! called whenever its exact result can be stored again, and intermediate
//! values are carried in `i128` so that they never overflow.
//!
//! The models write a product of two values as `times(a, b)`. It is the
//! product, stated so that the common cases with a factor 0, 1 or -1 need
//! no reasoning about multiplication from a caller.
use vstd::prelude::*;

verus! {

/// Whether the exact integer `v` can be stored in a component.
pub open spec fn fits(v: int) -> bool {
    i32::MIN <= v <= i32::MAX
}

/// Largest absolute value of a product of two components.
pub(crate) open spec fn product_limit() -> int {
    0x4000_0000_0000_0000
}

/// A bound on the absolute value of an `i128` that still leaves room for
/// one more multiplication by a component and a sum of a few such terms.
pub(crate) open spec fn wide_limit() -> int {
    0x1_0000_0000_0000_0000_0000
}

/// The product `a * b`. A product with a factor 0, 1 or -1 is written out,
/// so that it is known without any reasoning about multiplication;
/// `lemma_times` says that the value is `a * b` in every case.
pub open spec fn times(a: int, b: int) -> int {
    if a == 0 || b == 0 {
        0
    } else if a == 1 {
        b
    } else if b == 1 {
        a
    } else if a == -1 {
        -b
    } else if b == -1 {
        -a
    } else {
        a * b
    }
}

/// `times` is multiplication.
pub proof fn lemma_times(a: int, b: int)
    by (nonlinear_arith)
    ensures
        times(a, b) == a * b,
{
}

/// `times` is multiplication, for all factors at once.
pub proof fn lemma_times_is_multiplication()
    ensures
        forall|a: int, b: int| #[trigger] times(a, b) == a * b,
{
    assert forall|a: int, b: int| #[trigger] times(a, b) == a * b by {
        lemma_times(a, b);
    }
}

/// The sum of the first `n` products of `a[k]` and `b[k]`.
pub(crate) open spec fn inner_product(a: Seq<int>, b: Seq<int>, n: int) -> int
    decreases n,
{
    if n <= 0 {
        0
    } else {
        inner_product(a, b, n - 1) + times(a[n - 1], b[n - 1])
    }
}

/// An inner product of four terms, written out.
pub(crate) proof fn lemma_inner_product_of_four(a: Seq<int>, b: Seq<int>)
    ensures
        inner_product(a, b, 4) == times(a[0], b[0]) + times(a[1], b[1]) + times(a[2], b[2]) + times(
            a[3],
            b[3],
        ),
{
    reveal_with_fuel(inner_product, 5);
}

/// A product with a factor 0 is 0, and a product with a factor 1 is the
/// other factor.
pub(crate) proof fn lemma_unit_factor(a: int, b: int)
    by (nonlinear_arith)
    ensures
        a == 0 ==> a * b == 0 && b * a == 0,
        a == 1 ==> a * b == b && b * a == b,
{
}

/// Multiplication distributes over a sum of four terms.
pub(crate) proof fn lemma_distribute(a: int, p: int, q: int, r: int, s: int)
    by (nonlinear_arith)
    ensures
        a * (p + q + r + s) == a * p + a * q + a * r + a * s,
        (p + q + r + s) * a == p * a + q * a + r * a + s * a,
{
}

/// Multiplication is associative.
pub(crate) proof fn lemma_associate(a: int, b: int, c: int)
    by (nonlinear_arith)
    ensures
        a * (b * c) == (a * b) * c,
{
}

/// Multiplication distributes over `p - q + r`, from either side.
pub(crate) proof fn lemma_distribute_signed(p: int, q: int, r: int, t: int)
    by (nonlinear_arith)
    ensures
        (p - q + r) * t == p * t - q * t + r * t,
        t * (p - q + r) == t * p - t * q + t * r,
        (-(p + q + r)) * t == -(p * t) - q * t - r * t,
{
}

/// A product with a negated factor is the negated product.
pub(crate) proof fn lemma_negated_factor(a: int, b: int)
    by (nonlinear_arith)
    ensures
        a * (-b) == -(a * b),
        a * b == b * a,
{
}

/// The factors of a product of three may be taken in another order.
pub(crate) proof fn lemma_reorder(p: int, q: int, r: int)
    by (nonlinear_arith)
    ensures
        (p * q) * r == (p * r) * q,
        (p * q) * r == (r * p) * q,
        r * (p * q) == (p * r) * q,
{
}

/// The square of a product is the product of the squares.
pub(crate) proof fn lemma_square_of_product(a: int, b: int)
    by (nonlinear_arith)
    ensures
        (a * b) * (a * b) == (a * a) * (b * b),
{
}

/// Multiplication distributes over the sums of doubled terms that make up
/// the entries of a rotation matrix.
pub(crate) proof fn lemma_distribute_doubled(p: int, q: int, t: int)
    by (nonlinear_arith)
    ensures
        (1 - 2 * p - 2 * q) * t == t - 2 * (p * t) - 2 * (q * t),
        (2 * p - 2 * q) * t == 2 * (p * t) - 2 * (q * t),
        (2 * p + 2 * q) * t == 2 * (p * t) + 2 * (q * t),
{
}

/// Multiplication distributes over a sum of four terms less 1.
pub(crate) proof fn lemma_distribute_less_one(p: int, q: int, r: int, s: int, t: int)
    by (nonlinear_arith)
    ensures
        (p + q + r + s - 1) * t == p * t + q * t + r * t + s * t - t,
{
}

/// The product of two bounded factors is bounded by the product of the
/// bounds.
pub(crate) proof fn lemma_product_bound(a: int, b: int, la: int, lb: int)
    by (nonlinear_arith)
    requires
        -la <= a <= la,
        -lb <= b <= lb,
    ensures
        -(la * lb) <= a * b <= la * lb,
{
}

/// The exact product of two components.
pub(crate) fn product(a: i32, b: i32) -> (r: i128)
    ensures
        r == times(a as int, b as int),
        -product_limit() <= r <= product_limit(),
{
    proof {
        lemma_product_bound(a as int, b as int, 0x8000_0000, 0x8000_0000);
        lemma_times(a as int, b as int);
    }
    (a as i128) * (b as i128)
}

/// The exact product of a wide intermediate value and a component, in
/// either order of the factors.
pub(crate) fn wide_product(a: i128, b: i32) -> (r: i128)
    requires
        -wide_limit() <= a <= wide_limit(),
    ensures
        r == times(a as int, b as int),
        r == times(b as int, a as int),
        -(wide_limit() * 0x8000_0000) <= r <= wide_limit() * 0x8000_0000,
{
    proof {
        lemma_product_bound(a as int, b as int, wide_limit(), 0x8000_0000);
        assert(a as int * b as int == b as int * a as int) by (nonlinear_arith);
        lemma_times(a as int, b as int);
        lemma_times(b as int, a as int);
    }
    a * (b as i128)
}

/// The exact product of a wide intermediate value and the negation of a
/// component.
pub(crate) fn wide_product_negated(a: i128, b: i32) -> (r: i128)
    requires
        -wide_limit() <= a <= wide_limit(),
    ensures
        r == times(a as int, -(b as int)),
        -(wide_limit() * 0x8000_0000) <= r <= wide_limit() * 0x8000_0000,
{
    proof {
        assert(a as int * (-(b as int)) == -(a as int * b as int)) by (nonlinear_arith);
        lemma_times(a as int, b as int);
        lemma_times(a as int, -(b as int));
    }
    -wide_product(a, b)
}

/// Stores an exact value that is known to fit.
pub(crate) fn narrow(v: i128) -> (r: i32)
    requires
        fits(v as int),
    ensures
        r == v,
{
    v as i32
}

} // verus!

//! What rounding toward zero does to a number and to the length of a vector.

use vstd::prelude::*;
use crate::algebra::{magnitude, quot, Vec3};

verus! {

/// A quotient rounded toward zero keeps the sign of the dividend and lies less than one
/// below the exact quotient in absolute value.
pub proof fn lemma_quot_bounds(a: int, d: int)
    requires
        d > 0,
    ensures
        magnitude(quot(a, d)) * d <= magnitude(a) < (magnitude(quot(a, d)) + 1) * d,
        a >= 0 ==> quot(a, d) >= 0,
        a <= 0 ==> quot(a, d) <= 0,
        quot(-a, d) == -quot(a, d),
{
    let n = magnitude(a);
    assert(0 <= (n / d) * d <= n < (n / d + 1) * d) by (nonlinear_arith)
        requires
            n >= 0,
            d > 0,
    ;
    assert(n / d >= 0) by (nonlinear_arith)
        requires
            n >= 0,
            d > 0,
    ;
    if a == 0 {
        assert(0int / d == 0) by (nonlinear_arith)
            requires
                d > 0,
        ;
    }
}

/// A product is as far within bounds as its factors are.
pub proof fn lemma_product_bounded(a: int, b: int, la: int, lb: int)
    by (nonlinear_arith)
    requires
        -la <= a <= la,
        -lb <= b <= lb,
    ensures
        -(la * lb) <= a * b <= la * lb,
{
}

/// `a * k / d`, rounded toward zero, with no overflow on the way.
pub fn scale_quot(a: i64, k: i64, d: i64) -> (r: i128)
    requires
        d > 0,
    ensures
        r == quot(a * k, d as int),
        -0x4000_0000_0000_0000_0000_0000_0000_0000 <= r,
        r <= 0x4000_0000_0000_0000_0000_0000_0000_0000,
{
    proof {
        lemma_product_bounded(a as int, k as int, 0x8000_0000_0000_0000, 0x8000_0000_0000_0000);
        lemma_quot_bounds(a * k, d as int);
        let size = magnitude(quot(a * k, d as int));
        assert(size <= size * d) by (nonlinear_arith)
            requires
                size >= 0,
                d >= 1,
        ;
    }
    let product: i128 = (a as i128) * (k as i128);
    product / (d as i128)
}

/// Squaring keeps the order of two numbers that are not negative.
pub proof fn lemma_square_monotone(x: int, y: int)
    by (nonlinear_arith)
    requires
        0 <= x <= y,
    ensures
        x * x <= y * y,
        x < y ==> x * x < y * y,
{
}

proof fn lemma_square_of_magnitude(a: int)
    by (nonlinear_arith)
    ensures
        magnitude(a) * magnitude(a) == a * a,
        (magnitude(a) + 1) * (magnitude(a) + 1) == a * a + 2 * magnitude(a) + 1,
{
}

pub proof fn lemma_square_of_product(r: int, d: int)
    by (nonlinear_arith)
    ensures
        (r * d) * (r * d) == (r * r) * (d * d),
{
}

/// Scaling a vector by `k` scales the square of its length by the square of `k`.
pub proof fn lemma_scaled_norm(v: Vec3, k: int)
    ensures
        v.scaled(k).norm2() == v.norm2() * (k * k),
{
    lemma_square_of_product(v.x, k);
    lemma_square_of_product(v.y, k);
    lemma_square_of_product(v.z, k);
    let kk = k * k;
    assert((v.x * v.x + v.y * v.y + v.z * v.z) * kk == (v.x * v.x) * kk + (v.y * v.y) * kk + (v.z
        * v.z) * kk) by (nonlinear_arith);
}

/// One component of `lemma_quot_shortens`: the square of a rounded quotient against the
/// square of the dividend.
proof fn lemma_quot_square(a: int, d: int)
    requires
        d > 0,
    ensures
        (quot(a, d) * quot(a, d)) * (d * d) <= a * a,
        a * a < (quot(a, d) * quot(a, d) + 2 * magnitude(quot(a, d)) + 1) * (d * d),
{
    let r = magnitude(quot(a, d));
    lemma_quot_bounds(a, d);
    assert(0 <= r * d) by (nonlinear_arith)
        requires
            r >= 0,
            d > 0,
    ;
    lemma_square_monotone(r * d, magnitude(a));
    lemma_square_monotone(magnitude(a), (r + 1) * d);
    lemma_square_of_product(r, d);
    lemma_square_of_product(r + 1, d);
    lemma_square_of_magnitude(a);
    lemma_square_of_magnitude(quot(a, d));
}

/// Dividing a vector by `d` with rounding toward zero never lengthens it beyond the exact
/// quotient, and shortens it by less than one unit in each component.
pub proof fn lemma_quot_shortens(n: Vec3, d: int)
    requires
        d > 0,
    ensures
        n.quot(d).norm2() * (d * d) <= n.norm2(),
        n.norm2() < (n.quot(d).norm2() + 2 * n.quot(d).norm1() + 3) * (d * d),
{
    let r = n.quot(d);
    lemma_quot_square(n.x, d);
    lemma_quot_square(n.y, d);
    lemma_quot_square(n.z, d);
    let dd = d * d;
    assert((r.x * r.x + r.y * r.y + r.z * r.z) * dd == (r.x * r.x) * dd + (r.y * r.y) * dd + (r.z
        * r.z) * dd) by (nonlinear_arith);
    let ex = r.x * r.x + 2 * magnitude(r.x) + 1;
    let ey = r.y * r.y + 2 * magnitude(r.y) + 1;
    let ez = r.z * r.z + 2 * magnitude(r.z) + 1;
    assert((ex + ey + ez) * dd == ex * dd + ey * dd + ez * dd) by (nonlinear_arith);
    assert(ex + ey + ez == r.norm2() + 2 * r.norm1() + 3);
}

} // verus!

//! Integer square roots, rounded up.

use vstd::prelude::*;
use crate::rounding::lemma_square_monotone;

verus! {

/// The largest argument that `ceil_sqrt_of` takes: `2^126`.
pub const ROOT_LIMIT: u128 = 0x4000_0000_0000_0000_0000_0000_0000_0000;

/// `r` is the least number that is not negative and whose square reaches `n`.
pub open spec fn is_ceil_sqrt(n: int, r: int) -> bool {
    &&& r >= 0
    &&& r * r >= n
    &&& r > 0 ==> (r - 1) * (r - 1) < n
}

/// The square root of `n`, rounded up to a whole number; zero for an `n` below one.
pub open spec fn ceil_sqrt(n: int) -> int {
    choose|r: int| is_ceil_sqrt(n, r)
}

/// A number has at most one rounded-up square root.
pub proof fn lemma_ceil_sqrt_unique(n: int, r1: int, r2: int)
    requires
        is_ceil_sqrt(n, r1),
        is_ceil_sqrt(n, r2),
    ensures
        r1 == r2,
{
    if r1 < r2 {
        lemma_square_monotone(r1, r2 - 1);
    } else if r2 < r1 {
        lemma_square_monotone(r2, r1 - 1);
    }
}

/// Whatever meets `is_ceil_sqrt` for `n` is `ceil_sqrt(n)`.
pub proof fn lemma_ceil_sqrt_is(n: int, r: int)
    requires
        is_ceil_sqrt(n, r),
    ensures
        ceil_sqrt(n) == r,
{
    lemma_ceil_sqrt_unique(n, r, ceil_sqrt(n));
}

/// Every number has a rounded-up square root, and `ceil_sqrt` is it.
pub proof fn lemma_ceil_sqrt_exists(n: int)
    ensures
        is_ceil_sqrt(n, ceil_sqrt(n)),
    decreases n,
{
    if n <= 0 {
        assert(is_ceil_sqrt(n, 0));
    } else {
        lemma_ceil_sqrt_exists(n - 1);
        let r = ceil_sqrt(n - 1);
        if r * r >= n {
            assert(is_ceil_sqrt(n, r));
        } else {
            assert((r + 1) * (r + 1) == r * r + 2 * r + 1) by (nonlinear_arith);
            assert(is_ceil_sqrt(n, r + 1));
        }
    }
}

/// The square root of `n`, rounded up, found by bisection.
pub fn ceil_sqrt_of(n: u128) -> (r: u128)
    requires
        n <= ROOT_LIMIT,
    ensures
        r == ceil_sqrt(n as int),
        is_ceil_sqrt(n as int, r as int),
        r <= 0x8000_0000_0000_0000,
{
    if n == 0 {
        proof {
            lemma_ceil_sqrt_is(0, 0);
        }
        return 0;
    }
    let mut low: u128 = 0;
    let mut high: u128 = 0x8000_0000_0000_0000;
    while high - low > 1
        invariant
            0 < n <= ROOT_LIMIT,
            low < high <= 0x8000_0000_0000_0000,
            low * low < n,
            high * high >= n,
        decreases high - low,
    {
        let middle: u128 = low + (high - low) / 2;
        proof {
            lemma_square_monotone(middle as int, 0x8000_0000_0000_0000);
        }
        if middle * middle >= n {
            high = middle;
        } else {
            low = middle;
        }
    }
    proof {
        lemma_ceil_sqrt_is(n as int, high as int);
    }
    high
}

} // verus!

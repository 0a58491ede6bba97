//! Fixed-point arithmetic helpers: an exact integer square root and the
//! truncated division that the coordinate transforms use.

use vstd::arithmetic::div_mod::{lemma_div_is_ordered, lemma_div_multiples_vanish};
use vstd::arithmetic::mul::lemma_mul_inequality;
use vstd::prelude::*;

use crate::SCALE;

verus! {

/// Largest coordinate magnitude (in fixed-point increments) the integrator
/// accepts: one thousand world units.  Keeps every intermediate product
/// within `i64`.
pub const MAX_COORD: i64 = 1_000_000_000;

/// Every product two fixed-point quantities of this crate form stays at or
/// under this bound, which itself fits in an `i64`.
pub const PRODUCT_BOUND: i64 = 4_000_000_000_000_000_000;

/// The integer square root: the largest `r` with `r * r <= n`
/// (and `0` for `n < 0`, which no caller reaches).
pub open spec fn sqrt_floor(n: int) -> int
    decreases n,
{
    if n <= 0 {
        0
    } else {
        let r = sqrt_floor(n - 1);
        if (r + 1) * (r + 1) <= n {
            r + 1
        } else {
            r
        }
    }
}

/// The defining property of `sqrt_floor`: it is the largest integer whose
/// square does not exceed the argument.
pub proof fn lemma_sqrt_floor_bounds(n: int)
    requires
        n >= 0,
    ensures
        0 <= sqrt_floor(n),
        sqrt_floor(n) * sqrt_floor(n) <= n,
        n < (sqrt_floor(n) + 1) * (sqrt_floor(n) + 1),
    decreases n,
{
    if n > 0 {
        lemma_sqrt_floor_bounds(n - 1);
        let r = sqrt_floor(n - 1);
        if (r + 1) * (r + 1) <= n {
            assert((r + 1) * (r + 1) < (r + 2) * (r + 2)) by (nonlinear_arith)
                requires
                    r >= 0,
            ;
        }
    }
}

/// Any integer between consecutive squares is pinned to that root: the
/// square-root bounds determine `sqrt_floor` uniquely.
pub proof fn lemma_sqrt_floor_is(n: int, r: int)
    requires
        0 <= r,
        r * r <= n,
        n < (r + 1) * (r + 1),
    ensures
        sqrt_floor(n) == r,
{
    lemma_sqrt_floor_bounds(n);
    let s = sqrt_floor(n);
    if s < r {
        assert((s + 1) * (s + 1) <= r * r) by (nonlinear_arith)
            requires
                0 <= s < r,
        ;
    }
    if r < s {
        assert((r + 1) * (r + 1) <= s * s) by (nonlinear_arith)
            requires
                0 <= r < s,
        ;
    }
}

/// `sqrt_floor` never decreases when its argument grows.
pub proof fn lemma_sqrt_floor_monotonic(m: int, n: int)
    requires
        0 <= m <= n,
    ensures
        sqrt_floor(m) <= sqrt_floor(n),
{
    lemma_sqrt_floor_bounds(m);
    lemma_sqrt_floor_bounds(n);
    let a = sqrt_floor(m);
    let b = sqrt_floor(n);
    if b < a {
        assert((b + 1) * (b + 1) <= a * a) by (nonlinear_arith)
            requires
                0 <= b < a,
        ;
    }
}

/// On perfect squares the integer square root is exact.
pub proof fn lemma_sqrt_floor_square(x: int)
    requires
        0 <= x,
    ensures
        sqrt_floor(x * x) == x,
{
    assert(0 <= x * x && x * x < (x + 1) * (x + 1)) by (nonlinear_arith)
        requires
            0 <= x,
    ;
    lemma_sqrt_floor_is(x * x, x);
}

/// Integer square root by bisection on the root.
pub fn isqrt(n: i64) -> (r: i64)
    requires
        0 <= n <= PRODUCT_BOUND,
    ensures
        r == sqrt_floor(n as int),
        0 <= r <= 2_000_000_000,
        r * r <= n,
        n < (r + 1) * (r + 1),
{
    let mut lo: i64 = 0;
    let mut hi: i64 = 2_000_000_001;
    while lo + 1 < hi
        invariant
            0 <= lo < hi <= 2_000_000_001,
            lo * lo <= n,
            n < hi * hi,
            n <= PRODUCT_BOUND,
        decreases hi - lo,
    {
        let mid = lo + (hi - lo) / 2;
        assert(lo < mid < hi);
        assert(mid * mid <= 4_000_000_000_000_000_000) by (nonlinear_arith)
            requires
                0 <= mid <= 2_000_000_000,
        ;
        let sq = mid * mid;
        if sq <= n {
            lo = mid;
        } else {
            hi = mid;
        }
    }
    proof {
        lemma_sqrt_floor_is(n as int, lo as int);
    }
    lo
}

/// Division truncated toward zero, the rounding both coordinate transforms
/// share; for non-negative `n` it coincides with the spec-level `/`.
pub open spec fn div_trunc(n: int, d: int) -> int {
    if n >= 0 {
        n / d
    } else {
        -((-n) / d)
    }
}

/// A bound on the dividend carries over to the truncated quotient.
pub proof fn lemma_div_trunc_bound(n: int, d: int, b: int)
    requires
        0 < d,
        0 <= b,
        -(b * d) <= n <= b * d,
    ensures
        -b <= div_trunc(n, d) <= b,
{
    lemma_div_multiples_vanish(b, d);
    assert(b * d == d * b) by (nonlinear_arith);
    if n >= 0 {
        lemma_div_is_ordered(n, b * d, d);
        assert(n / d >= 0) by (nonlinear_arith)
            requires
                n >= 0 && d > 0,
        ;
    } else {
        lemma_div_is_ordered(-n, b * d, d);
        assert((-n) / d >= 0) by (nonlinear_arith)
            requires
                -n >= 0 && d > 0,
        ;
    }
}

/// Scale a double-width fixed-point product back down, truncating toward
/// zero exactly as `div_trunc` describes.
pub fn div_scale(n: i64) -> (r: i64)
    requires
        -PRODUCT_BOUND <= n <= PRODUCT_BOUND,
    ensures
        r == div_trunc(n as int, SCALE as int),
{
    if n >= 0 {
        n / SCALE
    } else {
        -((-n) / SCALE)
    }
}

/// Magnitude of a fixed-point value.
pub open spec fn abs_int(n: int) -> int {
    if n >= 0 {
        n
    } else {
        -n
    }
}

/// Absolute value on in-range inputs.
pub fn abs_i64(n: i64) -> (r: i64)
    requires
        -PRODUCT_BOUND <= n <= PRODUCT_BOUND,
    ensures
        r == abs_int(n as int),
{
    if n >= 0 {
        n
    } else {
        -n
    }
}

} // verus!

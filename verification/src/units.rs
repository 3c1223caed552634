//! Fixed-point units and the integer arithmetic every other module builds on.
//!
//! Lengths, speeds, angles and durations are signed counts of millionths:
//! a length of `1_500_000` is one and a half scene units, a duration of
//! `16_667` is one sixtieth of a second. Products of two such counts are
//! brought back to millionths by dividing by [`ONE`] and dropping the
//! fraction, so that negating an operand negates the result.

use vstd::prelude::*;

verus! {

/// The count that stands for the number one.
pub const ONE: i64 = 1_000_000;

/// The largest magnitude of a factor of [`mul_scaled`]: two to the power
/// of 31.
pub const FACTOR_LIMIT: i64 = 0x8000_0000;

/// The largest magnitude of a result of [`mul_scaled`].
pub const PRODUCT_LIMIT: i64 = 4_611_686_018_428;

/// Division that rounds toward zero, for a positive divisor.
pub open spec fn trunc_div(n: int, d: int) -> int {
    if n >= 0 {
        n / d
    } else {
        -((-n) / d)
    }
}

/// `r` is the integer square root of `n`: the largest natural number whose
/// square does not exceed `n`.
pub open spec fn is_isqrt(n: int, r: int) -> bool {
    0 <= r && r * r <= n && n < (r + 1) * (r + 1)
}

/// The integer square root of a natural number.
pub open spec fn isqrt(n: int) -> int {
    choose|r: int| is_isqrt(n, r)
}

/// The square root carrying the sign of `d`: the signed length `s` with the
/// sign of `d` and the largest magnitude such that `2 * s * s <= d * d`.
/// It is the share of a step of length `d` that falls on each axis of a
/// diagonal.
pub open spec fn diagonal_share(d: int) -> int {
    if d >= 0 {
        isqrt(d * d / 2)
    } else {
        -isqrt(d * d / 2)
    }
}

/// Two numbers that both qualify as the integer square root of `n` are equal.
pub proof fn lemma_isqrt_unique(n: int, a: int, b: int)
    requires
        is_isqrt(n, a),
        is_isqrt(n, b),
    ensures
        a == b,
{
    if a < b {
        assert((a + 1) * (a + 1) <= b * b) by (nonlinear_arith)
            requires
                0 <= a,
                a + 1 <= b,
        ;
    } else if b < a {
        assert((b + 1) * (b + 1) <= a * a) by (nonlinear_arith)
            requires
                0 <= b,
                b + 1 <= a,
        ;
    }
}

/// An integer square root does not exceed a number whose square bounds the
/// argument.
pub proof fn lemma_isqrt_bound(n: int, r: int, b: int)
    requires
        is_isqrt(n, r),
        0 <= b,
        n <= b * b,
    ensures
        r <= b,
{
    if r > b {
        assert(b * b < r * r) by (nonlinear_arith)
            requires
                0 <= b,
                b + 1 <= r,
        ;
    }
}

/// Every natural number has an integer square root, so `isqrt` is that root.
pub proof fn lemma_isqrt_exists(n: nat)
    ensures
        is_isqrt(n as int, isqrt(n as int)),
    decreases n,
{
    if n == 0 {
        assert(is_isqrt(0, 0));
    } else {
        lemma_isqrt_exists((n - 1) as nat);
        let r = isqrt(n - 1);
        if (r + 1) * (r + 1) <= n {
            assert((r + 2) * (r + 2) > n) by (nonlinear_arith)
                requires
                    0 <= r,
                    n - 1 < (r + 1) * (r + 1),
            ;
            assert(is_isqrt(n as int, r + 1));
        } else {
            assert(is_isqrt(n as int, r));
        }
    }
}

/// The diagonal share `s` of a step of length `d` keeps the step's length
/// as closely as whole counts allow: a step of `s` along both axes is not
/// longer than `d`, a step of one count more along both axes would be, and
/// `s` points the way `d` does.
pub proof fn lemma_diagonal_share_is_tight(d: int)
    ensures
        ({
            let s = diagonal_share(d);
            let longer = if d >= 0 {
                s + 1
            } else {
                s - 1
            };
            &&& 2 * (s * s) <= d * d
            &&& d * d < 2 * (longer * longer)
            &&& (d >= 0 ==> 0 <= s <= d)
            &&& (d <= 0 ==> d <= s <= 0)
        }),
{
    assert(d * d >= 0) by (nonlinear_arith);
    let half = d * d / 2;
    lemma_isqrt_exists(half as nat);
    let r = isqrt(half);
    let s = diagonal_share(d);
    let longer = if d >= 0 {
        s + 1
    } else {
        s - 1
    };
    assert(s * s == r * r && longer * longer == (r + 1) * (r + 1)) by (nonlinear_arith)
        requires
            (s == r && longer == r + 1) || (s == -r && longer == -r - 1),
    ;
    let magnitude = if d >= 0 {
        d
    } else {
        -d
    };
    assert(magnitude * magnitude == d * d) by (nonlinear_arith)
        requires
            magnitude == d || magnitude == -d,
    ;
    lemma_isqrt_bound(half, r, magnitude);
}

/// A number that qualifies as the integer square root of `n` is `isqrt(n)`.
pub proof fn lemma_isqrt_is(n: int, r: int)
    requires
        is_isqrt(n, r),
    ensures
        isqrt(n) == r,
{
    lemma_isqrt_unique(n, isqrt(n), r);
}

/// The integer square root grows with its argument.
pub proof fn lemma_isqrt_monotonic(a: int, ra: int, b: int, rb: int)
    requires
        is_isqrt(a, ra),
        is_isqrt(b, rb),
        a <= b,
    ensures
        ra <= rb,
{
    if rb < ra {
        assert((rb + 1) * (rb + 1) <= ra * ra) by (nonlinear_arith)
            requires
                0 <= rb,
                rb + 1 <= ra,
        ;
    }
}

/// The magnitude of a quotient rounded toward zero is at most the magnitude
/// of the dividend divided by the divisor.
pub proof fn lemma_trunc_div_bound(n: int, d: int, bound: int)
    requires
        d > 0,
        bound >= 0,
        -(bound * d) <= n <= bound * d,
    ensures
        -bound <= trunc_div(n, d) <= bound,
{
    if n >= 0 {
        assert(n / d <= bound) by (nonlinear_arith)
            requires
                d > 0,
                0 <= n <= bound * d,
        ;
        assert(0 <= n / d) by (nonlinear_arith)
            requires
                d > 0,
                0 <= n,
        ;
    } else {
        let m = -n;
        assert(m / d <= bound) by (nonlinear_arith)
            requires
                d > 0,
                0 <= m <= bound * d,
        ;
        assert(0 <= m / d) by (nonlinear_arith)
            requires
                d > 0,
                0 <= m,
        ;
    }
}

/// A quotient rounded toward zero misses the exact quotient by less than
/// one: multiplied back, it lies between the dividend and zero, less than
/// one divisor away from the dividend.
pub proof fn lemma_trunc_div_is_close(n: int, d: int)
    requires
        d > 0,
    ensures
        n >= 0 ==> n - d < trunc_div(n, d) * d <= n,
        n <= 0 ==> n <= trunc_div(n, d) * d < n + d,
{
    if n >= 0 {
        assert(n - d < (n / d) * d <= n) by (nonlinear_arith)
            requires
                d > 0,
                n >= 0,
        ;
    } else {
        let m = -n;
        assert(m - d < (m / d) * d <= m && (-(m / d)) * d == -((m / d) * d)) by (nonlinear_arith)
            requires
                d > 0,
                m >= 0,
        ;
    }
}

/// Dividing a multiple of the divisor gives the multiplier back, whatever
/// its sign.
pub proof fn lemma_trunc_div_multiple(k: int, d: int)
    requires
        d > 0,
    ensures
        trunc_div(k * d, d) == k,
{
    if k >= 0 {
        assert(k * d >= 0 && (k * d) / d == k) by (nonlinear_arith)
            requires
                d > 0,
                k >= 0,
        ;
    } else {
        let m = -k;
        assert(k * d < 0 && -(k * d) == m * d && (m * d) / d == m) by (nonlinear_arith)
            requires
                d > 0,
                m > 0,
                m == -k,
        ;
    }
}

/// A factor common to dividend and divisor cancels.
pub proof fn lemma_trunc_div_cancel(k: int, n: int, d: int)
    requires
        k > 0,
        d > 0,
    ensures
        trunc_div(k * n, k * d) == trunc_div(n, d),
{
    let m = if n >= 0 {
        n
    } else {
        -n
    };
    assert(k * m >= 0 && k * d > 0 && (n >= 0 ==> k * n == k * m) && (n < 0 ==> k * n < 0 && -(k
        * n) == k * m)) by (nonlinear_arith)
        requires
            k > 0,
            d > 0,
            m >= 0,
            m == n || m == -n,
            n >= 0 ==> m == n,
            n < 0 ==> m == -n,
    ;
    vstd::arithmetic::div_mod::lemma_div_denominator(k * m, k, d);
    vstd::arithmetic::div_mod::lemma_div_multiples_vanish(m, k);
}

/// The product of two bounded numbers is bounded by the product of the bounds.
pub proof fn lemma_product_bound(a: int, b: int, bound_a: int, bound_b: int)
    requires
        -bound_a <= a <= bound_a,
        -bound_b <= b <= bound_b,
    ensures
        -(bound_a * bound_b) <= a * b <= bound_a * bound_b,
{
    assert(-(bound_a * bound_b) <= a * b <= bound_a * bound_b) by (nonlinear_arith)
        requires
            -bound_a <= a <= bound_a,
            -bound_b <= b <= bound_b,
    ;
}

/// Divides and rounds toward zero.
pub fn div_toward_zero(n: i128, d: i128) -> (q: i128)
    requires
        d > 0,
        n > i128::MIN,
    ensures
        q == trunc_div(n as int, d as int),
{
    n / d
}

/// Multiplies two counts of millionths and gives the product in millionths,
/// rounded toward zero.
pub fn mul_scaled(a: i64, b: i64) -> (r: i64)
    requires
        -FACTOR_LIMIT <= a <= FACTOR_LIMIT,
        -FACTOR_LIMIT <= b <= FACTOR_LIMIT,
    ensures
        r == trunc_div(a * b, ONE as int),
        -PRODUCT_LIMIT <= r <= PRODUCT_LIMIT,
{
    proof {
        lemma_product_bound(a as int, b as int, FACTOR_LIMIT as int, FACTOR_LIMIT as int);
        lemma_trunc_div_bound(a * b, ONE as int, PRODUCT_LIMIT as int);
    }
    let p: i128 = (a as i128) * (b as i128);
    let q: i128 = div_toward_zero(p, ONE as i128);
    q as i64
}

/// Computes the integer square root by bisection.
pub fn integer_sqrt(n: u128) -> (r: u64)
    ensures
        is_isqrt(n as int, r as int),
        r == isqrt(n as int),
{
    let mut lo: u128 = 0;
    let mut hi: u128 = 0x1_0000_0000_0000_0000;
    assert(n < hi * hi) by (nonlinear_arith)
        requires
            hi == 0x1_0000_0000_0000_0000,
            n <= u128::MAX,
    ;
    while hi - lo > 1
        invariant
            lo < hi <= 0x1_0000_0000_0000_0000,
            lo * lo <= n,
            n < hi * hi,
        decreases hi - lo,
    {
        let mid: u128 = lo + (hi - lo) / 2;
        assert(mid * mid <= 0xFFFF_FFFF_FFFF_FFFF * 0xFFFF_FFFF_FFFF_FFFF) by (nonlinear_arith)
            requires
                0 <= mid <= 0xFFFF_FFFF_FFFF_FFFF,
        ;
        if mid * mid <= n {
            lo = mid;
        } else {
            hi = mid;
        }
    }
    proof {
        lemma_isqrt_is(n as int, lo as int);
    }
    lo as u64
}

} // verus!

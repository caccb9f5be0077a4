//! Fixed-point scalar arithmetic: the numeric substrate of the engine.
//!
//! A scalar is an `i64` holding `value * FP`; [`FP`] itself stands for 1.0.
//! Division rounds toward zero, so every operation is exact integer
//! arithmetic with a definition mirrored by a spec function.

use vstd::prelude::*;

verus! {

use vstd::arithmetic::div_mod::lemma_div_is_ordered;
use vstd::arithmetic::div_mod::lemma_div_nonincreasing;
use vstd::arithmetic::div_mod::lemma_div_pos_is_pos;
use vstd::arithmetic::div_mod::lemma_div_multiples_vanish;

/// Fixed-point one: every scalar of the engine is a multiple of 1/FP.
pub const FP: i64 = 65536;

/// Fixed-point one squared, the scale of a product of two scalars.
pub const FP_SQ: i64 = FP * FP;

/// Bound on each raw sensor component accepted per frame (4096 units).
pub const LIM: i64 = 268435456;

/// Largest magnitude `mul_fp` accepts; two such values multiply within i64.
pub const MUL_LIM: i64 = 3000000000;

/// Division rounded toward zero, the behaviour of the executable helpers.
/// Meaningful for b > 0.
pub open spec fn d_tz(a: int, b: int) -> int {
    if a >= 0 {
        a / b
    } else {
        -((-a) / b)
    }
}

/// Fixed-point product: a * b rescaled by FP, rounded toward zero.
pub open spec fn m_fp(a: int, b: int) -> int {
    d_tz(a * b, FP as int)
}

pub open spec fn i_abs(a: int) -> int {
    if a >= 0 {
        a
    } else {
        -a
    }
}

pub open spec fn i_min(a: int, b: int) -> int {
    if a <= b {
        a
    } else {
        b
    }
}

pub open spec fn i_max(a: int, b: int) -> int {
    if a >= b {
        a
    } else {
        b
    }
}

pub open spec fn i_clamp(a: int, lo: int, hi: int) -> int {
    if a < lo {
        lo
    } else if a > hi {
        hi
    } else {
        a
    }
}

/// Integer square root: the largest r with r * r <= n.
pub open spec fn sqrt_floor(n: nat) -> nat
    decreases n,
{
    if n == 0 {
        0
    } else {
        let s = sqrt_floor((n - 1) as nat);
        if (s + 1) * (s + 1) <= n {
            (s + 1) as nat
        } else {
            s
        }
    }
}

/// sqrt_floor meets its defining property.
pub proof fn lemma_sqrt_floor_bounds(n: nat)
    ensures
        sqrt_floor(n) * sqrt_floor(n) <= n,
        n < (sqrt_floor(n) + 1) * (sqrt_floor(n) + 1),
    decreases n,
{
    if n == 0 {
        assert(sqrt_floor(0) == 0);
        assert(n < (sqrt_floor(n) + 1) * (sqrt_floor(n) + 1)) by (nonlinear_arith)
            requires
                n == 0,
                sqrt_floor(n) == 0,
        ;
    } else {
        let s = sqrt_floor((n - 1) as nat);
        lemma_sqrt_floor_bounds((n - 1) as nat);
        assert(s * s <= n - 1);
        assert(n - 1 < (s + 1) * (s + 1));
        if (s + 1) * (s + 1) <= n {
            assert(sqrt_floor(n) == s + 1);
            assert(n == (s + 1) * (s + 1));
            assert(n < (sqrt_floor(n) + 1) * (sqrt_floor(n) + 1)) by (nonlinear_arith)
                requires
                    n == (s + 1) * (s + 1),
                    sqrt_floor(n) == s + 1,
                    0 <= s,
            ;
        } else {
            assert(sqrt_floor(n) == s);
            assert(n < (sqrt_floor(n) + 1) * (sqrt_floor(n) + 1)) by (nonlinear_arith)
                requires
                    n < (s + 1) * (s + 1),
                    sqrt_floor(n) == s,
            ;
        }
    }
}

/// Any r with r * r <= n < (r+1)^2 is sqrt_floor(n).
pub proof fn lemma_sqrt_floor_unique(n: nat, r: nat)
    requires
        r * r <= n,
        n < (r + 1) * (r + 1),
    ensures
        r == sqrt_floor(n),
{
    let s = sqrt_floor(n);
    lemma_sqrt_floor_bounds(n);
    assert(r == s) by (nonlinear_arith)
        requires
            r * r <= n,
            n < (r + 1) * (r + 1),
            s * s <= n,
            n < (s + 1) * (s + 1),
            0 <= r,
            0 <= s;
}

/// A square is never negative.
pub proof fn lemma_square_nonneg(a: int)
    by (nonlinear_arith)
    ensures
        0 <= a * a,
{
}

/// A product is bounded by the product of the factors' bounds.
pub proof fn lemma_mul_bounds(a: int, b: int, c: int, d: int)
    by (nonlinear_arith)
    requires
        -c <= a <= c,
        -d <= b <= d,
        0 <= c,
        0 <= d,
    ensures
        -(c * d) <= a * b <= c * d,
{
}

/// Truncating division shrinks magnitudes: |d_tz(a, b)| <= |a| / b <= |a|.
pub proof fn lemma_d_tz_bounds(a: int, m: int, b: int)
    requires
        -m <= a <= m,
        1 <= b,
    ensures
        -(m / b) <= d_tz(a, b) <= m / b,
        -m <= d_tz(a, b) <= m,
        m / b <= m,
{
    lemma_div_pos_is_pos(m, b);
    lemma_div_nonincreasing(m, b);
    if a >= 0 {
        lemma_div_is_ordered(a, m, b);
        lemma_div_pos_is_pos(a, b);
    } else {
        lemma_div_is_ordered(-a, m, b);
        lemma_div_pos_is_pos(-a, b);
    }
}

/// Product and fixed-point product of bounded factors are bounded.
pub proof fn lemma_m_fp_bounds(a: int, b: int, c: int, d: int)
    requires
        -c <= a <= c,
        -d <= b <= d,
        0 <= c,
        0 <= d,
    ensures
        -(c * d) <= a * b <= c * d,
        -((c * d) / FP as int) <= m_fp(a, b) <= (c * d) / FP as int,
        -(c * d) <= m_fp(a, b) <= c * d,
{
    lemma_mul_bounds(a, b, c, d);
    lemma_d_tz_bounds(a * b, c * d, FP as int);
}

/// Truncating division by a positive divisor is monotone in the dividend.
pub proof fn lemma_d_tz_monotone(a1: int, a2: int, b: int)
    requires
        a1 <= a2,
        1 <= b,
    ensures
        d_tz(a1, b) <= d_tz(a2, b),
{
    if a1 >= 0 {
        lemma_div_is_ordered(a1, a2, b);
    } else if a2 < 0 {
        lemma_div_is_ordered(-a2, -a1, b);
    } else {
        lemma_div_pos_is_pos(-a1, b);
        lemma_div_pos_is_pos(a2, b);
    }
}

/// Scaling by a factor in [0, 1] keeps a value's sign and never grows it.
pub proof fn lemma_m_fp_shrink(a: int, b: int)
    requires
        0 <= b <= FP as int,
    ensures
        0 <= a ==> 0 <= m_fp(a, b) <= a,
        a <= 0 ==> a <= m_fp(a, b) <= 0,
{
    if a >= 0 {
        assert(0 <= a * b <= a * (FP as int)) by (nonlinear_arith)
            requires
                0 <= a,
                0 <= b <= FP as int,
        ;
        lemma_div_pos_is_pos(a * b, FP as int);
        lemma_div_is_ordered(a * b, a * (FP as int), FP as int);
        lemma_div_multiples_vanish(a, FP as int);
    } else {
        assert(a * (FP as int) <= a * b <= 0) by (nonlinear_arith)
            requires
                a <= 0,
                0 <= b <= FP as int,
        ;
        assert((-a) * (FP as int) == -(a * (FP as int))) by (nonlinear_arith);
        lemma_div_pos_is_pos(-(a * b), FP as int);
        lemma_div_is_ordered(-(a * b), (-a) * (FP as int), FP as int);
        lemma_div_multiples_vanish(-a, FP as int);
    }
}

/// Absolute value.
pub fn abs64(a: i64) -> (r: i64)
    requires
        i64::MIN < a,
    ensures
        r == i_abs(a as int),
{
    if a >= 0 {
        a
    } else {
        -a
    }
}

pub fn min64(a: i64, b: i64) -> (r: i64)
    ensures
        r == i_min(a as int, b as int),
{
    if a <= b {
        a
    } else {
        b
    }
}

pub fn max64(a: i64, b: i64) -> (r: i64)
    ensures
        r == i_max(a as int, b as int),
{
    if a >= b {
        a
    } else {
        b
    }
}

pub fn clamp64(a: i64, lo: i64, hi: i64) -> (r: i64)
    requires
        lo <= hi,
    ensures
        r == i_clamp(a as int, lo as int, hi as int),
{
    if a < lo {
        lo
    } else if a > hi {
        hi
    } else {
        a
    }
}

/// Division rounded toward zero; the divisor must be positive.
pub fn div_tz(a: i64, b: i64) -> (r: i64)
    requires
        1 <= b,
        i64::MIN < a,
    ensures
        r == d_tz(a as int, b as int),
{
    if a >= 0 {
        let q: u64 = (a as u64) / (b as u64);
        proof {
            lemma_div_pos_is_pos(a as int, b as int);
            lemma_div_nonincreasing(a as int, b as int);
        }
        q as i64
    } else {
        let na: i64 = -a;
        let q: u64 = (na as u64) / (b as u64);
        proof {
            lemma_div_pos_is_pos(na as int, b as int);
            lemma_div_nonincreasing(na as int, b as int);
        }
        -(q as i64)
    }
}

/// Fixed-point multiplication: rescales the double-width product by FP.
pub fn mul_fp(a: i64, b: i64) -> (r: i64)
    requires
        -MUL_LIM <= a <= MUL_LIM,
        -MUL_LIM <= b <= MUL_LIM,
    ensures
        r == m_fp(a as int, b as int),
{
    proof {
        lemma_mul_bounds(a as int, b as int, MUL_LIM as int, MUL_LIM as int);
    }
    let p: i64 = a * b;
    div_tz(p, FP)
}

/// Integer square root of a 64-bit value, by bisection.
pub fn isqrt64(n: u64) -> (r: u64)
    ensures
        r == sqrt_floor(n as nat),
        r <= 4294967295,
{
    let mut lo: u64 = 0;
    let mut hi: u64 = 4294967296;
    while lo + 1 < hi
        invariant
            lo < hi <= 4294967296,
            (lo as int) * (lo as int) <= n as int,
            (n as int) < (hi as int) * (hi as int),
        decreases hi - lo,
    {
        let mid: u64 = lo + (hi - lo) / 2;
        proof {
            lemma_mul_bounds(mid as int, mid as int, 4294967295, 4294967295);
        }
        if mid * mid <= n {
            lo = mid;
        } else {
            hi = mid;
        }
    }
    proof {
        lemma_sqrt_floor_unique(n as nat, lo as nat);
    }
    lo
}

} // verus!

//! Fixed-point scalar arithmetic.
//!
//! A scalar is an `i64` counting thousandths of a pixel (or of a unit):
//! `FX_ONE` stands for 1.0. Every operation clamps its result into
//! `[-FX_LIM, FX_LIM]`, so all later products stay within `i64`.

use vstd::prelude::*;

verus! {

/// 1.0 in fixed-point thousandths.
pub const FX_ONE: i64 = 1000;

/// Magnitude bound kept by every fixed-point operation.
pub const FX_LIM: i64 = 1_000_000_000;

/// A scalar within the clamping bound.
pub open spec fn fx_ok(x: int) -> bool {
    -FX_LIM <= x <= FX_LIM
}

/// Clamp into `[-FX_LIM, FX_LIM]`.
pub open spec fn cl(x: int) -> int {
    if x > FX_LIM as int {
        FX_LIM as int
    } else if x < -FX_LIM as int {
        -FX_LIM as int
    } else {
        x
    }
}

/// Division truncating toward zero, for positive divisors.
pub open spec fn tdiv(a: int, b: int) -> int {
    if a >= 0 {
        a / b
    } else {
        -((-a) / b)
    }
}

proof fn lemma_div_le_dividend(a: int, b: int)
    by (nonlinear_arith)
    requires
        a >= 0,
        b >= 1,
    ensures
        0 <= a / b <= a,
{
}

/// Truncating division shrinks the magnitude of the dividend.
pub proof fn lemma_tdiv_bound(a: int, b: int)
    requires
        b >= 1,
    ensures
        a >= 0 ==> 0 <= tdiv(a, b) <= a,
        a < 0 ==> a <= tdiv(a, b) <= 0,
{
    if a >= 0 {
        lemma_div_le_dividend(a, b);
    } else {
        lemma_div_le_dividend(-a, b);
    }
}

/// Truncating division is monotone on non-negative dividends.
pub proof fn lemma_tdiv_ordered(a: int, b: int, d: int)
    requires
        0 <= a <= b,
        0 < d,
    ensures
        tdiv(a, d) <= tdiv(b, d),
{
    vstd::arithmetic::div_mod::lemma_div_is_ordered(a, b, d);
}

/// Spending `p * s / 1000` with `s <= 1000` never exceeds `p`.
pub proof fn lemma_spend_le(p: int, s: int)
    requires
        0 <= p,
        0 <= s <= 1000,
    ensures
        0 <= cl(tdiv(p * s, 1000)) <= p,
        0 <= tdiv(p * s, 1000) <= p,
{
    assert(0 <= p * s <= p * 1000) by (nonlinear_arith)
        requires
            0 <= p,
            0 <= s <= 1000,
    ;
    vstd::arithmetic::div_mod::lemma_div_is_ordered(p * s, p * 1000, 1000);
    vstd::arithmetic::div_mod::lemma_div_multiples_vanish(p, 1000);
}

proof fn lemma_mul_bound(a: int, b: int, m: int, n: int)
    by (nonlinear_arith)
    requires
        -m <= a <= m,
        -n <= b <= n,
        0 <= m,
        0 <= n,
    ensures
        -(m * n) <= a * b <= m * n,
{
}

/// Clamp an arbitrary `i64` into the working range.
pub fn clamp64(x: i64) -> (r: i64)
    ensures
        r == cl(x as int),
        fx_ok(r as int),
{
    if x > FX_LIM {
        FX_LIM
    } else if x < -FX_LIM {
        -FX_LIM
    } else {
        x
    }
}

/// Truncating signed division by a positive divisor.
pub fn tdiv64(a: i64, b: i64) -> (r: i64)
    requires
        b > 0,
        a > i64::MIN,
    ensures
        r == tdiv(a as int, b as int),
        a >= 0 ==> 0 <= r <= a,
        a < 0 ==> a <= r <= 0,
{
    proof {
        lemma_tdiv_bound(a as int, b as int);
    }
    if a >= 0 {
        ((a as u64) / (b as u64)) as i64
    } else {
        let neg: u64 = (-a) as u64;
        -((neg / (b as u64)) as i64)
    }
}

/// Saturating fixed-point addition.
pub fn fxadd(a: i64, b: i64) -> (r: i64)
    requires
        fx_ok(a as int),
        fx_ok(b as int),
    ensures
        r == cl(a + b),
        fx_ok(r as int),
{
    clamp64(a + b)
}

/// Saturating fixed-point subtraction.
pub fn fxsub(a: i64, b: i64) -> (r: i64)
    requires
        fx_ok(a as int),
        fx_ok(b as int),
    ensures
        r == cl(a - b),
        fx_ok(r as int),
{
    clamp64(a - b)
}

/// Fixed-point product: `a * b / FX_ONE`, truncated then clamped.
pub fn fxmul(a: i64, b: i64) -> (r: i64)
    requires
        fx_ok(a as int),
        fx_ok(b as int),
    ensures
        r == cl(tdiv(a * b, FX_ONE as int)),
        fx_ok(r as int),
{
    proof {
        lemma_mul_bound(a as int, b as int, FX_LIM as int, FX_LIM as int);
    }
    let p: i64 = a * b;
    proof {
        lemma_tdiv_bound(p as int, FX_ONE as int);
    }
    clamp64(tdiv64(p, FX_ONE))
}

/// Fixed-point quotient: `a * FX_ONE / b`, truncated then clamped.
pub fn fxdiv(a: i64, b: i64) -> (r: i64)
    requires
        fx_ok(a as int),
        b > 0,
    ensures
        r == cl(tdiv(a * FX_ONE, b as int)),
        fx_ok(r as int),
{
    proof {
        lemma_mul_bound(a as int, FX_ONE as int, FX_LIM as int, FX_ONE as int);
    }
    let p: i64 = a * FX_ONE;
    proof {
        lemma_tdiv_bound(p as int, b as int);
    }
    clamp64(tdiv64(p, b))
}

/// Truncating signed 128-bit division by a positive divisor.
pub fn tdiv128(a: i128, b: i128) -> (r: i128)
    requires
        b > 0,
        a > i128::MIN,
    ensures
        r == tdiv(a as int, b as int),
        a >= 0 ==> 0 <= r <= a,
        a < 0 ==> a <= r <= 0,
{
    proof {
        lemma_tdiv_bound(a as int, b as int);
    }
    if a >= 0 {
        ((a as u128) / (b as u128)) as i128
    } else {
        let neg: u128 = (-a) as u128;
        -((neg / (b as u128)) as i128)
    }
}

/// Clamp a 128-bit value into the working range.
pub fn clamp128(x: i128) -> (r: i64)
    ensures
        r == cl(x as int),
        fx_ok(r as int),
{
    if x > FX_LIM as i128 {
        FX_LIM
    } else if x < -(FX_LIM as i128) {
        -FX_LIM
    } else {
        x as i64
    }
}

/// Integer square root, rounded down.
pub open spec fn spec_isqrt(n: nat) -> nat
    decreases n,
{
    if n == 0 {
        0
    } else {
        let r = spec_isqrt((n - 1) as nat);
        if (r + 1) * (r + 1) <= n {
            r + 1
        } else {
            r
        }
    }
}

/// `spec_isqrt(n)` is the unique `r` with `r^2 <= n < (r+1)^2`.
pub proof fn lemma_isqrt_sandwich(n: nat)
    ensures
        spec_isqrt(n) * spec_isqrt(n) <= n,
        n < (spec_isqrt(n) + 1) * (spec_isqrt(n) + 1),
    decreases n,
{
    if n > 0 {
        lemma_isqrt_sandwich((n - 1) as nat);
        let r = spec_isqrt((n - 1) as nat);
        assert(r * r <= n - 1 < (r + 1) * (r + 1));
        if (r + 1) * (r + 1) <= n {
            assert(spec_isqrt(n) == r + 1);
            assert(n == (r + 1) * (r + 1));
            assert(((r + 1) + 1) * ((r + 1) + 1) > (r + 1) * (r + 1)) by (nonlinear_arith);
        } else {
            assert(spec_isqrt(n) == r);
        }
        assert(spec_isqrt(n) * spec_isqrt(n) <= n);
        assert(n < (spec_isqrt(n) + 1) * (spec_isqrt(n) + 1));
    } else {
        assert(spec_isqrt(n) == 0);
        assert(n < (spec_isqrt(n) + 1) * (spec_isqrt(n) + 1)) by (nonlinear_arith)
            requires
                n == 0,
                spec_isqrt(n) == 0,
        ;
    }
}

proof fn lemma_square_le(a: nat, b: nat)
    by (nonlinear_arith)
    requires
        a <= b,
    ensures
        a * a <= b * b,
{
}

/// The sandwich bounds pin the square root down.
pub proof fn lemma_isqrt_unique(n: nat, r: nat)
    requires
        r * r <= n,
        n < (r + 1) * (r + 1),
    ensures
        r == spec_isqrt(n),
{
    lemma_isqrt_sandwich(n);
    let s = spec_isqrt(n);
    if r < s {
        lemma_square_le((r + 1) as nat, s);
    } else if s < r {
        lemma_square_le((s + 1) as nat, r);
    }
}

/// The square root of a perfect square.
pub proof fn lemma_isqrt_square(d: nat)
    ensures
        spec_isqrt(d * d) == d,
{
    assert((d + 1) * (d + 1) > d * d) by (nonlinear_arith);
    lemma_isqrt_unique(d * d, d);
}

/// The integer square root is monotone.
pub proof fn lemma_isqrt_monotone(a: nat, b: nat)
    requires
        a <= b,
    ensures
        spec_isqrt(a) <= spec_isqrt(b),
{
    lemma_isqrt_sandwich(a);
    lemma_isqrt_sandwich(b);
    let ra = spec_isqrt(a);
    let rb = spec_isqrt(b);
    if ra > rb {
        assert((rb + 1) * (rb + 1) <= ra * ra) by (nonlinear_arith)
            requires
                rb + 1 <= ra,
        ;
    }
}

/// Integer square root of a `u64`, by bisection.
pub fn isqrt64(n: u64) -> (r: u64)
    ensures
        r == spec_isqrt(n as nat),
        r * r <= n < (r + 1) * (r + 1),
        r < 0x1_0000_0000,
{
    let nn: u128 = n as u128;
    let mut lo: u128 = 0;
    let mut hi: u128 = 0x1_0000_0000;
    assert(hi * hi > nn) by {
        assert((0x1_0000_0000 as int) * (0x1_0000_0000 as int) == 0x1_0000_0000_0000_0000)
            by (nonlinear_arith);
    };
    while lo + 1 < hi
        invariant
            lo < hi,
            hi <= 0x1_0000_0000,
            lo * lo <= nn,
            nn < hi * hi,
        decreases hi - lo,
    {
        let mid: u128 = lo + (hi - lo) / 2;
        proof {
            lemma_mul_bound(mid as int, mid as int, 0x1_0000_0000, 0x1_0000_0000);
        }
        if mid * mid <= nn {
            lo = mid;
        } else {
            hi = mid;
        }
    }
    let r = lo as u64;
    proof {
        lemma_isqrt_unique(n as nat, r as nat);
    }
    r
}

} // verus!

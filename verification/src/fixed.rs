//! Signed 16.16 fixed-point scalars.
//!
//! A scalar is an `i64` holding `value * 65536`.  Multiplication and
//! division truncate toward zero, and every operation saturates at the
//! `i64` range instead of wrapping, so all operations are total (division
//! still demands a nonzero divisor).  Saturation plays the role that
//! infinities play for floating point: far outside the scene's working
//! range, but never undefined behaviour.

use vstd::prelude::*;

verus! {

/// The fixed-point representation of 1.0.
pub const FX_ONE: i64 = 65536;

/// The fixed-point representation of 0.5.
pub const FX_HALF: i64 = 32768;

/// Absolute value over the mathematical integers.
pub open spec fn abs_int(a: int) -> int {
    if a >= 0 {
        a
    } else {
        -a
    }
}

/// Saturate a mathematical integer into the `i64` range.
pub open spec fn sat64(a: int) -> int {
    if a > i64::MAX as int {
        i64::MAX as int
    } else if a < i64::MIN as int {
        i64::MIN as int
    } else {
        a
    }
}

/// Division truncating toward zero, defined via magnitudes.
pub open spec fn div_trunc(a: int, b: int) -> int
    recommends
        b != 0,
{
    if (a >= 0) == (b >= 0) {
        abs_int(a) / abs_int(b)
    } else {
        -(abs_int(a) / abs_int(b))
    }
}

/// Saturating fixed-point addition.
pub open spec fn spec_add(a: int, b: int) -> int {
    sat64(a + b)
}

/// Saturating fixed-point subtraction.
pub open spec fn spec_sub(a: int, b: int) -> int {
    sat64(a - b)
}

/// Saturating fixed-point negation.
pub open spec fn spec_neg(a: int) -> int {
    sat64(-a)
}

/// Saturating fixed-point multiplication: truncated `a * b / 65536`.
pub open spec fn spec_mul(a: int, b: int) -> int {
    sat64(div_trunc(a * b, FX_ONE as int))
}

/// Saturating fixed-point division: truncated `a * 65536 / b`.
pub open spec fn spec_div(a: int, b: int) -> int
    recommends
        b != 0,
{
    sat64(div_trunc(a * (FX_ONE as int), b))
}

/// Fixed-point addition, saturating at the representation limits.
pub fn fx_add(a: i64, b: i64) -> (r: i64)
    ensures
        r as int == spec_add(a as int, b as int),
{
    let s: i128 = a as i128 + b as i128;
    if s > i64::MAX as i128 {
        i64::MAX
    } else if s < i64::MIN as i128 {
        i64::MIN
    } else {
        s as i64
    }
}

/// Fixed-point subtraction, saturating at the representation limits.
pub fn fx_sub(a: i64, b: i64) -> (r: i64)
    ensures
        r as int == spec_sub(a as int, b as int),
{
    let s: i128 = a as i128 - b as i128;
    if s > i64::MAX as i128 {
        i64::MAX
    } else if s < i64::MIN as i128 {
        i64::MIN
    } else {
        s as i64
    }
}

/// Fixed-point negation, saturating at the representation limits.
pub fn fx_neg(a: i64) -> (r: i64)
    ensures
        r as int == spec_neg(a as int),
{
    if a == i64::MIN {
        i64::MAX
    } else {
        -a
    }
}

/// Clamp an `i128` into the `i64` range.
fn clamp_to_i64(s: i128) -> (r: i64)
    ensures
        r as int == sat64(s as int),
{
    if s > i64::MAX as i128 {
        i64::MAX
    } else if s < i64::MIN as i128 {
        i64::MIN
    } else {
        s as i64
    }
}

/// Truncated division of an `i128` by a nonzero `i128`, carried out on
/// magnitudes so that the rounding direction is explicit.
fn div_trunc_i128(a: i128, b: i128) -> (r: i128)
    requires
        b != 0,
        -0x4000_0000_0000_0000_0000_0000_0000_0000 < a,
        -0x4000_0000_0000_0000_0000_0000_0000_0000 < b,
    ensures
        r as int == div_trunc(a as int, b as int),
{
    let am: u128 = if a >= 0 {
        a as u128
    } else {
        (-a) as u128
    };
    let bm: u128 = if b >= 0 {
        b as u128
    } else {
        (-b) as u128
    };
    let m: u128 = am / bm;
    assert(am as int == abs_int(a as int));
    assert(bm as int == abs_int(b as int));
    if (a >= 0) == (b >= 0) {
        m as i128
    } else {
        -(m as i128)
    }
}

/// Fixed-point multiplication: truncated `a * b / 65536`, saturating.
pub fn fx_mul(a: i64, b: i64) -> (r: i64)
    ensures
        r as int == spec_mul(a as int, b as int),
{
    proof {
        assert((a as int) * (b as int) <= 0x8000_0000_0000_0000 * 0x8000_0000_0000_0000
            && (a as int) * (b as int) >= -(0x8000_0000_0000_0000 * 0x7fff_ffff_ffff_ffff))
            by (nonlinear_arith)
            requires
                -0x8000_0000_0000_0000 <= a as int <= 0x7fff_ffff_ffff_ffff,
                -0x8000_0000_0000_0000 <= b as int <= 0x7fff_ffff_ffff_ffff,
        ;
    }
    let p: i128 = (a as i128) * (b as i128);
    let q: i128 = div_trunc_i128(p, FX_ONE as i128);
    clamp_to_i64(q)
}

/// Fixed-point division: truncated `a * 65536 / b`, saturating.
pub fn fx_div(a: i64, b: i64) -> (r: i64)
    requires
        b != 0,
    ensures
        r as int == spec_div(a as int, b as int),
{
    proof {
        assert(-0x8000_0000_0000_0000 * 0x1_0000 <= (a as int) * (FX_ONE as int)
            <= 0x7fff_ffff_ffff_ffff * 0x1_0000) by (nonlinear_arith)
            requires
                -0x8000_0000_0000_0000 <= a as int <= 0x7fff_ffff_ffff_ffff,
        ;
    }
    let n: i128 = (a as i128) * (FX_ONE as i128);
    assert(-0x4000_0000_0000_0000_0000_0000_0000_0000 < n);
    let q: i128 = div_trunc_i128(n, b as i128);
    clamp_to_i64(q)
}

/// The smaller of two scalars.
pub fn fx_min(a: i64, b: i64) -> (r: i64)
    ensures
        r as int == if a as int <= b as int { a as int } else { b as int },
{
    if a <= b {
        a
    } else {
        b
    }
}

/// The mathematical floor square root: the greatest `r` with `r * r <= n`.
pub open spec fn sqrt_floor(n: int) -> int
    decreases n,
{
    if n <= 0 {
        0
    } else if (sqrt_floor(n - 1) + 1) * (sqrt_floor(n - 1) + 1) <= n {
        sqrt_floor(n - 1) + 1
    } else {
        sqrt_floor(n - 1)
    }
}

/// What it means for `r` to be the floor square root of `n`.
pub open spec fn is_sqrt_floor(n: int, r: int) -> bool {
    0 <= r && r * r <= n && n < (r + 1) * (r + 1)
}

/// A mathematical integer that the `i64` representation can hold.
pub open spec fn in_i64(x: int) -> bool {
    i64::MIN as int <= x <= i64::MAX as int
}

/// The floor square root is never negative.
pub proof fn lemma_sqrt_floor_nonneg(n: int)
    ensures
        sqrt_floor(n) >= 0,
    decreases n,
{
    if n > 0 {
        lemma_sqrt_floor_nonneg(n - 1);
    }
}

/// `sqrt_floor` satisfies its own characterization.
pub proof fn lemma_sqrt_floor_correct(n: int)
    requires
        n >= 0,
    ensures
        is_sqrt_floor(n, sqrt_floor(n)),
    decreases n,
{
    if n == 0 {
        assert(sqrt_floor(0) == 0);
    } else {
        lemma_sqrt_floor_correct(n - 1);
        let r = sqrt_floor(n - 1);
        assert(r * r <= n - 1 && n - 1 < (r + 1) * (r + 1));
        if (r + 1) * (r + 1) <= n {
            assert(sqrt_floor(n) == r + 1);
            assert(n <= (r + 1) * (r + 1));
            assert((r + 1) * (r + 1) < (r + 2) * (r + 2)) by (nonlinear_arith)
                requires
                    r >= 0,
            ;
        } else {
            assert(sqrt_floor(n) == r);
        }
    }
}

/// The floor square root is unique.
pub proof fn lemma_sqrt_floor_unique(n: int, r: int)
    requires
        is_sqrt_floor(n, r),
    ensures
        r == sqrt_floor(n),
{
    lemma_sqrt_floor_correct(n);
    let s = sqrt_floor(n);
    if r < s {
        assert((r + 1) * (r + 1) <= s * s) by (nonlinear_arith)
            requires
                0 <= r && r + 1 <= s,
        ;
        assert(false);
    }
    if s < r {
        assert((s + 1) * (s + 1) <= r * r) by (nonlinear_arith)
            requires
                0 <= s && s + 1 <= r,
        ;
        assert(false);
    }
}

/// Pin a division and remainder of a nonnegative dividend: supplying the
/// decomposition `a == q * b + rem` determines `a / b` and `a % b`.
pub proof fn lemma_div_trunc_value(a: int, b: int, q: int, rem: int)
    requires
        b > 0,
        a >= 0,
        a == q * b + rem,
        0 <= rem < b,
    ensures
        div_trunc(a, b) == q,
        a / b == q,
        a % b == rem,
{
    vstd::arithmetic::div_mod::lemma_fundamental_div_mod_converse_div(a, b, q, rem);
    vstd::arithmetic::div_mod::lemma_fundamental_div_mod_converse_mod(a, b, q, rem);
}

/// A lower bound on a truncating division: a dividend at or above `m * d`
/// divides to at least `m`.
pub proof fn lemma_div_trunc_lower(k: int, d: int, m: int)
    requires
        d > 0,
        m * d <= k,
    ensures
        div_trunc(k, d) >= m,
{
    if k >= 0 {
        assert(div_trunc(k, d) == k / d);
        if m <= 0 {
            vstd::arithmetic::div_mod::lemma_div_pos_is_pos(k, d);
        } else {
            vstd::arithmetic::div_mod::lemma_div_is_ordered(m * d, k, d);
            vstd::arithmetic::div_mod::lemma_div_multiples_vanish(m, d);
            assert((d * m) / d == m);
            assert(d * m == m * d) by (nonlinear_arith);
            assert(k / d >= m);
        }
    } else {
        assert(div_trunc(k, d) == -((-k) / d));
        assert(-k <= (-m) * d) by (nonlinear_arith)
            requires
                m * d <= k,
        ;
        vstd::arithmetic::div_mod::lemma_div_is_ordered(-k, (-m) * d, d);
        vstd::arithmetic::div_mod::lemma_div_multiples_vanish(-m, d);
        assert((d * (-m)) / d == -m);
        assert(d * (-m) == (-m) * d) by (nonlinear_arith);
        assert((-k) / d <= -m);
    }
}

/// An upper bound on a truncating division: a dividend at or below `m * d`
/// divides to at most `m`.
pub proof fn lemma_div_trunc_upper(k: int, d: int, m: int)
    requires
        d > 0,
        k <= m * d,
    ensures
        div_trunc(k, d) <= m,
{
    if k >= 0 {
        assert(div_trunc(k, d) == k / d);
        vstd::arithmetic::div_mod::lemma_div_is_ordered(k, m * d, d);
        vstd::arithmetic::div_mod::lemma_div_multiples_vanish(m, d);
        assert((d * m) / d == m);
        assert(d * m == m * d) by (nonlinear_arith);
        assert(k / d <= m);
    } else {
        assert(div_trunc(k, d) == -((-k) / d));
        assert((-m) * d <= -k) by (nonlinear_arith)
            requires
                k <= m * d,
        ;
        vstd::arithmetic::div_mod::lemma_div_is_ordered((-m) * d, -k, d);
        vstd::arithmetic::div_mod::lemma_div_multiples_vanish(-m, d);
        assert((d * (-m)) / d == -m);
        assert(d * (-m) == (-m) * d) by (nonlinear_arith);
        assert((-k) / d >= -m);
    }
}

/// Multiplying by the fixed-point one is the identity on representable
/// scalars.
pub proof fn lemma_fx_mul_one(a: int)
    requires
        in_i64(a),
    ensures
        spec_mul(a, FX_ONE as int) == a,
{
    if a >= 0 {
        vstd::arithmetic::div_mod::lemma_div_multiples_vanish(a, FX_ONE as int);
    } else {
        vstd::arithmetic::div_mod::lemma_div_multiples_vanish(-a, FX_ONE as int);
        assert(abs_int(a * (FX_ONE as int)) == (FX_ONE as int) * (-a)) by (nonlinear_arith)
            requires
                a < 0,
        ;
    }
}

/// Floor square root of a `u128` below `2^80`, by bisection.
fn isqrt_u128(n: u128) -> (r: u128)
    requires
        n < 0x1_0000_0000_0000_0000_0000,
    ensures
        is_sqrt_floor(n as int, r as int),
{
    let mut lo: u128 = 0;
    let mut hi: u128 = 0x100_0000_0000;
    assert(hi * hi > n) by (nonlinear_arith)
        requires
            hi == 0x100_0000_0000 && n < 0x1_0000_0000_0000_0000_0000,
    ;
    while lo + 1 < hi
        invariant
            lo < hi <= 0x100_0000_0000,
            lo * lo <= n,
            n < hi * hi,
        decreases hi - lo,
    {
        let mid: u128 = lo + (hi - lo) / 2;
        assert(lo < mid < hi);
        assert(mid * mid <= 0x100_0000_0000 * 0x100_0000_0000) by (nonlinear_arith)
            requires
                0 < mid <= 0x100_0000_0000,
        ;
        if mid * mid <= n {
            lo = mid;
        } else {
            hi = mid;
        }
    }
    assert(lo + 1 == hi);
    lo
}

/// The fixed-point square root as a function of the raw representation:
/// the floor square root of `a * 65536`, so that the scale is preserved.
pub open spec fn spec_sqrt(a: int) -> int {
    sqrt_floor(a * (FX_ONE as int))
}

/// Fixed-point square root of a nonnegative scalar.
pub fn fx_sqrt(a: i64) -> (r: i64)
    requires
        a >= 0,
    ensures
        r as int == spec_sqrt(a as int),
        r >= 0,
{
    proof {
        assert((a as int) * (FX_ONE as int) <= 0x7fff_ffff_ffff_ffff * 0x1_0000)
            by (nonlinear_arith)
            requires
                0 <= a as int <= 0x7fff_ffff_ffff_ffff,
        ;
    }
    let n: u128 = (a as u128) * (FX_ONE as u128);
    assert(n < 0x1_0000_0000_0000_0000_0000);
    let s: u128 = isqrt_u128(n);
    proof {
        lemma_sqrt_floor_unique(n as int, s as int);
        assert(s * s <= n < 0x1_0000_0000_0000_0000_0000);
        assert(s < 0x1_0000_0000_0000) by (nonlinear_arith)
            requires
                s * s <= n < 0x1_0000_0000_0000_0000_0000,
        ;
    }
    s as i64
}

} // verus!

//! Fixed-point sine and cosine.
//!
//! Angles are fixed-point radians.  An angle is first reduced into
//! `[0, 2*pi)`, then folded into the quarter wave around zero, and the sine
//! there is a degree-five odd polynomial whose value is clamped into
//! `[-1, 1]`.  Every step is exact fixed-point arithmetic, so the result is
//! a deterministic function of the angle.

use vstd::prelude::*;
use crate::fixed::{FX_ONE, fx_add, fx_mul, fx_sub, spec_add, spec_mul, spec_sub};
use vstd::arithmetic::div_mod::{lemma_fundamental_div_mod, lemma_fundamental_div_mod_converse_mod};

verus! {

/// Fixed-point pi.
pub const FX_PI: i64 = 205887;

/// Fixed-point 2*pi.
pub const FX_TWO_PI: i64 = 411775;

/// Fixed-point pi/2.
pub const FX_PI_2: i64 = 102944;

/// Fixed-point pi/4.
pub const FX_PI_4: i64 = 51472;

/// Fixed-point 1/6, the cubic coefficient of the sine polynomial.
pub const FX_SIXTH: i64 = 10923;

/// Fixed-point 1/120, the quintic coefficient of the sine polynomial.
pub const FX_ONE_120TH: i64 = 546;

/// An angle reduced into `[0, 2*pi)`: the Euclidean remainder modulo `2*pi`.
pub open spec fn spec_mod_two_pi(a: int) -> int {
    a % (FX_TWO_PI as int)
}

/// Clamp a scalar into the fixed-point interval `[-1, 1]`.
pub open spec fn spec_clamp_one(a: int) -> int {
    if a > FX_ONE as int {
        FX_ONE as int
    } else if a < -(FX_ONE as int) {
        -(FX_ONE as int)
    } else {
        a
    }
}

/// The quarter-wave sine polynomial `x - x^3/6 + x^5/120`, clamped into
/// `[-1, 1]`.  Accurate near `[-pi/2, pi/2]`.
pub open spec fn spec_sin_poly(x: int) -> int {
    let x2 = spec_mul(x, x);
    let x3 = spec_mul(x2, x);
    let x5 = spec_mul(x3, x2);
    let t3 = spec_mul(x3, FX_SIXTH as int);
    let t5 = spec_mul(x5, FX_ONE_120TH as int);
    spec_clamp_one(spec_add(spec_sub(x, t3), t5))
}

/// Fixed-point sine of an angle in fixed-point radians.
pub open spec fn spec_sin(a: int) -> int {
    let r = spec_mod_two_pi(a);
    if r <= FX_PI_2 as int {
        spec_sin_poly(r)
    } else if r <= FX_PI as int + FX_PI_2 as int {
        spec_sin_poly(FX_PI as int - r)
    } else {
        spec_sin_poly(r - FX_TWO_PI as int)
    }
}

/// Fixed-point cosine: the sine shifted left by a quarter turn.
pub open spec fn spec_cos(a: int) -> int {
    spec_sin(spec_add(a, FX_PI_2 as int))
}

/// The concrete values of the sine and cosine at half a right angle,
/// where every perspective projection of this scene evaluates them.
pub proof fn lemma_quarter_angle_values()
    ensures
        spec_mul(FX_PI_2 as int, crate::fixed::FX_HALF as int) == 51472,
        spec_sin(51472) == 46344,
        spec_cos(51472) == 46343,
{
    crate::fixed::lemma_div_trunc_value(3373268992, 65536, 51472, 0);
    assert(spec_mul(102944, 32768) == 51472);
    crate::fixed::lemma_div_trunc_value(51472, 411775, 0, 51472);
    assert(spec_mod_two_pi(51472) == 51472);
    crate::fixed::lemma_div_trunc_value(2649366784, 65536, 40426, 8448);
    assert(spec_mul(51472, 51472) == 40426);
    crate::fixed::lemma_div_trunc_value(2080807072, 65536, 31750, 39072);
    assert(spec_mul(40426, 51472) == 31750);
    crate::fixed::lemma_div_trunc_value(1283525500, 65536, 19585, 2940);
    assert(spec_mul(31750, 40426) == 19585);
    crate::fixed::lemma_div_trunc_value(346805250, 65536, 5291, 54274);
    assert(spec_mul(31750, 10923) == 5291);
    crate::fixed::lemma_div_trunc_value(10693410, 65536, 163, 11042);
    assert(spec_mul(19585, 546) == 163);
    assert(spec_sin_poly(51472) == 46344);
    assert(spec_sin(51472) == 46344);
    assert(spec_add(51472, FX_PI_2 as int) == 154416);
    crate::fixed::lemma_div_trunc_value(154416, 411775, 0, 154416);
    assert(spec_mod_two_pi(154416) == 154416);
    crate::fixed::lemma_div_trunc_value(2649263841, 65536, 40424, 36577);
    assert(spec_mul(51471, 51471) == 40424);
    crate::fixed::lemma_div_trunc_value(2080663704, 65536, 31748, 26776);
    assert(spec_mul(40424, 51471) == 31748);
    crate::fixed::lemma_div_trunc_value(1283381152, 65536, 19582, 55200);
    assert(spec_mul(31748, 40424) == 19582);
    crate::fixed::lemma_div_trunc_value(346783404, 65536, 5291, 32428);
    assert(spec_mul(31748, 10923) == 5291);
    crate::fixed::lemma_div_trunc_value(10691772, 65536, 163, 9404);
    assert(spec_mul(19582, 546) == 163);
    assert(spec_sin_poly(51471) == 46343);
    assert(spec_sin(154416) == 46343);
    assert(spec_cos(51472) == 46343);
}

/// Reduce an angle into `[0, 2*pi)`.
pub fn fx_mod_two_pi(a: i64) -> (r: i64)
    ensures
        r as int == spec_mod_two_pi(a as int),
        0 <= r < FX_TWO_PI,
{
    let t: u64 = FX_TWO_PI as u64;
    if a >= 0 {
        let m: u64 = (a as u64) % t;
        proof {
            assert(m as int == (a as int) % (FX_TWO_PI as int));
        }
        m as i64
    } else {
        let neg: u64 = (-(a as i128)) as u64;
        assert(neg as int == -(a as int));
        let m: u64 = neg % t;
        proof {
            lemma_fundamental_div_mod(neg as int, FX_TWO_PI as int);
        }
        if m == 0 {
            proof {
                // -a == q * t, so a == (-q) * t and a % t == 0.
                let q = (neg as int) / (FX_TWO_PI as int);
                assert(a as int == (-q) * (FX_TWO_PI as int) + 0) by (nonlinear_arith)
                    requires
                        -(a as int) == q * (FX_TWO_PI as int),
                ;
                lemma_fundamental_div_mod_converse_mod(
                    a as int,
                    FX_TWO_PI as int,
                    -q,
                    0,
                );
            }
            0i64
        } else {
            proof {
                // -a == q * t + m, so a == (-q - 1) * t + (t - m).
                let q = (neg as int) / (FX_TWO_PI as int);
                assert(a as int == (-q - 1) * (FX_TWO_PI as int) + (FX_TWO_PI as int
                    - m as int)) by (nonlinear_arith)
                    requires
                        -(a as int) == q * (FX_TWO_PI as int) + m as int,
                ;
                lemma_fundamental_div_mod_converse_mod(
                    a as int,
                    FX_TWO_PI as int,
                    -q - 1,
                    FX_TWO_PI as int - m as int,
                );
            }
            FX_TWO_PI - (m as i64)
        }
    }
}

/// The quarter-wave sine polynomial, clamped into `[-1, 1]`.
fn fx_sin_poly(x: i64) -> (r: i64)
    ensures
        r as int == spec_sin_poly(x as int),
        -FX_ONE <= r <= FX_ONE,
{
    let x2: i64 = fx_mul(x, x);
    let x3: i64 = fx_mul(x2, x);
    let x5: i64 = fx_mul(x3, x2);
    let t3: i64 = fx_mul(x3, FX_SIXTH);
    let t5: i64 = fx_mul(x5, FX_ONE_120TH);
    let s: i64 = fx_add(fx_sub(x, t3), t5);
    if s > FX_ONE {
        FX_ONE
    } else if s < -FX_ONE {
        -FX_ONE
    } else {
        s
    }
}

/// Fixed-point sine.  The result always lies in `[-1, 1]`.
pub fn fx_sin(a: i64) -> (r: i64)
    ensures
        r as int == spec_sin(a as int),
        -FX_ONE <= r <= FX_ONE,
{
    let m: i64 = fx_mod_two_pi(a);
    if m <= FX_PI_2 {
        fx_sin_poly(m)
    } else if m <= FX_PI + FX_PI_2 {
        fx_sin_poly(FX_PI - m)
    } else {
        fx_sin_poly(m - FX_TWO_PI)
    }
}

/// Fixed-point cosine.  The result always lies in `[-1, 1]`.
pub fn fx_cos(a: i64) -> (r: i64)
    ensures
        r as int == spec_cos(a as int),
        -FX_ONE <= r <= FX_ONE,
{
    let shifted: i64 = fx_add(a, FX_PI_2);
    fx_sin(shifted)
}

} // verus!

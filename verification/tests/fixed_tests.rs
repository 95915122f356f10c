use bouncing_cube::fixed::{FX_ONE, fx_add, fx_div, fx_mul, fx_neg, fx_sqrt, fx_sub};
use bouncing_cube::trig::{FX_PI_2, FX_PI_4, FX_TWO_PI, fx_cos, fx_mod_two_pi, fx_sin};

#[test]
fn add_and_sub_are_exact_in_range() {
    assert_eq!(fx_add(65536, 65536), 131072);
    assert_eq!(fx_sub(65536, 131072), -65536);
    assert_eq!(fx_neg(65536), -65536);
}

#[test]
fn add_saturates_at_the_limits() {
    assert_eq!(fx_add(i64::MAX, 1), i64::MAX);
    assert_eq!(fx_sub(i64::MIN, 1), i64::MIN);
    assert_eq!(fx_neg(i64::MIN), i64::MAX);
}

#[test]
fn mul_scales_and_truncates_toward_zero() {
    // 0.1 * 0.5 = 0.05
    assert_eq!(fx_mul(6554, 32768), 3277);
    // 2.0 * 0.5 = 1.0
    assert_eq!(fx_mul(131072, 32768), 65536);
    // (-2.0) * 0.5 = -1.0
    assert_eq!(fx_mul(-131072, 32768), -65536);
    // truncation of a negative product moves toward zero
    assert_eq!(fx_mul(-3, 3), 0);
}

#[test]
fn div_scales_and_truncates_toward_zero() {
    // (-3.0) / 2.0 = -1.5
    assert_eq!(fx_div(-196608, 131072), -98304);
    // 1.0 / 3.0 truncates
    assert_eq!(fx_div(65536, 196608), 21845);
    assert_eq!(fx_div(-1, 65536), -1);
}

#[test]
fn sqrt_matches_exact_squares_and_truncates() {
    assert_eq!(fx_sqrt(0), 0);
    assert_eq!(fx_sqrt(65536), 65536);
    assert_eq!(fx_sqrt(262144), 131072);
    // the semi-diagonal radicand of the construction-time cube
    assert_eq!(fx_sqrt(489), 5661);
}

#[test]
fn sine_and_cosine_at_key_angles() {
    assert_eq!(fx_sin(0), 0);
    assert_eq!(fx_cos(0), FX_ONE);
    assert_eq!(fx_sin(FX_PI_2), FX_ONE);
    assert_eq!(fx_sin(FX_PI_4), 46344);
    assert_eq!(fx_cos(FX_PI_4), 46343);
    assert_eq!(fx_sin(-FX_PI_4), -46344);
    assert_eq!(fx_cos(FX_PI_2), -1);
}

#[test]
fn angle_reduction_is_euclidean() {
    assert_eq!(fx_mod_two_pi(0), 0);
    assert_eq!(fx_mod_two_pi(FX_TWO_PI), 0);
    assert_eq!(fx_mod_two_pi(FX_TWO_PI + 7), 7);
    assert_eq!(fx_mod_two_pi(-1), FX_TWO_PI - 1);
}

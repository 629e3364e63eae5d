use raytracer::fixed::{
    fx_add, fx_div, fx_floor_count, fx_mul, fx_pow, fx_sqrt, ApproxEq, FX_MAX, FX_ONE,
};
use raytracer::trig;
use raytracer::trig::PI;

/// The fixed-point representation of a real value.
fn fx(v: f64) -> i128 {
    (v * 1e8).round() as i128
}

#[test]
fn fixed_point_arithmetic_matches_real_arithmetic_on_small_values() {
    assert_eq!(fx_add(fx(1.5), fx(2.25)), fx(3.75));
    assert_eq!(fx_mul(fx(1.5), fx(2.)), fx(3.));
    assert_eq!(fx_div(fx(3.), fx(2.)), fx(1.5));
    assert_eq!(fx_sqrt(fx(4.)), fx(2.));
    assert_eq!(fx_pow(fx(0.5), 3), fx(0.125));
}

#[test]
fn fixed_point_addition_saturates_at_the_band() {
    assert_eq!(fx_add(FX_MAX, FX_MAX), FX_MAX);
    assert_eq!(fx_add(-FX_MAX, -FX_MAX), -FX_MAX);
}

#[test]
fn fixed_point_division_by_zero_saturates() {
    assert_eq!(fx_div(fx(1.), 0), FX_MAX);
    assert_eq!(fx_div(fx(-1.), 0), -FX_MAX);
    assert_eq!(fx_div(0, 0), 0);
}

#[test]
fn fixed_point_floor_rounds_toward_negative_infinity() {
    assert_eq!(fx_floor_count(fx(1.5)), 1);
    assert_eq!(fx_floor_count(fx(-0.5)), -1);
    assert_eq!(fx_floor_count(fx(-2.)), -2);
    assert_eq!(fx_floor_count(0), 0);
}

#[test]
fn sine_and_cosine_match_the_reference_values() {
    assert!(trig::sin(0).is_approx(&0));
    assert!(trig::sin(PI / 2).is_approx(&FX_ONE));
    assert!(trig::sin(PI / 6).is_approx(&fx(0.5)));
    assert!(trig::cos(0).is_approx(&FX_ONE));
    assert!(trig::cos(PI).is_approx(&fx(-1.)));
    assert!(trig::cos(PI / 3).is_approx(&fx(0.5)));
    assert!(trig::tan(PI / 4).is_approx(&FX_ONE));
}

#[test]
fn angles_reduce_by_whole_turns() {
    let two_pi = raytracer::trig::TWO_PI;
    assert!(trig::sin(PI / 6 + two_pi).is_approx(&fx(0.5)));
    assert!(trig::sin(PI / 6 - two_pi).is_approx(&fx(0.5)));
}

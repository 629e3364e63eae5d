//! Fixed-point trigonometry.
//!
//! Sine and cosine are computed from truncated Taylor series after the
//! angle is reduced into one period around zero; the specifications state
//! exactly that approximation. Within `[-pi, pi]` the truncation error is
//! far below the library's comparison tolerance.

use crate::fixed::{
    fx_add, fx_add_s, fx_div, fx_div_s, fx_floor_div, fx_mul, fx_mul_s, fx_ok, fx_sub,
    fx_sub_s, sat, FX_MAX, FX_ONE,
};
use vstd::prelude::*;

verus! {

/// The angle of a half turn.
pub const PI: i128 = 314_159_265;

/// The angle of a full turn (twice `PI`, so reduction is exact).
pub const TWO_PI: i128 = 628_318_530;

pub const DIV_SIN_3: i128 = 600_000_000;

pub const DIV_SIN_5: i128 = 2_000_000_000;

pub const DIV_SIN_7: i128 = 4_200_000_000;

pub const DIV_SIN_9: i128 = 7_200_000_000;

pub const DIV_SIN_11: i128 = 11_000_000_000;

pub const DIV_SIN_13: i128 = 15_600_000_000;

pub const DIV_SIN_15: i128 = 21_000_000_000;

pub const DIV_COS_2: i128 = 200_000_000;

pub const DIV_COS_4: i128 = 1_200_000_000;

pub const DIV_COS_6: i128 = 3_000_000_000;

pub const DIV_COS_8: i128 = 5_600_000_000;

pub const DIV_COS_10: i128 = 9_000_000_000;

pub const DIV_COS_12: i128 = 13_200_000_000;

pub const DIV_COS_14: i128 = 18_200_000_000;

pub const DIV_COS_16: i128 = 24_000_000_000;

/// Shifts an angle by whole turns into the half-open band around zero.
pub open spec fn reduce_angle_s(x: int) -> int {
    let num = fx_add_s(x, PI as int);
    let k = num / (TWO_PI as int);
    sat(x - k * (TWO_PI as int))
}

/// The truncated sine series on a reduced angle, nested Horner style.
pub open spec fn sin_poly_s(t: int) -> int {
    let t2 = fx_mul_s(t, t);
    let q7 = fx_sub_s(FX_ONE as int, fx_div_s(t2, DIV_SIN_15 as int));
    let q6 = fx_sub_s(FX_ONE as int, fx_mul_s(fx_div_s(t2, DIV_SIN_13 as int), q7));
    let q5 = fx_sub_s(FX_ONE as int, fx_mul_s(fx_div_s(t2, DIV_SIN_11 as int), q6));
    let q4 = fx_sub_s(FX_ONE as int, fx_mul_s(fx_div_s(t2, DIV_SIN_9 as int), q5));
    let q3 = fx_sub_s(FX_ONE as int, fx_mul_s(fx_div_s(t2, DIV_SIN_7 as int), q4));
    let q2 = fx_sub_s(FX_ONE as int, fx_mul_s(fx_div_s(t2, DIV_SIN_5 as int), q3));
    let q1 = fx_sub_s(FX_ONE as int, fx_mul_s(fx_div_s(t2, DIV_SIN_3 as int), q2));
    fx_mul_s(t, q1)
}

/// The truncated cosine series on a reduced angle.
pub open spec fn cos_poly_s(t: int) -> int {
    let t2 = fx_mul_s(t, t);
    let q8 = fx_sub_s(FX_ONE as int, fx_div_s(t2, DIV_COS_16 as int));
    let q7 = fx_sub_s(FX_ONE as int, fx_mul_s(fx_div_s(t2, DIV_COS_14 as int), q8));
    let q6 = fx_sub_s(FX_ONE as int, fx_mul_s(fx_div_s(t2, DIV_COS_12 as int), q7));
    let q5 = fx_sub_s(FX_ONE as int, fx_mul_s(fx_div_s(t2, DIV_COS_10 as int), q6));
    let q4 = fx_sub_s(FX_ONE as int, fx_mul_s(fx_div_s(t2, DIV_COS_8 as int), q5));
    let q3 = fx_sub_s(FX_ONE as int, fx_mul_s(fx_div_s(t2, DIV_COS_6 as int), q4));
    let q2 = fx_sub_s(FX_ONE as int, fx_mul_s(fx_div_s(t2, DIV_COS_4 as int), q3));
    fx_sub_s(FX_ONE as int, fx_mul_s(fx_div_s(t2, DIV_COS_2 as int), q2))
}

/// Sine of an angle in radians.
pub open spec fn sin_s(x: int) -> int {
    sin_poly_s(reduce_angle_s(x))
}

/// Cosine of an angle in radians.
pub open spec fn cos_s(x: int) -> int {
    cos_poly_s(reduce_angle_s(x))
}

/// Tangent of an angle in radians: sine over cosine.
pub open spec fn tan_s(x: int) -> int {
    fx_div_s(sin_s(x), cos_s(x))
}

/// Shifts an angle by whole turns into the band around zero.
fn reduce_angle(x: i128) -> (r: i128)
    requires
        fx_ok(x as int),
    ensures
        r as int == reduce_angle_s(x as int),
        fx_ok(r as int),
{
    let num = fx_add(x, PI);
    let k = fx_floor_div(num, TWO_PI);
    proof {
        vstd::arithmetic::div_mod::lemma_fundamental_div_mod(num as int, TWO_PI as int);
        assert(0 <= (num as int) % (TWO_PI as int) < TWO_PI as int);
        assert((k as int) * (TWO_PI as int) <= num as int);
        assert((num as int) < (k as int + 1) * (TWO_PI as int));
    }
    let p = k * TWO_PI;
    let t = x - p;
    if t > FX_MAX {
        FX_MAX
    } else if t < -FX_MAX {
        -FX_MAX
    } else {
        t
    }
}

/// Sine of an angle in radians, by the truncated series.
pub fn sin(x: i128) -> (r: i128)
    requires
        fx_ok(x as int),
    ensures
        r as int == sin_s(x as int),
        fx_ok(r as int),
{
    let t = reduce_angle(x);
    let t2 = fx_mul(t, t);
    let q7 = fx_sub(FX_ONE, fx_div(t2, DIV_SIN_15));
    let q6 = fx_sub(FX_ONE, fx_mul(fx_div(t2, DIV_SIN_13), q7));
    let q5 = fx_sub(FX_ONE, fx_mul(fx_div(t2, DIV_SIN_11), q6));
    let q4 = fx_sub(FX_ONE, fx_mul(fx_div(t2, DIV_SIN_9), q5));
    let q3 = fx_sub(FX_ONE, fx_mul(fx_div(t2, DIV_SIN_7), q4));
    let q2 = fx_sub(FX_ONE, fx_mul(fx_div(t2, DIV_SIN_5), q3));
    let q1 = fx_sub(FX_ONE, fx_mul(fx_div(t2, DIV_SIN_3), q2));
    fx_mul(t, q1)
}

/// Cosine of an angle in radians, by the truncated series.
pub fn cos(x: i128) -> (r: i128)
    requires
        fx_ok(x as int),
    ensures
        r as int == cos_s(x as int),
        fx_ok(r as int),
{
    let t = reduce_angle(x);
    let t2 = fx_mul(t, t);
    let q8 = fx_sub(FX_ONE, fx_div(t2, DIV_COS_16));
    let q7 = fx_sub(FX_ONE, fx_mul(fx_div(t2, DIV_COS_14), q8));
    let q6 = fx_sub(FX_ONE, fx_mul(fx_div(t2, DIV_COS_12), q7));
    let q5 = fx_sub(FX_ONE, fx_mul(fx_div(t2, DIV_COS_10), q6));
    let q4 = fx_sub(FX_ONE, fx_mul(fx_div(t2, DIV_COS_8), q5));
    let q3 = fx_sub(FX_ONE, fx_mul(fx_div(t2, DIV_COS_6), q4));
    let q2 = fx_sub(FX_ONE, fx_mul(fx_div(t2, DIV_COS_4), q3));
    fx_sub(FX_ONE, fx_mul(fx_div(t2, DIV_COS_2), q2))
}

/// Tangent of an angle in radians; a cosine of zero saturates, the
/// analogue of the pole.
pub fn tan(x: i128) -> (r: i128)
    requires
        fx_ok(x as int),
    ensures
        r as int == tan_s(x as int),
        fx_ok(r as int),
{
    let s = sin(x);
    let c = cos(x);
    fx_div(s, c)
}

} // verus!

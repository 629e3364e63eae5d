//! Fixed-point scalar arithmetic.
//!
//! Every scalar quantity in the library is a signed fixed-point number with
//! eight decimal places, stored in an `i128`: the stored value `v` stands for
//! the real number `v / FX_ONE`. All operations saturate at `±FX_MAX` — the
//! analogue of floating-point overflow to infinity — which makes every
//! operation total on well-formed scalars and lets each one carry an exact
//! functional specification.

use vstd::arithmetic::div_mod::{lemma_fundamental_div_mod, lemma_fundamental_div_mod_converse};
use vstd::prelude::*;

verus! {

/// One whole unit: the real number `1.0`.
pub const FX_ONE: i128 = 100_000_000;

/// Saturation bound of the representation; arithmetic never leaves
/// `[-FX_MAX, FX_MAX]`. Chosen so that the product of two well-formed
/// magnitudes still fits in a `u128`.
pub const FX_MAX: i128 = 10_000_000_000_000_000_000;

/// Comparison tolerance for approximate equality: the real number `1e-5`.
pub const FX_EPSILON: i128 = 1_000;

/// A scalar is well formed when it lies within the saturation band.
pub open spec fn fx_ok(v: int) -> bool {
    -(FX_MAX as int) <= v <= FX_MAX as int
}

/// Clamps a mathematical integer into the saturation band.
pub open spec fn sat(v: int) -> int {
    if v > FX_MAX as int {
        FX_MAX as int
    } else if v < -(FX_MAX as int) {
        -(FX_MAX as int)
    } else {
        v
    }
}

/// Absolute value of a mathematical integer.
pub open spec fn iabs(v: int) -> int {
    if v >= 0 {
        v
    } else {
        -v
    }
}

/// Division truncating toward zero, the rounding used by every scaled
/// operation (`d != 0` expected).
pub open spec fn tdiv(a: int, d: int) -> int {
    if (a >= 0) == (d >= 0) {
        iabs(a) / iabs(d)
    } else {
        -(iabs(a) / iabs(d))
    }
}

/// Saturating fixed-point addition.
pub open spec fn fx_add_s(a: int, b: int) -> int {
    sat(a + b)
}

/// Saturating fixed-point subtraction.
pub open spec fn fx_sub_s(a: int, b: int) -> int {
    sat(a - b)
}

/// Fixed-point negation.
pub open spec fn fx_neg_s(a: int) -> int {
    -a
}

/// Saturating fixed-point multiplication: scale the integer product back
/// down by `FX_ONE`, truncating toward zero.
pub open spec fn fx_mul_s(a: int, b: int) -> int {
    sat(tdiv(a * b, FX_ONE as int))
}

/// Saturating fixed-point division. Division by zero saturates with the
/// sign of the dividend, the analogue of the IEEE `±infinity` result.
pub open spec fn fx_div_s(a: int, b: int) -> int {
    if b == 0 {
        if a > 0 {
            FX_MAX as int
        } else if a < 0 {
            -(FX_MAX as int)
        } else {
            0
        }
    } else {
        sat(tdiv(a * (FX_ONE as int), b))
    }
}

/// Two scalars are approximately equal when they differ by less than the
/// tolerance.
pub open spec fn fx_approx_s(a: int, b: int) -> bool {
    iabs(a - b) < FX_EPSILON as int
}

/// Determines that two values are approximately equal.
pub trait ApproxEq {
    /// When the comparison may be asked for (well-formedness of both sides).
    spec fn approx_req(&self, rhs: &Self) -> bool;

    /// What the comparison means.
    spec fn approx_spec(&self, rhs: &Self) -> bool;

    /// Compares the two values within the library's tolerance.
    fn is_approx(&self, rhs: &Self) -> (r: bool)
        requires
            self.approx_req(rhs),
        ensures
            r == self.approx_spec(rhs),
    ;
}

proof fn lemma_abs_mul(a: int, b: int)
    ensures
        iabs(a * b) == iabs(a) * iabs(b),
        (a * b >= 0) == (a == 0 || b == 0 || ((a >= 0) == (b >= 0))),
{
    if a == 0 || b == 0 {
        assert(a * b == 0) by (nonlinear_arith)
            requires
                a == 0 || b == 0,
        ;
        assert(iabs(a * b) == iabs(a) * iabs(b)) by (nonlinear_arith)
            requires
                a == 0 || b == 0,
        ;
    } else if a > 0 && b > 0 {
        assert(a * b > 0) by (nonlinear_arith)
            requires
                a > 0,
                b > 0,
        ;
        assert(iabs(a * b) == iabs(a) * iabs(b));
    } else if a < 0 && b < 0 {
        assert(a * b > 0 && a * b == (-a) * (-b)) by (nonlinear_arith)
            requires
                a < 0,
                b < 0,
        ;
        assert(iabs(a * b) == iabs(a) * iabs(b));
    } else if a > 0 && b < 0 {
        assert(a * b < 0 && -(a * b) == a * (-b)) by (nonlinear_arith)
            requires
                a > 0,
                b < 0,
        ;
        assert(iabs(a * b) == iabs(a) * iabs(b));
    } else {
        assert(a * b < 0 && -(a * b) == (-a) * b) by (nonlinear_arith)
            requires
                a < 0,
                b > 0,
        ;
        assert(iabs(a * b) == iabs(a) * iabs(b));
    }
}

pub proof fn lemma_mul_upper(a: int, b: int, c: int, d: int)
    requires
        0 <= a <= c,
        0 <= b <= d,
    ensures
        a * b <= c * d,
{
    assert(a * b <= c * d) by (nonlinear_arith)
        requires
            0 <= a <= c,
            0 <= b <= d,
    ;
}

/// Multiplying by one is exact: the scaled product loses nothing.
pub proof fn lemma_fx_mul_one(a: int)
    requires
        fx_ok(a),
    ensures
        fx_mul_s(a, FX_ONE as int) == a,
        fx_mul_s(FX_ONE as int, a) == a,
{
    if a >= 0 {
        vstd::arithmetic::div_mod::lemma_div_multiples_vanish(a, FX_ONE as int);
        assert(iabs(a * (FX_ONE as int)) == a * (FX_ONE as int));
        assert(a * (FX_ONE as int) == (FX_ONE as int) * a) by (nonlinear_arith);
    } else {
        vstd::arithmetic::div_mod::lemma_div_multiples_vanish(-a, FX_ONE as int);
        assert(iabs(a * (FX_ONE as int)) == (-a) * (FX_ONE as int)) by (nonlinear_arith)
            requires
                a < 0,
        ;
        assert((-a) * (FX_ONE as int) == (FX_ONE as int) * (-a)) by (nonlinear_arith);
        assert(a * (FX_ONE as int) < 0) by (nonlinear_arith)
            requires
                a < 0,
        ;
    }
    assert(a * (FX_ONE as int) == (FX_ONE as int) * a) by (nonlinear_arith);
}

/// Multiplying by zero gives zero.
pub proof fn lemma_fx_mul_zero(a: int)
    ensures
        fx_mul_s(a, 0) == 0,
        fx_mul_s(0, a) == 0,
{
    assert(a * 0 == 0 && 0 * a == 0) by (nonlinear_arith);
}

/// Negating one factor negates the product exactly: truncation toward
/// zero is symmetric about zero, and so is the saturation band.
pub proof fn lemma_fx_mul_neg(a: int, b: int)
    ensures
        fx_mul_s(-a, b) == -fx_mul_s(a, b),
{
    assert((-a) * b == -(a * b)) by (nonlinear_arith);
}

/// Dividing by one is exact.
pub proof fn lemma_fx_div_one(a: int)
    requires
        fx_ok(a),
    ensures
        fx_div_s(a, FX_ONE as int) == a,
{
    if a >= 0 {
        vstd::arithmetic::div_mod::lemma_div_multiples_vanish(a, FX_ONE as int);
        assert(iabs(a * (FX_ONE as int)) == a * (FX_ONE as int));
        assert(a * (FX_ONE as int) == (FX_ONE as int) * a) by (nonlinear_arith);
    } else {
        vstd::arithmetic::div_mod::lemma_div_multiples_vanish(-a, FX_ONE as int);
        assert(iabs(a * (FX_ONE as int)) == (-a) * (FX_ONE as int)) by (nonlinear_arith)
            requires
                a < 0,
        ;
        assert((-a) * (FX_ONE as int) == (FX_ONE as int) * (-a)) by (nonlinear_arith);
        assert(a * (FX_ONE as int) < 0) by (nonlinear_arith)
            requires
                a < 0,
        ;
    }
}

/// One rescaling step loses less than one unit: as long as the raw
/// product does not saturate, the scaled product differs from the exact
/// integer product by less than the scale.
pub proof fn lemma_fx_mul_error(a: int, b: int)
    requires
        iabs(a * b) <= (FX_ONE as int) * (FX_MAX as int),
    ensures
        iabs((FX_ONE as int) * fx_mul_s(a, b) - a * b) < FX_ONE as int,
{
    let s = FX_ONE as int;
    let n = a * b;
    let m = iabs(n);
    vstd::arithmetic::div_mod::lemma_fundamental_div_mod(m, s);
    assert(0 <= m % s < s);
    vstd::arithmetic::div_mod::lemma_div_is_ordered(m, s * (FX_MAX as int), s);
    vstd::arithmetic::div_mod::lemma_div_multiples_vanish(FX_MAX as int, s);
    if n >= 0 {
        assert(tdiv(n, s) == m / s);
        assert(s * (m / s) - m == -(m % s));
    } else {
        assert(tdiv(n, s) == -(m / s));
        assert(s * (-(m / s)) - n == m % s) by (nonlinear_arith)
            requires
                n == -m,
                m == s * (m / s) + m % s,
        ;
    }
}

/// Law (round trip, one axis): a scale factor paired with a stored
/// reciprocal that composes with it exactly takes a coordinate out and
/// back to within the comparison tolerance — provided the reciprocal
/// stays below the conditioning bound. Each rescale loses less than one
/// unit, and the reciprocal magnifies the first loss, so the total error
/// is below the reciprocal's magnitude in whole units, plus one.
pub proof fn lemma_fx_scale_round_trip(a: int, a_inv: int, x: int)
    requires
        fx_ok(a),
        fx_ok(a_inv),
        fx_ok(x),
        a * a_inv == (FX_ONE as int) * (FX_ONE as int),
        iabs(a) <= 1000 * (FX_ONE as int),
        iabs(a_inv) <= 998 * (FX_ONE as int),
        iabs(x) <= 100_000 * (FX_ONE as int),
    ensures
        fx_approx_s(fx_mul_s(a_inv, fx_mul_s(a, x)), x),
{
    let s = FX_ONE as int;

    // The first rescale: a * x fits, and loses less than one unit.
    lemma_abs_mul(a, x);
    lemma_mul_upper(iabs(a), iabs(x), 1000 * s, 100_000 * s);
    assert(iabs(a * x) <= s * (FX_MAX as int)) by (nonlinear_arith)
        requires
            iabs(a * x) <= (1000 * s) * (100_000 * s),
            s == FX_ONE as int,
    ;
    lemma_fx_mul_error(a, x);

    let q = fx_mul_s(a, x);
    let e1 = a * x - s * q;
    assert(-s < e1 < s);
    assert(-((1000 * s) * (100_000 * s)) <= a * x <= (1000 * s) * (100_000 * s));

    // Bound the intermediate coordinate.
    assert(-(100_000_001 * s) <= q <= 100_000_001 * s) by (nonlinear_arith)
        requires
            s * q == a * x - e1,
            -s < e1 < s,
            -((1000 * s) * (100_000 * s)) <= a * x <= (1000 * s) * (100_000 * s),
            s == FX_ONE as int,
    ;

    // The second rescale: a_inv * q fits, and loses less than one unit.
    lemma_abs_mul(a_inv, q);
    lemma_mul_upper(iabs(a_inv), iabs(q), 998 * s, 100_000_001 * s);
    assert(iabs(a_inv * q) <= s * (FX_MAX as int)) by (nonlinear_arith)
        requires
            iabs(a_inv * q) <= (998 * s) * (100_000_001 * s),
            s == FX_ONE as int,
    ;
    lemma_fx_mul_error(a_inv, q);

    let r = fx_mul_s(a_inv, q);
    let e2 = a_inv * q - s * r;
    assert(-s < e2 < s);

    // Chain the two steps: the reciprocal cancels the scale exactly, so
    // only the two losses remain, the first magnified by the reciprocal.
    assert(s * (s * r) == s * (a_inv * q) - s * e2) by (nonlinear_arith)
        requires
            e2 == a_inv * q - s * r,
    ;
    assert(s * (a_inv * q) == a_inv * (s * q)) by (nonlinear_arith);
    assert(a_inv * (s * q) == a_inv * (a * x) - a_inv * e1) by (nonlinear_arith)
        requires
            e1 == a * x - s * q,
    ;
    assert(a_inv * (a * x) == (a * a_inv) * x) by (nonlinear_arith);
    assert((a * a_inv) * x == s * (s * x)) by (nonlinear_arith)
        requires
            a * a_inv == s * s,
    ;
    assert(s * (s * r) == s * (s * x) - a_inv * e1 - s * e2);

    // Bound the two loss terms.
    assert(-((998 * s) * s) < a_inv * e1 < (998 * s) * s) by (nonlinear_arith)
        requires
            -s < e1 < s,
            -(998 * s) <= a_inv <= 998 * s,
            s > 0,
    ;
    assert(-(s * s) < s * e2 < s * s) by (nonlinear_arith)
        requires
            -s < e2 < s,
            s > 0,
    ;

    // Divide the combined bound back down.
    assert(-1000 < r - x < 1000) by (nonlinear_arith)
        requires
            s * (s * r) == s * (s * x) - a_inv * e1 - s * e2,
            -((998 * s) * s) < a_inv * e1 < (998 * s) * s,
            -(s * s) < s * e2 < s * s,
            s == FX_ONE as int,
    ;
}

/// Magnitude of a well-formed scalar as an unsigned value.
fn fx_mag(a: i128) -> (r: u128)
    requires
        fx_ok(a as int),
    ensures
        r as int == iabs(a as int),
{
    if a < 0 {
        (-a) as u128
    } else {
        a as u128
    }
}

/// Saturating fixed-point addition.
pub fn fx_add(a: i128, b: i128) -> (r: i128)
    requires
        fx_ok(a as int),
        fx_ok(b as int),
    ensures
        r as int == fx_add_s(a as int, b as int),
        fx_ok(r as int),
{
    let s = a + b;
    if s > FX_MAX {
        FX_MAX
    } else if s < -FX_MAX {
        -FX_MAX
    } else {
        s
    }
}

/// Saturating fixed-point subtraction.
pub fn fx_sub(a: i128, b: i128) -> (r: i128)
    requires
        fx_ok(a as int),
        fx_ok(b as int),
    ensures
        r as int == fx_sub_s(a as int, b as int),
        fx_ok(r as int),
{
    let s = a - b;
    if s > FX_MAX {
        FX_MAX
    } else if s < -FX_MAX {
        -FX_MAX
    } else {
        s
    }
}

/// Fixed-point negation.
pub fn fx_neg(a: i128) -> (r: i128)
    requires
        fx_ok(a as int),
    ensures
        r as int == fx_neg_s(a as int),
        fx_ok(r as int),
{
    -a
}

/// Absolute value.
pub fn fx_abs(a: i128) -> (r: i128)
    requires
        fx_ok(a as int),
    ensures
        r as int == iabs(a as int),
        fx_ok(r as int),
{
    if a < 0 {
        -a
    } else {
        a
    }
}

/// Saturating fixed-point multiplication.
pub fn fx_mul(a: i128, b: i128) -> (r: i128)
    requires
        fx_ok(a as int),
        fx_ok(b as int),
    ensures
        r as int == fx_mul_s(a as int, b as int),
        fx_ok(r as int),
{
    let neg = (a < 0) != (b < 0);
    let ma = fx_mag(a);
    let mb = fx_mag(b);
    proof {
        lemma_mul_upper(ma as int, mb as int, FX_MAX as int, FX_MAX as int);
        lemma_abs_mul(a as int, b as int);
    }
    let p = ma * mb;
    let q = p / (FX_ONE as u128);
    let qc = if q > (FX_MAX as u128) {
        FX_MAX as u128
    } else {
        q
    };
    if neg {
        -(qc as i128)
    } else {
        qc as i128
    }
}

/// Saturating fixed-point division.
pub fn fx_div(a: i128, b: i128) -> (r: i128)
    requires
        fx_ok(a as int),
        fx_ok(b as int),
    ensures
        r as int == fx_div_s(a as int, b as int),
        fx_ok(r as int),
{
    if b == 0 {
        return if a > 0 {
            FX_MAX
        } else if a < 0 {
            -FX_MAX
        } else {
            0
        };
    }
    let neg = (a < 0) != (b < 0);
    let ma = fx_mag(a);
    let mb = fx_mag(b);
    proof {
        lemma_abs_mul(a as int, FX_ONE as int);
    }
    let p = ma * (FX_ONE as u128);
    let q = p / mb;
    let qc = if q > (FX_MAX as u128) {
        FX_MAX as u128
    } else {
        q
    };
    if neg {
        -(qc as i128)
    } else {
        qc as i128
    }
}

/// Approximate equality of scalars, within `FX_EPSILON`.
pub fn fx_approx(a: i128, b: i128) -> (r: bool)
    requires
        fx_ok(a as int),
        fx_ok(b as int),
    ensures
        r == fx_approx_s(a as int, b as int),
{
    let d = if a >= b {
        a - b
    } else {
        b - a
    };
    d < FX_EPSILON
}

impl ApproxEq for i128 {
    open spec fn approx_req(&self, rhs: &Self) -> bool {
        fx_ok(*self as int) && fx_ok(*rhs as int)
    }

    open spec fn approx_spec(&self, rhs: &Self) -> bool {
        fx_approx_s(*self as int, *rhs as int)
    }

    fn is_approx(&self, rhs: &Self) -> (r: bool) {
        fx_approx(*self, *rhs)
    }
}

/// Floor square root of a non-negative integer, defined by counting up.
pub open spec fn isqrt_s(n: int) -> int
    decreases n,
{
    if n <= 0 {
        0
    } else {
        let r = isqrt_s(n - 1);
        if (r + 1) * (r + 1) <= n {
            r + 1
        } else {
            r
        }
    }
}

pub proof fn lemma_isqrt_bounds(n: int)
    requires
        n >= 0,
    ensures
        isqrt_s(n) >= 0,
        isqrt_s(n) * isqrt_s(n) <= n,
        n < (isqrt_s(n) + 1) * (isqrt_s(n) + 1),
    decreases n,
{
    if n == 0 {
    } else {
        lemma_isqrt_bounds(n - 1);
        let r = isqrt_s(n - 1);
        if (r + 1) * (r + 1) <= n {
            assert(isqrt_s(n) == r + 1);
            assert(n - 1 < (r + 1) * (r + 1));
            assert((r + 2) * (r + 2) > (r + 1) * (r + 1)) by (nonlinear_arith)
                requires
                    r >= 0,
            ;
        } else {
            assert(isqrt_s(n) == r);
        }
    }
}

/// The floor square root is the unique `r` with `r^2 <= n < (r+1)^2`.
pub proof fn lemma_isqrt_unique(n: int, r: int)
    requires
        0 <= r,
        r * r <= n,
        n < (r + 1) * (r + 1),
    ensures
        r == isqrt_s(n),
{
    lemma_isqrt_bounds(n);
    let q = isqrt_s(n);
    if r < q {
        lemma_mul_upper(r + 1, r + 1, q, q);
    } else if q < r {
        lemma_mul_upper(q + 1, q + 1, r, r);
    }
}

/// Floor square root of a `u128`, by binary search over the answer.
fn isqrt_u128(n: u128) -> (r: u128)
    ensures
        (r as int) * (r as int) <= n as int,
        (n as int) < (r as int + 1) * (r as int + 1),
{
    let mut lo: u128 = 0;
    let mut hi: u128 = 0xFFFF_FFFF_FFFF_FFFF;
    proof {
        assert((hi as int + 1) * (hi as int + 1) > u128::MAX as int) by (nonlinear_arith)
            requires
                hi == 0xFFFF_FFFF_FFFF_FFFFu128,
        ;
    }
    while lo < hi
        invariant
            lo <= hi,
            hi <= 0xFFFF_FFFF_FFFF_FFFFu128,
            (lo as int) * (lo as int) <= n as int,
            (n as int) < (hi as int + 1) * (hi as int + 1),
        decreases hi - lo,
    {
        let mid = lo + (hi - lo + 1) / 2;
        proof {
            lemma_mul_upper(
                mid as int,
                mid as int,
                0xFFFF_FFFF_FFFF_FFFFu128 as int,
                0xFFFF_FFFF_FFFF_FFFFu128 as int,
            );
            assert((0xFFFF_FFFF_FFFF_FFFFu128 as int) * (0xFFFF_FFFF_FFFF_FFFFu128 as int)
                <= u128::MAX as int) by (nonlinear_arith);
        }
        if mid * mid <= n {
            lo = mid;
        } else {
            hi = mid - 1;
        }
    }
    lo
}

/// Fixed-point square root: non-positive inputs give zero, so the
/// operation is total (the analogue of guarding a NaN).
pub open spec fn fx_sqrt_s(x: int) -> int {
    if x <= 0 {
        0
    } else {
        isqrt_s(x * (FX_ONE as int))
    }
}

/// Fixed-point square root.
pub fn fx_sqrt(x: i128) -> (r: i128)
    requires
        fx_ok(x as int),
    ensures
        r as int == fx_sqrt_s(x as int),
        fx_ok(r as int),
        r >= 0,
{
    if x <= 0 {
        return 0;
    }
    let n = (x as u128) * (FX_ONE as u128);
    let r = isqrt_u128(n);
    proof {
        lemma_isqrt_unique(n as int, r as int);
        assert((r as int) * (r as int) <= n as int);
        if r as int > FX_MAX as int {
            lemma_mul_upper(FX_MAX as int + 1, FX_MAX as int + 1, r as int, r as int);
            assert((FX_MAX as int + 1) * (FX_MAX as int + 1) > n as int) by (nonlinear_arith)
                requires
                    n as int <= (FX_MAX as int) * (FX_ONE as int),
            ;
        }
    }
    r as i128
}

/// Fixed-point power with a natural exponent; `b^0 == 1`.
pub open spec fn fx_pow_s(b: int, n: nat) -> int
    decreases n,
{
    if n == 0 {
        FX_ONE as int
    } else {
        fx_mul_s(b, fx_pow_s(b, (n - 1) as nat))
    }
}

proof fn lemma_unit_mul(a: int, b: int)
    requires
        0 <= a <= FX_ONE as int,
        0 <= b <= FX_ONE as int,
    ensures
        0 <= fx_mul_s(a, b) <= FX_ONE as int,
{
    lemma_mul_upper(a, b, FX_ONE as int, FX_ONE as int);
    assert(a * b >= 0) by (nonlinear_arith)
        requires
            a >= 0,
            b >= 0,
    ;
    assert((FX_ONE as int) * (FX_ONE as int) / (FX_ONE as int) == FX_ONE as int) by (nonlinear_arith);
    vstd::arithmetic::div_mod::lemma_div_is_ordered(a * b, (FX_ONE as int) * (FX_ONE as int), FX_ONE as int);
}

proof fn lemma_pow_unit_range(b: int, n: nat)
    requires
        0 <= b <= FX_ONE as int,
    ensures
        0 <= fx_pow_s(b, n) <= FX_ONE as int,
    decreases n,
{
    if n == 0 {
    } else {
        lemma_pow_unit_range(b, (n - 1) as nat);
        lemma_unit_mul(b, fx_pow_s(b, (n - 1) as nat));
    }
}

/// Fixed-point power for a base in `[0, 1]`.
pub fn fx_pow(b: i128, n: u64) -> (r: i128)
    requires
        0 <= b <= FX_ONE,
    ensures
        r as int == fx_pow_s(b as int, n as nat),
        fx_ok(r as int),
{
    let mut acc: i128 = FX_ONE;
    let mut i: u64 = 0;
    while i < n
        invariant
            0 <= b <= FX_ONE,
            i <= n,
            acc as int == fx_pow_s(b as int, i as nat),
            0 <= acc <= FX_ONE,
        decreases n - i,
    {
        proof {
            lemma_unit_mul(b as int, acc as int);
        }
        acc = fx_mul(b, acc);
        i = i + 1;
    }
    proof {
        lemma_pow_unit_range(b as int, n as nat);
    }
    acc
}

/// Floor division of a scalar by a positive divisor (rounded toward
/// negative infinity, as a floor should be).
pub fn fx_floor_div(v: i128, d: i128) -> (r: i128)
    requires
        fx_ok(v as int),
        0 < d,
        fx_ok(d as int),
    ensures
        r as int == (v as int) / (d as int),
{
    if v >= 0 {
        let q = (v as u128) / (d as u128);
        proof {
            vstd::arithmetic::div_mod::lemma_div_nonincreasing(v as int, d as int);
        }
        q as i128
    } else {
        let m = (-v) as u128;
        let q = m / (d as u128);
        let rem = m % (d as u128);
        proof {
            lemma_neg_div(m as int, d as int, q as int, rem as int);
        }
        if rem == 0 {
            proof {
                lemma_fundamental_div_mod_converse(v as int, d as int, -(q as int), 0);
            }
            -(q as i128)
        } else {
            proof {
                lemma_fundamental_div_mod_converse(
                    v as int,
                    d as int,
                    -(q as int) - 1,
                    d as int - rem as int,
                );
            }
            -(q as i128) - 1
        }
    }
}

/// Relates the floor division of a negated value to the quotient and
/// remainder of its magnitude.
proof fn lemma_neg_div(m: int, d: int, q: int, rem: int)
    requires
        0 < d,
        0 <= m,
        q == m / d,
        rem == m % d,
    ensures
        0 <= rem < d,
        rem == 0 ==> (-m) == (-q) * d + 0,
        rem != 0 ==> (-m) == (-q - 1) * d + (d - rem),
{
    vstd::arithmetic::div_mod::lemma_fundamental_div_mod(m, d);
    assert((-q) * d == -(d * q)) by (nonlinear_arith);
    assert((-q - 1) * d == -(d * q) - d) by (nonlinear_arith);
    assert(0 <= rem < d) by {
        vstd::arithmetic::div_mod::lemma_remainder(m, d);
        assert(m / d * d == d * (m / d)) by (nonlinear_arith);
    };
}

/// The whole-unit floor of a scalar, as a count of units.
pub fn fx_floor_count(v: i128) -> (r: i128)
    requires
        fx_ok(v as int),
    ensures
        r as int == (v as int) / (FX_ONE as int),
{
    fx_floor_div(v, FX_ONE)
}

/// The fractional part of a scalar: the distance above its whole-unit
/// floor, always in `[0, 1)`.
pub fn fx_fract(v: i128) -> (r: i128)
    requires
        fx_ok(v as int),
    ensures
        r as int == (v as int) % (FX_ONE as int),
        fx_ok(r as int),
{
    let fc = fx_floor_div(v, FX_ONE);
    proof {
        lemma_fundamental_div_mod(v as int, FX_ONE as int);
    }
    v - fc * FX_ONE
}

/// Whether an integer count is even (used by the alternating patterns).
pub fn count_is_even(k: i128) -> (r: bool)
    requires
        fx_ok(k as int),
    ensures
        r == ((k as int) % 2 == 0),
{
    if k >= 0 {
        let rem = (k as u128) % 2;
        proof {
            lemma_fundamental_div_mod_converse(
                k as int,
                2,
                ((k as u128) / 2) as int,
                rem as int,
            );
        }
        rem == 0
    } else {
        let m = (-k) as u128;
        let q = m / 2;
        let rem = m % 2;
        if rem == 0 {
            proof {
                lemma_fundamental_div_mod_converse(k as int, 2, -(q as int), 0);
            }
            true
        } else {
            proof {
                lemma_fundamental_div_mod_converse(k as int, 2, -(q as int) - 1, 1);
            }
            false
        }
    }
}

} // verus!

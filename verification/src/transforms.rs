//! Transformation matrices for vectors and points.

use crate::fixed::{
    fx_mul_s, fx_neg, fx_neg_s, fx_ok, iabs, lemma_fx_div_one, lemma_fx_mul_one,
    lemma_fx_mul_zero, lemma_fx_scale_round_trip, FX_ONE,
};
use crate::matrices::{cof4_s, det4_s, inv4_s, mm4_s, mv4_s, singular4_s, Matrix4x4};
use crate::trig;
use crate::trig::{cos_s, sin_s};
use crate::vectors::{v4_approx_s, v4_cross_s, v4_normalize_s, v4_ok, v4_sub_s, Vector, V4};
use vstd::prelude::*;

verus! {

/// A translation by the given offsets.
pub open spec fn translate_s(x: int, y: int, z: int) -> Seq<int> {
    seq![
        FX_ONE as int, 0, 0, x,
        0, FX_ONE as int, 0, y,
        0, 0, FX_ONE as int, z,
        0, 0, 0, FX_ONE as int,
    ]
}

/// A scale by the given factors.
pub open spec fn scale_s(x: int, y: int, z: int) -> Seq<int> {
    seq![
        x, 0, 0, 0,
        0, y, 0, 0,
        0, 0, z, 0,
        0, 0, 0, FX_ONE as int,
    ]
}

/// A rotation about the X axis by the given angle.
pub open spec fn rotate_x_s(r: int) -> Seq<int> {
    seq![
        FX_ONE as int, 0, 0, 0,
        0, cos_s(r), fx_neg_s(sin_s(r)), 0,
        0, sin_s(r), cos_s(r), 0,
        0, 0, 0, FX_ONE as int,
    ]
}

/// A rotation about the Y axis by the given angle.
pub open spec fn rotate_y_s(r: int) -> Seq<int> {
    seq![
        cos_s(r), 0, sin_s(r), 0,
        0, FX_ONE as int, 0, 0,
        fx_neg_s(sin_s(r)), 0, cos_s(r), 0,
        0, 0, 0, FX_ONE as int,
    ]
}

/// A rotation about the Z axis by the given angle.
pub open spec fn rotate_z_s(r: int) -> Seq<int> {
    seq![
        cos_s(r), fx_neg_s(sin_s(r)), 0, 0,
        sin_s(r), cos_s(r), 0, 0,
        0, 0, FX_ONE as int, 0,
        0, 0, 0, FX_ONE as int,
    ]
}

/// A shear with the given proportions.
pub open spec fn shear_s(x1: int, x2: int, y1: int, y2: int, z1: int, z2: int) -> Seq<int> {
    seq![
        FX_ONE as int, x1, x2, 0,
        y1, FX_ONE as int, y2, 0,
        z1, z2, FX_ONE as int, 0,
        0, 0, 0, FX_ONE as int,
    ]
}

/// The orientation part of a view transform.
pub open spec fn orientation_s(forward: V4, left: V4, true_up: V4) -> Seq<int> {
    seq![
        left.x, left.y, left.z, 0,
        true_up.x, true_up.y, true_up.z, 0,
        fx_neg_s(forward.x), fx_neg_s(forward.y), fx_neg_s(forward.z), 0,
        0, 0, 0, FX_ONE as int,
    ]
}

/// A view transform looking from `from` toward `to` with the given up hint.
pub open spec fn look_at_s(from: V4, to: V4, up: V4) -> Seq<int> {
    let forward = v4_normalize_s(v4_sub_s(to, from));
    let left = v4_cross_s(forward, v4_normalize_s(up));
    let true_up = v4_cross_s(left, forward);
    mm4_s(
        orientation_s(forward, left, true_up),
        translate_s(fx_neg_s(from.x), fx_neg_s(from.y), fx_neg_s(from.z)),
    )
}

/// Law: a translation inverts exactly. Its determinant is exactly one,
/// every product in the adjugate involves a zero or a one, and so the
/// cached inverse computed for a translation transform is exactly the
/// opposite translation, with no rounding at all.
#[verifier::rlimit(100)]
pub proof fn lemma_translate_inverse(x: int, y: int, z: int)
    requires
        fx_ok(x),
        fx_ok(y),
        fx_ok(z),
    ensures
        det4_s(translate_s(x, y, z)) == FX_ONE as int,
        !singular4_s(translate_s(x, y, z)),
        inv4_s(translate_s(x, y, z)) == translate_s(fx_neg_s(x), fx_neg_s(y), fx_neg_s(z)),
{
    lemma_fx_mul_one(0);
    lemma_fx_mul_zero(0);
    lemma_fx_div_one(0);
    lemma_fx_mul_one(FX_ONE as int);
    lemma_fx_mul_zero(FX_ONE as int);
    lemma_fx_div_one(FX_ONE as int);
    lemma_fx_mul_one(-(FX_ONE as int));
    lemma_fx_mul_zero(-(FX_ONE as int));
    lemma_fx_div_one(-(FX_ONE as int));
    lemma_fx_mul_one(x);
    lemma_fx_mul_zero(x);
    lemma_fx_div_one(x);
    lemma_fx_mul_one(y);
    lemma_fx_mul_zero(y);
    lemma_fx_div_one(y);
    lemma_fx_mul_one(z);
    lemma_fx_mul_zero(z);
    lemma_fx_div_one(z);
    lemma_fx_mul_one(-x);
    lemma_fx_mul_zero(-x);
    lemma_fx_div_one(-x);
    lemma_fx_mul_one(-y);
    lemma_fx_mul_zero(-y);
    lemma_fx_div_one(-y);
    lemma_fx_mul_one(-z);
    lemma_fx_mul_zero(-z);
    lemma_fx_div_one(-z);

    let t = translate_s(x, y, z);
    assert(cof4_s(t, 0, 0) == FX_ONE as int);
    assert(cof4_s(t, 1, 0) == 0);
    assert(cof4_s(t, 2, 0) == 0);
    assert(cof4_s(t, 3, 0) == -x);
    assert(cof4_s(t, 0, 1) == 0);
    assert(cof4_s(t, 1, 1) == FX_ONE as int);
    assert(cof4_s(t, 2, 1) == 0);
    assert(cof4_s(t, 3, 1) == -y);
    assert(cof4_s(t, 0, 2) == 0);
    assert(cof4_s(t, 1, 2) == 0);
    assert(cof4_s(t, 2, 2) == FX_ONE as int);
    assert(cof4_s(t, 3, 2) == -z);
    assert(cof4_s(t, 0, 3) == 0);
    assert(cof4_s(t, 1, 3) == 0);
    assert(cof4_s(t, 2, 3) == 0);
    assert(cof4_s(t, 3, 3) == FX_ONE as int);
    assert(det4_s(t) == FX_ONE as int);

    assert(inv4_s(t) =~= translate_s(fx_neg_s(x), fx_neg_s(y), fx_neg_s(z)));
}

/// Law (round trip, scaling case): a diagonal transform paired with a
/// diagonal inverse whose entries compose with it exactly takes a point
/// to world space and back to within the comparison tolerance. The
/// conditioning bound on the inverse's entries is what the tolerance
/// needs: each rescale loses up to one raw unit and the inverse
/// magnifies the first loss by its own magnitude. A strongly shrinking
/// scale — one ten-thousandth, say — passes the determinant test yet
/// violates this bound, and its round trip genuinely leaves the
/// tolerance; the bound in the hypotheses is exactly what rules that
/// out.
pub proof fn lemma_scaling_round_trip(a: int, b: int, c: int, ai: int, bi: int, ci: int, p: V4)
    requires
        fx_ok(a),
        fx_ok(b),
        fx_ok(c),
        fx_ok(ai),
        fx_ok(bi),
        fx_ok(ci),
        a * ai == (FX_ONE as int) * (FX_ONE as int),
        b * bi == (FX_ONE as int) * (FX_ONE as int),
        c * ci == (FX_ONE as int) * (FX_ONE as int),
        iabs(a) <= 1000 * (FX_ONE as int),
        iabs(b) <= 1000 * (FX_ONE as int),
        iabs(c) <= 1000 * (FX_ONE as int),
        iabs(ai) <= 998 * (FX_ONE as int),
        iabs(bi) <= 998 * (FX_ONE as int),
        iabs(ci) <= 998 * (FX_ONE as int),
        iabs(p.x) <= 100_000 * (FX_ONE as int),
        iabs(p.y) <= 100_000 * (FX_ONE as int),
        iabs(p.z) <= 100_000 * (FX_ONE as int),
        p.w == FX_ONE as int,
    ensures
        v4_approx_s(mv4_s(scale_s(ai, bi, ci), mv4_s(scale_s(a, b, c), p)), p),
{
    lemma_fx_mul_zero(p.x);
    lemma_fx_mul_zero(p.y);
    lemma_fx_mul_zero(p.z);
    lemma_fx_mul_zero(p.w);
    lemma_fx_mul_one(FX_ONE as int);

    let q = mv4_s(scale_s(a, b, c), p);
    assert(q.x == fx_mul_s(a, p.x));
    assert(q.y == fx_mul_s(b, p.y));
    assert(q.z == fx_mul_s(c, p.z));
    assert(q.w == FX_ONE as int);

    lemma_fx_mul_zero(q.x);
    lemma_fx_mul_zero(q.y);
    lemma_fx_mul_zero(q.z);
    lemma_fx_mul_zero(q.w);

    let r = mv4_s(scale_s(ai, bi, ci), q);
    assert(r.x == fx_mul_s(ai, q.x));
    assert(r.y == fx_mul_s(bi, q.y));
    assert(r.z == fx_mul_s(ci, q.z));
    assert(r.w == FX_ONE as int);

    lemma_fx_scale_round_trip(a, ai, p.x);
    lemma_fx_scale_round_trip(b, bi, p.y);
    lemma_fx_scale_round_trip(c, ci, p.z);
}

/// Law: a translation and the opposite translation cancel exactly.
/// Taking a point to world space through a translation transform and
/// back through the opposite translation returns the original point —
/// not merely a point within tolerance — as long as the translated
/// point itself stays representable. (With a general invertible
/// transform the cached inverse carries rounding, so only an
/// approximate round trip can hold.)
pub proof fn lemma_translation_round_trip(x: int, y: int, z: int, p: V4)
    requires
        fx_ok(x),
        fx_ok(y),
        fx_ok(z),
        v4_ok(p),
        p.w == FX_ONE as int,
        fx_ok(p.x + x),
        fx_ok(p.y + y),
        fx_ok(p.z + z),
    ensures
        mv4_s(
            translate_s(fx_neg_s(x), fx_neg_s(y), fx_neg_s(z)),
            mv4_s(translate_s(x, y, z), p),
        ) == p,
{
    lemma_fx_mul_one(x);
    lemma_fx_mul_one(y);
    lemma_fx_mul_one(z);
    lemma_fx_mul_one(-x);
    lemma_fx_mul_one(-y);
    lemma_fx_mul_one(-z);
    lemma_fx_mul_one(p.x);
    lemma_fx_mul_one(p.y);
    lemma_fx_mul_one(p.z);
    lemma_fx_mul_one(FX_ONE as int);
    lemma_fx_mul_zero(p.x);
    lemma_fx_mul_zero(p.y);
    lemma_fx_mul_zero(p.z);

    let t = translate_s(x, y, z);
    let q = mv4_s(t, p);
    assert(q.x == p.x + x);
    assert(q.y == p.y + y);
    assert(q.z == p.z + z);
    assert(q.w == FX_ONE as int);

    lemma_fx_mul_one(q.x);
    lemma_fx_mul_one(q.y);
    lemma_fx_mul_one(q.z);
    lemma_fx_mul_zero(q.x);
    lemma_fx_mul_zero(q.y);
    lemma_fx_mul_zero(q.z);

    let back = translate_s(fx_neg_s(x), fx_neg_s(y), fx_neg_s(z));
    let r = mv4_s(back, q);
    assert(r.x == p.x);
    assert(r.y == p.y);
    assert(r.z == p.z);
    assert(r.w == p.w);
}

impl Matrix4x4 {
    /// Creates a new translation matrix.
    pub fn translate(x: i128, y: i128, z: i128) -> (r: Self)
        requires
            fx_ok(x as int),
            fx_ok(y as int),
            fx_ok(z as int),
        ensures
            r.wf(),
            r@ == translate_s(x as int, y as int, z as int),
    {
        let mut e: Vec<i128> = Vec::new();
        e.push(FX_ONE);
        e.push(0);
        e.push(0);
        e.push(x);
        e.push(0);
        e.push(FX_ONE);
        e.push(0);
        e.push(y);
        e.push(0);
        e.push(0);
        e.push(FX_ONE);
        e.push(z);
        e.push(0);
        e.push(0);
        e.push(0);
        e.push(FX_ONE);
        let r = Self { e };
        proof {
            assert(r@ =~= translate_s(x as int, y as int, z as int));
        }
        r
    }

    /// Creates a new scale matrix.
    pub fn scale(x: i128, y: i128, z: i128) -> (r: Self)
        requires
            fx_ok(x as int),
            fx_ok(y as int),
            fx_ok(z as int),
        ensures
            r.wf(),
            r@ == scale_s(x as int, y as int, z as int),
    {
        let mut e: Vec<i128> = Vec::new();
        e.push(x);
        e.push(0);
        e.push(0);
        e.push(0);
        e.push(0);
        e.push(y);
        e.push(0);
        e.push(0);
        e.push(0);
        e.push(0);
        e.push(z);
        e.push(0);
        e.push(0);
        e.push(0);
        e.push(0);
        e.push(FX_ONE);
        let r = Self { e };
        proof {
            assert(r@ =~= scale_s(x as int, y as int, z as int));
        }
        r
    }

    /// Creates a new rotation matrix about the X axis.
    pub fn rotate_x(r: i128) -> (m: Self)
        requires
            fx_ok(r as int),
        ensures
            m.wf(),
            m@ == rotate_x_s(r as int),
    {
        let c = trig::cos(r);
        let s = trig::sin(r);
        let mut e: Vec<i128> = Vec::new();
        e.push(FX_ONE);
        e.push(0);
        e.push(0);
        e.push(0);
        e.push(0);
        e.push(c);
        e.push(fx_neg(s));
        e.push(0);
        e.push(0);
        e.push(s);
        e.push(c);
        e.push(0);
        e.push(0);
        e.push(0);
        e.push(0);
        e.push(FX_ONE);
        let m = Self { e };
        proof {
            assert(m@ =~= rotate_x_s(r as int));
        }
        m
    }

    /// Creates a new rotation matrix about the Y axis.
    pub fn rotate_y(r: i128) -> (m: Self)
        requires
            fx_ok(r as int),
        ensures
            m.wf(),
            m@ == rotate_y_s(r as int),
    {
        let c = trig::cos(r);
        let s = trig::sin(r);
        let mut e: Vec<i128> = Vec::new();
        e.push(c);
        e.push(0);
        e.push(s);
        e.push(0);
        e.push(0);
        e.push(FX_ONE);
        e.push(0);
        e.push(0);
        e.push(fx_neg(s));
        e.push(0);
        e.push(c);
        e.push(0);
        e.push(0);
        e.push(0);
        e.push(0);
        e.push(FX_ONE);
        let m = Self { e };
        proof {
            assert(m@ =~= rotate_y_s(r as int));
        }
        m
    }

    /// Creates a new rotation matrix about the Z axis.
    pub fn rotate_z(r: i128) -> (m: Self)
        requires
            fx_ok(r as int),
        ensures
            m.wf(),
            m@ == rotate_z_s(r as int),
    {
        let c = trig::cos(r);
        let s = trig::sin(r);
        let mut e: Vec<i128> = Vec::new();
        e.push(c);
        e.push(fx_neg(s));
        e.push(0);
        e.push(0);
        e.push(s);
        e.push(c);
        e.push(0);
        e.push(0);
        e.push(0);
        e.push(0);
        e.push(FX_ONE);
        e.push(0);
        e.push(0);
        e.push(0);
        e.push(0);
        e.push(FX_ONE);
        let m = Self { e };
        proof {
            assert(m@ =~= rotate_z_s(r as int));
        }
        m
    }

    /// Creates a new shearing matrix with the given proportions.
    pub fn shear(x1: i128, x2: i128, y1: i128, y2: i128, z1: i128, z2: i128) -> (m: Self)
        requires
            fx_ok(x1 as int),
            fx_ok(x2 as int),
            fx_ok(y1 as int),
            fx_ok(y2 as int),
            fx_ok(z1 as int),
            fx_ok(z2 as int),
        ensures
            m.wf(),
            m@ == shear_s(x1 as int, x2 as int, y1 as int, y2 as int, z1 as int, z2 as int),
    {
        let mut e: Vec<i128> = Vec::new();
        e.push(FX_ONE);
        e.push(x1);
        e.push(x2);
        e.push(0);
        e.push(y1);
        e.push(FX_ONE);
        e.push(y2);
        e.push(0);
        e.push(z1);
        e.push(z2);
        e.push(FX_ONE);
        e.push(0);
        e.push(0);
        e.push(0);
        e.push(0);
        e.push(FX_ONE);
        let m = Self { e };
        proof {
            assert(m@ =~= shear_s(x1 as int, x2 as int, y1 as int, y2 as int, z1 as int, z2 as int));
        }
        m
    }

    /// Creates a new view transformation that looks at the given point.
    pub fn look_at(from: Vector, to: Vector, up: Vector) -> (m: Self)
        requires
            from.wf(),
            to.wf(),
            up.wf(),
        ensures
            m.wf(),
            m@ == look_at_s(from@, to@, up@),
    {
        let forward = to.sub(from).normalize();
        let left = forward.cross(up.normalize());
        let true_up = left.cross(forward);

        let mut e: Vec<i128> = Vec::new();
        e.push(left.x);
        e.push(left.y);
        e.push(left.z);
        e.push(0);
        e.push(true_up.x);
        e.push(true_up.y);
        e.push(true_up.z);
        e.push(0);
        e.push(fx_neg(forward.x));
        e.push(fx_neg(forward.y));
        e.push(fx_neg(forward.z));
        e.push(0);
        e.push(0);
        e.push(0);
        e.push(0);
        e.push(FX_ONE);
        let orientation = Self { e };
        proof {
            assert(orientation@ =~= orientation_s(forward@, left@, true_up@));
        }

        orientation.mul(&Matrix4x4::translate(fx_neg(from.x), fx_neg(from.y), fx_neg(from.z)))
    }
}

} // verus!

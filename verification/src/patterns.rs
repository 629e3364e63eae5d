//! Patterns for shape rendering.
//!
//! A pattern produces a color at each point of object space. The closed
//! set of patterns is a sum type; a pattern can also be wrapped with its
//! own transform, which is inverted at each sample.

use crate::colors::{c3_add_s, c3_ok, c3_scale_s, c3_sub_s, Color, C3};
use crate::fixed::{fx_add, fx_add_s, fx_fract, fx_mul, fx_mul_s, fx_ok, fx_sqrt, fx_sqrt_s,
    count_is_even, fx_floor_count, FX_ONE};
use crate::matrices::{inv4_s, m4_ok, mv4_s, singular4_s, Matrix4x4, MatrixError};
use crate::vectors::{v4_ok, Vector, V4};
use vstd::prelude::*;

verus! {

/// A simple striped color pattern, alternating along X.
#[derive(Debug)]
pub struct StripedPattern {
    pub a: Color,
    pub b: Color,
}

/// A simple gradient color pattern, blending along X.
#[derive(Debug)]
pub struct GradientPattern {
    pub a: Color,
    pub b: Color,
}

/// A simple ring color pattern, alternating with the distance from the
/// Y axis.
#[derive(Debug)]
pub struct RingPattern {
    pub a: Color,
    pub b: Color,
}

/// A simple checker color pattern, alternating with the unit cell.
#[derive(Debug)]
pub struct CheckerPattern {
    pub a: Color,
    pub b: Color,
}

/// A pattern that produces colors at distinct points on an object.
#[derive(Debug)]
pub enum Pattern {
    Striped(StripedPattern),
    Gradient(GradientPattern),
    Ring(RingPattern),
    Checker(CheckerPattern),
    /// A pattern sampled through its own transform, inverted per sample;
    /// a singular transform leaves the point unchanged.
    Transformed(Box<Pattern>, Matrix4x4),
}

/// The pattern's stored data is well formed.
pub open spec fn pattern_wf(p: Pattern) -> bool
    decreases p,
{
    match p {
        Pattern::Striped(s) => c3_ok(s.a@) && c3_ok(s.b@),
        Pattern::Gradient(s) => c3_ok(s.a@) && c3_ok(s.b@),
        Pattern::Ring(s) => c3_ok(s.a@) && c3_ok(s.b@),
        Pattern::Checker(s) => c3_ok(s.a@) && c3_ok(s.b@),
        Pattern::Transformed(inner, m) => pattern_wf(*inner) && m4_ok(m@),
    }
}

/// The color of a stripe pattern: the parity of the whole-unit floor of
/// the X coordinate picks the color.
pub open spec fn striped_sample_s(a: C3, b: C3, p: V4) -> C3 {
    if (p.x / (FX_ONE as int)) % 2 == 0 {
        a
    } else {
        b
    }
}

/// The color of a gradient pattern: the two colors blended by the
/// fractional part of the X coordinate.
pub open spec fn gradient_sample_s(a: C3, b: C3, p: V4) -> C3 {
    c3_add_s(a, c3_scale_s(c3_sub_s(b, a), p.x % (FX_ONE as int)))
}

/// The color of a ring pattern: the parity of the floor of the radial
/// distance in the XZ plane picks the color.
pub open spec fn ring_sample_s(a: C3, b: C3, p: V4) -> C3 {
    let radius = fx_sqrt_s(fx_add_s(fx_mul_s(p.x, p.x), fx_mul_s(p.z, p.z)));
    if (radius / (FX_ONE as int)) % 2 == 0 {
        a
    } else {
        b
    }
}

/// The color of a checker pattern: the parity of the summed floors of
/// all three coordinates picks the color.
pub open spec fn checker_sample_s(a: C3, b: C3, p: V4) -> C3 {
    let cells = p.x / (FX_ONE as int) + p.y / (FX_ONE as int) + p.z / (FX_ONE as int);
    if cells % 2 == 0 {
        a
    } else {
        b
    }
}

/// The color a pattern produces at a point of object space.
pub open spec fn pattern_sample_s(p: Pattern, point: V4) -> C3
    decreases p,
{
    match p {
        Pattern::Striped(s) => striped_sample_s(s.a@, s.b@, point),
        Pattern::Gradient(s) => gradient_sample_s(s.a@, s.b@, point),
        Pattern::Ring(s) => ring_sample_s(s.a@, s.b@, point),
        Pattern::Checker(s) => checker_sample_s(s.a@, s.b@, point),
        Pattern::Transformed(inner, m) => {
            let inner_point = if !singular4_s(m@) {
                mv4_s(inv4_s(m@), point)
            } else {
                point
            };
            pattern_sample_s(*inner, inner_point)
        },
    }
}

impl StripedPattern {
    /// Creates a new striped pattern with the given colors.
    pub fn new(a: Color, b: Color) -> (r: Self)
        requires
            a.wf(),
            b.wf(),
        ensures
            r.a == a,
            r.b == b,
    {
        Self { a, b }
    }
}

impl GradientPattern {
    /// Creates a new gradient pattern with the given colors.
    pub fn new(a: Color, b: Color) -> (r: Self)
        requires
            a.wf(),
            b.wf(),
        ensures
            r.a == a,
            r.b == b,
    {
        Self { a, b }
    }
}

impl RingPattern {
    /// Creates a new ring pattern with the given colors.
    pub fn new(a: Color, b: Color) -> (r: Self)
        requires
            a.wf(),
            b.wf(),
        ensures
            r.a == a,
            r.b == b,
    {
        Self { a, b }
    }
}

impl CheckerPattern {
    /// Creates a new checker pattern with the given colors.
    pub fn new(a: Color, b: Color) -> (r: Self)
        requires
            a.wf(),
            b.wf(),
        ensures
            r.a == a,
            r.b == b,
    {
        Self { a, b }
    }
}

impl Pattern {
    /// Samples the color of the pattern at the given object point.
    pub fn sample_at(&self, point: Vector) -> (r: Color)
        requires
            pattern_wf(*self),
            point.wf(),
        ensures
            r@ == pattern_sample_s(*self, point@),
            r.wf(),
        decreases *self,
    {
        match self {
            Pattern::Striped(s) => {
                if count_is_even(fx_floor_count(point.x)) {
                    s.a
                } else {
                    s.b
                }
            },
            Pattern::Gradient(s) => {
                let distance = s.b.sub(s.a);
                let fraction = fx_fract(point.x);
                s.a.add(distance.scale(fraction))
            },
            Pattern::Ring(s) => {
                let x2 = fx_mul(point.x, point.x);
                let z2 = fx_mul(point.z, point.z);
                let radius = fx_sqrt(fx_add(x2, z2));
                if count_is_even(fx_floor_count(radius)) {
                    s.a
                } else {
                    s.b
                }
            },
            Pattern::Checker(s) => {
                let cx = fx_floor_count(point.x);
                let cy = fx_floor_count(point.y);
                let cz = fx_floor_count(point.z);
                if count_is_even(cx + cy + cz) {
                    s.a
                } else {
                    s.b
                }
            },
            Pattern::Transformed(inner, m) => {
                let inner_point = match m.invert() {
                    Ok(inverse) => inverse.mul_vec(point),
                    Err(_) => point,
                };
                inner.sample_at(inner_point)
            },
        }
    }
}

} // verus!

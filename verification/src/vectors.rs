//! Tuple types for points and vectors.
//!
//! A tuple in fixed-point 4-space: `w == 1` marks a point, `w == 0` a
//! direction. Every operation mirrors an exact specification over the
//! ghost model [`V4`].

use crate::fixed::{
    fx_add, fx_add_s, fx_approx, fx_approx_s, fx_div, fx_div_s, fx_mul, fx_mul_s, fx_neg,
    fx_neg_s, fx_ok, fx_sqrt, fx_sqrt_s, fx_sub, fx_sub_s, ApproxEq, FX_ONE,
};
use vstd::prelude::*;

verus! {

/// Ghost model of a 4-component tuple; each field is the underlying
/// fixed-point integer.
pub struct V4 {
    pub x: int,
    pub y: int,
    pub z: int,
    pub w: int,
}

/// All components lie in the representable band.
pub open spec fn v4_ok(v: V4) -> bool {
    fx_ok(v.x) && fx_ok(v.y) && fx_ok(v.z) && fx_ok(v.w)
}

pub open spec fn v4_add_s(a: V4, b: V4) -> V4 {
    V4 { x: fx_add_s(a.x, b.x), y: fx_add_s(a.y, b.y), z: fx_add_s(a.z, b.z), w: fx_add_s(a.w, b.w) }
}

pub open spec fn v4_sub_s(a: V4, b: V4) -> V4 {
    V4 { x: fx_sub_s(a.x, b.x), y: fx_sub_s(a.y, b.y), z: fx_sub_s(a.z, b.z), w: fx_sub_s(a.w, b.w) }
}

pub open spec fn v4_neg_s(a: V4) -> V4 {
    V4 { x: fx_neg_s(a.x), y: fx_neg_s(a.y), z: fx_neg_s(a.z), w: fx_neg_s(a.w) }
}

pub open spec fn v4_scale_s(a: V4, s: int) -> V4 {
    V4 { x: fx_mul_s(a.x, s), y: fx_mul_s(a.y, s), z: fx_mul_s(a.z, s), w: fx_mul_s(a.w, s) }
}

pub open spec fn v4_div_scalar_s(a: V4, s: int) -> V4 {
    V4 { x: fx_div_s(a.x, s), y: fx_div_s(a.y, s), z: fx_div_s(a.z, s), w: fx_div_s(a.w, s) }
}

/// Dot product, summed left to right as the code does.
pub open spec fn v4_dot_s(a: V4, b: V4) -> int {
    fx_add_s(
        fx_add_s(fx_add_s(fx_mul_s(a.x, b.x), fx_mul_s(a.y, b.y)), fx_mul_s(a.z, b.z)),
        fx_mul_s(a.w, b.w),
    )
}

/// Cross product of the spatial components; the result is a direction.
pub open spec fn v4_cross_s(a: V4, b: V4) -> V4 {
    V4 {
        x: fx_sub_s(fx_mul_s(a.y, b.z), fx_mul_s(a.z, b.y)),
        y: fx_sub_s(fx_mul_s(a.z, b.x), fx_mul_s(a.x, b.z)),
        z: fx_sub_s(fx_mul_s(a.x, b.y), fx_mul_s(a.y, b.x)),
        w: 0,
    }
}

/// Length of the tuple, `w` included.
pub open spec fn v4_magnitude_s(a: V4) -> int {
    fx_sqrt_s(v4_dot_s(a, a))
}

/// Scales the tuple to unit length; a zero-length tuple saturates
/// component-wise, the analogue of dividing by zero.
pub open spec fn v4_normalize_s(a: V4) -> V4 {
    v4_div_scalar_s(a, v4_magnitude_s(a))
}

/// Reflection of `v` about the normal `n`: `v - n * 2 * dot(v, n)`.
pub open spec fn v4_reflect_s(v: V4, n: V4) -> V4 {
    v4_sub_s(v, v4_scale_s(v4_scale_s(n, 2 * (FX_ONE as int)), v4_dot_s(v, n)))
}

/// Law: negating a tuple negates its dot product exactly — truncation
/// toward zero and the saturation band are both symmetric about zero.
pub proof fn lemma_dot_neg(a: V4, b: V4)
    ensures
        v4_dot_s(v4_neg_s(a), b) == -v4_dot_s(a, b),
{
    crate::fixed::lemma_fx_mul_neg(a.x, b.x);
    crate::fixed::lemma_fx_mul_neg(a.y, b.y);
    crate::fixed::lemma_fx_mul_neg(a.z, b.z);
    crate::fixed::lemma_fx_mul_neg(a.w, b.w);
}

pub open spec fn v4_approx_s(a: V4, b: V4) -> bool {
    fx_approx_s(a.x, b.x) && fx_approx_s(a.y, b.y) && fx_approx_s(a.z, b.z) && fx_approx_s(a.w, b.w)
}

/// A tuple in fixed-point 4-space, with basic mathematical operations defined.
#[derive(Clone, Copy, PartialEq, Eq, Structural, Debug)]
pub struct Vector {
    pub x: i128,
    pub y: i128,
    pub z: i128,
    pub w: i128,
}

/// A point is a tuple whose `w` component is one.
pub type Point = Vector;

impl View for Vector {
    type V = V4;

    open spec fn view(&self) -> V4 {
        V4 { x: self.x as int, y: self.y as int, z: self.z as int, w: self.w as int }
    }
}

/// Creates a new point; an (X, Y, Z) tuple with the W component at 1.
pub fn point(x: i128, y: i128, z: i128) -> (r: Vector)
    requires
        fx_ok(x as int),
        fx_ok(y as int),
        fx_ok(z as int),
    ensures
        r@ == (V4 { x: x as int, y: y as int, z: z as int, w: FX_ONE as int }),
        r.wf(),
{
    Vector { x, y, z, w: FX_ONE }
}

/// Creates a new vector; an (X, Y, Z) tuple with the W component at 0.
pub fn vec3(x: i128, y: i128, z: i128) -> (r: Vector)
    requires
        fx_ok(x as int),
        fx_ok(y as int),
        fx_ok(z as int),
    ensures
        r@ == (V4 { x: x as int, y: y as int, z: z as int, w: 0 }),
        r.wf(),
{
    Vector { x, y, z, w: 0 }
}

/// Creates a (X, Y, Z, W) tuple in fixed-point 4-space.
pub fn vec4(x: i128, y: i128, z: i128, w: i128) -> (r: Vector)
    requires
        fx_ok(x as int),
        fx_ok(y as int),
        fx_ok(z as int),
        fx_ok(w as int),
    ensures
        r@ == (V4 { x: x as int, y: y as int, z: z as int, w: w as int }),
        r.wf(),
{
    Vector { x, y, z, w }
}

impl Vector {
    /// All components lie in the representable band.
    pub open spec fn wf(&self) -> bool {
        v4_ok(self@)
    }

    /// Creates a new vector with the given components.
    pub fn new(x: i128, y: i128, z: i128, w: i128) -> (r: Self)
        requires
            fx_ok(x as int),
            fx_ok(y as int),
            fx_ok(z as int),
            fx_ok(w as int),
        ensures
            r@ == (V4 { x: x as int, y: y as int, z: z as int, w: w as int }),
            r.wf(),
    {
        Self { x, y, z, w }
    }

    /// Does this tuple represent a vector between two points?
    pub fn is_vector(&self) -> (r: bool)
        requires
            self.wf(),
        ensures
            r == fx_approx_s(self@.w, 0),
    {
        fx_approx(self.w, 0)
    }

    /// Does this tuple represent a single point in space?
    pub fn is_point(&self) -> (r: bool)
        requires
            self.wf(),
        ensures
            r == fx_approx_s(self@.w, FX_ONE as int),
    {
        fx_approx(self.w, FX_ONE)
    }

    /// Computes the magnitude of this vector; the length essentially.
    pub fn magnitude(&self) -> (r: i128)
        requires
            self.wf(),
        ensures
            r as int == v4_magnitude_s(self@),
            fx_ok(r as int),
            r >= 0,
    {
        let x2 = fx_mul(self.x, self.x);
        let y2 = fx_mul(self.y, self.y);
        let z2 = fx_mul(self.z, self.z);
        let w2 = fx_mul(self.w, self.w);
        fx_sqrt(fx_add(fx_add(fx_add(x2, y2), z2), w2))
    }

    /// Normalizes the vector to unit length; a tuple whose magnitude is
    /// below the arithmetic's resolution saturates component-wise
    /// instead (the analogue of dividing by zero).
    pub fn normalize(&self) -> (r: Self)
        requires
            self.wf(),
        ensures
            r@ == v4_normalize_s(self@),
            r.wf(),
    {
        let magnitude = self.magnitude();
        Self {
            x: fx_div(self.x, magnitude),
            y: fx_div(self.y, magnitude),
            z: fx_div(self.z, magnitude),
            w: fx_div(self.w, magnitude),
        }
    }

    /// Computes the dot product of this vector and another.
    ///
    /// The dot product represents the 'shadow' of the other vector on this one.
    pub fn dot(&self, other: Self) -> (r: i128)
        requires
            self.wf(),
            other.wf(),
        ensures
            r as int == v4_dot_s(self@, other@),
            fx_ok(r as int),
    {
        let x = fx_mul(self.x, other.x);
        let y = fx_mul(self.y, other.y);
        let z = fx_mul(self.z, other.z);
        let w = fx_mul(self.w, other.w);
        fx_add(fx_add(fx_add(x, y), z), w)
    }

    /// Computes the cross product of this vector and another.
    ///
    /// The cross product is a vector perpendicular to both vectors.
    pub fn cross(&self, other: Self) -> (r: Self)
        requires
            self.wf(),
            other.wf(),
        ensures
            r@ == v4_cross_s(self@, other@),
            r.wf(),
    {
        let x = fx_sub(fx_mul(self.y, other.z), fx_mul(self.z, other.y));
        let y = fx_sub(fx_mul(self.z, other.x), fx_mul(self.x, other.z));
        let z = fx_sub(fx_mul(self.x, other.y), fx_mul(self.y, other.x));
        Self { x, y, z, w: 0 }
    }

    /// Reflects a vector about the given normal.
    pub fn reflect(self, normal: Self) -> (r: Self)
        requires
            self.wf(),
            normal.wf(),
        ensures
            r@ == v4_reflect_s(self@, normal@),
            r.wf(),
    {
        let d = self.dot(normal);
        self.sub(normal.scale(2 * FX_ONE).scale(d))
    }

    /// Component-wise negation.
    pub fn neg(self) -> (r: Self)
        requires
            self.wf(),
        ensures
            r@ == v4_neg_s(self@),
            r.wf(),
    {
        Self { x: fx_neg(self.x), y: fx_neg(self.y), z: fx_neg(self.z), w: fx_neg(self.w) }
    }

    /// Component-wise addition.
    pub fn add(self, rhs: Self) -> (r: Self)
        requires
            self.wf(),
            rhs.wf(),
        ensures
            r@ == v4_add_s(self@, rhs@),
            r.wf(),
    {
        Self {
            x: fx_add(self.x, rhs.x),
            y: fx_add(self.y, rhs.y),
            z: fx_add(self.z, rhs.z),
            w: fx_add(self.w, rhs.w),
        }
    }

    /// Component-wise subtraction.
    pub fn sub(self, rhs: Self) -> (r: Self)
        requires
            self.wf(),
            rhs.wf(),
        ensures
            r@ == v4_sub_s(self@, rhs@),
            r.wf(),
    {
        Self {
            x: fx_sub(self.x, rhs.x),
            y: fx_sub(self.y, rhs.y),
            z: fx_sub(self.z, rhs.z),
            w: fx_sub(self.w, rhs.w),
        }
    }

    /// Scales every component by the given scalar.
    pub fn scale(self, rhs: i128) -> (r: Self)
        requires
            self.wf(),
            fx_ok(rhs as int),
        ensures
            r@ == v4_scale_s(self@, rhs as int),
            r.wf(),
    {
        Self {
            x: fx_mul(self.x, rhs),
            y: fx_mul(self.y, rhs),
            z: fx_mul(self.z, rhs),
            w: fx_mul(self.w, rhs),
        }
    }

    /// Divides every component by the given scalar.
    pub fn div(self, rhs: i128) -> (r: Self)
        requires
            self.wf(),
            fx_ok(rhs as int),
        ensures
            r@ == v4_div_scalar_s(self@, rhs as int),
            r.wf(),
    {
        Self {
            x: fx_div(self.x, rhs),
            y: fx_div(self.y, rhs),
            z: fx_div(self.z, rhs),
            w: fx_div(self.w, rhs),
        }
    }
}

impl ApproxEq for Vector {
    open spec fn approx_req(&self, rhs: &Self) -> bool {
        self.wf() && rhs.wf()
    }

    open spec fn approx_spec(&self, rhs: &Self) -> bool {
        v4_approx_s(self@, rhs@)
    }

    fn is_approx(&self, rhs: &Self) -> (r: bool) {
        fx_approx(self.x, rhs.x) && fx_approx(self.y, rhs.y) && fx_approx(self.z, rhs.z)
            && fx_approx(self.w, rhs.w)
    }
}

} // verus!

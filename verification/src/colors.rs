//! Color types and conversions.

use crate::fixed::{
    fx_add, fx_add_s, fx_approx, fx_approx_s, fx_mul, fx_mul_s, fx_ok, fx_sub, fx_sub_s,
    ApproxEq, FX_ONE,
};
use vstd::prelude::*;

verus! {

/// Ghost model of a color; each channel is the underlying fixed-point
/// integer.
pub struct C3 {
    pub r: int,
    pub g: int,
    pub b: int,
}

/// All channels lie in the representable band.
pub open spec fn c3_ok(c: C3) -> bool {
    fx_ok(c.r) && fx_ok(c.g) && fx_ok(c.b)
}

pub open spec fn c3_add_s(a: C3, b: C3) -> C3 {
    C3 { r: fx_add_s(a.r, b.r), g: fx_add_s(a.g, b.g), b: fx_add_s(a.b, b.b) }
}

pub open spec fn c3_sub_s(a: C3, b: C3) -> C3 {
    C3 { r: fx_sub_s(a.r, b.r), g: fx_sub_s(a.g, b.g), b: fx_sub_s(a.b, b.b) }
}

/// Channel-wise (Hadamard) product of two colors.
pub open spec fn c3_mul_s(a: C3, b: C3) -> C3 {
    C3 { r: fx_mul_s(a.r, b.r), g: fx_mul_s(a.g, b.g), b: fx_mul_s(a.b, b.b) }
}

pub open spec fn c3_scale_s(a: C3, s: int) -> C3 {
    C3 { r: fx_mul_s(a.r, s), g: fx_mul_s(a.g, s), b: fx_mul_s(a.b, s) }
}

pub open spec fn c3_approx_s(a: C3, b: C3) -> bool {
    fx_approx_s(a.r, b.r) && fx_approx_s(a.g, b.g) && fx_approx_s(a.b, b.b)
}

/// The all-zero color.
pub open spec fn c3_black() -> C3 {
    C3 { r: 0, g: 0, b: 0 }
}

/// Describes a color in fixed-point linear color space.
#[derive(Clone, Copy, PartialEq, Eq, Structural, Debug)]
pub struct Color {
    pub r: i128,
    pub g: i128,
    pub b: i128,
}

impl View for Color {
    type V = C3;

    open spec fn view(&self) -> C3 {
        C3 { r: self.r as int, g: self.g as int, b: self.b as int }
    }
}

/// Creates a new color with the given RGB values.
pub fn rgb(r: i128, g: i128, b: i128) -> (c: Color)
    requires
        fx_ok(r as int),
        fx_ok(g as int),
        fx_ok(b as int),
    ensures
        c@ == (C3 { r: r as int, g: g as int, b: b as int }),
        c.wf(),
{
    Color { r, g, b }
}

impl Color {
    /// All channels lie in the representable band.
    pub open spec fn wf(&self) -> bool {
        c3_ok(self@)
    }

    /// The all-zero color.
    pub fn black() -> (c: Color)
        ensures
            c@ == c3_black(),
            c.wf(),
    {
        Color { r: 0, g: 0, b: 0 }
    }

    /// Pure white, one in every channel.
    pub fn white() -> (c: Color)
        ensures
            c@ == (C3 { r: FX_ONE as int, g: FX_ONE as int, b: FX_ONE as int }),
            c.wf(),
    {
        Color { r: FX_ONE, g: FX_ONE, b: FX_ONE }
    }

    /// Pure red.
    pub fn red() -> (c: Color)
        ensures
            c@ == (C3 { r: FX_ONE as int, g: 0, b: 0 }),
            c.wf(),
    {
        Color { r: FX_ONE, g: 0, b: 0 }
    }

    /// Pure green.
    pub fn green() -> (c: Color)
        ensures
            c@ == (C3 { r: 0, g: FX_ONE as int, b: 0 }),
            c.wf(),
    {
        Color { r: 0, g: FX_ONE, b: 0 }
    }

    /// Pure blue.
    pub fn blue() -> (c: Color)
        ensures
            c@ == (C3 { r: 0, g: 0, b: FX_ONE as int }),
            c.wf(),
    {
        Color { r: 0, g: 0, b: FX_ONE }
    }

    /// Red and blue at full strength.
    pub fn magenta() -> (c: Color)
        ensures
            c@ == (C3 { r: FX_ONE as int, g: 0, b: FX_ONE as int }),
            c.wf(),
    {
        Color { r: FX_ONE, g: 0, b: FX_ONE }
    }

    /// Channel-wise addition.
    pub fn add(self, rhs: Self) -> (c: Self)
        requires
            self.wf(),
            rhs.wf(),
        ensures
            c@ == c3_add_s(self@, rhs@),
            c.wf(),
    {
        Self { r: fx_add(self.r, rhs.r), g: fx_add(self.g, rhs.g), b: fx_add(self.b, rhs.b) }
    }

    /// Channel-wise subtraction.
    pub fn sub(self, rhs: Self) -> (c: Self)
        requires
            self.wf(),
            rhs.wf(),
        ensures
            c@ == c3_sub_s(self@, rhs@),
            c.wf(),
    {
        Self { r: fx_sub(self.r, rhs.r), g: fx_sub(self.g, rhs.g), b: fx_sub(self.b, rhs.b) }
    }

    /// Channel-wise (Hadamard) product.
    pub fn mul(self, rhs: Self) -> (c: Self)
        requires
            self.wf(),
            rhs.wf(),
        ensures
            c@ == c3_mul_s(self@, rhs@),
            c.wf(),
    {
        Self { r: fx_mul(self.r, rhs.r), g: fx_mul(self.g, rhs.g), b: fx_mul(self.b, rhs.b) }
    }

    /// Scales every channel by the given scalar.
    pub fn scale(self, s: i128) -> (c: Self)
        requires
            self.wf(),
            fx_ok(s as int),
        ensures
            c@ == c3_scale_s(self@, s as int),
            c.wf(),
    {
        Self { r: fx_mul(self.r, s), g: fx_mul(self.g, s), b: fx_mul(self.b, s) }
    }
}

impl ApproxEq for Color {
    open spec fn approx_req(&self, rhs: &Self) -> bool {
        self.wf() && rhs.wf()
    }

    open spec fn approx_spec(&self, rhs: &Self) -> bool {
        c3_approx_s(self@, rhs@)
    }

    fn is_approx(&self, rhs: &Self) -> (r: bool) {
        fx_approx(self.r, rhs.r) && fx_approx(self.g, rhs.g) && fx_approx(self.b, rhs.b)
    }
}

} // verus!

//! Graphics abstractions and tools.

use crate::colors::{c3_black, c3_ok, Color};
use crate::fixed::lemma_mul_upper;
use vstd::prelude::*;

verus! {

/// A canvas is a 2D array of pixels that can be drawn to, in row-major
/// order. Encoding it into an image file is a collaborator's job; the
/// canvas only stores linear, unclamped colors.
#[derive(Debug)]
pub struct Canvas {
    pub width: u32,
    pub height: u32,
    pub pixels: Vec<Color>,
}

/// The pixel at a row-major position is within the buffer.
pub proof fn lemma_pixel_index(x: int, y: int, w: int, h: int)
    requires
        0 <= x < w,
        0 <= y < h,
    ensures
        0 <= x + y * w < w * h,
{
    assert(y * w >= 0) by (nonlinear_arith)
        requires
            y >= 0,
            w >= 0,
    ;
    assert((y + 1) * w <= h * w) by (nonlinear_arith)
        requires
            y + 1 <= h,
            w >= 0,
    ;
    assert((y + 1) * w == y * w + w) by (nonlinear_arith);
    assert(h * w == w * h) by (nonlinear_arith);
}

/// Distinct pixel coordinates have distinct row-major positions.
pub proof fn lemma_pixel_index_distinct(x1: int, y1: int, x2: int, y2: int, w: int)
    requires
        0 <= x1 < w,
        0 <= x2 < w,
        0 <= y1,
        0 <= y2,
        !(x1 == x2 && y1 == y2),
    ensures
        x1 + y1 * w != x2 + y2 * w,
{
    if y1 == y2 {
    } else if y1 < y2 {
        assert((y1 + 1) * w <= y2 * w) by (nonlinear_arith)
            requires
                y1 + 1 <= y2,
                w >= 0,
        ;
        assert((y1 + 1) * w == y1 * w + w) by (nonlinear_arith);
    } else {
        assert((y2 + 1) * w <= y1 * w) by (nonlinear_arith)
            requires
                y2 + 1 <= y1,
                w >= 0,
        ;
        assert((y2 + 1) * w == y2 * w + w) by (nonlinear_arith);
    }
}

impl View for Canvas {
    type V = Seq<Color>;

    open spec fn view(&self) -> Seq<Color> {
        self.pixels@
    }
}

impl Canvas {
    /// The buffer holds one well-formed color for every pixel.
    pub open spec fn wf(&self) -> bool {
        self.pixels@.len() == self.width as int * self.height as int && forall|i: int|
            0 <= i < self.pixels@.len() ==> c3_ok(#[trigger] self.pixels@[i]@)
    }

    /// Creates a new canvas with the given width and height, black
    /// everywhere.
    pub fn new(width: u32, height: u32) -> (r: Self)
        requires
            width as int * height as int <= usize::MAX as int,
        ensures
            r.wf(),
            r.width == width,
            r.height == height,
            forall|i: int| 0 <= i < r@.len() ==> (#[trigger] r@[i])@ == c3_black(),
    {
        proof {
            lemma_mul_upper(width as int, height as int, u32::MAX as int, u32::MAX as int);
            assert(width as int * height as int >= 0) by (nonlinear_arith);
        }
        let total = (width as u64) * (height as u64);
        let mut pixels: Vec<Color> = Vec::new();
        let mut i: u64 = 0;
        while i < total
            invariant
                total == width as int * height as int,
                total <= usize::MAX as u64,
                i <= total,
                pixels@.len() == i,
                forall|j: int| 0 <= j < i ==> (#[trigger] pixels@[j])@ == c3_black(),
            decreases total - i,
        {
            pixels.push(Color::black());
            i = i + 1;
        }
        Self { width, height, pixels }
    }

    /// The width of the canvas in pixels.
    pub fn width(&self) -> (r: usize)
        ensures
            r == self.width as usize,
    {
        self.width as usize
    }

    /// The height of the canvas in pixels.
    pub fn height(&self) -> (r: usize)
        ensures
            r == self.height as usize,
    {
        self.height as usize
    }

    /// Retrieves the pixel at the given (x, y) position in the canvas.
    pub fn get_pixel(&self, x: usize, y: usize) -> (r: Color)
        requires
            self.wf(),
            x < self.width,
            y < self.height,
        ensures
            r == self@[x + y * self.width as int],
    {
        // Binding the length brings its machine bound into scope for the
        // index arithmetic below.
        let _len = self.pixels.len();
        proof {
            lemma_pixel_index(x as int, y as int, self.width as int, self.height as int);
        }
        self.pixels[x + y * (self.width as usize)]
    }

    /// Sets the pixel at the given (x, y) position in the canvas.
    pub fn set_pixel(&mut self, x: usize, y: usize, color: Color)
        requires
            old(self).wf(),
            x < old(self).width,
            y < old(self).height,
            color.wf(),
        ensures
            final(self)@ == old(self)@.update(x + y * old(self).width as int, color),
            final(self).width == old(self).width,
            final(self).height == old(self).height,
            final(self).wf(),
    {
        // Binding the length brings its machine bound into scope for the
        // index arithmetic below.
        let _len = self.pixels.len();
        proof {
            lemma_pixel_index(x as int, y as int, self.width as int, self.height as int);
        }
        self.pixels[x + y * (self.width as usize)] = color;
    }

    /// Fills the whole canvas with the given color.
    pub fn fill(&mut self, color: Color)
        requires
            old(self).wf(),
            color.wf(),
        ensures
            final(self).wf(),
            final(self).width == old(self).width,
            final(self).height == old(self).height,
            final(self)@.len() == old(self)@.len(),
            forall|i: int| 0 <= i < final(self)@.len() ==> final(self)@[i] == color,
    {
        let mut i: usize = 0;
        let n = self.pixels.len();
        while i < n
            invariant
                color.wf(),
                n == self.pixels@.len(),
                self.pixels@.len() == old(self).pixels@.len(),
                self.width == old(self).width,
                self.height == old(self).height,
                self.wf(),
                i <= n,
                forall|j: int| 0 <= j < i ==> self.pixels@[j] == color,
            decreases n - i,
        {
            self.pixels[i] = color;
            i = i + 1;
        }
    }

    /// Accesses the pixels as a vector of colors, row-major.
    pub fn as_slice(&self) -> (r: &Vec<Color>)
        ensures
            r@ == self@,
    {
        &self.pixels
    }
}

} // verus!

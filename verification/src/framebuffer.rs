//! The output pixel buffer.
//!
//! Row-major, origin at the top left: the pixel at column `x` of row `y`
//! lives at index `y * width + x`.  Drawing sets the current color and
//! plots it point by point.

use vstd::prelude::*;
use crate::color::Color;
use vstd::arithmetic::mul::{lemma_mul_nonnegative, lemma_mul_upper_bound};

verus! {

/// The buffer index of a pixel position.
pub open spec fn fb_index_spec(width: int, x: int, y: int) -> int {
    y * width + x
}

/// The index of an in-range pixel is in range for the buffer.
pub proof fn lemma_fb_index(width: int, height: int, x: int, y: int)
    requires
        0 <= x < width,
        0 <= y < height,
        width <= 30_000,
        height <= 30_000,
    ensures
        0 <= fb_index_spec(width, x, y) < width * height,
        width * height <= 900_000_000,
{
    assert(0 <= y * width + x < width * height <= 900_000_000) by (nonlinear_arith)
        requires
            0 <= x < width,
            0 <= y < height,
            width <= 30_000,
            height <= 30_000,
    ;
}

/// Distinct in-range pixel positions have distinct buffer indices.
pub proof fn lemma_fb_index_injective(width: int, x1: int, y1: int, x2: int, y2: int)
    requires
        0 <= x1 < width,
        0 <= x2 < width,
        0 <= y1,
        0 <= y2,
        x1 != x2 || y1 != y2,
    ensures
        fb_index_spec(width, x1, y1) != fb_index_spec(width, x2, y2),
{
    assert(y1 * width + x1 != y2 * width + x2) by (nonlinear_arith)
        requires
            0 <= x1 < width,
            0 <= x2 < width,
            0 <= y1,
            0 <= y2,
            x1 != x2 || y1 != y2,
    ;
}

/// A pixel rectangle with a drawing color.
pub struct Framebuffer {
    pub width: usize,
    pub height: usize,
    pub buffer: Vec<Color>,
    pub current_color: Color,
}

impl Framebuffer {
    /// A framebuffer is well-formed when its buffer holds exactly one pixel
    /// per position of a nonempty rectangle of at most 30000 pixels per
    /// side.
    pub open spec fn wf(&self) -> bool {
        &&& 1 <= self.width <= 30_000
        &&& 1 <= self.height <= 30_000
        &&& self.buffer@.len() == self.width * self.height
    }

    /// Build a black framebuffer.
    pub fn new(width: usize, height: usize) -> (fb: Framebuffer)
        requires
            1 <= width <= 30_000,
            1 <= height <= 30_000,
        ensures
            fb.wf(),
            fb.width == width,
            fb.height == height,
            fb.current_color == (Color { r: 0, g: 0, b: 0 }),
            forall|i: int| 0 <= i < fb.buffer@.len() ==> fb.buffer@[i] == (Color {
                r: 0,
                g: 0,
                b: 0,
            }),
    {
        proof {
            lemma_mul_nonnegative(width as int, height as int);
            lemma_mul_upper_bound(width as int, 30_000, height as int, 30_000);
        }
        let total: usize = width * height;
        let mut buffer: Vec<Color> = Vec::new();
        let mut i: usize = 0;
        while i < total
            invariant
                i <= total,
                buffer@.len() == i,
                forall|j: int| 0 <= j < i ==> buffer@[j] == (Color { r: 0, g: 0, b: 0 }),
            decreases total - i,
        {
            buffer.push(Color::black());
            i = i + 1;
        }
        Framebuffer { width, height, buffer, current_color: Color::black() }
    }

    /// Set the color the next points are drawn with.
    pub fn set_current_color(&mut self, color: Color)
        ensures
            final(self).current_color == color,
            final(self).width == old(self).width,
            final(self).height == old(self).height,
            final(self).buffer@ == old(self).buffer@,
    {
        self.current_color = color;
    }

    /// Draw one pixel with the current color.
    pub fn point(&mut self, x: usize, y: usize)
        requires
            old(self).wf(),
            x < old(self).width,
            y < old(self).height,
        ensures
            final(self).wf(),
            final(self).width == old(self).width,
            final(self).height == old(self).height,
            final(self).current_color == old(self).current_color,
            final(self).buffer@ == old(self).buffer@.update(
                fb_index_spec(old(self).width as int, x as int, y as int),
                old(self).current_color,
            ),
    {
        proof {
            lemma_fb_index(self.width as int, self.height as int, x as int, y as int);
        }
        let i: usize = y * self.width + x;
        let c = self.current_color;
        self.buffer[i] = c;
    }
}

} // verus!

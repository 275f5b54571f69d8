//! The output raster: a width x height grid of pixels in row-major order.

use vstd::arithmetic::div_mod::lemma_fundamental_div_mod_converse;
use vstd::prelude::*;

use crate::color::RGB;
use crate::pixel::Pixel;

verus! {

/// The canvas on which the rendered image is built up before it is written
/// out.
///
/// Pixels are stored row by row, top row first: the pixel at raster position
/// `(x, y)` sits at index `y * width + x`, and carries that position in its
/// own fields.
#[derive(Debug)]
pub struct Canvas {
    pub width: u32,
    pub height: u32,
    pub pixels: Vec<Pixel>,
}

impl Canvas {
    /// Well-formedness of the grid: there is one pixel per raster cell, and
    /// the pixel stored at index `i` carries the raster position that the
    /// row-major layout assigns to that index.
    pub open spec fn wf(self) -> bool {
        &&& self.pixels@.len() == self.width * self.height
        &&& forall|i: int|
            0 <= i < self.pixels@.len() ==> {
                &&& (#[trigger] self.pixels@[i]).x == i % (self.width as int)
                &&& self.pixels@[i].y == i / (self.width as int)
            }
    }

    /// The row-major storage index of raster position `(x, y)`.
    pub open spec fn pixel_index(self, x: int, y: int) -> int {
        y * self.width + x
    }

    /// Creates a new canvas of the given size with every pixel set to the
    /// background color.
    pub fn new(width: u32, height: u32, background_color: RGB) -> (c: Canvas)
        ensures
            c.width == width,
            c.height == height,
            c.wf(),
            forall|i: int|
                0 <= i < c.pixels@.len() ==> (#[trigger] c.pixels@[i]).color == background_color,
    {
        let mut pixels: Vec<Pixel> = Vec::new();

        let mut y: u32 = 0;
        while y < height
            invariant
                y <= height,
                pixels@.len() == y * width,
                forall|i: int|
                    0 <= i < pixels@.len() ==> {
                        &&& (#[trigger] pixels@[i]).x == i % (width as int)
                        &&& pixels@[i].y == i / (width as int)
                        &&& pixels@[i].color == background_color
                    },
            decreases height - y,
        {
            let mut x: u32 = 0;
            while x < width
                invariant
                    x <= width,
                    y < height,
                    pixels@.len() == y * width + x,
                    forall|i: int|
                        0 <= i < pixels@.len() ==> {
                            &&& (#[trigger] pixels@[i]).x == i % (width as int)
                            &&& pixels@[i].y == i / (width as int)
                            &&& pixels@[i].color == background_color
                        },
                decreases width - x,
            {
                pixels.push(Pixel::new(x, y, background_color));
                proof {
                    lemma_fundamental_div_mod_converse(
                        y * width + x,
                        width as int,
                        y as int,
                        x as int,
                    );
                }
                x = x + 1;
            }
            proof {
                assert((y + 1) * width == y * width + width) by (nonlinear_arith);
            }
            y = y + 1;
        }

        proof {
            assert(height * width == width * height) by (nonlinear_arith);
        }
        Canvas { width, height, pixels }
    }

    /// Returns a copy of the canvas width.
    pub fn get_width(&self) -> (w: u32)
        ensures
            w == self.width,
    {
        self.width
    }

    /// Returns a copy of the canvas height.
    pub fn get_height(&self) -> (h: u32)
        ensures
            h == self.height,
    {
        self.height
    }

    /// Borrows the pixel at raster position `(x, y)`.
    pub fn get_pixel(&self, x: u32, y: u32) -> (p: &Pixel)
        requires
            self.wf(),
            x < self.width,
            y < self.height,
        ensures
            *p == self.pixels@[self.pixel_index(x as int, y as int)],
            p.x == x,
            p.y == y,
    {
        proof {
            broadcast use vstd::std_specs::vec::axiom_spec_len;
            assert(vstd::std_specs::vec::spec_vec_len(&self.pixels) <= usize::MAX);
            assert((y as int) * (self.width as int) + (x as int)
                < (self.width as int) * (self.height as int)) by (nonlinear_arith)
                requires
                    x < self.width,
                    y < self.height,
            ;
            lemma_fundamental_div_mod_converse(
                (y as int) * (self.width as int) + (x as int),
                self.width as int,
                y as int,
                x as int,
            );
        }
        let idx: usize = (y as usize) * (self.width as usize) + (x as usize);
        &self.pixels[idx]
    }

    /// Repaints the pixel at raster position `(x, y)`, leaving its position
    /// and every other pixel alone.
    pub fn change_pixel_color(&mut self, x: u32, y: u32, new_color: RGB)
        requires
            old(self).wf(),
            x < old(self).width,
            y < old(self).height,
        ensures
            final(self).wf(),
            final(self).width == old(self).width,
            final(self).height == old(self).height,
            final(self).pixels@ == old(self).pixels@.update(
                old(self).pixel_index(x as int, y as int),
                Pixel { x, y, color: new_color },
            ),
    {
        proof {
            broadcast use vstd::std_specs::vec::axiom_spec_len;
            assert(vstd::std_specs::vec::spec_vec_len(&self.pixels) <= usize::MAX);
            assert((y as int) * (self.width as int) + (x as int)
                < (self.width as int) * (self.height as int)) by (nonlinear_arith)
                requires
                    x < self.width,
                    y < self.height,
            ;
            lemma_fundamental_div_mod_converse(
                (y as int) * (self.width as int) + (x as int),
                self.width as int,
                y as int,
                x as int,
            );
        }
        let idx: usize = (y as usize) * (self.width as usize) + (x as usize);
        self.pixels.set(idx, Pixel::new(x, y, new_color));
    }

    /// Starts an in-order walk over the pixels, top row first.
    pub fn iter(&self) -> (it: CanvasIterator)
        ensures
            it.pixels@ == self.pixels@,
            it.index == 0,
    {
        CanvasIterator { pixels: &self.pixels, index: 0 }
    }
}

/// A cursor over a canvas's pixels in storage (row-major) order.
pub struct CanvasIterator<'a> {
    pub pixels: &'a Vec<Pixel>,
    pub index: usize,
}

impl<'a> CanvasIterator<'a> {
    /// Hands out the next pixel, or `None` once every pixel has been seen.
    pub fn next(&mut self) -> (r: Option<&'a Pixel>)
        ensures
            final(self).pixels == old(self).pixels,
            old(self).index < old(self).pixels@.len() ==> {
                &&& r is Some
                &&& *r->0 == old(self).pixels@[old(self).index as int]
                &&& final(self).index == old(self).index + 1
            },
            old(self).index >= old(self).pixels@.len() ==> {
                &&& r is None
                &&& final(self).index == old(self).index
            },
    {
        if self.index < self.pixels.len() {
            let pixels: &'a Vec<Pixel> = self.pixels;
            let p: &'a Pixel = &pixels[self.index];
            self.index = self.index + 1;
            Some(p)
        } else {
            None
        }
    }
}

} // verus!

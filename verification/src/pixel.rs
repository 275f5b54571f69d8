//! A single cell of the output raster: a position and a color.

use vstd::prelude::*;

use crate::color::RGB;

verus! {

/// One pixel of the canvas: its raster position and its current color.
#[derive(Debug, Clone, Copy, PartialEq, Eq, Structural)]
pub struct Pixel {
    pub x: u32,
    pub y: u32,
    pub color: RGB,
}

impl Pixel {
    /// Creates a new pixel at a specific position with a specific color.
    pub fn new(x: u32, y: u32, color: RGB) -> (p: Pixel)
        ensures
            p == (Pixel { x, y, color }),
    {
        Pixel { x, y, color }
    }

    /// Retrieves the x position.
    pub fn get_x(&self) -> (r: u32)
        ensures
            r == self.x,
    {
        self.x
    }

    /// Retrieves the y position.
    pub fn get_y(&self) -> (r: u32)
        ensures
            r == self.y,
    {
        self.y
    }

    /// Retrieves the pixel's color.
    pub fn get_color(&self) -> (c: &RGB)
        ensures
            c == self.color,
    {
        &self.color
    }

    /// Changes the pixel's color, leaving its position alone.
    pub fn change_color(&mut self, new_color: RGB)
        ensures
            *final(self) == (Pixel { color: new_color, ..*old(self) }),
    {
        self.color = new_color;
    }

    /// Moves the pixel: each coordinate that is given replaces the old one,
    /// and each that is absent is kept.
    pub fn change_position(&mut self, new_x: Option<u32>, new_y: Option<u32>)
        ensures
            final(self).x == (if new_x is Some { new_x->0 } else { old(self).x }),
            final(self).y == (if new_y is Some { new_y->0 } else { old(self).y }),
            final(self).color == old(self).color,
    {
        if let Some(x) = new_x {
            self.x = x;
        }
        if let Some(y) = new_y {
            self.y = y;
        }
    }
}

} // verus!

//! The color of a single pixel: three 8-bit channels.

use vstd::prelude::*;

verus! {

/// An RGB color with one byte per channel.
///
/// Channel arithmetic saturates: accumulating light contributions can only
/// drive a channel up to 255, never wrap it around.
#[derive(Debug, Clone, Copy, PartialEq, Eq, Structural)]
pub struct RGB {
    pub red: u8,
    pub green: u8,
    pub blue: u8,
}

impl RGB {
    /// Creates a new color from its three channels.
    pub fn new(red: u8, green: u8, blue: u8) -> (c: RGB)
        ensures
            c == (RGB { red, green, blue }),
    {
        RGB { red, green, blue }
    }

    /// Retrieves the red channel.
    pub fn get_red(&self) -> (r: u8)
        ensures
            r == self.red,
    {
        self.red
    }

    /// Retrieves the green channel.
    pub fn get_green(&self) -> (r: u8)
        ensures
            r == self.green,
    {
        self.green
    }

    /// Retrieves the blue channel.
    pub fn get_blue(&self) -> (r: u8)
        ensures
            r == self.blue,
    {
        self.blue
    }

    /// Replaces the red channel.
    pub fn set_red(&mut self, new_red: u8)
        ensures
            *final(self) == (RGB { red: new_red, ..*old(self) }),
    {
        self.red = new_red;
    }

    /// Replaces the green channel.
    pub fn set_green(&mut self, new_green: u8)
        ensures
            *final(self) == (RGB { green: new_green, ..*old(self) }),
    {
        self.green = new_green;
    }

    /// Replaces the blue channel.
    pub fn set_blue(&mut self, new_blue: u8)
        ensures
            *final(self) == (RGB { blue: new_blue, ..*old(self) }),
    {
        self.blue = new_blue;
    }

    /// The color whose channels are the channelwise saturating sums of the
    /// channels of `self` and `rhs`.
    pub open spec fn spec_saturating_add(self, rhs: RGB) -> RGB {
        RGB {
            red: if self.red + rhs.red > 255 { 255u8 } else { (self.red + rhs.red) as u8 },
            green: if self.green + rhs.green > 255 { 255u8 } else { (self.green + rhs.green) as u8 },
            blue: if self.blue + rhs.blue > 255 { 255u8 } else { (self.blue + rhs.blue) as u8 },
        }
    }

    /// Adds another color channelwise, clamping each channel at 255.
    ///
    /// Summing light contributions must never panic or wrap, however bright
    /// the scene: a channel that overflows sticks at full brightness.
    pub fn saturating_add(self, rhs: RGB) -> (c: RGB)
        ensures
            c == self.spec_saturating_add(rhs),
    {
        RGB {
            red: self.red.saturating_add(rhs.red),
            green: self.green.saturating_add(rhs.green),
            blue: self.blue.saturating_add(rhs.blue),
        }
    }
}

} // verus!

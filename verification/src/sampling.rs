//! Accumulating and averaging color samples.
//!
//! Both antialiasing (several rays per pixel) and area lights (several point
//! samples per panel) blend many color contributions into one: each channel
//! is summed with saturating 32-bit arithmetic, and the sums are divided by
//! the number of samples and clamped to the 8-bit channel range.

use vstd::arithmetic::div_mod::lemma_fundamental_div_mod_converse;
use vstd::prelude::*;

use crate::color::RGB;

verus! {

/// How many interior sample points a panel light's grid holds when the
/// sampling gap divides its width and height into the given step counts:
/// the first and last step of each dimension are skipped, so anything
/// under three steps leaves nothing.
pub open spec fn spec_interior_count(width_steps: int, height_steps: int) -> int {
    if width_steps >= 3 && height_steps >= 3 {
        (width_steps - 2) * (height_steps - 2)
    } else {
        0
    }
}

/// Enumerates the interior step indices `(i, j)` of a panel light's
/// sampling grid, in the order the light walks them: the width index in
/// the outer loop and the height index in the inner one, each running from
/// 1 to its step count minus 2.
///
/// A grid with fewer than three steps in either dimension has no interior
/// points at all, so a sampling gap wider than the panel yields an empty
/// enumeration rather than a fault.
pub fn interior_grid_indices(width_steps: i32, height_steps: i32) -> (grid: Vec<(i32, i32)>)
    ensures
        grid@.len() == spec_interior_count(width_steps as int, height_steps as int),
        forall|k: int|
            0 <= k < grid@.len() ==> {
                &&& (#[trigger] grid@[k]).0 == 1 + k / (height_steps - 2) as int
                &&& grid@[k].1 == 1 + k % (height_steps - 2) as int
            },
{
    let mut grid: Vec<(i32, i32)> = Vec::new();

    if width_steps < 3 || height_steps < 3 {
        return grid;
    }

    let inner: i32 = height_steps - 2;
    let mut i: i32 = 1;
    while i < width_steps - 1
        invariant
            3 <= width_steps,
            3 <= height_steps,
            inner == height_steps - 2,
            1 <= i <= width_steps - 1,
            grid@.len() == (i - 1) * (inner as int),
            forall|k: int|
                0 <= k < grid@.len() ==> {
                    &&& (#[trigger] grid@[k]).0 == 1 + k / (inner as int)
                    &&& grid@[k].1 == 1 + k % (inner as int)
                },
        decreases width_steps - 1 - i,
    {
        let mut j: i32 = 1;
        while j < height_steps - 1
            invariant
                3 <= width_steps,
                3 <= height_steps,
                inner == height_steps - 2,
                1 <= i <= width_steps - 2,
                1 <= j <= height_steps - 1,
                grid@.len() == (i - 1) * (inner as int) + (j - 1),
                forall|k: int|
                    0 <= k < grid@.len() ==> {
                        &&& (#[trigger] grid@[k]).0 == 1 + k / (inner as int)
                        &&& grid@[k].1 == 1 + k % (inner as int)
                    },
            decreases height_steps - 1 - j,
        {
            grid.push((i, j));
            proof {
                lemma_fundamental_div_mod_converse(
                    (i - 1) * (inner as int) + (j - 1),
                    inner as int,
                    i - 1,
                    j - 1,
                );
            }
            j = j + 1;
        }
        proof {
            assert((i - 1) * (inner as int) + (inner as int) == i * (inner as int))
                by (nonlinear_arith);
        }
        i = i + 1;
    }
    proof {
        assert((width_steps - 2) * (inner as int)
            == spec_interior_count(width_steps as int, height_steps as int));
    }
    grid
}

/// A running channelwise sum of color contributions.
#[derive(Debug, Clone, Copy, PartialEq, Eq, Structural)]
pub struct ColorAccumulator {
    pub red_sum: u32,
    pub green_sum: u32,
    pub blue_sum: u32,
}

impl ColorAccumulator {
    /// The channel value that averaging yields for a given saturating sum
    /// and sample count: the integer quotient, clamped to 255.
    pub open spec fn spec_channel_average(sum: u32, samples: u32) -> u8 {
        if sum / samples > 255 {
            255u8
        } else {
            (sum / samples) as u8
        }
    }

    /// Creates an empty accumulator.
    pub fn new() -> (acc: ColorAccumulator)
        ensures
            acc == (ColorAccumulator { red_sum: 0u32, green_sum: 0u32, blue_sum: 0u32 }),
    {
        ColorAccumulator { red_sum: 0, green_sum: 0, blue_sum: 0 }
    }

    /// Folds one color contribution into the running sums.
    ///
    /// A sample may fold in several contributions (one per light); each
    /// channel sum saturates at `u32::MAX` instead of wrapping, however
    /// bright the scene.
    pub fn add_color(&mut self, c: RGB)
        ensures
            final(self).red_sum == old(self).red_sum.saturating_add(c.red as u32),
            final(self).green_sum == old(self).green_sum.saturating_add(c.green as u32),
            final(self).blue_sum == old(self).blue_sum.saturating_add(c.blue as u32),
    {
        self.red_sum = self.red_sum.saturating_add(c.red as u32);
        self.green_sum = self.green_sum.saturating_add(c.green as u32);
        self.blue_sum = self.blue_sum.saturating_add(c.blue as u32);
    }

    /// Averages the accumulated sums over the given number of samples:
    /// each channel is the integer quotient of its sum by the sample
    /// count, clamped to 255.
    pub fn average(&self, samples: u32) -> (c: RGB)
        requires
            samples > 0,
        ensures
            c.red == Self::spec_channel_average(self.red_sum, samples),
            c.green == Self::spec_channel_average(self.green_sum, samples),
            c.blue == Self::spec_channel_average(self.blue_sum, samples),
    {
        RGB {
            red: Self::channel_average(self.red_sum, samples),
            green: Self::channel_average(self.green_sum, samples),
            blue: Self::channel_average(self.blue_sum, samples),
        }
    }

    /// Divides one channel sum by the sample count and clamps to 255.
    fn channel_average(sum: u32, samples: u32) -> (r: u8)
        requires
            samples > 0,
        ensures
            r == Self::spec_channel_average(sum, samples),
    {
        let q: u32 = sum / samples;
        if q > 255 {
            255
        } else {
            q as u8
        }
    }
}

} // verus!

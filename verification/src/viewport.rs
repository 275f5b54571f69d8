//! Selector for the corners of the camera's viewport rectangle.

use vstd::prelude::*;

verus! {

/// One of the four corners of the viewport: the world-space rectangle onto
/// which the canvas is projected, one ray per pixel.
#[derive(Debug, Clone, Copy, PartialEq, Eq, Structural)]
pub enum ViewportAngles {
    UpperLeft,
    UpperRight,
    LowerLeft,
    LowerRight,
}

} // verus!

//! Verified core of a Whitted-style ray tracer.
//!
//! The integer-valued backbone of the renderer lives here: the color type
//! with its saturating channel arithmetic, the pixel and canvas raster that
//! the render loop fills, the texture grid with its row-major lookup, the
//! per-sample color accumulator that antialiasing and area lights average
//! over, and the PPM text encoding of a finished canvas.
//!
//! The geometric side of the renderer (vectors, rays, intersection tests,
//! recursive shading) works in binary floating point and lives with the
//! rendering front end, which drives everything here through the public
//! interface.

pub mod canvas;
pub mod color;
pub mod pixel;
pub mod ppm;
pub mod sampling;
pub mod texture;
pub mod viewport;

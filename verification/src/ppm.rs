//! Encoding a finished canvas as a plain-text PPM image.
//!
//! The format is the ASCII "P3" variant: a header of `P3`, the width and
//! height, and the maximum channel value 255, followed by one `r g b` line
//! per pixel in row-major order, top row first. Writing the bytes to a file
//! is left to the caller; this module only builds them.

use vstd::prelude::*;

use crate::canvas::Canvas;
use crate::color::RGB;
use crate::pixel::Pixel;

verus! {

/// The ASCII decimal digits of `n`, most significant first, with no sign
/// and no leading zeros (`0` itself is the single digit `0`).
pub open spec fn spec_decimal(n: nat) -> Seq<u8>
    decreases n,
{
    if n < 10 {
        seq![(48 + n) as u8]
    } else {
        spec_decimal(n / 10).push((48 + n % 10) as u8)
    }
}

/// One pixel line of the body: the three channels in decimal, separated by
/// single spaces and ended by a newline.
pub open spec fn spec_pixel_line(c: RGB) -> Seq<u8> {
    spec_decimal(c.red as nat) + seq![32u8] + spec_decimal(c.green as nat) + seq![32u8]
        + spec_decimal(c.blue as nat) + seq![10u8]
}

/// The header: `P3`, the image dimensions, and the maximum channel value,
/// one line each.
pub open spec fn spec_header(width: u32, height: u32) -> Seq<u8> {
    seq![80u8, 51u8, 10u8] + spec_decimal(width as nat) + seq![32u8]
        + spec_decimal(height as nat) + seq![10u8] + seq![50u8, 53u8, 53u8, 10u8]
}

/// The body: the pixel lines in storage order.
pub open spec fn spec_body(pixels: Seq<Pixel>) -> Seq<u8>
    decreases pixels.len(),
{
    if pixels.len() == 0 {
        Seq::empty()
    } else {
        spec_body(pixels.drop_last()) + spec_pixel_line(pixels.last().color)
    }
}

/// Appends the decimal digits of `n` to `out`.
pub fn push_decimal(n: u32, out: &mut Vec<u8>)
    ensures
        final(out)@ == old(out)@ + spec_decimal(n as nat),
    decreases n,
{
    if n >= 10 {
        push_decimal(n / 10, out);
    }
    let digit: u8 = 48 + (n % 10) as u8;
    out.push(digit);
    proof {
        assert(out@ =~= old(out)@ + spec_decimal(n as nat));
    }
}

/// Appends one `r g b` pixel line for `c` to `out`.
pub fn push_pixel_line(c: &RGB, out: &mut Vec<u8>)
    ensures
        final(out)@ == old(out)@ + spec_pixel_line(*c),
{
    push_decimal(c.red as u32, out);
    out.push(32);
    push_decimal(c.green as u32, out);
    out.push(32);
    push_decimal(c.blue as u32, out);
    out.push(10);
    proof {
        assert(out@ =~= old(out)@ + spec_pixel_line(*c));
    }
}

/// Encodes the canvas as a complete PPM image: the header followed by one
/// pixel line per pixel, in the canvas's row-major storage order.
pub fn ppm_encode(canvas: &Canvas) -> (out: Vec<u8>)
    ensures
        out@ == spec_header(canvas.width, canvas.height) + spec_body(canvas.pixels@),
{
    let mut out: Vec<u8> = Vec::new();
    out.push(80);
    out.push(51);
    out.push(10);
    push_decimal(canvas.width, &mut out);
    out.push(32);
    push_decimal(canvas.height, &mut out);
    out.push(10);
    out.push(50);
    out.push(53);
    out.push(53);
    out.push(10);
    proof {
        assert(out@ =~= spec_header(canvas.width, canvas.height));
    }

    let n: usize = canvas.pixels.len();
    let mut i: usize = 0;
    while i < n
        invariant
            i <= n,
            n == canvas.pixels@.len(),
            out@ == spec_header(canvas.width, canvas.height)
                + spec_body(canvas.pixels@.take(i as int)),
        decreases n - i,
    {
        push_pixel_line(&canvas.pixels[i].color, &mut out);
        proof {
            let taken = canvas.pixels@.take(i + 1);
            assert(taken.drop_last() =~= canvas.pixels@.take(i as int));
            assert(taken.last() == canvas.pixels@[i as int]);
            assert(out@ =~= spec_header(canvas.width, canvas.height) + spec_body(taken));
        }
        i = i + 1;
    }
    proof {
        assert(canvas.pixels@.take(n as int) =~= canvas.pixels@);
    }
    out
}

} // verus!

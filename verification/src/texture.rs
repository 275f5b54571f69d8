//! A texture: a decoded bitmap held as a row-major grid of colors.

use vstd::prelude::*;

use crate::color::RGB;

verus! {

/// What the outside image codec makes of an encoded bitmap: `None` where
/// the bytes decode to no image, and otherwise the row-major pixel grid
/// with its width and height. Decoding is a function of the bytes alone.
pub uninterp spec fn decoded_bitmap(bytes: Seq<u8>) -> Option<(Seq<RGB>, u32, u32)>;

/// Relies on image::load_from_memory and DynamicImage::into_rgb8: the
/// decode depends on the encoded bytes alone, an image buffer holds
/// exactly width * height pixels, and its pixels iterate left to right,
/// top to bottom.
#[verifier::external_body]
fn decode_bitmap(bytes: &Vec<u8>) -> (r: Option<(Vec<RGB>, u32, u32)>)
    ensures
        match decoded_bitmap(bytes@) {
            Some(d) => {
                &&& r is Some
                &&& (r->0).0@ == d.0
                &&& (r->0).1 == d.1
                &&& (r->0).2 == d.2
                &&& d.0.len() == d.1 * d.2
            },
            None => r is None,
        },
{
    match image::load_from_memory(bytes) {
        Ok(img) => {
            let rgb = img.into_rgb8();
            let width = rgb.width();
            let height = rgb.height();
            let mut pixels: Vec<RGB> = Vec::new();
            for p in rgb.pixels() {
                pixels.push(RGB { red: p[0], green: p[1], blue: p[2] });
            }
            Some((pixels, width, height))
        }
        Err(_) => None,
    }
}

/// A bitmap used to color an object point by point.
///
/// Decoding an image file into its pixel grid is the business of an outside
/// image codec; a texture only holds the decoded grid, row by row, and
/// answers color lookups on it. The pixel at column `u` of row `v` sits at
/// index `u + v * image_width`.
#[derive(Debug, Clone)]
pub struct Texture {
    pub image: Vec<RGB>,
    pub image_width: u32,
    pub image_height: u32,
}

impl Texture {
    /// Well-formedness: the grid holds exactly one color per pixel of the
    /// bitmap.
    pub open spec fn wf(self) -> bool {
        self.image@.len() == self.image_width * self.image_height
    }

    /// Creates a texture from an already decoded pixel grid in row-major
    /// order.
    pub fn new(image: Vec<RGB>, image_width: u32, image_height: u32) -> (t: Texture)
        requires
            image@.len() == image_width * image_height,
        ensures
            t == (Texture { image, image_width, image_height }),
            t.wf(),
    {
        Texture { image, image_width, image_height }
    }

    /// Decodes an encoded bitmap (any format the image codec knows) into a
    /// texture, or `None` where the bytes decode to no image.
    pub fn decode(bytes: &Vec<u8>) -> (t: Option<Texture>)
        ensures
            match decoded_bitmap(bytes@) {
                Some(d) => {
                    &&& t is Some
                    &&& (t->0).image@ == d.0
                    &&& (t->0).image_width == d.1
                    &&& (t->0).image_height == d.2
                    &&& (t->0).wf()
                },
                None => t is None,
            },
    {
        match decode_bitmap(bytes) {
            Some((image, image_width, image_height)) => {
                Some(Texture::new(image, image_width, image_height))
            },
            None => None,
        }
    }

    /// Returns a copy of the bitmap width in pixels.
    pub fn get_width(&self) -> (w: u32)
        ensures
            w == self.image_width,
    {
        self.image_width
    }

    /// Returns a copy of the bitmap height in pixels.
    pub fn get_height(&self) -> (h: u32)
        ensures
            h == self.image_height,
    {
        self.image_height
    }

    /// Looks up the color of the pixel at column `u` of row `v`.
    pub fn get_color(&self, u: u32, v: u32) -> (c: RGB)
        requires
            self.wf(),
            u < self.image_width,
            v < self.image_height,
        ensures
            c == self.image@[u + v * self.image_width],
    {
        proof {
            broadcast use vstd::std_specs::vec::axiom_spec_len;
            assert(vstd::std_specs::vec::spec_vec_len(&self.image) <= usize::MAX);
            assert((u as int) + (v as int) * (self.image_width as int)
                < (self.image_width as int) * (self.image_height as int)) by (nonlinear_arith)
                requires
                    u < self.image_width,
                    v < self.image_height,
            ;
        }
        let idx: usize = (u as usize) + (v as usize) * (self.image_width as usize);
        self.image[idx]
    }
}

} // verus!

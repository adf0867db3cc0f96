//! Preparation of an RGB image as the pose model's input: a fixed 256 by 256
//! RGB image in row-major `(height, width, channel)` order.
//!
//! The values stay bytes here; the model's caller scales each by `1/255`
//! into `[0, 1]` as it builds the float tensor.
use crate::pixel::pixel_count;
use vstd::prelude::*;

verus! {

/// Side of the square model input, in pixels.
pub const INPUT_SIDE: u32 = 256;

/// Number of values of the model input: `1 * 256 * 256 * 3`.
pub const INPUT_LEN: usize = 196608;

/// The 256 by 256 RGB bytes that a triangle-filter resize makes of a `width`
/// by `height` RGB image.
pub uninterp spec fn triangle_resized(width: u32, height: u32, pixels: Seq<u8>) -> Seq<u8>;

/// Relies on `image::ImageBuffer::from_raw`, which accepts a buffer of at
/// least `width*height*3` bytes, and `image::imageops::resize` with
/// `FilterType::Triangle`, which returns a new image of exactly the requested
/// size computed from the source pixels alone.
#[verifier::external_body]
fn resize_to_input(pixels: &Vec<u8>, width: u32, height: u32) -> (r: Vec<u8>)
    requires
        pixels@.len() == pixel_count(width, height) * 3,
    ensures
        r@ == triangle_resized(width, height, pixels@),
        r@.len() == INPUT_LEN,
{
    let source = image::RgbImage::from_raw(width, height, pixels.clone()).unwrap();
    image::imageops::resize(&source, INPUT_SIDE, INPUT_SIDE, image::imageops::FilterType::Triangle).into_raw()
}

/// Resizes a dense RGB24 image to the model's 256 by 256 input, ignoring its
/// aspect ratio.
pub fn prepare(rgb: &Vec<u8>, width: u32, height: u32) -> (input: Vec<u8>)
    requires
        rgb@.len() == pixel_count(width, height) * 3,
    ensures
        input@ == triangle_resized(width, height, rgb@),
        input@.len() == INPUT_LEN,
{
    resize_to_input(rgb, width, height)
}

/// The model input depends on the image alone: preparing the same image twice
/// gives the same values.
pub proof fn lemma_prepare_deterministic(a: Seq<u8>, b: Seq<u8>, width: u32, height: u32)
    requires
        a == b,
    ensures
        triangle_resized(width, height, a) == triangle_resized(width, height, b),
{
}

} // verus!

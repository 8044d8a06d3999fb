//! The owned RGB image buffer of the `image` crate, as the library sees it.
use vstd::prelude::*;
use image::{Rgb, RgbImage};
use rayon::iter::{IndexedParallelIterator, ParallelIterator};
use rayon::slice::{ParallelSlice, ParallelSliceMut};
use crate::remap::{bgr_to_rgb, copy_swapped};

verus! {

/// An owned RGB image: `width * height` pixels, row by row, three samples
/// per pixel in R, G, B order, with no padding.
#[verifier::external_body]
pub struct RgbBuffer {
    im: RgbImage,
}

/// The samples of an RGB image, row by row, three per pixel in R, G, B order.
pub uninterp spec fn rgb_samples(im: RgbBuffer) -> Seq<u8>;

/// The width of an RGB image, in pixels.
pub uninterp spec fn rgb_width(im: RgbBuffer) -> u32;

/// The height of an RGB image, in pixels.
pub uninterp spec fn rgb_height(im: RgbBuffer) -> u32;

/// Index of the first sample of pixel `(x, y)` in an image `w` pixels wide.
pub open spec fn sample_index(w: int, x: int, y: int) -> int {
    (y * w + x) * 3
}

/// Relies on `ImageBuffer::new`: a `w` by `h` buffer of zero samples. It
/// panics when `3 * w * h` overflows `usize`.
#[verifier::external_body]
pub(crate) fn new_rgb(w: u32, h: u32) -> (im: RgbBuffer)
    requires
        3 * ((w as int) * (h as int)) <= usize::MAX,
    ensures
        rgb_width(im) == w,
        rgb_height(im) == h,
        rgb_samples(im) == Seq::new((3 * ((w as int) * (h as int))) as nat, |i: int| 0u8),
{
    RgbBuffer { im: RgbImage::new(w, h) }
}

/// Relies on `ImageBuffer::put_pixel`: overwrites the three samples of pixel
/// `(x, y)`. It panics when the pixel lies outside the image.
#[verifier::external_body]
pub(crate) fn put_rgb(im: &mut RgbBuffer, x: u32, y: u32, px: [u8; 3])
    requires
        x < rgb_width(*old(im)),
        y < rgb_height(*old(im)),
    ensures
        rgb_width(*final(im)) == rgb_width(*old(im)),
        rgb_height(*final(im)) == rgb_height(*old(im)),
        rgb_samples(*final(im)) == rgb_samples(*old(im)).update(
            sample_index(rgb_width(*old(im)) as int, x as int, y as int),
            px[0],
        ).update(sample_index(rgb_width(*old(im)) as int, x as int, y as int) + 1, px[1]).update(
            sample_index(rgb_width(*old(im)) as int, x as int, y as int) + 2,
            px[2],
        ),
{
    im.im.put_pixel(x, y, Rgb(px))
}

/// Relies on rayon's `par_chunks_mut`, `par_chunks`, `zip` and `for_each`:
/// the samples of `im` and of `bgr` are cut into matching runs of three, and
/// each pair of runs is handed once to `copy_swapped`, on worker threads,
/// before the call returns.
#[verifier::external_body]
pub(crate) fn par_copy_swapped(im: &mut RgbBuffer, bgr: &[u8])
    requires
        rgb_samples(*old(im)).len() == bgr@.len(),
        bgr@.len() % 3 == 0,
    ensures
        rgb_width(*final(im)) == rgb_width(*old(im)),
        rgb_height(*final(im)) == rgb_height(*old(im)),
        rgb_samples(*final(im)) == bgr_to_rgb(bgr@),
{
    (&mut *im.im).par_chunks_mut(3).zip(bgr.par_chunks(3)).for_each(
        |(d, s)| copy_swapped(d, s),
    )
}

/// Relies on `ImageBuffer::width`: the width the buffer was made with.
#[verifier::external_body]
fn raw_width(im: &RgbBuffer) -> (w: u32)
    ensures
        w == rgb_width(*im),
{
    im.im.width()
}

/// Relies on `ImageBuffer::height`: the height the buffer was made with.
#[verifier::external_body]
fn raw_height(im: &RgbBuffer) -> (h: u32)
    ensures
        h == rgb_height(*im),
{
    im.im.height()
}

/// Relies on `ImageBuffer::as_raw`: the samples, row by row.
#[verifier::external_body]
fn raw_samples(im: &RgbBuffer) -> (s: &Vec<u8>)
    ensures
        s@ == rgb_samples(*im),
{
    im.im.as_raw()
}

/// Relies on `ImageBuffer::into_raw`: the samples, row by row, moved out.
#[verifier::external_body]
fn into_samples(im: RgbBuffer) -> (s: Vec<u8>)
    ensures
        s@ == rgb_samples(im),
{
    im.im.into_raw()
}

impl RgbBuffer {
    /// The width in pixels.
    pub fn width(&self) -> (w: u32)
        ensures
            w == rgb_width(*self),
    {
        raw_width(self)
    }

    /// The height in pixels.
    pub fn height(&self) -> (h: u32)
        ensures
            h == rgb_height(*self),
    {
        raw_height(self)
    }

    /// The samples, row by row, three per pixel in R, G, B order.
    pub fn as_raw(&self) -> (s: &Vec<u8>)
        ensures
            s@ == rgb_samples(*self),
    {
        raw_samples(self)
    }

    /// The samples, row by row, three per pixel in R, G, B order, moved out.
    pub fn into_raw(self) -> (s: Vec<u8>)
        ensures
            s@ == rgb_samples(self),
    {
        into_samples(self)
    }
}

} // verus!

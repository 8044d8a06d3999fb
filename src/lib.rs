//! Conversion of OpenCV-style BGR matrices into RGB image buffers.
//!
//! The source is a row-major, interleaved, 8-bit, three-channel matrix in
//! B, G, R order. It is turned into an owned RGB image (sequentially or in
//! parallel), or viewed in place through the [`Bgr`] pixel type.
use vstd::prelude::*;
use vstd::arithmetic::div_mod::lemma_fundamental_div_mod;

pub mod custom_pix;
pub mod mat;
pub mod remap;
pub mod rgb;
pub mod view;

pub use custom_pix::Bgr;
pub use mat::{CvError, Mat, CV_8UC3, STS_UNMATCHED_SIZES};
pub use rgb::RgbBuffer;
pub use view::BgrView;

use remap::{bgr_to_rgb, fill_by_pixels, lemma_pixel_of_swapped, pixel_at, rev3, rgb_by_pixels};
use rgb::{new_rgb, par_copy_swapped, rgb_height, rgb_samples, rgb_width, sample_index};

verus! {

/// Why a matrix could not be converted.
#[derive(Debug)]
pub enum Error {
    /// A dimension of the matrix is not positive.
    InvalidDimensions,
    /// The matrix's byte accessor failed.
    Cv(CvError),
    /// The element type is not 8-bit unsigned with three channels.
    UnsupportedFormat,
    /// The bytes do not hold exactly `width * height` pixels.
    ContainerNotBigEnough,
}

/// What a conversion of `m` returns when it fails on a validation step, in
/// the order the steps run: format, then dimensions.
pub open spec fn validation_error(m: Mat, e: Error) -> bool {
    &&& !m.format_ok() ==> e is UnsupportedFormat
    &&& m.format_ok() && !m.dims_ok() ==> e is InvalidDimensions
}

fn check_supported_format(mat: &Mat) -> (r: Result<(), Error>)
    ensures
        r is Ok <==> mat.format_ok(),
        r is Err ==> r->Err_0 is UnsupportedFormat,
{
    if mat.typ() != CV_8UC3 {
        return Err(Error::UnsupportedFormat);
    }
    Ok(())
}

fn check_and_get_dims(mat: &Mat) -> (r: Result<(u32, u32), Error>)
    ensures
        r is Ok <==> mat.dims_ok(),
        r is Ok ==> r->Ok_0 == (mat.cols as u32, mat.rows as u32),
        r is Err ==> r->Err_0 is InvalidDimensions,
{
    let w = mat.cols();
    if w <= 0 {
        return Err(Error::InvalidDimensions);
    }
    let h = mat.rows();
    if h <= 0 {
        return Err(Error::InvalidDimensions);
    }
    Ok((w as u32, h as u32))
}

fn full_check_and_get_dims(mat: &Mat) -> (r: Result<(u32, u32), Error>)
    ensures
        r is Ok <==> mat.format_ok() && mat.dims_ok(),
        r is Ok ==> r->Ok_0 == (mat.cols as u32, mat.rows as u32),
        r is Err ==> validation_error(*mat, r->Err_0),
{
    match check_supported_format(mat) {
        Ok(()) => {},
        Err(e) => {
            return Err(e);
        },
    }
    check_and_get_dims(mat)
}

/// Validates `mat`, then takes its bytes through the accessor.
fn checked_bytes<'a>(mat: &Mat<'a>) -> (r: Result<(u32, u32, &'a [u8]), Error>)
    ensures
        r is Ok <==> mat.convertible(),
        r is Ok ==> r->Ok_0 == (mat.cols as u32, mat.rows as u32, mat.data),
        r is Err ==> validation_error(*mat, r->Err_0),
        r is Err && mat.format_ok() && mat.dims_ok() ==> r->Err_0 is Cv && r->Err_0->Cv_0.code
            == STS_UNMATCHED_SIZES,
{
    let (w, h) = match full_check_and_get_dims(mat) {
        Ok(d) => d,
        Err(e) => {
            return Err(e);
        },
    };
    match mat.data_bytes() {
        Ok(data) => Ok((w, h, data)),
        Err(e) => Err(Error::Cv(e)),
    }
}

/// Anything that can be turned into an RGB image.
pub trait ToImage {
    /// Error of a conversion.
    type Err;

    /// Copies the pixels into a new RGB image, one pixel at a time.
    fn to_image(&self) -> Result<RgbBuffer, Self::Err>;

    /// Copies the pixels into a new RGB image, in parallel runs of three
    /// samples.
    fn to_image_par(&self) -> Result<RgbBuffer, Self::Err>;

    /// Views the pixels in place, without copying or reordering them.
    fn as_image_buffer(&self) -> Result<BgrView<'_>, Self::Err>;
}

impl<'a> ToImage for Mat<'a> {
    type Err = Error;

    fn to_image(&self) -> (r: Result<RgbBuffer, Error>)
        ensures
            r is Ok <==> self.convertible(),
            r is Err ==> validation_error(*self, r->Err_0),
            r is Err && self.format_ok() && self.dims_ok() ==> r->Err_0 is Cv && r->Err_0->Cv_0.code
                == STS_UNMATCHED_SIZES,
            r is Ok ==> rgb_width(r->Ok_0) == self.cols && rgb_height(r->Ok_0) == self.rows
                && rgb_by_pixels(rgb_samples(r->Ok_0), self.data@, self.cols as int, self.rows as int),
    {
        let (w, h, data) = match checked_bytes(self) {
            Ok(t) => t,
            Err(e) => {
                return Err(e);
            },
        };
        // A slice's length fits in usize, and so does the image's size.
        let _len: usize = data.len();
        let mut rgbim = new_rgb(w, h);
        fill_by_pixels(&mut rgbim, data);
        Ok(rgbim)
    }

    fn to_image_par(&self) -> (r: Result<RgbBuffer, Error>)
        ensures
            r is Ok <==> self.convertible(),
            r is Err ==> validation_error(*self, r->Err_0),
            r is Err && self.format_ok() && self.dims_ok() ==> r->Err_0 is Cv && r->Err_0->Cv_0.code
                == STS_UNMATCHED_SIZES,
            r is Ok ==> rgb_width(r->Ok_0) == self.cols && rgb_height(r->Ok_0) == self.rows
                && rgb_samples(r->Ok_0) == bgr_to_rgb(self.data@),
    {
        let (w, h, data) = match checked_bytes(self) {
            Ok(t) => t,
            Err(e) => {
                return Err(e);
            },
        };
        // A slice's length fits in usize, and so does the image's size.
        let _len: usize = data.len();
        let mut rgbim = new_rgb(w, h);
        proof {
            assert(3 * (w as int * h as int) % 3 == 0) by (nonlinear_arith);
        }
        par_copy_swapped(&mut rgbim, data);
        Ok(rgbim)
    }

    fn as_image_buffer(&self) -> (r: Result<BgrView<'_>, Error>)
        ensures
            r is Ok <==> self.convertible(),
            r is Err ==> validation_error(*self, r->Err_0),
            r is Err && self.format_ok() && self.dims_ok() ==> r->Err_0 is ContainerNotBigEnough,
            r is Ok ==> r->Ok_0@ == (self.cols as u32, self.rows as u32, self.data@),
    {
        let (w, h) = match full_check_and_get_dims(self) {
            Ok(d) => d,
            Err(e) => {
                return Err(e);
            },
        };
        match BgrView::from_raw(w, h, self.data) {
            Some(v) => Ok(v),
            None => Err(Error::ContainerNotBigEnough),
        }
    }
}

impl<'a> Mat<'a> {
    /// Copies the pixels into a new RGB image, one pixel at a time, without
    /// validating anything: the caller vouches for the format, the
    /// dimensions and the byte length.
    pub fn to_image_unchecked(&self) -> (r: Result<RgbBuffer, Error>)
        requires
            self.convertible(),
        ensures
            r is Ok,
            rgb_width(r->Ok_0) == self.cols && rgb_height(r->Ok_0) == self.rows,
            rgb_by_pixels(rgb_samples(r->Ok_0), self.data@, self.cols as int, self.rows as int),
    {
        let w = self.cols as u32;
        let h = self.rows as u32;
        // A slice's length fits in usize, and so does the image's size.
        let _len: usize = self.data.len();
        let mut rgbim = new_rgb(w, h);
        fill_by_pixels(&mut rgbim, self.data);
        Ok(rgbim)
    }
}

/// The sequential and the parallel copy agree: any image that holds, at
/// every pixel, the source pixel with its channels reversed (what
/// `to_image` and `to_image_unchecked` promise) is exactly the sample-wise
/// reversal that `to_image_par` produces.
pub proof fn lemma_strategies_agree(m: Mat, rgb: Seq<u8>)
    requires
        m.convertible(),
        rgb_by_pixels(rgb, m.data@, m.cols as int, m.rows as int),
    ensures
        rgb == bgr_to_rgb(m.data@),
{
    let (w, h, d) = (m.cols as int, m.rows as int, m.data@);
    assert forall|j: int| 0 <= j < rgb.len() implies rgb[j] == #[trigger] bgr_to_rgb(d)[j] by {
        let k = j / 3;
        let c = j % 3;
        let x = k % w;
        let y = k / w;
        lemma_fundamental_div_mod(j, 3);
        lemma_fundamental_div_mod(k, w);
        assert(0 <= k < w * h);
        assert(y < h) by (nonlinear_arith)
            requires
                k == w * y + x,
                0 <= x < w,
                k < w * h,
        ;
        assert(0 <= y) by (nonlinear_arith)
            requires
                k == w * y + x,
                0 <= x < w,
                0 <= k,
        ;
        assert(sample_index(w, x, y) == 3 * k) by (nonlinear_arith)
            requires
                k == w * y + x,
        ;
        assert(pixel_at(rgb, w, x, y) == rev3(pixel_at(d, w, x, y)));
        assert(pixel_at(rgb, w, x, y)[c] == rgb[j]);
    }
    assert(rgb =~= bgr_to_rgb(d));
}

/// Reading pixel `(x, y)` of the in-place view and reordering it to RGB
/// gives the three samples at `(x, y)` of the copied image.
pub proof fn lemma_view_round_trip(m: Mat, x: int, y: int, p: Bgr)
    requires
        m.convertible(),
        0 <= x < m.cols,
        0 <= y < m.rows,
        p.0@ == pixel_at(m.data@, m.cols as int, x, y),
    ensures
        seq![p.r(), p.g(), p.b()] == pixel_at(bgr_to_rgb(m.data@), m.cols as int, x, y),
{
    lemma_pixel_of_swapped(m.data@, m.cols as int, m.rows as int, x, y);
    assert(seq![p.r(), p.g(), p.b()] =~= rev3(p.0@));
}

} // verus!

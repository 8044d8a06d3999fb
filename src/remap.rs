//! Reordering B, G, R samples into R, G, B ones.
use vstd::prelude::*;
use vstd::arithmetic::div_mod::lemma_fundamental_div_mod;
use crate::rgb::{put_rgb, rgb_height, rgb_samples, rgb_width, sample_index, RgbBuffer};

verus! {

/// The three samples of pixel `(x, y)` in a row-major buffer `w` pixels wide.
pub open spec fn pixel_at(s: Seq<u8>, w: int, x: int, y: int) -> Seq<u8> {
    s.subrange(sample_index(w, x, y), sample_index(w, x, y) + 3)
}

/// The three samples of a pixel in the opposite order.
pub open spec fn rev3(p: Seq<u8>) -> Seq<u8> {
    seq![p[2], p[1], p[0]]
}

/// Each run of three samples reversed: B, G, R becomes R, G, B.
pub open spec fn bgr_to_rgb(s: Seq<u8>) -> Seq<u8> {
    Seq::new(s.len(), |i: int| s[i - i % 3 + 2 - i % 3])
}

/// `rgb` is a `w` by `h` image whose every pixel `(x, y)` holds the pixel
/// `(x, y)` of `bgr` with its channels reversed.
pub open spec fn rgb_by_pixels(rgb: Seq<u8>, bgr: Seq<u8>, w: int, h: int) -> bool {
    &&& rgb.len() == 3 * (w * h)
    &&& forall|x: int, y: int|
        0 <= x < w && 0 <= y < h ==> #[trigger] pixel_at(rgb, w, x, y) == rev3(pixel_at(bgr, w, x, y))
}

/// Writes the three samples of `src` into `dst` in reverse order.
pub fn copy_swapped(dst: &mut [u8], src: &[u8])
    requires
        old(dst)@.len() == 3,
        src@.len() == 3,
    ensures
        final(dst)@ == rev3(src@),
{
    let b = src[0];
    let g = src[1];
    let r = src[2];
    dst[0] = r;
    dst[1] = g;
    dst[2] = b;
    assert(dst@ =~= rev3(src@));
}

/// Writes every pixel of `bgr` into the `w` by `h` image `im`, one pixel at
/// a time, with its channels reversed.
pub(crate) fn fill_by_pixels(im: &mut RgbBuffer, bgr: &[u8])
    requires
        rgb_width(*old(im)) > 0,
        rgb_samples(*old(im)).len() == 3 * (rgb_width(*old(im)) * rgb_height(*old(im))),
        bgr@.len() == rgb_samples(*old(im)).len(),
    ensures
        rgb_width(*final(im)) == rgb_width(*old(im)),
        rgb_height(*final(im)) == rgb_height(*old(im)),
        rgb_by_pixels(
            rgb_samples(*final(im)),
            bgr@,
            rgb_width(*old(im)) as int,
            rgb_height(*old(im)) as int,
        ),
{
    let ghost w0 = rgb_width(*im) as int;
    let ghost h0 = rgb_height(*im) as int;
    let w = im.width();
    let wu = w as usize;
    let mut pixi: usize = 0;
    let mut i: usize = 0;
    while i < bgr.len()
        invariant
            w as int == w0,
            wu as int == w0,
            w0 > 0,
            rgb_width(*im) == w0,
            rgb_height(*im) == h0,
            bgr@.len() == 3 * (w0 * h0),
            rgb_samples(*im).len() == bgr@.len(),
            i == 3 * pixi,
            i <= bgr@.len(),
            forall|j: int| 0 <= j < i ==> #[trigger] rgb_samples(*im)[j] == bgr_to_rgb(bgr@)[j],
        decreases bgr@.len() - i,
    {
        let b = bgr[i];
        let g = bgr[i + 1];
        let r = bgr[i + 2];
        let x = pixi % wu;
        let y = pixi / wu;
        proof {
            lemma_fundamental_div_mod(pixi as int, w0);
            assert(pixi < w0 * h0);
            assert(y < h0) by (nonlinear_arith)
                requires
                    pixi == w0 * y + x,
                    0 <= x < w0,
                    pixi < w0 * h0,
                    0 <= y,
            ;
            assert(sample_index(w0, x as int, y as int) == i) by (nonlinear_arith)
                requires
                    pixi == w0 * y + x,
                    i == 3 * pixi,
            ;
        }
        let ghost before = rgb_samples(*im);
        put_rgb(im, x as u32, y as u32, [r, g, b]);
        proof {
            let s = bgr@;
            assert((i + 1) % 3 == 1 && (i + 2) % 3 == 2 && i % 3 == 0);
            assert(bgr_to_rgb(s)[i as int] == r);
            assert(bgr_to_rgb(s)[i + 1] == g);
            assert(bgr_to_rgb(s)[i + 2] == b);
            assert forall|j: int| 0 <= j < i + 3 implies #[trigger] rgb_samples(*im)[j]
                == bgr_to_rgb(bgr@)[j] by {
                if j < i {
                    assert(rgb_samples(*im)[j] == before[j]);
                }
            }
        }
        pixi = pixi + 1;
        i = i + 3;
    }
    proof {
        let out = rgb_samples(*im);
        let s = bgr@;
        assert(out =~= bgr_to_rgb(s));
        assert forall|x: int, y: int| 0 <= x < w0 && 0 <= y < h0 implies #[trigger] pixel_at(
            out,
            w0,
            x,
            y,
        ) == rev3(pixel_at(s, w0, x, y)) by {
            lemma_pixel_of_swapped(s, w0, h0, x, y);
        }
    }
}

/// Pixel `(x, y)` of the reversed buffer is pixel `(x, y)` of the source with
/// its channels reversed.
pub proof fn lemma_pixel_of_swapped(s: Seq<u8>, w: int, h: int, x: int, y: int)
    requires
        s.len() == 3 * (w * h),
        0 <= x < w,
        0 <= y < h,
    ensures
        pixel_at(bgr_to_rgb(s), w, x, y) == rev3(pixel_at(s, w, x, y)),
{
    let k = sample_index(w, x, y);
    assert(k + 3 <= s.len()) by (nonlinear_arith)
        requires
            k == (y * w + x) * 3,
            s.len() == 3 * (w * h),
            0 <= x < w,
            0 <= y < h,
    ;
    assert(k >= 0) by (nonlinear_arith)
        requires
            k == (y * w + x) * 3,
            0 <= x,
            0 <= y,
            w > 0,
    ;
    assert(k % 3 == 0 && (k + 1) % 3 == 1 && (k + 2) % 3 == 2);
    assert(pixel_at(bgr_to_rgb(s), w, x, y) =~= rev3(pixel_at(s, w, x, y)));
}

} // verus!

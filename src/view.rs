//! A borrowed image read in place through the [`Bgr`] pixel type.
use vstd::prelude::*;
use crate::custom_pix::Bgr;
use crate::remap::pixel_at;

verus! {

/// A `width` by `height` image over borrowed bytes, three per pixel in
/// B, G, R order. Nothing is copied: channels are reordered when read.
pub struct BgrView<'a> {
    width: u32,
    height: u32,
    data: &'a [u8],
}

impl<'a> View for BgrView<'a> {
    /// Width, height and samples.
    type V = (u32, u32, Seq<u8>);

    closed spec fn view(&self) -> (u32, u32, Seq<u8>) {
        (self.width, self.height, self.data@)
    }
}

impl<'a> BgrView<'a> {
    #[verifier::type_invariant]
    spec fn wf(self) -> bool {
        self.data@.len() == 3 * (self.width * self.height)
    }

    /// A view over `data` when it holds exactly `width * height` pixels.
    pub fn from_raw(width: u32, height: u32, data: &'a [u8]) -> (v: Option<BgrView<'a>>)
        ensures
            v is Some <==> data@.len() == 3 * (width * height),
            v is Some ==> v->Some_0@ == (width, height, data@),
    {
        proof {
            assert(3 * ((width as int) * (height as int)) < 0x1_0000_0000_0000_0000_0000_0000_0000_0000)
                by (nonlinear_arith)
                requires
                    width < 0x1_0000_0000,
                    height < 0x1_0000_0000,
            ;
        }
        if data.len() as u128 == 3 * (width as u128 * height as u128) {
            Some(BgrView { width, height, data })
        } else {
            None
        }
    }

    /// The width in pixels.
    pub fn width(&self) -> (w: u32)
        ensures
            w == self@.0,
    {
        self.width
    }

    /// The height in pixels.
    pub fn height(&self) -> (h: u32)
        ensures
            h == self@.1,
    {
        self.height
    }

    /// The borrowed samples, B, G, R order.
    pub fn as_raw(&self) -> (s: &'a [u8])
        ensures
            s@ == self@.2,
            s@.len() == 3 * (self@.0 * self@.1),
    {
        proof {
            use_type_invariant(self);
        }
        self.data
    }

    /// Pixel `(x, y)`, read in place.
    pub fn get_pixel(&self, x: u32, y: u32) -> (p: Bgr)
        requires
            x < self@.0,
            y < self@.1,
        ensures
            p.0@ == pixel_at(self@.2, self@.0 as int, x as int, y as int),
    {
        let n: usize = self.data.len();
        proof {
            use_type_invariant(self);
            let (w, h, xi, yi) = (self.width as int, self.height as int, x as int, y as int);
            assert((yi * w + xi) * 3 + 3 <= 3 * (w * h)) by (nonlinear_arith)
                requires
                    0 <= xi < w,
                    0 <= yi < h,
            ;
            assert(0 <= yi * w) by (nonlinear_arith)
                requires
                    0 <= yi,
                    0 <= w,
            ;
            assert(n == 3 * (w * h));
            assert((yi * w + xi) * 3 + 3 <= n);
            assert(yi * w + xi <= n);

        }
        let k: usize = (y as usize * self.width as usize + x as usize) * 3;
        let p = Bgr([self.data[k], self.data[k + 1], self.data[k + 2]]);
        assert(p.0@ =~= pixel_at(self@.2, self@.0 as int, x as int, y as int));
        p
    }
}

} // verus!

//! A three-channel pixel stored in B, G, R order.
use vstd::prelude::*;

verus! {

/// Weight of the red channel in the sRGB luma sum.
pub const SRGB_LUMA_R: u32 = 2126;

/// Weight of the green channel in the sRGB luma sum.
pub const SRGB_LUMA_G: u32 = 7152;

/// Weight of the blue channel in the sRGB luma sum.
pub const SRGB_LUMA_B: u32 = 722;

/// Divisor of the sRGB luma sum; the three weights add up to it.
pub const SRGB_LUMA_DIV: u32 = 10000;

/// The value that stands in for the alpha channel, which this pixel lacks.
pub const OPAQUE: u8 = 255;

/// CIE Y luminance of a pixel with the given red, green and blue values,
/// rounded down.
pub open spec fn luma_of(b: u8, g: u8, r: u8) -> int {
    (2126 * r + 7152 * g + 722 * b) / 10000
}

/// A pixel whose three channels are blue, green and red, in that order.
#[derive(Clone, Copy)]
pub struct Bgr(pub [u8; 3]);

/// Luminance of a BGR pixel, weighting red, green and blue by
/// 2126 : 7152 : 722 over 10000 and truncating.
pub fn bgr_to_luma(p: &Bgr) -> (l: u8)
    ensures
        l as int == luma_of(p.0[0], p.0[1], p.0[2]),
{
    let b = p.0[0];
    let g = p.0[1];
    let r = p.0[2];
    proof {
        assert(2126 * (r as int) + 7152 * (g as int) + 722 * (b as int) <= 10000 * 255)
            by (nonlinear_arith)
            requires
                r <= 255,
                g <= 255,
                b <= 255,
        ;
    }
    let l = SRGB_LUMA_R * r as u32 + SRGB_LUMA_G * g as u32 + SRGB_LUMA_B * b as u32;
    (l / SRGB_LUMA_DIV) as u8
}

impl Bgr {
    /// Number of channels of the pixel.
    pub const CHANNEL_COUNT: u8 = 3;

    /// Name of the channel layout.
    pub const COLOR_MODEL: &'static str = "BGR";

    /// Blue channel.
    pub open spec fn b(self) -> u8 {
        self.0[0]
    }

    /// Green channel.
    pub open spec fn g(self) -> u8 {
        self.0[1]
    }

    /// Red channel.
    pub open spec fn r(self) -> u8 {
        self.0[2]
    }

    /// The same pixel with every channel replaced by 255 minus itself.
    pub open spec fn inverted(self) -> Bgr {
        Bgr([(255 - self.b()) as u8, (255 - self.g()) as u8, (255 - self.r()) as u8])
    }

    /// The three channels, blue first.
    pub fn channels(&self) -> (c: &[u8])
        ensures
            c@ == self.0@,
    {
        self.0.as_slice()
    }

    /// The three channels, blue first, for writing.
    pub fn channels_mut(&mut self) -> (c: &mut [u8])
        ensures
            c@ == old(self).0@,
            final(self).0@ == final(c)@,
    {
        &mut self.0
    }

    /// Blue, green, red and the opaque alpha value.
    pub fn channels4(&self) -> (c: (u8, u8, u8, u8))
        ensures
            c == (self.b(), self.g(), self.r(), 255u8),
    {
        (self.0[0], self.0[1], self.0[2], OPAQUE)
    }

    /// A pixel from blue, green and red; the fourth value is dropped.
    pub fn from_channels(a: u8, b: u8, c: u8, _d: u8) -> (p: Bgr)
        ensures
            p.0@ == seq![a, b, c],
    {
        Bgr([a, b, c])
    }

    /// A pixel from a window of exactly three bytes, blue first.
    pub fn from_slice(slice: &[u8]) -> (p: Bgr)
        requires
            slice@.len() == 3,
        ensures
            p.0@ == slice@,
    {
        let p = Bgr([slice[0], slice[1], slice[2]]);
        assert(p.0@ =~= slice@);
        p
    }

    /// The channels reordered to red, green, blue.
    pub fn to_rgb(&self) -> (c: [u8; 3])
        ensures
            c@ == seq![self.r(), self.g(), self.b()],
    {
        let c = [self.0[2], self.0[1], self.0[0]];
        assert(c@ =~= seq![self.r(), self.g(), self.b()]);
        c
    }

    /// The channels reordered to red, green, blue, with an opaque alpha.
    pub fn to_rgba(&self) -> (c: [u8; 4])
        ensures
            c@ == seq![self.r(), self.g(), self.b(), 255u8],
    {
        let c = [self.0[2], self.0[1], self.0[0], OPAQUE];
        assert(c@ =~= seq![self.r(), self.g(), self.b(), 255u8]);
        c
    }

    /// The luminance as a one-channel pixel.
    pub fn to_luma(&self) -> (c: [u8; 1])
        ensures
            c[0] as int == luma_of(self.b(), self.g(), self.r()),
    {
        [bgr_to_luma(self)]
    }

    /// The luminance with an opaque alpha.
    pub fn to_luma_alpha(&self) -> (c: [u8; 2])
        ensures
            c[0] as int == luma_of(self.b(), self.g(), self.r()),
            c[1] == 255u8,
    {
        [bgr_to_luma(self), OPAQUE]
    }

    /// A copy of the pixel with `f` applied to each channel.
    pub fn map<F: Fn(u8) -> u8>(&self, f: F) -> (p: Bgr)
        requires
            forall|v: u8| f.requires((v,)),
        ensures
            forall|i: int| 0 <= i < 3 ==> f.ensures((self.0[i],), #[trigger] p.0[i]),
    {
        let mut this = *self;
        this.apply(f);
        this
    }

    /// Applies `f` to each channel in place.
    pub fn apply<F: Fn(u8) -> u8>(&mut self, f: F)
        requires
            forall|v: u8| f.requires((v,)),
        ensures
            forall|i: int| 0 <= i < 3 ==> f.ensures((old(self).0[i],), #[trigger] final(self).0[i]),
    {
        let ghost before = *self;
        for i in 0..3
            invariant
                forall|v: u8| f.requires((v,)),
                forall|j: int| 0 <= j < i ==> f.ensures((before.0[j],), #[trigger] self.0[j]),
                forall|j: int| i <= j < 3 ==> self.0[j] == before.0[j],
        {
            let v = f(self.0[i]);
            self.0[i] = v;
        }
    }

    /// A copy of the pixel with `f` applied to each colour channel. The
    /// alpha function `g` is never called: the pixel has no alpha channel.
    pub fn map_with_alpha<F: Fn(u8) -> u8, G: Fn(u8) -> u8>(&self, f: F, g: G) -> (p: Bgr)
        requires
            forall|v: u8| f.requires((v,)),
        ensures
            forall|i: int| 0 <= i < 3 ==> f.ensures((self.0[i],), #[trigger] p.0[i]),
    {
        let mut this = *self;
        this.apply_with_alpha(f, g);
        this
    }

    /// Applies `f` to each colour channel in place; `g` is never called, as
    /// there is no alpha channel.
    pub fn apply_with_alpha<F: Fn(u8) -> u8, G: Fn(u8) -> u8>(&mut self, f: F, g: G)
        requires
            forall|v: u8| f.requires((v,)),
        ensures
            forall|i: int| 0 <= i < 3 ==> f.ensures((old(self).0[i],), #[trigger] final(self).0[i]),
    {
        self.apply(f);
    }

    /// A new pixel whose channels are `f` of the matching channels of `self`
    /// and `other`.
    pub fn map2<F: Fn(u8, u8) -> u8>(&self, other: &Bgr, f: F) -> (p: Bgr)
        requires
            forall|a: u8, b: u8| f.requires((a, b)),
        ensures
            forall|i: int| 0 <= i < 3 ==> f.ensures((self.0[i], other.0[i]), #[trigger] p.0[i]),
    {
        let mut this = *self;
        this.apply2(other, f);
        this
    }

    /// Replaces each channel with `f` of it and the matching channel of
    /// `other`.
    pub fn apply2<F: Fn(u8, u8) -> u8>(&mut self, other: &Bgr, f: F)
        requires
            forall|a: u8, b: u8| f.requires((a, b)),
        ensures
            forall|i: int|
                0 <= i < 3 ==> f.ensures((old(self).0[i], other.0[i]), #[trigger] final(self).0[i]),
    {
        let ghost before = *self;
        for i in 0..3
            invariant
                forall|a: u8, b: u8| f.requires((a, b)),
                forall|j: int| 0 <= j < i ==> f.ensures((before.0[j], other.0[j]), #[trigger] self.0[j]),
                forall|j: int| i <= j < 3 ==> self.0[j] == before.0[j],
        {
            let v = f(self.0[i], other.0[i]);
            self.0[i] = v;
        }
    }

    /// Replaces each channel with 255 minus itself.
    pub fn invert(&mut self)
        ensures
            *final(self) == old(self).inverted(),
    {
        self.0[0] = 255 - self.0[0];
        self.0[1] = 255 - self.0[1];
        self.0[2] = 255 - self.0[2];
        assert(self.0 =~= old(self).inverted().0);
    }

    /// Replaces the pixel with `other`. With no alpha channel there is
    /// nothing to composite.
    pub fn blend(&mut self, other: &Bgr)
        ensures
            *final(self) == *other,
    {
        *self = *other;
    }
}

/// Inverting a pixel twice gives it back.
pub proof fn lemma_invert_twice(p: Bgr)
    ensures
        p.inverted().inverted() == p,
{
    assert(p.inverted().inverted().0 =~= p.0);
}

} // verus!

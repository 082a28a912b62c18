//! Alpha-blended image overlay: combining a partially transparent source
//! image with the existing framebuffer content under it, entirely in memory,
//! before a single opaque result is written to the device.
//!
//! Convention for the fourth channel: it is the *weight of the source pixel*.
//! Weight 255 writes the source pixel in full; weight 0 passes the existing
//! content through unchanged. Equivalently, the existing content's coverage
//! is `(255 - weight) / 255`. This inverted-looking convention is load-bearing
//! for visual output and is preserved exactly.

use vstd::prelude::*;
use vstd::arithmetic::div_mod::{
    lemma_div_is_ordered, lemma_fundamental_div_mod, lemma_fundamental_div_mod_converse,
    lemma_mod_pos_bound,
};
use vstd::arithmetic::mul::lemma_mul_nonnegative;

verus! {

/// An opaque image: three bytes (red, green, blue) per pixel, pixels stored
/// row by row, top row first.
#[derive(Clone, Debug, PartialEq, Eq)]
pub struct RgbImage {
    pub width: u32,
    pub height: u32,
    pub data: Vec<u8>,
}

/// An image with a per-pixel source-weight channel: four bytes per pixel
/// (red, green, blue, weight), pixels stored row by row, top row first.
#[derive(Clone, Debug, PartialEq, Eq)]
pub struct RgbaImage {
    pub width: u32,
    pub height: u32,
    pub data: Vec<u8>,
}

impl RgbImage {
    /// The number of pixels in the image.
    pub open spec fn pixel_count(&self) -> int {
        self.width as int * self.height as int
    }

    /// Well-formed: the buffer holds exactly three bytes per pixel.
    pub open spec fn wf(&self) -> bool {
        self.data@.len() == 3 * self.pixel_count()
    }
}

impl RgbaImage {
    /// The number of pixels in the image.
    pub open spec fn pixel_count(&self) -> int {
        self.width as int * self.height as int
    }

    /// Well-formed: the buffer holds exactly four bytes per pixel.
    pub open spec fn wf(&self) -> bool {
        self.data@.len() == 4 * self.pixel_count()
    }
}

/// One channel of the overlay blend, in integer arithmetic with rounding to
/// the nearest 8-bit value: the source channel weighted by `weight / 255`
/// plus the existing channel weighted by `(255 - weight) / 255`.
pub open spec fn blend_channel_spec(src: u8, under: u8, weight: u8) -> int {
    (src * weight + under * (255 - weight) + 127) / 255
}

/// Blends one channel of a source pixel over the existing channel value.
pub fn blend_channel(src: u8, under: u8, weight: u8) -> (r: u8)
    ensures
        r as int == blend_channel_spec(src, under, weight),
{
    proof {
        assert(0 <= src as int * weight as int) by (nonlinear_arith)
            requires
                0 <= src as int,
                0 <= weight as int,
        ;
        assert(0 <= under as int * (255 - weight as int)) by (nonlinear_arith)
            requires
                0 <= under as int,
                weight as int <= 255,
        ;
        assert(src as int * weight as int + under as int * (255 - weight as int) <= 65025)
            by (nonlinear_arith)
            requires
                0 <= src as int <= 255,
                0 <= under as int <= 255,
                0 <= weight as int <= 255,
        ;
    }
    let num: u32 = (src as u32) * (weight as u32) + (under as u32) * (255 - (weight as u32))
        + 127;
    proof {
        lemma_div_is_ordered(num as int, 65152, 255);
    }
    (num / 255) as u8
}

/// With weight 255 the existing content has coverage zero: the blend returns
/// the source channel exactly.
pub proof fn lemma_blend_channel_full_weight(src: u8, under: u8)
    ensures
        blend_channel_spec(src, under, 255) == src,
{
    lemma_fundamental_div_mod_converse(src as int * 255 + 127, 255, src as int, 127);
}

/// With weight 0 the existing content has full coverage: the blend returns
/// the existing channel exactly.
pub proof fn lemma_blend_channel_zero_weight(src: u8, under: u8)
    ensures
        blend_channel_spec(src, under, 0) == under,
{
    lemma_fundamental_div_mod_converse(under as int * 255 + 127, 255, under as int, 127);
}

/// `out` holds, channel for channel, the blend of the `n`-pixel four-channel
/// source `src` over the three-channel existing content `under`.
pub open spec fn is_blend(out: Seq<u8>, src: Seq<u8>, under: Seq<u8>, n: int) -> bool {
    &&& out.len() == 3 * n
    &&& forall|i: int, c: int|
        0 <= i < n && 0 <= c < 3 ==> #[trigger] out[3 * i + c] == blend_channel_spec(
            src[4 * i + c],
            under[3 * i + c],
            src[4 * i + 3],
        )
}

/// `out` is the `n`-pixel four-channel image `src` with its weight channel
/// dropped: the same three color channels per pixel.
pub open spec fn is_rgb_of(out: Seq<u8>, src: Seq<u8>, n: int) -> bool {
    &&& out.len() == 3 * n
    &&& forall|i: int, c: int|
        0 <= i < n && 0 <= c < 3 ==> #[trigger] out[3 * i + c] == src[4 * i + c]
}

/// Computes the overlay image for a transparent draw: every pixel of the
/// result blends the source pixel over the existing content under it, per
/// channel, using the source pixel's weight channel. The whole result is
/// computed in memory, so the device sees a single opaque image and never a
/// partially blended intermediate state.
pub fn blend_images(src: &RgbaImage, under: &RgbImage) -> (r: RgbImage)
    requires
        src.wf(),
        under.wf(),
        src.width == under.width,
        src.height == under.height,
    ensures
        r.wf(),
        r.width == src.width,
        r.height == src.height,
        is_blend(r.data@, src.data@, under.data@, src.pixel_count()),
{
    let total = src.data.len();
    proof {
        lemma_mul_nonnegative(src.width as int, src.height as int);
        assert(total == 4 * src.pixel_count());
        assert(src.pixel_count() <= usize::MAX);
    }
    let n: usize = (src.width as usize) * (src.height as usize);
    let mut data: Vec<u8> = Vec::new();
    let mut i: usize = 0;
    while i < n
        invariant
            src.wf(),
            under.wf(),
            src.width == under.width,
            src.height == under.height,
            n as int == src.pixel_count(),
            4 * (n as int) <= usize::MAX,
            i <= n,
            data@.len() == 3 * i,
            forall|p: int, c: int|
                0 <= p < i && 0 <= c < 3 ==> #[trigger] data@[3 * p + c] == blend_channel_spec(
                    src.data@[4 * p + c],
                    under.data@[3 * p + c],
                    src.data@[4 * p + 3],
                ),
        decreases n - i,
    {
        let weight = src.data[4 * i + 3];
        let r0 = blend_channel(src.data[4 * i], under.data[3 * i], weight);
        let g0 = blend_channel(src.data[4 * i + 1], under.data[3 * i + 1], weight);
        let b0 = blend_channel(src.data[4 * i + 2], under.data[3 * i + 2], weight);
        let ghost pre = data@;
        data.push(r0);
        data.push(g0);
        data.push(b0);
        proof {
            assert forall|p: int, c: int| 0 <= p < i + 1 && 0 <= c < 3 implies #[trigger] data@[3
                * p + c] == blend_channel_spec(
                src.data@[4 * p + c],
                under.data@[3 * p + c],
                src.data@[4 * p + 3],
            ) by {
                if p < i {
                    assert(data@[3 * p + c] == pre[3 * p + c]);
                } else {
                    assert(data@[3 * i + 0] == r0);
                    assert(data@[3 * i + 1] == g0);
                    assert(data@[3 * i + 2] == b0);
                }
            }
        }
        i = i + 1;
    }
    RgbImage { width: src.width, height: src.height, data }
}

/// Converts a four-channel image to the opaque three-channel image holding
/// the same color channels, dropping the per-pixel weight channel. This is
/// the direct-write path for images drawn without transparency.
pub fn drop_weight_channel(src: &RgbaImage) -> (r: RgbImage)
    requires
        src.wf(),
    ensures
        r.wf(),
        r.width == src.width,
        r.height == src.height,
        is_rgb_of(r.data@, src.data@, src.pixel_count()),
{
    let total = src.data.len();
    proof {
        lemma_mul_nonnegative(src.width as int, src.height as int);
        assert(total == 4 * src.pixel_count());
        assert(src.pixel_count() <= usize::MAX);
    }
    let n: usize = (src.width as usize) * (src.height as usize);
    let mut data: Vec<u8> = Vec::new();
    let mut i: usize = 0;
    while i < n
        invariant
            src.wf(),
            n as int == src.pixel_count(),
            4 * (n as int) <= usize::MAX,
            i <= n,
            data@.len() == 3 * i,
            forall|p: int, c: int|
                0 <= p < i && 0 <= c < 3 ==> #[trigger] data@[3 * p + c] == src.data@[4 * p + c],
        decreases n - i,
    {
        let r0 = src.data[4 * i];
        let g0 = src.data[4 * i + 1];
        let b0 = src.data[4 * i + 2];
        let ghost pre = data@;
        data.push(r0);
        data.push(g0);
        data.push(b0);
        proof {
            assert forall|p: int, c: int| 0 <= p < i + 1 && 0 <= c < 3 implies #[trigger] data@[3
                * p + c] == src.data@[4 * p + c] by {
                if p < i {
                    assert(data@[3 * p + c] == pre[3 * p + c]);
                } else {
                    assert(data@[3 * i + 0] == r0);
                    assert(data@[3 * i + 1] == g0);
                    assert(data@[3 * i + 2] == b0);
                }
            }
        }
        i = i + 1;
    }
    RgbImage { width: src.width, height: src.height, data }
}

/// Blend identity at zero coverage: when every source pixel's weight channel
/// is 255, the existing content has no share anywhere and the blended image
/// is exactly the source image's color channels.
pub proof fn lemma_blend_all_source(out: Seq<u8>, src: Seq<u8>, under: Seq<u8>, n: int)
    requires
        n >= 0,
        src.len() == 4 * n,
        under.len() == 3 * n,
        is_blend(out, src, under, n),
        forall|i: int| 0 <= i < n ==> #[trigger] src[4 * i + 3] == 255,
    ensures
        is_rgb_of(out, src, n),
{
    assert forall|i: int, c: int| 0 <= i < n && 0 <= c < 3 implies #[trigger] out[3 * i + c]
        == src[4 * i + c] by {
        assert(src[4 * i + 3] == 255);
        lemma_blend_channel_full_weight(src[4 * i + c], under[3 * i + c]);
    }
}

/// Blend passthrough at full coverage: when every source pixel's weight
/// channel is 0, the blended image is exactly the pre-existing content.
pub proof fn lemma_blend_all_under(out: Seq<u8>, src: Seq<u8>, under: Seq<u8>, n: int)
    requires
        n >= 0,
        src.len() == 4 * n,
        under.len() == 3 * n,
        is_blend(out, src, under, n),
        forall|i: int| 0 <= i < n ==> #[trigger] src[4 * i + 3] == 0,
    ensures
        out == under,
{
    assert forall|j: int| 0 <= j < 3 * n implies out[j] == under[j] by {
        lemma_fundamental_div_mod(j, 3);
        lemma_mod_pos_bound(j, 3);
        let p = j / 3;
        let c = j % 3;
        assert(j == 3 * p + c);
        assert(0 <= p < n);
        assert(src[4 * p + 3] == 0);
        lemma_blend_channel_zero_weight(src[4 * p + c], under[3 * p + c]);
        assert(out[3 * p + c] == under[3 * p + c]);
    }
    assert(out =~= under);
}

} // verus!

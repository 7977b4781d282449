//! Laying a frame out in the window: the letterbox, the source pixels behind each
//! output pixel, and the output buffer itself.
//!
//! The fractional arithmetic (the scale factor, the sample positions, the blend of
//! one colour channel) is the caller's. It hands over the fitted size, the whole
//! part of each sample position, and a function that blends one channel.

use vstd::prelude::*;

use crate::frame::DecodedFrame;

verus! {

/// Where the picture sits in the output: a `dw` by `dh` box whose top left corner
/// is at (`x_off`, `y_off`) of an `out_w` by `out_h` buffer.
#[derive(Clone, Copy, Debug, PartialEq, Eq)]
pub struct Letterbox {
    pub out_w: usize,
    pub out_h: usize,
    pub dw: usize,
    pub dh: usize,
    pub x_off: usize,
    pub y_off: usize,
}

impl Letterbox {
    /// Whether the output pixel in column `x` of row `y` belongs to the picture.
    pub open spec fn covers(self, x: int, y: int) -> bool {
        &&& self.x_off <= x < self.x_off + self.dw
        &&& self.y_off <= y < self.y_off + self.dh
    }
}

/// `v`, or 1 in place of 0.
pub open spec fn at_least_one(v: usize) -> usize {
    if v == 0 {
        1
    } else {
        v
    }
}

/// `v` brought into the range 1 to `max`.
pub open spec fn clamped(v: usize, max: usize) -> usize {
    if v < 1 {
        1
    } else if v > max {
        max
    } else {
        v
    }
}

/// The letterbox of a picture fitted to `fit_w` by `fit_h` in an output of
/// `out_w` by `out_h`: neither is ever empty, the picture never leaves the output,
/// and it sits in the middle.
pub open spec fn letterbox_of(out_w: usize, out_h: usize, fit_w: usize, fit_h: usize) -> Letterbox {
    let ow = at_least_one(out_w);
    let oh = at_least_one(out_h);
    let dw = clamped(fit_w, ow);
    let dh = clamped(fit_h, oh);
    Letterbox {
        out_w: ow,
        out_h: oh,
        dw,
        dh,
        x_off: ((ow - dw) / 2) as usize,
        y_off: ((oh - dh) / 2) as usize,
    }
}

fn clamp_side(v: usize, max: usize) -> (r: usize)
    requires
        max >= 1,
    ensures
        r == clamped(v, max),
{
    if v < 1 {
        1
    } else if v > max {
        max
    } else {
        v
    }
}

/// Lay a picture fitted to `fit_w` by `fit_h` out in an output of `out_w` by
/// `out_h`.
pub fn letterbox(out_w: usize, out_h: usize, fit_w: usize, fit_h: usize) -> (layout: Letterbox)
    ensures
        layout == letterbox_of(out_w, out_h, fit_w, fit_h),
{
    let ow: usize = if out_w == 0 { 1 } else { out_w };
    let oh: usize = if out_h == 0 { 1 } else { out_h };
    let dw = clamp_side(fit_w, ow);
    let dh = clamp_side(fit_h, oh);
    Letterbox { out_w: ow, out_h: oh, dw, dh, x_off: (ow - dw) / 2, y_off: (oh - dh) / 2 }
}

/// The nearer source index for a sample whose whole part is `raw`.
pub open spec fn tap_lo(raw: usize, last: int) -> int {
    if raw <= last {
        raw as int
    } else {
        last
    }
}

/// The farther source index for a sample whose whole part is `raw`.
pub open spec fn tap_hi(raw: usize, last: int) -> int {
    if raw < last {
        raw + 1
    } else {
        last
    }
}

/// The two neighbouring source indices that a sample lies between, both kept
/// within the source.
pub fn tap(raw: usize, last: usize) -> (pair: (usize, usize))
    ensures
        pair.0 == tap_lo(raw, last as int),
        pair.1 == tap_hi(raw, last as int),
{
    if raw < last {
        (raw, raw + 1)
    } else {
        (last, last)
    }
}

/// One colour channel of a `0x00RRGGBB` pixel: blue at 0, green at 8, red at 16.
pub open spec fn channel(p: u32, shift: u32) -> u32 {
    (p >> shift) & 0xff
}

/// The low byte of what `blend` gave for one channel of four pixels is that
/// channel of `out`.
pub open spec fn channel_blended<F: Fn(u32, u32, u32, u32, usize, usize) -> u32>(
    blend: F,
    corners: (u32, u32, u32, u32),
    x: usize,
    y: usize,
    shift: u32,
    out: u32,
) -> bool {
    exists|v: u32|
        channel(out, shift) == v & 0xff && #[trigger] call_ensures(
            blend,
            (
                channel(corners.0, shift),
                channel(corners.1, shift),
                channel(corners.2, shift),
                channel(corners.3, shift),
                x,
                y,
            ),
            v,
        )
}

/// `out` is the blend, channel by channel, of four pixels: top left, top right,
/// bottom left, bottom right. Its top byte is zero.
pub open spec fn blended<F: Fn(u32, u32, u32, u32, usize, usize) -> u32>(
    blend: F,
    corners: (u32, u32, u32, u32),
    x: usize,
    y: usize,
    out: u32,
) -> bool {
    &&& out <= 0xff_ffff
    &&& channel_blended(blend, corners, x, y, 0, out)
    &&& channel_blended(blend, corners, x, y, 8, out)
    &&& channel_blended(blend, corners, x, y, 16, out)
}

/// `blend` may be called on any four channel values.
pub open spec fn blends_channels<F: Fn(u32, u32, u32, u32, usize, usize) -> u32>(
    blend: F,
    x: usize,
    y: usize,
) -> bool {
    forall|c00: u32, c10: u32, c01: u32, c11: u32|
        c00 < 256 && c10 < 256 && c01 < 256 && c11 < 256 ==> #[trigger] call_requires(
            blend,
            (c00, c10, c01, c11, x, y),
        )
}

fn blend_channel<F: Fn(u32, u32, u32, u32, usize, usize) -> u32>(
    blend: &F,
    corners: (u32, u32, u32, u32),
    x: usize,
    y: usize,
    shift: u32,
) -> (v: u32)
    requires
        shift < 32,
        blends_channels(*blend, x, y),
    ensures
        call_ensures(
            *blend,
            (
                channel(corners.0, shift),
                channel(corners.1, shift),
                channel(corners.2, shift),
                channel(corners.3, shift),
                x,
                y,
            ),
            v,
        ),
{
    let (p00, p10, p01, p11) = corners;
    let c00: u32 = (p00 >> shift) & 0xff;
    let c10: u32 = (p10 >> shift) & 0xff;
    let c01: u32 = (p01 >> shift) & 0xff;
    let c11: u32 = (p11 >> shift) & 0xff;
    assert((p00 >> shift) & 0xff < 256 && (p10 >> shift) & 0xff < 256) by (bit_vector);
    assert((p01 >> shift) & 0xff < 256 && (p11 >> shift) & 0xff < 256) by (bit_vector);
    blend(c00, c10, c01, c11, x, y)
}

/// Blend four `0x00RRGGBB` pixels channel by channel. `x` and `y` are the position
/// in the picture that the pixel is for, by which `blend` finds its weights.
pub fn bilerp<F: Fn(u32, u32, u32, u32, usize, usize) -> u32>(
    p00: u32,
    p10: u32,
    p01: u32,
    p11: u32,
    x: usize,
    y: usize,
    blend: &F,
) -> (out: u32)
    requires
        blends_channels(*blend, x, y),
    ensures
        blended(*blend, (p00, p10, p01, p11), x, y, out),
        ({
            let blue = (p00 % 0x100, p10 % 0x100, p01 % 0x100, p11 % 0x100, x, y);
            let green = (
                (p00 / 0x100) % 0x100,
                (p10 / 0x100) % 0x100,
                (p01 / 0x100) % 0x100,
                (p11 / 0x100) % 0x100,
                x,
                y,
            );
            let red = (
                (p00 / 0x1_0000) % 0x100,
                (p10 / 0x1_0000) % 0x100,
                (p01 / 0x1_0000) % 0x100,
                (p11 / 0x1_0000) % 0x100,
                x,
                y,
            );
            &&& out <= 0xff_ffff
            &&& exists|v: u32|
                out % 0x100 == v % 0x100 && #[trigger] call_ensures(*blend, blue, v)
            &&& exists|v: u32|
                (out / 0x100) % 0x100 == v % 0x100 && #[trigger] call_ensures(*blend, green, v)
            &&& exists|v: u32|
                (out / 0x1_0000) % 0x100 == v % 0x100 && #[trigger] call_ensures(*blend, red, v)
        }),
{
    let corners = (p00, p10, p01, p11);
    let b: u32 = blend_channel(blend, corners, x, y, 0);
    let g: u32 = blend_channel(blend, corners, x, y, 8);
    let r: u32 = blend_channel(blend, corners, x, y, 16);
    let out: u32 = (b & 0xff) | ((g & 0xff) << 8) | ((r & 0xff) << 16);
    assert(out <= 0xff_ffff && (out >> 0) & 0xff == b & 0xff && (out >> 8) & 0xff == g & 0xff && (
    out >> 16) & 0xff == r & 0xff) by (bit_vector)
        requires
            out == (b & 0xff) | ((g & 0xff) << 8) | ((r & 0xff) << 16),
    ;
    proof {
        law_blends_channel_by_channel(*blend, p00, p10, p01, p11, x, y, out);
    }
    out
}

/// The pixel in column `x` of row `y` of a buffer whose rows are `w` long.
pub open spec fn buffer_pixel(buf: Seq<u32>, w: int, x: int, y: int) -> u32 {
    buf[y * w + x]
}

/// Every source pixel that some output pixel is blended from lies in the buffer.
pub open spec fn taps_in_source(src: DecodedFrame, cols: Seq<usize>, rows: Seq<usize>) -> bool {
    forall|x: int, y: int|
        #![trigger cols[x], rows[y]]
        0 <= x < cols.len() && 0 <= y < rows.len() ==> tap_hi(rows[y], src.height - 1) * src.width
            + tap_hi(cols[x], src.width - 1) < src.buf@.len()
}

/// The four source pixels behind the picture's pixel in column `x` of row `y`.
pub open spec fn corners_at(
    src: DecodedFrame,
    cols: Seq<usize>,
    rows: Seq<usize>,
    x: int,
    y: int,
) -> (u32, u32, u32, u32) {
    let x0 = tap_lo(cols[x], src.width - 1);
    let x1 = tap_hi(cols[x], src.width - 1);
    let y0 = tap_lo(rows[y], src.height - 1);
    let y1 = tap_hi(rows[y], src.height - 1);
    (src.pixel(x0, y0), src.pixel(x1, y0), src.pixel(x0, y1), src.pixel(x1, y1))
}

/// What the output pixel in column `x` of row `y` has to be: the blend of its four
/// source pixels inside the picture, black in the bars around it.
pub open spec fn output_pixel<F: Fn(u32, u32, u32, u32, usize, usize) -> u32>(
    src: DecodedFrame,
    layout: Letterbox,
    cols: Seq<usize>,
    rows: Seq<usize>,
    blend: F,
    x: int,
    y: int,
    out: u32,
) -> bool {
    if layout.covers(x, y) {
        let px = x - layout.x_off;
        let py = y - layout.y_off;
        blended(blend, corners_at(src, cols, rows, px, py), px as usize, py as usize, out)
    } else {
        out == 0
    }
}

/// `buf` is the frame laid out in the output: one pixel for each place, each what it
/// has to be.
pub open spec fn is_scaled<F: Fn(u32, u32, u32, u32, usize, usize) -> u32>(
    src: DecodedFrame,
    layout: Letterbox,
    cols: Seq<usize>,
    rows: Seq<usize>,
    blend: F,
    buf: Seq<u32>,
) -> bool {
    &&& buf.len() == layout.out_w * layout.out_h
    &&& forall|x: int, y: int|
        0 <= x < layout.out_w && 0 <= y < layout.out_h ==> output_pixel(
            src,
            layout,
            cols,
            rows,
            blend,
            x,
            y,
            #[trigger] buffer_pixel(buf, layout.out_w as int, x, y),
        )
}

proof fn lemma_index_in_buffer(w: int, h: int, x: int, y: int)
    requires
        0 <= x < w,
        0 <= y < h,
    ensures
        0 <= y * w,
        y * w + x < w * h,
{
    assert(0 <= y * w && y * w + w <= w * h) by (nonlinear_arith)
        requires
            0 <= x < w,
            0 <= y < h,
    ;
}

proof fn lemma_index_injective(w: int, x1: int, y1: int, x2: int, y2: int)
    requires
        0 <= x1 < w,
        0 <= x2 < w,
        y1 * w + x1 == y2 * w + x2,
    ensures
        x1 == x2,
        y1 == y2,
{
    assert(y1 == y2) by (nonlinear_arith)
        requires
            0 <= x1 < w,
            0 <= x2 < w,
            y1 * w + x1 == y2 * w + x2,
    ;
}

/// The picture's pixel in column `x` of row `y`.
fn sample<F: Fn(u32, u32, u32, u32, usize, usize) -> u32>(
    src: &DecodedFrame,
    cols: &Vec<usize>,
    rows: &Vec<usize>,
    x: usize,
    y: usize,
    blend: &F,
) -> (out: u32)
    requires
        src.width > 0,
        src.height > 0,
        taps_in_source(*src, cols@, rows@),
        x < cols@.len(),
        y < rows@.len(),
        blends_channels(*blend, x, y),
    ensures
        blended(*blend, corners_at(*src, cols@, rows@, x as int, y as int), x, y, out),
{
    let (x0, x1) = tap(cols[x], src.width - 1);
    let (y0, y1) = tap(rows[y], src.height - 1);
    proof {
        assert(y1 * src.width + x1 < src.buf.len());
        let w: int = src.width as int;
        assert(0 <= y0 * w <= y1 * w) by (nonlinear_arith)
            requires
                0 <= y0 <= y1,
                w > 0,
        ;
    }
    let srow0: usize = y0 * src.width;
    let srow1: usize = y1 * src.width;
    bilerp(
        src.buf[srow0 + x0],
        src.buf[srow0 + x1],
        src.buf[srow1 + x0],
        src.buf[srow1 + x1],
        x,
        y,
        blend,
    )
}

/// Fill `dst` with the frame, scaled to `fit.0` by `fit.1`, in the middle of a black
/// buffer of `out_w` by `out_h`, and return the size of that buffer.
///
/// `cols` and `rows` hold, for each column and row of the picture, the whole part of
/// the source position that it samples. `blend` blends one channel of the four
/// source pixels around that position.
pub fn scale_frame<F: Fn(u32, u32, u32, u32, usize, usize) -> u32>(
    src: &DecodedFrame,
    out_w: usize,
    out_h: usize,
    fit: (usize, usize),
    cols: &Vec<usize>,
    rows: &Vec<usize>,
    blend: &F,
    dst: &mut Vec<u32>,
) -> (size: (usize, usize))
    requires
        src.width > 0,
        src.height > 0,
        at_least_one(out_w) * at_least_one(out_h) <= usize::MAX,
        cols@.len() == letterbox_of(out_w, out_h, fit.0, fit.1).dw,
        rows@.len() == letterbox_of(out_w, out_h, fit.0, fit.1).dh,
        taps_in_source(*src, cols@, rows@),
        forall|x: usize, y: usize|
            x < cols@.len() && y < rows@.len() ==> #[trigger] blends_channels(*blend, x, y),
    ensures
        size == (at_least_one(out_w), at_least_one(out_h)),
        final(dst)@.len() == size.0 * size.1,
        is_scaled(
            *src,
            letterbox_of(out_w, out_h, fit.0, fit.1),
            cols@,
            rows@,
            *blend,
            final(dst)@,
        ),
        size.0 == vstd::math::max(out_w as int, 1),
        size.1 == vstd::math::max(out_h as int, 1),
        forall|i: int, j: int|
            #![trigger cols@[i], rows@[j]]
            0 <= i < cols@.len() && 0 <= j < rows@.len() && (forall|
                c00: u32,
                c10: u32,
                c01: u32,
                c11: u32,
                v: u32,
            |
                c00 < 256 && c10 < 256 && c01 < 256 && c11 < 256 && #[trigger] call_ensures(
                    *blend,
                    (c00, c10, c01, c11, i as usize, j as usize),
                    v,
                ) ==> v == c00) ==> {
                let ow = vstd::math::max(out_w as int, 1);
                let oh = vstd::math::max(out_h as int, 1);
                let x_off = (ow - cols@.len()) / 2;
                let y_off = (oh - rows@.len()) / 2;
                final(dst)@[(y_off + j) * ow + x_off + i] == src.buf@[vstd::math::min(
                    rows@[j] as int,
                    src.height - 1,
                ) * src.width + vstd::math::min(cols@[i] as int, src.width - 1)] & 0xff_ffff
            },
        forall|k: int|
            #![trigger final(dst)@[k]]
            0 <= k < final(dst)@.len() && !({
                let ow = vstd::math::max(out_w as int, 1);
                let oh = vstd::math::max(out_h as int, 1);
                &&& (ow - cols@.len()) / 2 <= k % ow < (ow - cols@.len()) / 2 + cols@.len()
                &&& (oh - rows@.len()) / 2 <= k / ow < (oh - rows@.len()) / 2 + rows@.len()
            }) ==> final(dst)@[k] == 0,
{
    let layout = letterbox(out_w, out_h, fit.0, fit.1);
    let w: usize = layout.out_w;
    let h: usize = layout.out_h;
    dst.clear();
    dst.resize(w * h, 0);
    assert forall|x: int, y: int| 0 <= x < w && 0 <= y < h implies #[trigger] buffer_pixel(
        dst@,
        w as int,
        x,
        y,
    ) == 0 by {
        lemma_index_in_buffer(w as int, h as int, x, y);
    }
    let mut y: usize = 0;
    while y < layout.dh
        invariant
            layout == letterbox_of(out_w, out_h, fit.0, fit.1),
            w == layout.out_w,
            h == layout.out_h,
            w * h <= usize::MAX,
            src.width > 0,
            src.height > 0,
            cols@.len() == layout.dw,
            rows@.len() == layout.dh,
            taps_in_source(*src, cols@, rows@),
            forall|i: usize, j: usize|
                i < cols@.len() && j < rows@.len() ==> #[trigger] blends_channels(*blend, i, j),
            y <= layout.dh,
            dst@.len() == w * h,
            forall|i: int, j: int|
                0 <= i < w && 0 <= j < h ==> {
                    let p = #[trigger] buffer_pixel(dst@, w as int, i, j);
                    if j < layout.y_off + y {
                        output_pixel(*src, layout, cols@, rows@, *blend, i, j, p)
                    } else {
                        p == 0
                    }
                },
        decreases layout.dh - y,
    {
        let mut x: usize = 0;
        while x < layout.dw
            invariant
                layout == letterbox_of(out_w, out_h, fit.0, fit.1),
                w == layout.out_w,
                h == layout.out_h,
                w * h <= usize::MAX,
                src.width > 0,
                src.height > 0,
                cols@.len() == layout.dw,
                rows@.len() == layout.dh,
                taps_in_source(*src, cols@, rows@),
                forall|i: usize, j: usize|
                    i < cols@.len() && j < rows@.len() ==> #[trigger] blends_channels(*blend, i, j),
                y < layout.dh,
                x <= layout.dw,
                dst@.len() == w * h,
                forall|i: int, j: int|
                    0 <= i < w && 0 <= j < h ==> {
                        let p = #[trigger] buffer_pixel(dst@, w as int, i, j);
                        if j < layout.y_off + y || (j == layout.y_off + y && i < layout.x_off + x) {
                            output_pixel(*src, layout, cols@, rows@, *blend, i, j, p)
                        } else {
                            p == 0
                        }
                    },
            decreases layout.dw - x,
        {
            let ghost before = dst@;
            let ghost ox = layout.x_off + x;
            let ghost oy = layout.y_off + y;
            proof {
                lemma_index_in_buffer(w as int, h as int, ox, oy);
            }
            let p: u32 = sample(src, cols, rows, x, y, blend);
            let drow: usize = (y + layout.y_off) * w + layout.x_off;
            dst.set(drow + x, p);
            assert forall|i: int, j: int| 0 <= i < w && 0 <= j < h implies #[trigger] buffer_pixel(
                dst@,
                w as int,
                i,
                j,
            ) == (if i == ox && j == oy {
                p
            } else {
                buffer_pixel(before, w as int, i, j)
            }) by {
                lemma_index_in_buffer(w as int, h as int, i, j);
                if j * w + i == oy * w + ox {
                    lemma_index_injective(w as int, i, j, ox, oy);
                }
            }
            x = x + 1;
        }
        y = y + 1;
    }
    proof {
        assert forall|i: int, j: int|
            #![trigger cols@[i], rows@[j]]
            0 <= i < cols@.len() && 0 <= j < rows@.len() && (forall|
                c00: u32,
                c10: u32,
                c01: u32,
                c11: u32,
                v: u32,
            |
                c00 < 256 && c10 < 256 && c01 < 256 && c11 < 256 && #[trigger] call_ensures(
                    *blend,
                    (c00, c10, c01, c11, i as usize, j as usize),
                    v,
                ) ==> v == c00) implies {
                let ow = vstd::math::max(out_w as int, 1);
                let oh = vstd::math::max(out_h as int, 1);
                let x_off = (ow - cols@.len()) / 2;
                let y_off = (oh - rows@.len()) / 2;
                dst@[(y_off + j) * ow + x_off + i] == src.buf@[vstd::math::min(
                    rows@[j] as int,
                    src.height - 1,
                ) * src.width + vstd::math::min(cols@[i] as int, src.width - 1)] & 0xff_ffff
            } by {
            law_nearest_pixel_shown(*src, out_w, out_h, fit, cols@, rows@, *blend, dst@, i, j);
        }
        assert forall|k: int|
            #![trigger dst@[k]]
            0 <= k < dst@.len() && !({
                let ow = vstd::math::max(out_w as int, 1);
                let oh = vstd::math::max(out_h as int, 1);
                &&& (ow - cols@.len()) / 2 <= k % ow < (ow - cols@.len()) / 2 + cols@.len()
                &&& (oh - rows@.len()) / 2 <= k / ow < (oh - rows@.len()) / 2 + rows@.len()
            }) implies dst@[k] == 0 by {
            law_bars_black(*src, out_w, out_h, fit, cols@, rows@, *blend, dst@, k);
        }
    }
    (w, h)
}

/// The picture lies inside the output and in its middle: what is left over on two
/// opposite sides differs by one pixel at most.
pub proof fn law_letterbox_centred(out_w: usize, out_h: usize, fit_w: usize, fit_h: usize)
    ensures
        ({
            let l = letterbox_of(out_w, out_h, fit_w, fit_h);
            let right = l.out_w - l.dw - l.x_off;
            let bottom = l.out_h - l.dh - l.y_off;
            &&& 1 <= l.dw && 1 <= l.dh
            &&& l.x_off <= right <= l.x_off + 1
            &&& l.y_off <= bottom <= l.y_off + 1
        }),
{
}

/// A picture that fits the output along one side leaves no bar there.
pub proof fn law_letterbox_fills(out_w: usize, out_h: usize, fit_w: usize, fit_h: usize)
    ensures
        fit_w >= at_least_one(out_w) ==> ({
            let l = letterbox_of(out_w, out_h, fit_w, fit_h);
            l.dw == l.out_w && l.x_off == 0
        }),
        fit_h >= at_least_one(out_h) ==> ({
            let l = letterbox_of(out_w, out_h, fit_w, fit_h);
            l.dh == l.out_h && l.y_off == 0
        }),
{
}

/// The two source indices of a sample are the same or neighbours, and both are
/// indices of the source.
pub proof fn law_tap_neighbours(raw: usize, last: usize)
    ensures
        0 <= tap_lo(raw, last as int) <= tap_hi(raw, last as int) <= last,
        tap_hi(raw, last as int) - tap_lo(raw, last as int) <= 1,
{
}

/// A frame whose buffer holds all its pixels can be sampled anywhere: no sample
/// position leads outside the buffer.
pub proof fn law_full_frame_samples(src: DecodedFrame, cols: Seq<usize>, rows: Seq<usize>)
    requires
        src.wf(),
    ensures
        taps_in_source(src, cols, rows),
{
    assert forall|x: int, y: int|
        #![trigger cols[x], rows[y]]
        0 <= x < cols.len() && 0 <= y < rows.len() implies tap_hi(rows[y], src.height - 1)
        * src.width + tap_hi(cols[x], src.width - 1) < src.buf@.len() by {
        lemma_index_in_buffer(
            src.width as int,
            src.height as int,
            tap_hi(cols[x], src.width - 1),
            tap_hi(rows[y], src.height - 1),
        );
    }
}

/// `blend` gives one result for each input.
pub open spec fn single_valued<F: Fn(u32, u32, u32, u32, usize, usize) -> u32>(blend: F) -> bool {
    forall|args: (u32, u32, u32, u32, usize, usize), v: u32, w: u32|
        #[trigger] call_ensures(blend, args, v) && #[trigger] call_ensures(blend, args, w) ==> v
            == w
}

/// One of four: top left, top right, bottom left, bottom right.
pub open spec fn corner(of: (u32, u32, u32, u32), which: int) -> u32 {
    if which == 0 {
        of.0
    } else if which == 1 {
        of.1
    } else if which == 2 {
        of.2
    } else {
        of.3
    }
}

/// At a position of the picture, `blend` gives one of its four values back.
pub open spec fn picks_corner<F: Fn(u32, u32, u32, u32, usize, usize) -> u32>(
    blend: F,
    which: int,
    x: usize,
    y: usize,
) -> bool {
    forall|c00: u32, c10: u32, c01: u32, c11: u32, v: u32|
        c00 < 256 && c10 < 256 && c01 < 256 && c11 < 256 && #[trigger] call_ensures(
            blend,
            (c00, c10, c01, c11, x, y),
            v,
        ) ==> v == corner((c00, c10, c01, c11), which)
}

/// The least of four values.
pub open spec fn least(c: (u32, u32, u32, u32)) -> u32 {
    let a = if c.0 <= c.1 {
        c.0
    } else {
        c.1
    };
    let b = if c.2 <= c.3 {
        c.2
    } else {
        c.3
    };
    if a <= b {
        a
    } else {
        b
    }
}

/// The greatest of four values.
pub open spec fn greatest(c: (u32, u32, u32, u32)) -> u32 {
    let a = if c.0 >= c.1 {
        c.0
    } else {
        c.1
    };
    let b = if c.2 >= c.3 {
        c.2
    } else {
        c.3
    };
    if a >= b {
        a
    } else {
        b
    }
}

/// At a position of the picture, `blend` stays between its four values.
pub open spec fn stays_between<F: Fn(u32, u32, u32, u32, usize, usize) -> u32>(
    blend: F,
    x: usize,
    y: usize,
) -> bool {
    forall|c00: u32, c10: u32, c01: u32, c11: u32, v: u32|
        c00 < 256 && c10 < 256 && c01 < 256 && c11 < 256 && #[trigger] call_ensures(
            blend,
            (c00, c10, c01, c11, x, y),
            v,
        ) ==> least((c00, c10, c01, c11)) <= v <= greatest((c00, c10, c01, c11))
}

/// One channel of four pixels.
pub open spec fn corner_channels(corners: (u32, u32, u32, u32), shift: u32) -> (
    u32,
    u32,
    u32,
    u32,
) {
    (
        channel(corners.0, shift),
        channel(corners.1, shift),
        channel(corners.2, shift),
        channel(corners.3, shift),
    )
}

proof fn lemma_channel_is_byte(p: u32, shift: u32)
    ensures
        channel(p, shift) < 256,
{
    assert((p >> shift) & 0xff < 256) by (bit_vector);
}

proof fn lemma_low_byte(v: u32)
    requires
        v < 256,
    ensures
        v & 0xff == v,
{
    assert(v & 0xff == v) by (bit_vector)
        requires
            v < 256,
    ;
}

/// A pixel with a zero top byte is what its three channels are.
proof fn lemma_channels_make_pixel(out: u32, p: u32)
    requires
        out <= 0xff_ffff,
        channel(out, 0) == channel(p, 0),
        channel(out, 8) == channel(p, 8),
        channel(out, 16) == channel(p, 16),
    ensures
        out == p & 0xff_ffff,
{
    assert(out == p & 0xff_ffff) by (bit_vector)
        requires
            out <= 0xff_ffff,
            (out >> 0) & 0xff == (p >> 0) & 0xff,
            (out >> 8) & 0xff == (p >> 8) & 0xff,
            (out >> 16) & 0xff == (p >> 16) & 0xff,
    ;
}

/// Each channel of a blend lies between the least and the greatest of that channel in
/// the four pixels, where the channel blend stays between its four values; the top byte
/// is zero.
pub proof fn law_channels_stay_between<F: Fn(u32, u32, u32, u32, usize, usize) -> u32>(
    blend: F,
    corners: (u32, u32, u32, u32),
    x: usize,
    y: usize,
    out: u32,
    shift: u32,
)
    requires
        stays_between(blend, x, y),
        blended(blend, corners, x, y, out),
        shift == 0 || shift == 8 || shift == 16,
    ensures
        least(corner_channels(corners, shift)) <= channel(out, shift) <= greatest(
            corner_channels(corners, shift),
        ),
        out >> 24 == 0,
{
    let c = corner_channels(corners, shift);
    lemma_channel_is_byte(corners.0, shift);
    lemma_channel_is_byte(corners.1, shift);
    lemma_channel_is_byte(corners.2, shift);
    lemma_channel_is_byte(corners.3, shift);
    assert(channel_blended(blend, corners, x, y, shift, out));
    let v = choose|v: u32|
        channel(out, shift) == v & 0xff && #[trigger] call_ensures(
            blend,
            (c.0, c.1, c.2, c.3, x, y),
            v,
        );
    lemma_low_byte(v);
    assert(out >> 24 == 0) by (bit_vector)
        requires
            out <= 0xff_ffff,
    ;
}

/// A channel of a blend depends on that channel of the four pixels alone: neither the
/// other channels nor the top bytes matter.
pub proof fn law_channels_stay_apart<F: Fn(u32, u32, u32, u32, usize, usize) -> u32>(
    blend: F,
    corners: (u32, u32, u32, u32),
    others: (u32, u32, u32, u32),
    x: usize,
    y: usize,
    out: u32,
    other: u32,
    shift: u32,
)
    requires
        single_valued(blend),
        blended(blend, corners, x, y, out),
        blended(blend, others, x, y, other),
        shift == 0 || shift == 8 || shift == 16,
        corner_channels(corners, shift) == corner_channels(others, shift),
    ensures
        channel(out, shift) == channel(other, shift),
{
    let c = corner_channels(corners, shift);
    assert(channel_blended(blend, corners, x, y, shift, out));
    assert(channel_blended(blend, others, x, y, shift, other));
    let v = choose|v: u32|
        channel(out, shift) == v & 0xff && #[trigger] call_ensures(
            blend,
            (c.0, c.1, c.2, c.3, x, y),
            v,
        );
    let w = choose|w: u32|
        channel(other, shift) == w & 0xff && #[trigger] call_ensures(
            blend,
            (c.0, c.1, c.2, c.3, x, y),
            w,
        );
}

/// The corners are exact: where the channel blend gives one of its four values back,
/// the blend of four pixels is that pixel, with its top byte cleared.
pub proof fn law_corners_exact<F: Fn(u32, u32, u32, u32, usize, usize) -> u32>(
    blend: F,
    corners: (u32, u32, u32, u32),
    which: int,
    x: usize,
    y: usize,
    out: u32,
)
    requires
        0 <= which < 4,
        picks_corner(blend, which, x, y),
        blended(blend, corners, x, y, out),
    ensures
        out == corner(corners, which) & 0xff_ffff,
{
    let p = corner(corners, which);
    assert forall|shift: u32|
        (shift == 0 || shift == 8 || shift == 16) implies #[trigger] channel(out, shift) == channel(
        p,
        shift,
    ) by {
        let c = corner_channels(corners, shift);
        lemma_channel_is_byte(corners.0, shift);
        lemma_channel_is_byte(corners.1, shift);
        lemma_channel_is_byte(corners.2, shift);
        lemma_channel_is_byte(corners.3, shift);
        assert(channel_blended(blend, corners, x, y, shift, out));
        let v = choose|v: u32|
            channel(out, shift) == v & 0xff && #[trigger] call_ensures(
                blend,
                (c.0, c.1, c.2, c.3, x, y),
                v,
            );
        assert(v == corner((c.0, c.1, c.2, c.3), which));
        lemma_low_byte(v);
    }
    lemma_channels_make_pixel(out, p);
}

/// A blend of four pixels has one result, where the channel blend has.
proof fn lemma_blended_unique<F: Fn(u32, u32, u32, u32, usize, usize) -> u32>(
    blend: F,
    corners: (u32, u32, u32, u32),
    x: usize,
    y: usize,
    out: u32,
    other: u32,
)
    requires
        single_valued(blend),
        blended(blend, corners, x, y, out),
        blended(blend, corners, x, y, other),
    ensures
        out == other,
{
    law_channels_stay_apart(blend, corners, corners, x, y, out, other, 0);
    law_channels_stay_apart(blend, corners, corners, x, y, out, other, 8);
    law_channels_stay_apart(blend, corners, corners, x, y, out, other, 16);
    lemma_channels_make_pixel(out, other);
    assert(other & 0xff_ffff == other) by (bit_vector)
        requires
            other <= 0xff_ffff,
    ;
}

/// Two buffers agree if they agree place by place.
proof fn lemma_buffers_equal(a: Seq<u32>, b: Seq<u32>, w: int, h: int)
    requires
        w >= 1,
        a.len() == w * h,
        b.len() == w * h,
        forall|x: int, y: int|
            0 <= x < w && 0 <= y < h ==> #[trigger] buffer_pixel(a, w, x, y) == buffer_pixel(
                b,
                w,
                x,
                y,
            ),
    ensures
        a == b,
{
    assert forall|i: int| 0 <= i < a.len() implies a[i] == b[i] by {
        lemma_place_of_index(w, h, i);
        assert(buffer_pixel(a, w, i % w, i / w) == buffer_pixel(b, w, i % w, i / w));
    }
    assert(a =~= b);
}

proof fn lemma_place_of_index(w: int, h: int, i: int)
    requires
        w >= 1,
        0 <= i < w * h,
    ensures
        0 <= i % w < w,
        0 <= i / w < h,
        (i / w) * w + i % w == i,
{
    vstd::arithmetic::div_mod::lemma_fundamental_div_mod(i, w);
    assert(0 <= i % w < w && 0 <= i / w < h) by (nonlinear_arith)
        requires
            w >= 1,
            0 <= i < w * h,
    ;
    assert((i / w) * w == w * (i / w)) by (nonlinear_arith);
}

/// The output is made of the frame's pixels and nothing else: where the channel blend
/// has one result, the buffer is determined by the picture. What the buffer held before
/// does not matter, nor does what a frame's buffer holds behind its last pixel.
pub proof fn law_output_determined<F: Fn(u32, u32, u32, u32, usize, usize) -> u32>(
    src: DecodedFrame,
    same: DecodedFrame,
    out_w: usize,
    out_h: usize,
    fit: (usize, usize),
    cols: Seq<usize>,
    rows: Seq<usize>,
    blend: F,
    buf: Seq<u32>,
    other: Seq<u32>,
)
    requires
        src.wf(),
        same.wf(),
        src.dims() == same.dims(),
        forall|i: int| 0 <= i < src.width * src.height ==> src.buf@[i] == same.buf@[i],
        single_valued(blend),
        cols.len() == letterbox_of(out_w, out_h, fit.0, fit.1).dw,
        rows.len() == letterbox_of(out_w, out_h, fit.0, fit.1).dh,
        is_scaled(src, letterbox_of(out_w, out_h, fit.0, fit.1), cols, rows, blend, buf),
        is_scaled(same, letterbox_of(out_w, out_h, fit.0, fit.1), cols, rows, blend, other),
    ensures
        buf == other,
{
    let layout = letterbox_of(out_w, out_h, fit.0, fit.1);
    let w = layout.out_w as int;
    let h = layout.out_h as int;
    assert forall|x: int, y: int| 0 <= x < w && 0 <= y < h implies #[trigger] buffer_pixel(
        buf,
        w,
        x,
        y,
    ) == buffer_pixel(other, w, x, y) by {
        let p = buffer_pixel(buf, w, x, y);
        let q = buffer_pixel(other, w, x, y);
        assert(output_pixel(src, layout, cols, rows, blend, x, y, p));
        assert(output_pixel(same, layout, cols, rows, blend, x, y, q));
        if layout.covers(x, y) {
            let px = x - layout.x_off;
            let py = y - layout.y_off;
            lemma_same_corners(src, same, cols, rows, px, py);
            lemma_blended_unique(
                blend,
                corners_at(src, cols, rows, px, py),
                px as usize,
                py as usize,
                p,
                q,
            );
        }
    }
    lemma_buffers_equal(buf, other, w, h);
}

/// Frames that show the same picture have the same four pixels behind each pixel.
proof fn lemma_same_corners(
    src: DecodedFrame,
    same: DecodedFrame,
    cols: Seq<usize>,
    rows: Seq<usize>,
    x: int,
    y: int,
)
    requires
        src.wf(),
        same.wf(),
        src.dims() == same.dims(),
        forall|i: int| 0 <= i < src.width * src.height ==> src.buf@[i] == same.buf@[i],
    ensures
        corners_at(src, cols, rows, x, y) == corners_at(same, cols, rows, x, y),
{
    let w = src.width as int;
    let h = src.height as int;
    let (x0, x1) = (tap_lo(cols[x], w - 1), tap_hi(cols[x], w - 1));
    let (y0, y1) = (tap_lo(rows[y], h - 1), tap_hi(rows[y], h - 1));
    lemma_index_in_buffer(w, h, x0, y0);
    lemma_index_in_buffer(w, h, x1, y0);
    lemma_index_in_buffer(w, h, x0, y1);
    lemma_index_in_buffer(w, h, x1, y1);
}

/// Scaling to the same size is the identity: where the picture has the output's size,
/// each column and row samples its own index, and the channel blend gives its first
/// value back, every output pixel is the source pixel, with its top byte cleared.
pub proof fn law_same_size_is_identity<F: Fn(u32, u32, u32, u32, usize, usize) -> u32>(
    src: DecodedFrame,
    cols: Seq<usize>,
    rows: Seq<usize>,
    blend: F,
    buf: Seq<u32>,
)
    requires
        src.wf(),
        cols.len() == src.width,
        rows.len() == src.height,
        forall|x: int| 0 <= x < cols.len() ==> #[trigger] cols[x] == x,
        forall|y: int| 0 <= y < rows.len() ==> #[trigger] rows[y] == y,
        forall|x: usize, y: usize|
            x < src.width && y < src.height ==> #[trigger] picks_corner(blend, 0, x, y),
        is_scaled(
            src,
            letterbox_of(src.width, src.height, src.width, src.height),
            cols,
            rows,
            blend,
            buf,
        ),
    ensures
        buf.len() == src.width * src.height,
        forall|i: int|
            0 <= i < buf.len() ==> #[trigger] buf[i] == src.buf@[i] & 0xff_ffff,
{
    let layout = letterbox_of(src.width, src.height, src.width, src.height);
    let w = src.width as int;
    let h = src.height as int;
    assert forall|i: int| 0 <= i < buf.len() implies #[trigger] buf[i] == src.buf@[i]
        & 0xff_ffff by {
        let (x, y) = (i % w, i / w);
        lemma_place_of_index(w, h, i);
        let p = buffer_pixel(buf, w, x, y);
        assert(output_pixel(src, layout, cols, rows, blend, x, y, p));
        assert(layout.covers(x, y));
        assert(picks_corner(blend, 0, x as usize, y as usize));
        assert(cols[x] == x && rows[y] == y);
        law_corners_exact(
            blend,
            corners_at(src, cols, rows, x, y),
            0,
            x as usize,
            y as usize,
            p,
        );
    }
}

/// Where four equal channel values blend to that value, four equal pixels blend to
/// that pixel, with its top byte cleared.
pub proof fn law_flat_colour_kept<F: Fn(u32, u32, u32, u32, usize, usize) -> u32>(
    blend: F,
    p: u32,
    x: usize,
    y: usize,
    out: u32,
)
    requires
        forall|c: u32, v: u32|
            c < 256 && #[trigger] call_ensures(blend, (c, c, c, c, x, y), v) ==> v == c,
        blended(blend, (p, p, p, p), x, y, out),
    ensures
        out == p & 0xff_ffff,
{
    assert((p >> 0) & 0xff < 256 && (p >> 8) & 0xff < 256 && (p >> 16) & 0xff < 256)
        by (bit_vector);
    assert(((p >> 0) & 0xff) & 0xff == (p >> 0) & 0xff && ((p >> 8) & 0xff) & 0xff == (p >> 8)
        & 0xff && ((p >> 16) & 0xff) & 0xff == (p >> 16) & 0xff) by (bit_vector);
    lemma_channels_make_pixel(out, p);
}

/// The letterbox in numbers: the output is at least 1 by 1, the picture is the fitted size
/// kept between 1 and the output's size, and half of what is left over, rounded down, is
/// before it.
pub proof fn law_letterbox_measures(out_w: usize, out_h: usize, fit_w: usize, fit_h: usize)
    ensures
        ({
            let l = letterbox_of(out_w, out_h, fit_w, fit_h);
            &&& l.out_w == vstd::math::max(out_w as int, 1)
            &&& l.out_h == vstd::math::max(out_h as int, 1)
            &&& l.dw == vstd::math::min(
                vstd::math::max(fit_w as int, 1),
                vstd::math::max(out_w as int, 1),
            )
            &&& l.dh == vstd::math::min(
                vstd::math::max(fit_h as int, 1),
                vstd::math::max(out_h as int, 1),
            )
            &&& l.x_off == (l.out_w - l.dw) / 2
            &&& l.y_off == (l.out_h - l.dh) / 2
        }),
{
}

/// A sample lies between its own index and the next one, neither past the last.
pub proof fn law_tap_measures(raw: usize, last: int)
    ensures
        tap_lo(raw, last) == vstd::math::min(raw as int, last),
        tap_hi(raw, last) == vstd::math::min(raw + 1, last),
{
}

/// The channels of a pixel are its three low bytes.
pub proof fn law_channels_are_bytes(p: u32)
    ensures
        channel(p, 0) == p % 0x100,
        channel(p, 8) == (p / 0x100) % 0x100,
        channel(p, 16) == (p / 0x1_0000) % 0x100,
{
    assert((p >> 0) & 0xff == p % 0x100 && (p >> 8) & 0xff == (p / 0x100) % 0x100 && (p >> 16)
        & 0xff == (p / 0x1_0000) % 0x100) by (bit_vector);
}

/// Four pixels are blended byte by byte: each of the three low bytes of the blend is the
/// low byte of what the channel blend gives for that byte of the four pixels, in their
/// order and at their position, and the top byte is zero.
pub proof fn law_blends_channel_by_channel<F: Fn(u32, u32, u32, u32, usize, usize) -> u32>(
    blend: F,
    p00: u32,
    p10: u32,
    p01: u32,
    p11: u32,
    x: usize,
    y: usize,
    out: u32,
)
    requires
        blended(blend, (p00, p10, p01, p11), x, y, out),
    ensures
        ({
            let blue = (p00 % 0x100, p10 % 0x100, p01 % 0x100, p11 % 0x100, x, y);
            let green = (
                (p00 / 0x100) % 0x100,
                (p10 / 0x100) % 0x100,
                (p01 / 0x100) % 0x100,
                (p11 / 0x100) % 0x100,
                x,
                y,
            );
            let red = (
                (p00 / 0x1_0000) % 0x100,
                (p10 / 0x1_0000) % 0x100,
                (p01 / 0x1_0000) % 0x100,
                (p11 / 0x1_0000) % 0x100,
                x,
                y,
            );
            &&& out <= 0xff_ffff
            &&& exists|v: u32|
                out % 0x100 == v % 0x100 && #[trigger] call_ensures(blend, blue, v)
            &&& exists|v: u32|
                (out / 0x100) % 0x100 == v % 0x100 && #[trigger] call_ensures(blend, green, v)
            &&& exists|v: u32|
                (out / 0x1_0000) % 0x100 == v % 0x100 && #[trigger] call_ensures(blend, red, v)
        }),
{
    law_channels_are_bytes(p00);
    law_channels_are_bytes(p10);
    law_channels_are_bytes(p01);
    law_channels_are_bytes(p11);
    law_channels_are_bytes(out);
    let corners = (p00, p10, p01, p11);
    assert(channel_blended(blend, corners, x, y, 0, out));
    assert(channel_blended(blend, corners, x, y, 8, out));
    assert(channel_blended(blend, corners, x, y, 16, out));
    let b = choose|v: u32|
        channel(out, 0) == v & 0xff && #[trigger] call_ensures(
            blend,
            (channel(p00, 0), channel(p10, 0), channel(p01, 0), channel(p11, 0), x, y),
            v,
        );
    let g = choose|v: u32|
        channel(out, 8) == v & 0xff && #[trigger] call_ensures(
            blend,
            (channel(p00, 8), channel(p10, 8), channel(p01, 8), channel(p11, 8), x, y),
            v,
        );
    let r = choose|v: u32|
        channel(out, 16) == v & 0xff && #[trigger] call_ensures(
            blend,
            (channel(p00, 16), channel(p10, 16), channel(p01, 16), channel(p11, 16), x, y),
            v,
        );
    assert(b & 0xff == b % 0x100 && g & 0xff == g % 0x100 && r & 0xff == r % 0x100)
        by (bit_vector);
}

/// The picture stands upright and the right way round, whatever the size of the frame and
/// of the output: the pixel in its column `i` of row `j` is blended from the source pixels
/// in the column that `cols[i]` names and the next one, of the row that `rows[j]` names and
/// the next one, none of them past the last column or row.
pub proof fn law_picture_upright<F: Fn(u32, u32, u32, u32, usize, usize) -> u32>(
    src: DecodedFrame,
    out_w: usize,
    out_h: usize,
    fit: (usize, usize),
    cols: Seq<usize>,
    rows: Seq<usize>,
    blend: F,
    buf: Seq<u32>,
    i: int,
    j: int,
)
    requires
        src.width > 0,
        src.height > 0,
        cols.len() == vstd::math::min(
            vstd::math::max(fit.0 as int, 1),
            vstd::math::max(out_w as int, 1),
        ),
        rows.len() == vstd::math::min(
            vstd::math::max(fit.1 as int, 1),
            vstd::math::max(out_h as int, 1),
        ),
        is_scaled(src, letterbox_of(out_w, out_h, fit.0, fit.1), cols, rows, blend, buf),
        0 <= i < cols.len(),
        0 <= j < rows.len(),
    ensures
        ({
            let w = src.width as int;
            let h = src.height as int;
            let ow = vstd::math::max(out_w as int, 1);
            let oh = vstd::math::max(out_h as int, 1);
            let out = buf[((oh - rows.len()) / 2 + j) * ow + (ow - cols.len()) / 2 + i];
            let x0 = vstd::math::min(cols[i] as int, w - 1);
            let x1 = vstd::math::min(cols[i] + 1, w - 1);
            let y0 = vstd::math::min(rows[j] as int, h - 1);
            let y1 = vstd::math::min(rows[j] + 1, h - 1);
            let p00 = src.buf@[y0 * w + x0];
            let p10 = src.buf@[y0 * w + x1];
            let p01 = src.buf@[y1 * w + x0];
            let p11 = src.buf@[y1 * w + x1];
            let blue = (p00 % 0x100, p10 % 0x100, p01 % 0x100, p11 % 0x100, i as usize, j as usize);
            let green = (
                (p00 / 0x100) % 0x100,
                (p10 / 0x100) % 0x100,
                (p01 / 0x100) % 0x100,
                (p11 / 0x100) % 0x100,
                i as usize,
                j as usize,
            );
            let red = (
                (p00 / 0x1_0000) % 0x100,
                (p10 / 0x1_0000) % 0x100,
                (p01 / 0x1_0000) % 0x100,
                (p11 / 0x1_0000) % 0x100,
                i as usize,
                j as usize,
            );
            &&& out <= 0xff_ffff
            &&& exists|v: u32|
                out % 0x100 == v % 0x100 && #[trigger] call_ensures(blend, blue, v)
            &&& exists|v: u32|
                (out / 0x100) % 0x100 == v % 0x100 && #[trigger] call_ensures(blend, green, v)
            &&& exists|v: u32|
                (out / 0x1_0000) % 0x100 == v % 0x100 && #[trigger] call_ensures(blend, red, v)
        }),
{
    let layout = letterbox_of(out_w, out_h, fit.0, fit.1);
    let x = layout.x_off + i;
    let y = layout.y_off + j;
    let out = buffer_pixel(buf, layout.out_w as int, x, y);
    assert(output_pixel(src, layout, cols, rows, blend, x, y, out));
    let (p00, p10, p01, p11) = corners_at(src, cols, rows, i, j);
    law_blends_channel_by_channel(blend, p00, p10, p01, p11, i as usize, j as usize, out);
}

/// Where the channel blend gives its first value back, a pixel of the picture is the
/// source pixel in the column and the row that are named for it, with its top byte
/// cleared.
pub proof fn law_nearest_pixel_shown<F: Fn(u32, u32, u32, u32, usize, usize) -> u32>(
    src: DecodedFrame,
    out_w: usize,
    out_h: usize,
    fit: (usize, usize),
    cols: Seq<usize>,
    rows: Seq<usize>,
    blend: F,
    buf: Seq<u32>,
    i: int,
    j: int,
)
    requires
        src.width > 0,
        src.height > 0,
        cols.len() == vstd::math::min(
            vstd::math::max(fit.0 as int, 1),
            vstd::math::max(out_w as int, 1),
        ),
        rows.len() == vstd::math::min(
            vstd::math::max(fit.1 as int, 1),
            vstd::math::max(out_h as int, 1),
        ),
        is_scaled(src, letterbox_of(out_w, out_h, fit.0, fit.1), cols, rows, blend, buf),
        0 <= i < cols.len(),
        0 <= j < rows.len(),
        forall|c00: u32, c10: u32, c01: u32, c11: u32, v: u32|
            c00 < 256 && c10 < 256 && c01 < 256 && c11 < 256 && #[trigger] call_ensures(
                blend,
                (c00, c10, c01, c11, i as usize, j as usize),
                v,
            ) ==> v == c00,
    ensures
        ({
            let w = src.width as int;
            let ow = vstd::math::max(out_w as int, 1);
            let oh = vstd::math::max(out_h as int, 1);
            let x_off = (ow - cols.len()) / 2;
            let y_off = (oh - rows.len()) / 2;
            buf[(y_off + j) * ow + x_off + i] == src.buf@[vstd::math::min(
                rows[j] as int,
                src.height - 1,
            ) * w + vstd::math::min(cols[i] as int, w - 1)] & 0xff_ffff
        }),
{
    let layout = letterbox_of(out_w, out_h, fit.0, fit.1);
    let x = layout.x_off + i;
    let y = layout.y_off + j;
    let out = buffer_pixel(buf, layout.out_w as int, x, y);
    assert(output_pixel(src, layout, cols, rows, blend, x, y, out));
    law_corners_exact(
        blend,
        corners_at(src, cols, rows, i, j),
        0,
        i as usize,
        j as usize,
        out,
    );
}

/// Every place of the output that is not the picture's is black.
pub proof fn law_bars_black<F: Fn(u32, u32, u32, u32, usize, usize) -> u32>(
    src: DecodedFrame,
    out_w: usize,
    out_h: usize,
    fit: (usize, usize),
    cols: Seq<usize>,
    rows: Seq<usize>,
    blend: F,
    buf: Seq<u32>,
    k: int,
)
    requires
        src.width > 0,
        src.height > 0,
        cols.len() == vstd::math::min(
            vstd::math::max(fit.0 as int, 1),
            vstd::math::max(out_w as int, 1),
        ),
        rows.len() == vstd::math::min(
            vstd::math::max(fit.1 as int, 1),
            vstd::math::max(out_h as int, 1),
        ),
        is_scaled(src, letterbox_of(out_w, out_h, fit.0, fit.1), cols, rows, blend, buf),
        0 <= k < buf.len(),
        !({
            let ow = vstd::math::max(out_w as int, 1);
            let oh = vstd::math::max(out_h as int, 1);
            &&& (ow - cols.len()) / 2 <= k % ow < (ow - cols.len()) / 2 + cols.len()
            &&& (oh - rows.len()) / 2 <= k / ow < (oh - rows.len()) / 2 + rows.len()
        }),
    ensures
        buf.len() == vstd::math::max(out_w as int, 1) * vstd::math::max(out_h as int, 1),
        buf[k] == 0,
{
    let layout = letterbox_of(out_w, out_h, fit.0, fit.1);
    let w = layout.out_w as int;
    lemma_place_of_index(w, layout.out_h as int, k);
    let p = buffer_pixel(buf, w, k % w, k / w);
    assert(output_pixel(src, layout, cols, rows, blend, k % w, k / w, p));
}

} // verus!

use ioscpy_window::frame::{new_frame_slot, DecodedFrame};
use ioscpy_window::scale::{bilerp, letterbox, scale_frame, tap, Letterbox};
use ioscpy_window::sizing::{intrinsic_sides, scaled_fit};

fn frame(width: usize, height: usize, buf: Vec<u32>) -> DecodedFrame {
    DecodedFrame { width, height, buf }
}

/// The sample position along one axis.
fn position(i: usize, src: usize, dst: usize) -> f32 {
    let inv = src as f32 / dst as f32;
    ((i as f32 + 0.5) * inv - 0.5).max(0.0)
}

fn mix(c00: u32, c10: u32, c01: u32, c11: u32, wx: f32, wy: f32) -> u32 {
    let top = c00 as f32 + (c10 as f32 - c00 as f32) * wx;
    let bot = c01 as f32 + (c11 as f32 - c01 as f32) * wx;
    (top + (bot - top) * wy) as u32
}

fn fitted(src: &DecodedFrame, out_w: usize, out_h: usize) -> (usize, usize) {
    let (w, h) = (out_w.max(1), out_h.max(1));
    let (sx, sy) = (w as f32 / src.width as f32, h as f32 / src.height as f32);
    (
        if sx <= sy { w } else { (src.width as f32 * sy) as usize },
        if sy <= sx { h } else { (src.height as f32 * sx) as usize },
    )
}

/// Scale a frame with the bilinear filter.
fn scaled(src: &DecodedFrame, out_w: usize, out_h: usize, dst: &mut Vec<u32>) -> (usize, usize) {
    let fit = fitted(src, out_w, out_h);
    let layout = letterbox(out_w, out_h, fit.0, fit.1);
    let xs: Vec<f32> = (0..layout.dw).map(|x| position(x, src.width, layout.dw)).collect();
    let ys: Vec<f32> = (0..layout.dh).map(|y| position(y, src.height, layout.dh)).collect();
    let cols: Vec<usize> = xs.iter().map(|f| *f as usize).collect();
    let rows: Vec<usize> = ys.iter().map(|f| *f as usize).collect();
    let blend = |c00: u32, c10: u32, c01: u32, c11: u32, x: usize, y: usize| -> u32 {
        let wx = xs[x] - tap(cols[x], src.width - 1).0 as f32;
        let wy = ys[y] - tap(rows[y], src.height - 1).0 as f32;
        mix(c00, c10, c01, c11, wx, wy)
    };
    scale_frame(src, out_w, out_h, fit, &cols, &rows, &blend, dst)
}

/// The same picture, pixel by pixel.
fn expected(src: &DecodedFrame, out_w: usize, out_h: usize) -> Vec<u32> {
    let (w, h) = (out_w.max(1), out_h.max(1));
    let fit = fitted(src, out_w, out_h);
    let (dw, dh) = (fit.0.clamp(1, w), fit.1.clamp(1, h));
    let (x_off, y_off) = ((w - dw) / 2, (h - dh) / 2);
    let mut out = vec![0u32; w * h];
    for y in 0..dh {
        let fy = position(y, src.height, dh);
        let y0 = (fy as usize).min(src.height - 1);
        let y1 = (y0 + 1).min(src.height - 1);
        for x in 0..dw {
            let fx = position(x, src.width, dw);
            let x0 = (fx as usize).min(src.width - 1);
            let x1 = (x0 + 1).min(src.width - 1);
            let mut p = 0;
            for shift in [0, 8, 16] {
                let c = |yy: usize, xx: usize| (src.buf[yy * src.width + xx] >> shift) & 0xff;
                let v = mix(
                    c(y0, x0),
                    c(y0, x1),
                    c(y1, x0),
                    c(y1, x1),
                    fx - x0 as f32,
                    fy - y0 as f32,
                );
                p |= (v & 0xff) << shift;
            }
            out[(y + y_off) * w + x_off + x] = p;
        }
    }
    out
}

fn noise(width: usize, height: usize) -> DecodedFrame {
    let mut seed = 12345u32;
    let mut buf = Vec::new();
    for _ in 0..width * height {
        seed = seed.wrapping_mul(1664525).wrapping_add(1013904223);
        buf.push(seed & 0x00ff_ffff);
    }
    frame(width, height, buf)
}

#[test]
fn the_slot_holds_the_newest_frame_only() {
    let mut slot = new_frame_slot();
    assert_eq!(slot.take(), None);
    slot.put(frame(1, 1, vec![1]));
    slot.put(frame(1, 1, vec![2]));
    assert_eq!(slot.take(), Some(frame(1, 1, vec![2])));
    assert_eq!(slot.take(), None);
}

#[test]
fn letterbox_is_centred() {
    assert_eq!(
        letterbox(10, 6, 4, 6),
        Letterbox { out_w: 10, out_h: 6, dw: 4, dh: 6, x_off: 3, y_off: 0 }
    );
    assert_eq!(
        letterbox(9, 7, 9, 4),
        Letterbox { out_w: 9, out_h: 7, dw: 9, dh: 4, x_off: 0, y_off: 1 }
    );
}

#[test]
fn letterbox_clamps() {
    assert_eq!(
        letterbox(0, 0, 5, 0),
        Letterbox { out_w: 1, out_h: 1, dw: 1, dh: 1, x_off: 0, y_off: 0 }
    );
    assert_eq!(
        letterbox(8, 8, 9, 0),
        Letterbox { out_w: 8, out_h: 8, dw: 8, dh: 1, x_off: 0, y_off: 3 }
    );
}

#[test]
fn taps_stay_in_the_source() {
    assert_eq!(tap(0, 3), (0, 1));
    assert_eq!(tap(2, 3), (2, 3));
    assert_eq!(tap(3, 3), (3, 3));
    assert_eq!(tap(9, 3), (3, 3));
    assert_eq!(tap(0, 0), (0, 0));
    assert_eq!(tap(usize::MAX, usize::MAX), (usize::MAX, usize::MAX));
}

#[test]
fn bilerp_keeps_channels_apart() {
    let first = |a: u32, _b: u32, _c: u32, _d: u32, _x: usize, _y: usize| a;
    assert_eq!(bilerp(0xff11_2233, 0, 0, 0, 0, 0, &first), 0x11_2233);
    let last = |_a: u32, _b: u32, _c: u32, d: u32, _x: usize, _y: usize| d + 0x100;
    assert_eq!(bilerp(0, 0, 0, 0x0a0b0c, 0, 0, &last), 0x0a0b0c);
    let third = |_a: u32, _b: u32, c: u32, _d: u32, x: usize, y: usize| c + (x + y) as u32;
    assert_eq!(bilerp(0, 0, 0x010203, 0, 4, 5, &third), 0x0a0b0c);
}

#[test]
fn bilerp_halfway() {
    let half = |a: u32, b: u32, c: u32, d: u32, _x: usize, _y: usize| mix(a, b, c, d, 0.5, 0.5);
    assert_eq!(bilerp(0x000000, 0xffffff, 0x000000, 0xffffff, 0, 0, &half), 0x7f7f7f);
    assert_eq!(bilerp(0x102030, 0x102030, 0x102030, 0x102030, 0, 0, &half), 0x102030);
    assert_eq!(bilerp(0x000000, 0x000040, 0x000080, 0x0000c0, 0, 0, &half), 0x000060);
}

#[test]
fn a_frame_of_the_window_s_size_is_kept() {
    let src = noise(7, 5);
    let mut dst = vec![9; 3];
    assert_eq!(scaled(&src, 7, 5, &mut dst), (7, 5));
    assert_eq!(dst, src.buf);
}

#[test]
fn a_wide_window_has_bars_at_the_sides() {
    let src = frame(2, 2, vec![0xff0000, 0x00ff00, 0x0000ff, 0xffffff]);
    let mut dst = Vec::new();
    assert_eq!(scaled(&src, 6, 2, &mut dst), (6, 2));
    assert_eq!(
        dst,
        vec![0, 0, 0xff0000, 0x00ff00, 0, 0, 0, 0, 0x0000ff, 0xffffff, 0, 0]
    );
}

#[test]
fn a_tall_window_has_bars_above_and_below() {
    let src = frame(2, 1, vec![0x010203, 0x040506]);
    let mut dst = Vec::new();
    assert_eq!(scaled(&src, 2, 4, &mut dst), (2, 4));
    assert_eq!(dst, vec![0, 0, 0x010203, 0x040506, 0, 0, 0, 0]);
}

#[test]
fn a_square_fills_a_square() {
    let mut src = noise(41, 41);
    for p in src.buf.iter_mut() {
        *p = 0x0a0b0c;
    }
    let mut dst = Vec::new();
    assert_eq!(scaled(&src, 2, 2, &mut dst), (2, 2));
    assert_eq!(dst, vec![0x0a0b0c; 4]);
}

#[test]
fn an_empty_window_gives_one_pixel() {
    let src = frame(1, 1, vec![0x123456]);
    let mut dst = Vec::new();
    assert_eq!(scaled(&src, 0, 0, &mut dst), (1, 1));
    assert_eq!(dst, vec![0x123456]);
}

#[test]
fn scaling_agrees_with_the_filter_everywhere() {
    for (w, h) in [(1, 1), (3, 7), (16, 9), (10, 20)] {
        let src = noise(w, h);
        let mut dst = Vec::new();
        for (ow, oh) in [(1, 1), (5, 3), (20, 20), (33, 12), (9, 40), (0, 8)] {
            assert_eq!(scaled(&src, ow, oh, &mut dst), (ow.max(1), oh.max(1)));
            assert_eq!(dst, expected(&src, ow, oh));
        }
    }
}

#[test]
fn an_extra_long_buffer_is_fine() {
    let mut src = noise(3, 3);
    src.buf.push(77);
    let mut dst = Vec::new();
    scaled(&src, 3, 3, &mut dst);
    assert_eq!(dst[..], src.buf[..9]);
}

#[test]
fn a_window_has_a_least_side() {
    assert_eq!(scaled_fit(100, 900), (160, 900));
    assert_eq!(scaled_fit(160, 0), (160, 160));
    assert_eq!(scaled_fit(161, 159), (161, 160));
}

#[test]
fn sides_do_not_depend_on_orientation() {
    assert_eq!(intrinsic_sides(1125, 2436), (2436, 1125));
    assert_eq!(intrinsic_sides(2436, 1125), (2436, 1125));
    assert_eq!(intrinsic_sides(0, 7), (7, 1));
    assert_eq!(intrinsic_sides(0, 0), (1, 1));
    assert_eq!(intrinsic_sides(4, 4), (4, 4));
}

#[test]
fn the_old_buffer_does_not_matter() {
    let src = noise(5, 4);
    let mut fresh = Vec::new();
    scaled(&src, 9, 11, &mut fresh);
    for old in [vec![0xdead_beef; 1], vec![0xdead_beef; 99], vec![7; 1000]] {
        let mut dst = old;
        scaled(&src, 9, 11, &mut dst);
        assert_eq!(dst, fresh);
    }
    let mut longer = noise(5, 4);
    longer.buf.extend_from_slice(&[1, 2, 3]);
    let mut dst = Vec::new();
    scaled(&longer, 9, 11, &mut dst);
    assert_eq!(dst, fresh);
}

#[test]
fn the_same_size_clears_the_top_bytes_only() {
    let src = frame(2, 2, vec![0xff11_2233, 0x8000_0001, 0x0100_ff00, 0x00ab_cdef]);
    let mut dst = Vec::new();
    assert_eq!(scaled(&src, 2, 2, &mut dst), (2, 2));
    assert_eq!(dst, vec![0x11_2233, 0x00_0001, 0x00_ff00, 0xab_cdef]);
}

#[test]
fn the_corners_of_a_blend_are_exact() {
    let (p00, p10, p01, p11) = (0xff01_0203, 0xfe40_5060, 0x12ff_00ff, 0x00aa_bbcc);
    let corners = [(0.0, 0.0, p00), (1.0, 0.0, p10), (0.0, 1.0, p01), (1.0, 1.0, p11)];
    for (wx, wy, p) in corners {
        let blend = |a: u32, b: u32, c: u32, d: u32, _x: usize, _y: usize| mix(a, b, c, d, wx, wy);
        assert_eq!(bilerp(p00, p10, p01, p11, 0, 0, &blend), p & 0xff_ffff);
    }
}

#[test]
fn channels_stay_between_and_apart() {
    let (p00, p10, p01, p11) = (0x10_f0_00, 0x20_00_05, 0x30_80_0a, 0x40_ff_0f);
    for (wx, wy) in [(0.25, 0.5), (0.9, 0.1), (0.5, 0.99)] {
        let blend = |a: u32, b: u32, c: u32, d: u32, _x: usize, _y: usize| mix(a, b, c, d, wx, wy);
        let out = bilerp(p00, p10, p01, p11, 0, 0, &blend);
        assert_eq!(out >> 24, 0);
        assert!((0x10..=0x40).contains(&(out >> 16)));
        assert!((out & 0xff) <= 0x0f);
        // Only the red channel of the pixels is left the same.
        let other = bilerp(p00 ^ 0xff00_ffff, p10 ^ 0x1234, p01 ^ 0xff, p11 ^ 0xff00, 0, 0, &blend);
        assert_eq!(other >> 16, out >> 16);
    }
}

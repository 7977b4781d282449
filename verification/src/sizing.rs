//! How large the window is.

use vstd::prelude::*;

verus! {

/// The window is never narrower or lower than this.
pub const MIN_SIDE: usize = 160;

/// `v`, or the least side of a window if that is larger.
pub open spec fn window_side(v: usize) -> usize {
    if v < MIN_SIDE {
        MIN_SIDE
    } else {
        v
    }
}

/// The size of the window for a picture that, scaled and held to the screen, comes
/// to `fit_w` by `fit_h`.
pub fn scaled_fit(fit_w: usize, fit_h: usize) -> (size: (usize, usize))
    ensures
        size == (window_side(fit_w), window_side(fit_h)),
{
    (
        if fit_w < MIN_SIDE {
            MIN_SIDE
        } else {
            fit_w
        },
        if fit_h < MIN_SIDE {
            MIN_SIDE
        } else {
            fit_h
        },
    )
}

/// The longer side of a picture, at least 1.
pub open spec fn long_side(w: usize, h: usize) -> usize {
    if w >= h && w >= 1 {
        w
    } else if h >= 1 {
        h
    } else {
        1
    }
}

/// The shorter side of a picture, at least 1.
pub open spec fn short_side(w: usize, h: usize) -> usize {
    if w <= h && w >= 1 {
        w
    } else if h <= w && h >= 1 {
        h
    } else {
        1
    }
}

/// The longer and the shorter side of a picture, from which the display scale is
/// taken.
pub fn intrinsic_sides(w: usize, h: usize) -> (sides: (usize, usize))
    ensures
        sides == (long_side(w, h), short_side(w, h)),
{
    let (long, short) = if w >= h {
        (w, h)
    } else {
        (h, w)
    };
    (
        if long < 1 {
            1
        } else {
            long
        },
        if short < 1 {
            1
        } else {
            short
        },
    )
}

/// A picture and the same picture turned on its side have the same sides, so the
/// display scale does not depend on the orientation at launch.
pub proof fn law_orientation_free(w: usize, h: usize)
    ensures
        long_side(w, h) == long_side(h, w),
        short_side(w, h) == short_side(h, w),
        long_side(w, h) >= short_side(w, h) >= 1,
{
}

/// A window is as large as the picture comes to, but no side is less than 160.
pub proof fn law_window_side_is_max(v: usize)
    ensures
        window_side(v) as int == vstd::math::max(v as int, 160),
{
}

/// The sides are the greater and the less of width and height, each at least 1.
pub proof fn law_sides_are_max_and_min(w: usize, h: usize)
    ensures
        long_side(w, h) as int == vstd::math::max(vstd::math::max(w as int, h as int), 1),
        short_side(w, h) as int == vstd::math::max(vstd::math::min(w as int, h as int), 1),
{
}

} // verus!

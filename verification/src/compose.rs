//! Compositing a frame: the base splash image with the progress bar overlay.
//!
//! The bar sits in a fixed band above the bottom edge, inset by 12.5
//! percent of the width on each side.  It fills right-to-left: the filled
//! region is anchored to the bar's right edge and grows leftwards with
//! progress.  Both the filled and the unfilled part of the band are fully
//! opaque, overriding the base image's alpha in that band.

use vstd::prelude::*;
use vstd::arithmetic::div_mod::lemma_fundamental_div_mod;
use vstd::arithmetic::div_mod::lemma_fundamental_div_mod_converse;
use crate::splash::SplashImage;

verus! {

/// Height of the bar band in pixels.
pub const BAR_HEIGHT: u32 = 4;

/// Distance from the bottom edge of the image to the bottom of the band.
pub const BOTTOM_MARGIN: u32 = 75;

/// Accent (fill) colour, fully opaque: B, G, R channels.
pub const ACCENT_BLUE: u8 = 55;

pub const ACCENT_GREEN: u8 = 175;

pub const ACCENT_RED: u8 = 212;

/// Background (unfilled) level for B, G and R, fully opaque.
pub const BACKGROUND_LEVEL: u8 = 30;

pub const OPAQUE_ALPHA: u8 = 255;

/// Horizontal inset of the bar: 12.5 percent of the width.
pub open spec fn side_margin(w: int) -> int {
    w * 125 / 1000
}

/// First column of the bar band.
pub open spec fn bar_x_start(w: int) -> int {
    side_margin(w)
}

/// One past the last column of the bar band.
pub open spec fn bar_x_end(w: int) -> int {
    w - side_margin(w)
}

/// First row of the bar band, clamped to the image.
pub open spec fn bar_y_start(h: int) -> int {
    if h - (BOTTOM_MARGIN + BAR_HEIGHT) >= 0 {
        h - (BOTTOM_MARGIN + BAR_HEIGHT)
    } else {
        0
    }
}

/// One past the last row of the bar band.
pub open spec fn bar_y_end(h: int) -> int {
    h - BOTTOM_MARGIN
}

/// Width of the bar, at least 1 so a degenerate geometry cannot divide
/// the fill computation by zero.
pub open spec fn bar_width(w: int) -> int {
    if bar_x_end(w) - bar_x_start(w) >= 1 {
        bar_x_end(w) - bar_x_start(w)
    } else {
        1
    }
}

/// How many columns of the bar are filled at `p` percent.
pub open spec fn filled_width(w: int, p: int) -> int {
    bar_width(w) * p / 100
}

/// The first filled column: the fill is anchored at the right edge of the
/// bar and extends `filled_width` columns to the left.
pub open spec fn fill_start_x(w: int, p: int) -> int {
    bar_x_end(w) - filled_width(w, p)
}

/// Is pixel `(x, y)` inside the bar band?
pub open spec fn in_bar(w: int, h: int, x: int, y: int) -> bool {
    &&& bar_y_start(h) <= y < bar_y_end(h)
    &&& bar_x_start(w) <= x < bar_x_end(w)
}

/// Channel `ch` (B, G, R, A) of the accent colour.
pub open spec fn accent_byte(ch: int) -> u8 {
    if ch == 0 {
        ACCENT_BLUE
    } else if ch == 1 {
        ACCENT_GREEN
    } else if ch == 2 {
        ACCENT_RED
    } else {
        OPAQUE_ALPHA
    }
}

/// Channel `ch` of the background colour.
pub open spec fn background_byte(ch: int) -> u8 {
    if ch == 3 {
        OPAQUE_ALPHA
    } else {
        BACKGROUND_LEVEL
    }
}

/// Channel `ch` of a bar-band pixel in column `x` at `p` percent.
pub open spec fn bar_pixel_byte(w: int, p: int, x: int, ch: int) -> u8 {
    if x >= fill_start_x(w, p) {
        accent_byte(ch)
    } else {
        background_byte(ch)
    }
}

/// Byte `i` of the composited frame: a bar-band byte inside the band, the
/// base image's byte everywhere else.
pub open spec fn composed_byte(img: SplashImage, p: int, i: int) -> u8 {
    let w = img.width as int;
    let h = img.height as int;
    let pix = i / 4;
    let ch = i % 4;
    let y = pix / w;
    let x = pix % w;
    if in_bar(w, h, x, y) {
        bar_pixel_byte(w, p, x, ch)
    } else {
        img.pixels@[i]
    }
}

/// The whole composited frame at `p` percent.
pub open spec fn compose_spec(img: SplashImage, p: int) -> Seq<u8> {
    Seq::new(img.pixels@.len(), |i: int| composed_byte(img, p, i))
}

/// The bar geometry is well behaved: the band lies within the image, the
/// bar is at least one column wide, and the filled region sits between the
/// bar's ends with exactly `filled_width` columns.
pub proof fn lemma_bar_geometry(w: int, p: int)
    requires
        1 <= w,
        0 <= p <= 100,
    ensures
        0 <= bar_x_start(w),
        bar_x_start(w) < bar_x_end(w) <= w,
        bar_width(w) == bar_x_end(w) - bar_x_start(w),
        1 <= bar_width(w) <= w,
        0 <= filled_width(w, p) <= bar_width(w),
        bar_x_start(w) <= fill_start_x(w, p) <= bar_x_end(w),
        bar_x_end(w) - fill_start_x(w, p) == filled_width(w, p),
        p == 0 ==> filled_width(w, p) == 0,
        p == 100 ==> filled_width(w, p) == bar_width(w),
{
    lemma_fundamental_div_mod(w * 125, 1000);
    let bw = bar_width(w);
    assert(bw * 0 == 0) by (nonlinear_arith);
    assert(bw * p >= 0 && bw * p <= bw * 100) by (nonlinear_arith)
        requires
            1 <= bw,
            0 <= p <= 100,
    ;
    lemma_fundamental_div_mod(bw * p, 100);
    assert(bw * 100 == 100 * bw + 0) by (nonlinear_arith);
    lemma_fundamental_div_mod_converse(bw * 100, 100, bw, 0);
}

/// Fill is monotone in progress: a larger percentage never unfills a
/// column, and the filled region is contiguous and anchored at the right.
pub proof fn lemma_fill_monotone(w: int, p1: int, p2: int)
    requires
        1 <= w,
        0 <= p1 <= p2 <= 100,
    ensures
        fill_start_x(w, p2) <= fill_start_x(w, p1),
        filled_width(w, p1) <= filled_width(w, p2),
{
    let bw = bar_width(w);
    lemma_bar_geometry(w, p1);
    lemma_bar_geometry(w, p2);
    assert(bw * p1 <= bw * p2) by (nonlinear_arith)
        requires
            1 <= bw,
            0 <= p1 <= p2,
    ;
    lemma_fundamental_div_mod(bw * p1, 100);
    lemma_fundamental_div_mod(bw * p2, 100);
}

/// At 0 percent every bar-band pixel shows the background colour; at 100
/// percent every bar-band pixel shows the accent colour; in between, a
/// band pixel shows the accent exactly from `fill_start_x` rightwards.
pub proof fn lemma_bar_fill_extremes(w: int, x: int, ch: int)
    requires
        1 <= w,
        bar_x_start(w) <= x < bar_x_end(w),
    ensures
        bar_pixel_byte(w, 0, x, ch) == background_byte(ch),
        bar_pixel_byte(w, 100, x, ch) == accent_byte(ch),
{
    lemma_bar_geometry(w, 0);
    lemma_bar_geometry(w, 100);
}

/// What the composited frame shows inside the bar band: the byte of
/// channel `ch` of band pixel `(x, y)` is the bar colour for column `x` -
/// the accent colour exactly when `x` is at or right of `fill_start_x`,
/// the background colour left of it.  At 0 percent the whole band is
/// background, at 100 percent the whole band is accent, and the filled
/// region is contiguous, anchored at the bar's right edge, and exactly
/// `filled_width(w, p) == bar_width(w) * p / 100` columns wide.
pub proof fn lemma_composed_bar_region(img: SplashImage, p: int, x: int, y: int, ch: int)
    requires
        img.wf(),
        1 <= img.width,
        0 <= p <= 100,
        in_bar(img.width as int, img.height as int, x, y),
        0 <= ch < 4,
    ensures
        compose_spec(img, p)[4 * (y * (img.width as int) + x) + ch] == bar_pixel_byte(
            img.width as int,
            p,
            x,
            ch,
        ),
        x >= fill_start_x(img.width as int, p) ==> bar_pixel_byte(img.width as int, p, x, ch)
            == accent_byte(ch),
        x < fill_start_x(img.width as int, p) ==> bar_pixel_byte(img.width as int, p, x, ch)
            == background_byte(ch),
        p == 0 ==> bar_pixel_byte(img.width as int, p, x, ch) == background_byte(ch),
        p == 100 ==> bar_pixel_byte(img.width as int, p, x, ch) == accent_byte(ch),
{
    let w = img.width as int;
    let h = img.height as int;
    lemma_bar_geometry(w, p);
    assert(0 <= y * w + x < w * h && 0 <= 4 * (y * w + x) + ch < 4 * (w * h)) by (nonlinear_arith)
        requires
            0 <= x < w,
            0 <= y < h,
            0 <= ch < 4,
    ;
    assert(img.pixels@.len() == 4 * (w * h)) by (nonlinear_arith)
        requires
            img.pixels@.len() == 4 * w * h,
    ;
    let i = 4 * (y * w + x) + ch;
    lemma_fundamental_div_mod_converse(i, 4, y * w + x, ch);
    lemma_fundamental_div_mod_converse(y * w + x, w, y, x);
}

/// Byte `i` of the frame once the bar has been drawn up to row `y`, and
/// within row `y` up to column `x`.
pub open spec fn compose_progress_byte(img: SplashImage, p: int, i: int, y: int, x: int) -> u8 {
    let w = img.width as int;
    let row = (i / 4) / w;
    let col = (i / 4) % w;
    if row < y || (row == y && col < x) {
        composed_byte(img, p, i)
    } else {
        img.pixels@[i]
    }
}

/// Composite one frame: the base image with the bar band overlaid for
/// `progress` percent.
pub fn compose(img: &SplashImage, progress: u32) -> (out: Vec<u8>)
    requires
        img.wf(),
        progress <= 100,
    ensures
        out@ == compose_spec(*img, progress as int),
        out@.len() == img.pixels@.len(),
{
    let ghost gw = img.width as int;
    let ghost gh = img.height as int;
    let ghost gp = progress as int;
    let w = img.width as usize;
    let h = img.height as usize;
    let mut out: Vec<u8> = Vec::new();
    out.extend_from_slice(img.pixels.as_slice());
    let n = out.len();
    if w == 0 || h < 76 {
        proof {
            assert forall|i: int| 0 <= i < out@.len() implies out@[i] == composed_byte(
                *img,
                gp,
                i,
            ) by {
                assert(!in_bar(gw, gh, (i / 4) % gw, (i / 4) / gw));
            }
            assert(out@ =~= compose_spec(*img, gp));
        }
        return out;
    }
    proof {
        lemma_bar_geometry(gw, gp);
    }
    let margin = w * 125 / 1000;
    let x_start = margin;
    let x_end = w - margin;
    let y_start = if h >= 79 { h - 79 } else { 0 };
    let y_end = h - 75;
    let bar_w = if x_end - x_start >= 1 { x_end - x_start } else { 1 };
    let filled = bar_w * (progress as usize) / 100;
    let fill_start = x_end - filled;
    assert(x_start == bar_x_start(gw));
    assert(x_end == bar_x_end(gw));
    assert(y_start == bar_y_start(gh));
    assert(y_end == bar_y_end(gh));
    assert(fill_start == fill_start_x(gw, gp));
    let mut y = y_start;
    proof {
        assert forall|i: int| 0 <= i < out@.len() implies out@[i] == compose_progress_byte(
            *img,
            gp,
            i,
            y as int,
            x_start as int,
        ) by {
            assert(!((i / 4) / gw < y || ((i / 4) / gw == y && (i / 4) % gw < x_start))
                ==> out@[i] == img.pixels@[i]);
            if (i / 4) / gw < y || ((i / 4) / gw == y && (i / 4) % gw < x_start) {
                assert(!in_bar(gw, gh, (i / 4) % gw, (i / 4) / gw));
            }
        }
    }
    while y < y_end
        invariant
            img.wf(),
            1 <= w == gw == img.width,
            76 <= h == gh == img.height,
            gp == progress,
            0 <= gp <= 100,
            x_start == bar_x_start(gw),
            x_end == bar_x_end(gw),
            y_start == bar_y_start(gh),
            y_end == bar_y_end(gh),
            fill_start == fill_start_x(gw, gp),
            0 <= x_start < x_end <= w,
            x_start <= fill_start <= x_end,
            y_start <= y <= y_end,
            0 <= y_start < y_end <= h,
            n == out@.len() == img.pixels@.len(),
            forall|i: int|
                0 <= i < out@.len() ==> out@[i] == compose_progress_byte(
                    *img,
                    gp,
                    i,
                    y as int,
                    x_start as int,
                ),
        decreases y_end - y,
    {
        let mut x = x_start;
        while x < x_end
            invariant
                img.wf(),
                1 <= w == gw == img.width,
                76 <= h == gh == img.height,
                gp == progress,
                0 <= gp <= 100,
                x_start == bar_x_start(gw),
                x_end == bar_x_end(gw),
                y_start == bar_y_start(gh),
                y_end == bar_y_end(gh),
                fill_start == fill_start_x(gw, gp),
                0 <= x_start < x_end <= w,
                x_start <= fill_start <= x_end,
                x_start <= x <= x_end,
                y_start <= y < y_end,
                0 <= y_start < y_end <= h,
                n == out@.len() == img.pixels@.len(),
                forall|i: int|
                    0 <= i < out@.len() ==> out@[i] == compose_progress_byte(
                        *img,
                        gp,
                        i,
                        y as int,
                        x as int,
                    ),
            decreases x_end - x,
        {
            proof {
                assert(y * w + x < w * h && 0 <= y * w + x) by (nonlinear_arith)
                    requires
                        0 <= y < h,
                        0 <= x < w,
                ;
                assert(4 * (y * w + x) + 3 < 4 * (w * h)) by (nonlinear_arith)
                    requires
                        y * w + x < w * h,
                        0 <= y * w + x,
                ;
                assert(img.pixels@.len() == 4 * (gw * gh)) by (nonlinear_arith)
                    requires
                        img.pixels@.len() == 4 * gw * gh,
                ;
                assert((y as int) * (w as int) + (x as int) < gw * gh);
                assert(4 * ((y as int) * (w as int) + (x as int)) + 3 < n);
            }
            let base = (y * w + x) * 4;
            if x >= fill_start {
                out.set(base, ACCENT_BLUE);
                out.set(base + 1, ACCENT_GREEN);
                out.set(base + 2, ACCENT_RED);
                out.set(base + 3, OPAQUE_ALPHA);
            } else {
                out.set(base, BACKGROUND_LEVEL);
                out.set(base + 1, BACKGROUND_LEVEL);
                out.set(base + 2, BACKGROUND_LEVEL);
                out.set(base + 3, OPAQUE_ALPHA);
            }
            proof {
                let gy = y as int;
                let gx = x as int;
                let gbase = 4 * (gy * gw + gx);
                assert(gbase == base);
                assert forall|i: int| 0 <= i < out@.len() implies out@[i]
                    == compose_progress_byte(*img, gp, i, gy, gx + 1) by {
                    lemma_fundamental_div_mod(i, 4);
                    lemma_fundamental_div_mod(i / 4, gw);
                    if gbase <= i < gbase + 4 {
                        lemma_fundamental_div_mod_converse(i, 4, gy * gw + gx, i - gbase);
                        lemma_fundamental_div_mod_converse(gy * gw + gx, gw, gy, gx);
                        assert(in_bar(gw, gh, gx, gy));
                    } else {
                        if (i / 4) / gw == gy && (i / 4) % gw == gx {
                            assert(gw * gy == gy * gw) by (nonlinear_arith);
                            assert(i / 4 == gy * gw + gx);
                            assert(gbase <= i < gbase + 4);
                        }
                    }
                }
            }
            x += 1;
        }
        proof {
            assert forall|i: int| 0 <= i < out@.len() implies out@[i] == compose_progress_byte(
                *img,
                gp,
                i,
                y as int + 1,
                x_start as int,
            ) by {
                let row = (i / 4) / gw;
                let col = (i / 4) % gw;
                if row == y as int && col >= x_end {
                    assert(!in_bar(gw, gh, col, row));
                }
                if row == y as int + 1 && col < x_start {
                    assert(!in_bar(gw, gh, col, row));
                }
            }
        }
        y += 1;
    }
    proof {
        assert forall|i: int| 0 <= i < out@.len() implies out@[i] == composed_byte(
            *img,
            gp,
            i,
        ) by {
            let row = (i / 4) / gw;
            let col = (i / 4) % gw;
            if !(row < y_end || (row == y_end && col < x_start)) {
                assert(!in_bar(gw, gh, col, row));
            } else if row == y_end && col < x_start {
                assert(!in_bar(gw, gh, col, row));
            }
        }
        assert(out@ =~= compose_spec(*img, gp));
    }
    out
}

} // verus!

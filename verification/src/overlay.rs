//! Layout and number formatting for the statistics overlay: a fixed-size
//! translucent panel anchored to the bottom-right of the output, with one
//! text line per statistic.
//!
//! The GPU text drawing itself happens outside this crate; here live the
//! exact integer computations: where the panel and each line go, and how a
//! nanosecond duration reads in milliseconds with one decimal place.

use vstd::prelude::*;

verus! {

/// Width of the statistics panel in pixels.
pub const STATS_WINDOW_WIDTH: i32 = 330;

/// Height of the statistics panel: four text lines plus padding and a
/// two-pixel border allowance.
pub fn stats_window_height(line_height: i32, padding: i32) -> (h: i32)
    requires
        0 <= line_height,
        0 <= padding,
        line_height * 4 + padding + 2 <= i32::MAX,
    ensures
        h == line_height * 4 + padding + 2,
{
    line_height * 4 + padding + 2
}

/// The panel rectangle, anchored `padding` pixels off the bottom-right
/// corner of a framebuffer of `fb_w` by `fb_h` pixels: its origin
/// (top-left corner) and its size.
pub fn stats_window_rect(fb_w: i32, fb_h: i32, padding: i32, line_height: i32) -> (r: (
    (i32, i32),
    (i32, i32),
))
    requires
        0 <= line_height,
        0 <= padding,
        line_height * 4 + padding + 2 <= i32::MAX,
        i32::MIN <= fb_w - padding - STATS_WINDOW_WIDTH,
        i32::MIN <= fb_h - 3 * padding - (line_height * 4 + padding + 2),
        fb_h <= i32::MAX - padding,
    ensures
        r.0.0 == fb_w - padding - STATS_WINDOW_WIDTH,
        r.0.1 == fb_h - 2 * padding - (line_height * 4 + padding + 2),
        r.1.0 == STATS_WINDOW_WIDTH,
        r.1.1 == line_height * 4 + padding + 2,
{
    let height = stats_window_height(line_height, padding);
    let bottom = fb_h - padding;
    ((fb_w - padding - STATS_WINDOW_WIDTH, bottom - padding - height), (
        STATS_WINDOW_WIDTH,
        height,
    ))
}

/// Where the text of line `line` starts, inside a panel whose top-left
/// corner is `origin`: inset by the padding, down by the font ascent, and
/// one line height per preceding line.
pub fn text_line_origin(
    origin: (i32, i32),
    padding: i32,
    font_ascent: i32,
    line_height: i32,
    line: i32,
) -> (p: (i32, i32))
    requires
        0 <= line,
        0 <= line_height,
        0 <= padding,
        0 <= font_ascent,
        i32::MIN <= origin.0 + padding <= i32::MAX,
        i32::MIN <= origin.1 + padding + font_ascent + line_height * line <= i32::MAX,
        i32::MIN <= origin.1 + padding + font_ascent <= i32::MAX,
        line_height * line <= i32::MAX,
    ensures
        p.0 == origin.0 + padding,
        p.1 == origin.1 + padding + font_ascent + line_height * line,
{
    (origin.0 + padding, origin.1 + padding + font_ascent + line_height * line)
}

/// A duration in nanoseconds as milliseconds with one decimal place,
/// rounded to the nearest tenth of a millisecond (ties upward): the whole
/// milliseconds and the tenths digit.
pub fn duration_ms_tenths(nanos: u64) -> (r: (u64, u64))
    ensures
        r.0 == ((nanos + 50_000) / 100_000) / 10,
        r.1 == ((nanos + 50_000) / 100_000) % 10,
        r.1 < 10,
{
    let total_tenths_wide: u128 = (nanos as u128 + 50_000) / 100_000;
    proof {
        assert(total_tenths_wide <= u64::MAX as u128) by (nonlinear_arith)
            requires
                total_tenths_wide == (nanos as u128 + 50_000) / 100_000,
                nanos <= u64::MAX,
        ;
    }
    let total_tenths: u64 = total_tenths_wide as u64;
    (total_tenths / 10, total_tenths % 10)
}

} // verus!

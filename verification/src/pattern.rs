//! Deterministic grayscale test patterns with exactly known structure.
//!
//! Three patterns are produced, each using only two pixel values (`DARK`
//! and `BRIGHT`): a dot pattern whose 25 strips cover all sub-pixel dot
//! phases (for downscale analysis), a single bright center column (for
//! upscale analysis), and a bright column near the left edge (for edge
//! handling detection).

use vstd::prelude::*;

use crate::buffer::PixelBuffer;

verus! {

/// Width of the dot pattern.
pub const DOT_SRC_WIDTH: usize = 557;

/// Horizontal dot spacing; also the number of strips.
pub const DOT_HPIXELSPAN: usize = 25;

/// Number of horizontal strips in the dot pattern.
pub const DOT_NUM_STRIPS: usize = DOT_HPIXELSPAN;

/// Phase offset of the dots within a span.
pub const DOT_HCENTER: usize = (DOT_HPIXELSPAN - 1) / 2;

/// Height of one strip in rows.
pub const DOT_STRIP_HEIGHT: usize = 11;

/// The one row of a strip that carries dots.
pub const DOT_VCENTER: usize = (DOT_STRIP_HEIGHT - 1) / 2;

/// Height of the dot pattern.
pub const DOT_SRC_HEIGHT: usize = DOT_NUM_STRIPS * DOT_STRIP_HEIGHT;

/// Target width for resizing the dot pattern (slight downscale).
pub const DOT_DST_WIDTH: usize = DOT_SRC_WIDTH - 2;

/// Target height for resizing the dot pattern.
pub const DOT_DST_HEIGHT: usize = DOT_SRC_HEIGHT;

/// Width of the line and edge patterns.
pub const LINE_SRC_WIDTH: usize = 15;

/// Height of the line and edge patterns.
pub const LINE_SRC_HEIGHT: usize = 15;

/// Target width for resizing the line pattern (large upscale).
pub const LINE_DST_WIDTH: usize = 555;

/// Target height for resizing the line pattern.
pub const LINE_DST_HEIGHT: usize = LINE_SRC_HEIGHT;

/// Background pixel value.
pub const DARK: u8 = 50;

/// Foreground (dot or line) pixel value.
pub const BRIGHT: u8 = 250;

/// The value of the dot pattern at `(x, y)`: strip `s` (rows `11 s` to
/// `11 s + 10`) carries bright dots only on its center row, at the columns
/// where `(x - s) % 25 == 12`, restricted to `x >= s` and to dots that fit
/// without touching the image edge (`12 <= x <= 544`).
pub open spec fn dot_pixel(x: int, y: int) -> u8 {
    let strip = y / (DOT_STRIP_HEIGHT as int);
    if y % (DOT_STRIP_HEIGHT as int) == DOT_VCENTER
        && DOT_HCENTER <= x < DOT_SRC_WIDTH - DOT_HCENTER
        && x >= strip
        && (x - strip) % (DOT_HPIXELSPAN as int) == DOT_HCENTER {
        BRIGHT
    } else {
        DARK
    }
}

/// The value of the line pattern at `(x, y)`: a single bright column at the
/// horizontal center.
pub open spec fn line_pixel(x: int, y: int) -> u8 {
    if x == LINE_SRC_WIDTH / 2 {
        BRIGHT
    } else {
        DARK
    }
}

/// The value of the edge pattern at `(x, y)`: a single bright column at
/// `x = 1`, next to the left edge.
pub open spec fn edge_pixel(x: int, y: int) -> u8 {
    if x == 1 {
        BRIGHT
    } else {
        DARK
    }
}

/// Computes one pixel of the dot pattern.
fn dot_pixel_at(x: usize, y: usize) -> (r: u8)
    requires
        x < DOT_SRC_WIDTH,
        y < DOT_SRC_HEIGHT,
    ensures
        r == dot_pixel(x as int, y as int),
{
    let strip: usize = y / DOT_STRIP_HEIGHT;
    if y % DOT_STRIP_HEIGHT == DOT_VCENTER
        && DOT_HCENTER <= x && x < DOT_SRC_WIDTH - DOT_HCENTER
        && x >= strip
        && (x - strip) % DOT_HPIXELSPAN == DOT_HCENTER {
        BRIGHT
    } else {
        DARK
    }
}

/// Generate the dot test pattern for downscale analysis: 557x275, bright
/// dots at a phase that advances by one pixel per strip, `DARK` everywhere
/// else.
pub fn generate_dot_pattern() -> (r: PixelBuffer)
    ensures
        r.wf(),
        r.width == DOT_SRC_WIDTH,
        r.height == DOT_SRC_HEIGHT,
        r.stride == DOT_SRC_WIDTH,
        r.data.len() == DOT_SRC_WIDTH * DOT_SRC_HEIGHT,
        forall|x: int, y: int|
            0 <= x < DOT_SRC_WIDTH && 0 <= y < DOT_SRC_HEIGHT
                ==> #[trigger] r.pixel(x, y) == dot_pixel(x, y),
{
    let mut data: Vec<u8> = Vec::new();
    let mut y: usize = 0;
    while y < DOT_SRC_HEIGHT
        invariant
            y <= DOT_SRC_HEIGHT,
            data.len() == y * DOT_SRC_WIDTH,
            forall|x2: int, y2: int|
                0 <= x2 < DOT_SRC_WIDTH && 0 <= y2 < y
                    ==> #[trigger] data[y2 * DOT_SRC_WIDTH + x2] == dot_pixel(x2, y2),
        decreases DOT_SRC_HEIGHT - y,
    {
        let mut x: usize = 0;
        while x < DOT_SRC_WIDTH
            invariant
                y < DOT_SRC_HEIGHT,
                x <= DOT_SRC_WIDTH,
                data.len() == y * DOT_SRC_WIDTH + x,
                forall|x2: int, y2: int|
                    0 <= x2 < DOT_SRC_WIDTH && 0 <= y2 < y
                        ==> #[trigger] data[y2 * DOT_SRC_WIDTH + x2] == dot_pixel(x2, y2),
                forall|x2: int|
                    0 <= x2 < x
                        ==> #[trigger] data[y * DOT_SRC_WIDTH + x2] == dot_pixel(x2, y as int),
            decreases DOT_SRC_WIDTH - x,
        {
            data.push(dot_pixel_at(x, y));
            x = x + 1;
        }
        y = y + 1;
    }
    PixelBuffer {
        width: DOT_SRC_WIDTH,
        height: DOT_SRC_HEIGHT,
        stride: DOT_SRC_WIDTH,
        data,
    }
}

/// Builds a 15x15 pattern that is `BRIGHT` on one column and `DARK`
/// everywhere else.
fn generate_column_pattern(bright_x: usize) -> (r: PixelBuffer)
    requires
        bright_x < LINE_SRC_WIDTH,
    ensures
        r.wf(),
        r.width == LINE_SRC_WIDTH,
        r.height == LINE_SRC_HEIGHT,
        r.stride == LINE_SRC_WIDTH,
        r.data.len() == LINE_SRC_WIDTH * LINE_SRC_HEIGHT,
        forall|x: int, y: int|
            0 <= x < LINE_SRC_WIDTH && 0 <= y < LINE_SRC_HEIGHT
                ==> #[trigger] r.pixel(x, y) == (if x == bright_x { BRIGHT } else { DARK }),
{
    let mut data: Vec<u8> = Vec::new();
    let mut y: usize = 0;
    while y < LINE_SRC_HEIGHT
        invariant
            y <= LINE_SRC_HEIGHT,
            bright_x < LINE_SRC_WIDTH,
            data.len() == y * LINE_SRC_WIDTH,
            forall|x2: int, y2: int|
                0 <= x2 < LINE_SRC_WIDTH && 0 <= y2 < y
                    ==> #[trigger] data[y2 * LINE_SRC_WIDTH + x2]
                        == (if x2 == bright_x { BRIGHT } else { DARK }),
        decreases LINE_SRC_HEIGHT - y,
    {
        let mut x: usize = 0;
        while x < LINE_SRC_WIDTH
            invariant
                y < LINE_SRC_HEIGHT,
                x <= LINE_SRC_WIDTH,
                bright_x < LINE_SRC_WIDTH,
                data.len() == y * LINE_SRC_WIDTH + x,
                forall|x2: int, y2: int|
                    0 <= x2 < LINE_SRC_WIDTH && 0 <= y2 < y
                        ==> #[trigger] data[y2 * LINE_SRC_WIDTH + x2]
                            == (if x2 == bright_x { BRIGHT } else { DARK }),
                forall|x2: int|
                    0 <= x2 < x
                        ==> #[trigger] data[y * LINE_SRC_WIDTH + x2]
                            == (if x2 == bright_x { BRIGHT } else { DARK }),
            decreases LINE_SRC_WIDTH - x,
        {
            if x == bright_x {
                data.push(BRIGHT);
            } else {
                data.push(DARK);
            }
            x = x + 1;
        }
        y = y + 1;
    }
    PixelBuffer {
        width: LINE_SRC_WIDTH,
        height: LINE_SRC_HEIGHT,
        stride: LINE_SRC_WIDTH,
        data,
    }
}

/// Generate the line test pattern for upscale analysis: 15x15, a single
/// bright column at the horizontal center (x = 7).
pub fn generate_line_pattern() -> (r: PixelBuffer)
    ensures
        r.wf(),
        r.width == LINE_SRC_WIDTH,
        r.height == LINE_SRC_HEIGHT,
        r.stride == LINE_SRC_WIDTH,
        r.data.len() == LINE_SRC_WIDTH * LINE_SRC_HEIGHT,
        forall|x: int, y: int|
            0 <= x < LINE_SRC_WIDTH && 0 <= y < LINE_SRC_HEIGHT
                ==> #[trigger] r.pixel(x, y) == line_pixel(x, y),
{
    generate_column_pattern(LINE_SRC_WIDTH / 2)
}

/// Generate the edge test pattern for edge handling detection: 15x15, a
/// single bright column at x = 1, near the left edge.
pub fn generate_edge_pattern() -> (r: PixelBuffer)
    ensures
        r.wf(),
        r.width == LINE_SRC_WIDTH,
        r.height == LINE_SRC_HEIGHT,
        r.stride == LINE_SRC_WIDTH,
        r.data.len() == LINE_SRC_WIDTH * LINE_SRC_HEIGHT,
        forall|x: int, y: int|
            0 <= x < LINE_SRC_WIDTH && 0 <= y < LINE_SRC_HEIGHT
                ==> #[trigger] r.pixel(x, y) == edge_pixel(x, y),
{
    generate_column_pattern(1)
}

} // verus!

//! The integer geometry that curve reconstruction rests on: the target
//! sizes the callback must hit, the row-sampling schedule of the line
//! analysis, and the layout of the dots each strip of the dot pattern
//! carries.

use vstd::prelude::*;

use crate::pattern::{
    dot_pixel, BRIGHT, DOT_DST_HEIGHT, DOT_DST_WIDTH, DOT_HCENTER, DOT_HPIXELSPAN,
    DOT_NUM_STRIPS, DOT_SRC_HEIGHT, DOT_SRC_WIDTH, DOT_STRIP_HEIGHT, DOT_VCENTER,
    LINE_DST_HEIGHT, LINE_DST_WIDTH,
};
use vstd::arithmetic::div_mod::{
    lemma_div_is_ordered, lemma_div_multiples_vanish, lemma_div_pos_is_pos,
    lemma_fundamental_div_mod, lemma_fundamental_div_mod_converse, lemma_mod_multiples_vanish,
};

verus! {

/// Expected target dimensions for the dot pattern resize: two pixels
/// narrower than the source, same height.
pub fn dot_target() -> (r: (usize, usize))
    ensures
        r.0 == DOT_DST_WIDTH,
        r.1 == DOT_DST_HEIGHT,
{
    (DOT_DST_WIDTH, DOT_DST_HEIGHT)
}

/// Expected target dimensions for the line pattern resize: a large
/// upscale in width, same height.
pub fn line_target() -> (r: (usize, usize))
    ensures
        r.0 == LINE_DST_WIDTH,
        r.1 == LINE_DST_HEIGHT,
{
    (LINE_DST_WIDTH, LINE_DST_HEIGHT)
}

/// The row that the line analysis samples for output column `i` of an
/// image `h` rows tall: the vertical center row, cycling one row up and
/// down by `i % 3` as a consistency probe against row-dependent resizer
/// behavior, and staying put when the image is too short to cycle.
pub fn line_sample_row(i: usize, h: usize) -> (r: usize)
    requires
        h >= 1,
    ensures
        r < h,
        h >= 3 ==> r == h / 2 + i % 3 - 1,
        h < 3 ==> r == h / 2,
{
    if h >= 3 {
        let m: usize = i % 3;
        if m == 0 {
            h / 2 - 1
        } else {
            h / 2 + m - 1
        }
    } else {
        h / 2
    }
}

/// The center row of a strip of the dot pattern: the one row that carries
/// bright dots.
pub fn strip_center_row(strip: usize) -> (r: usize)
    requires
        strip < DOT_NUM_STRIPS,
    ensures
        r == strip * DOT_STRIP_HEIGHT + DOT_VCENTER,
        r < DOT_SRC_HEIGHT,
{
    strip * DOT_STRIP_HEIGHT + DOT_VCENTER
}

/// The columns of the bright dots that a strip carries: starting at
/// `DOT_HCENTER + strip`, spaced `DOT_HPIXELSPAN` apart, as long as the
/// dot fits without touching the image edge. These are exactly the
/// columns on which the dot pattern's center row of this strip is
/// `BRIGHT`, so the scatter analysis enumerates every dot the pattern
/// generator placed, and no others.
pub fn strip_dot_positions(strip: usize) -> (r: Vec<usize>)
    requires
        strip < DOT_NUM_STRIPS,
    ensures
        r@.len() == (DOT_SRC_WIDTH - 2 * DOT_HCENTER - 1 - strip) / (DOT_HPIXELSPAN as int) + 1,
        forall|j: int|
            0 <= j < r@.len() ==> r@[j] == DOT_HCENTER + strip + DOT_HPIXELSPAN * j,
        forall|j: int|
            0 <= j < r@.len() ==> DOT_HCENTER <= #[trigger] r@[j] < DOT_SRC_WIDTH - DOT_HCENTER,
        forall|j: int|
            0 <= j < r@.len()
                ==> dot_pixel(
                    #[trigger] r@[j] as int,
                    strip * DOT_STRIP_HEIGHT + DOT_VCENTER,
                ) == BRIGHT,
        forall|x: int|
            0 <= x < DOT_SRC_WIDTH
                && #[trigger] dot_pixel(x, strip * DOT_STRIP_HEIGHT + DOT_VCENTER) == BRIGHT
                ==> exists|j: int| 0 <= j < r@.len() && r@[j] == x,
{
    let mut r: Vec<usize> = Vec::new();
    let mut k: usize = DOT_HCENTER + strip;
    while k < DOT_SRC_WIDTH - DOT_HCENTER
        invariant
            strip < DOT_NUM_STRIPS,
            k == DOT_HCENTER + strip + DOT_HPIXELSPAN * r@.len(),
            k < DOT_SRC_WIDTH - DOT_HCENTER + DOT_HPIXELSPAN,
            forall|j: int|
                0 <= j < r@.len() ==> r@[j] == DOT_HCENTER + strip + DOT_HPIXELSPAN * j,
            forall|j: int|
                0 <= j < r@.len() ==> DOT_HCENTER <= #[trigger] r@[j] < DOT_SRC_WIDTH - DOT_HCENTER,
        decreases DOT_SRC_WIDTH + DOT_HPIXELSPAN - k,
    {
        r.push(k);
        k = k + DOT_HPIXELSPAN;
    }
    proof {
        let len = r@.len() as int;
        let span = DOT_HPIXELSPAN as int;
        let last = DOT_SRC_WIDTH - 2 * DOT_HCENTER - 1 - strip;
        assert(len >= 1);
        assert(span * (len - 1) <= last < span * len);
        lemma_fundamental_div_mod_converse(last, span, len - 1, last - span * (len - 1));

        let s = strip as int;
        let y = s * (DOT_STRIP_HEIGHT as int) + DOT_VCENTER;
        lemma_fundamental_div_mod_converse(y, DOT_STRIP_HEIGHT as int, s, DOT_VCENTER as int);

        assert forall|j: int| 0 <= j < len implies dot_pixel(r@[j] as int, y) == BRIGHT by {
            let pos = r@[j] as int;
            assert(pos == DOT_HCENTER + s + span * j);
            lemma_mod_multiples_vanish(j, DOT_HCENTER as int, span);
            assert((pos - s) % span == DOT_HCENTER);
        }

        assert forall|x: int|
            0 <= x < DOT_SRC_WIDTH && #[trigger] dot_pixel(x, y) == BRIGHT
                implies exists|j: int| 0 <= j < len && r@[j] == x by {
            let q = (x - s) / span;
            lemma_fundamental_div_mod(x - s, span);
            lemma_div_pos_is_pos(x - s, span);
            assert(x == DOT_HCENTER + s + span * q);
            assert(span * q <= last);
            lemma_div_is_ordered(span * q, last, span);
            lemma_div_multiples_vanish(q, span);
            assert(q <= last / span);
            assert(0 <= q < len);
            assert(r@[q] == DOT_HCENTER + s + span * q);
            assert(r@[q] == x);
        }
    }
    r
}

} // verus!

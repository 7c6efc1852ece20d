//! Classification of a resizer's out-of-bounds handling, probed with a
//! bright column next to the left image edge.
//!
//! The energies around the response peak are floating-point work and are
//! computed outside the verified core; what is verified here is the
//! geometry of the comparison window and the decision logic that turns
//! the observed indicators into a classification, in its fixed precedence
//! order.

use vstd::prelude::*;

verus! {

/// Detected edge handling mode.
#[derive(Debug, Clone, Copy, PartialEq, Eq, Structural)]
pub enum EdgeMode {
    /// Clamps to the nearest edge pixel.
    Clamp,
    /// Reflects across the edge.
    Reflect,
    /// Wraps around to the opposite edge.
    Wrap,
    /// Treats out-of-bounds as zero (black).
    Zero,
    /// Could not determine edge handling.
    Unknown,
}

/// The display name of each edge mode.
pub open spec fn spec_label(m: EdgeMode) -> Seq<char> {
    match m {
        EdgeMode::Clamp => "Clamp"@,
        EdgeMode::Reflect => "Reflect"@,
        EdgeMode::Wrap => "Wrap"@,
        EdgeMode::Zero => "Zero"@,
        EdgeMode::Unknown => "Unknown"@,
    }
}

impl EdgeMode {
    /// The mode's display name.
    pub fn label(&self) -> (r: &'static str)
        ensures
            r@ == spec_label(*self),
    {
        match self {
            EdgeMode::Clamp => "Clamp",
            EdgeMode::Reflect => "Reflect",
            EdgeMode::Wrap => "Wrap",
            EdgeMode::Zero => "Zero",
            EdgeMode::Unknown => "Unknown",
        }
    }
}

/// How far to each side of the response peak the energy comparison may
/// reach: bounded by the distance to either image edge (so both sides
/// compare the same number of pixels) and by a quarter of the image
/// width.
pub open spec fn spec_window_extent(peak_idx: int, dst_w: int) -> int {
    let left = peak_idx;
    let right = dst_w - 1 - peak_idx;
    let cap = dst_w / 4;
    let side = if left <= right {
        left
    } else {
        right
    };
    if side <= cap {
        side
    } else {
        cap
    }
}

/// Computes the energy-comparison window extent around the peak.
pub fn window_extent(peak_idx: usize, dst_w: usize) -> (r: usize)
    requires
        peak_idx < dst_w,
    ensures
        r == spec_window_extent(peak_idx as int, dst_w as int),
{
    let left: usize = peak_idx;
    let right: usize = dst_w - 1 - peak_idx;
    let side: usize = if left <= right {
        left
    } else {
        right
    };
    let cap: usize = dst_w / 4;
    if side <= cap {
        side
    } else {
        cap
    }
}

/// The half-open range of columns searched for the response peak: five
/// pixels to either side of the expected peak position, cut off at the
/// image edges.
pub fn peak_search_window(expected_peak: usize, dst_w: usize) -> (r: (usize, usize))
    requires
        expected_peak + 6 <= usize::MAX,
    ensures
        r.0 == (if expected_peak >= 5 {
            expected_peak - 5
        } else {
            0
        }),
        r.1 == (if expected_peak + 6 <= dst_w {
            expected_peak + 6
        } else {
            dst_w as int
        }),
{
    let start: usize = if expected_peak >= 5 {
        expected_peak - 5
    } else {
        0
    };
    let end: usize = if expected_peak + 6 <= dst_w {
        expected_peak + 6
    } else {
        dst_w
    };
    (start, end)
}

/// Turns the observed indicators into an edge mode, in the fixed
/// precedence order of the classifier: negative left-side weights or a
/// collapsed left/right energy ratio mean zero padding; otherwise energy
/// at the far side of the image means wrapping; otherwise a high ratio
/// means reflection; a near-even ratio means clamping; anything else is
/// inconclusive.
///
/// The indicators stand for: a weight below -0.03 left of the peak
/// (`left_has_negative`), energy ratio below 0.5 (`ratio_below_zero_cut`),
/// far-side energy above 0.02 (`far_energy_high`), energy ratio above 1.5
/// (`ratio_above_reflect_cut`), and energy ratio above 0.7
/// (`ratio_above_clamp_cut`).
pub fn classify_edge(
    left_has_negative: bool,
    ratio_below_zero_cut: bool,
    far_energy_high: bool,
    ratio_above_reflect_cut: bool,
    ratio_above_clamp_cut: bool,
) -> (r: EdgeMode)
    ensures
        r == (if left_has_negative || ratio_below_zero_cut {
            EdgeMode::Zero
        } else if far_energy_high {
            EdgeMode::Wrap
        } else if ratio_above_reflect_cut {
            EdgeMode::Reflect
        } else if ratio_above_clamp_cut {
            EdgeMode::Clamp
        } else {
            EdgeMode::Unknown
        }),
{
    if left_has_negative || ratio_below_zero_cut {
        EdgeMode::Zero
    } else if far_energy_high {
        EdgeMode::Wrap
    } else if ratio_above_reflect_cut {
        EdgeMode::Reflect
    } else if ratio_above_clamp_cut {
        EdgeMode::Clamp
    } else {
        EdgeMode::Unknown
    }
}

} // verus!

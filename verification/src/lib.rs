//! Probing library for characterizing the resampling filter of an opaque
//! image resizer.
//!
//! The resizer under test is driven from unverified glue as a callback; this
//! crate holds the deterministic core that can be stated and proved over
//! plain integer values: the synthetic test patterns with their exact
//! pixel-level layout, the grayscale buffer model, the geometry that the
//! curve reconstruction relies on, the dimension checks of the error
//! taxonomy, and the decision logic of the edge-handling classifier.
//! The floating-point numerics (filter kernels, weight tables, scoring,
//! SSIM) live outside the verified core.

use vstd::prelude::*;

pub mod analyze;
pub mod buffer;
pub mod edge;
pub mod filters;
pub mod pattern;

pub use buffer::PixelBuffer;
pub use edge::EdgeMode;
pub use filters::KnownFilter;

verus! {

/// Configuration for an analysis run.
#[derive(Debug, Clone)]
pub struct AnalysisConfig {
    /// Whether the resizer operates in sRGB colorspace (decode its output to
    /// linear light before reconstructing weights).
    pub srgb: bool,
    /// Whether to probe the resizer's edge handling as well.
    pub detect_edges: bool,
}

impl Default for AnalysisConfig {
    /// By default the output is treated as linear and edge detection runs.
    fn default() -> (r: Self)
        ensures
            r.srgb == false,
            r.detect_edges == true,
    {
        AnalysisConfig { srgb: false, detect_edges: true }
    }
}

/// Error type for analysis operations.
#[derive(Debug, Clone, PartialEq, Eq, Structural)]
pub enum Error {
    /// The resize callback returned a buffer of the wrong size.
    WrongDimensions {
        expected_w: usize,
        expected_h: usize,
        actual_w: usize,
        actual_h: usize,
    },
    /// Both reconstruction passes produced zero points.
    NoData,
}

/// Checks a callback's output size against the requested target size.
///
/// Succeeds exactly when both dimensions match; otherwise reports the
/// mismatch, carrying both the expected and the actual dimensions.
pub fn check_dimensions(
    actual_w: usize,
    actual_h: usize,
    expected_w: usize,
    expected_h: usize,
) -> (r: Result<(), Error>)
    ensures
        r is Ok <==> (actual_w == expected_w && actual_h == expected_h),
        r is Err ==> r == Err::<(), Error>(Error::WrongDimensions {
            expected_w,
            expected_h,
            actual_w,
            actual_h,
        }),
{
    if actual_w != expected_w || actual_h != expected_h {
        Err(Error::WrongDimensions { expected_w, expected_h, actual_w, actual_h })
    } else {
        Ok(())
    }
}

/// Which reconstructed curve the scoring stage should use.
#[derive(Debug, Clone, Copy, PartialEq, Eq, Structural)]
pub enum CurveChoice {
    /// Score the connected curve from the upscale pass.
    Upscale,
    /// Score the scatter curve from the downscale pass.
    Downscale,
}

/// Picks the curve to score: the upscale curve is preferred (higher
/// resolution, cleaner data), the downscale curve is the fallback, and two
/// empty curves mean the whole analysis produced no usable data.
pub fn choose_scoring_curve(
    upscale_points: usize,
    downscale_points: usize,
) -> (r: Result<CurveChoice, Error>)
    ensures
        upscale_points > 0 ==> r == Ok::<CurveChoice, Error>(CurveChoice::Upscale),
        upscale_points == 0 && downscale_points > 0
            ==> r == Ok::<CurveChoice, Error>(CurveChoice::Downscale),
        upscale_points == 0 && downscale_points == 0
            ==> r == Err::<CurveChoice, Error>(Error::NoData),
{
    if upscale_points > 0 {
        Ok(CurveChoice::Upscale)
    } else if downscale_points > 0 {
        Ok(CurveChoice::Downscale)
    } else {
        Err(Error::NoData)
    }
}

} // verus!

//! The closed set of named reference filter kernels that reconstructed
//! curves are scored against. The kernels' numeric evaluation is
//! floating-point work and lives outside the verified core; here stands
//! the catalogue itself: the variants, their display names, and the fixed
//! scoring order.

use vstd::prelude::*;

verus! {

/// One of the fixed set of reference filter kernels.
#[derive(Debug, Clone, Copy, PartialEq, Eq, Structural)]
pub enum KnownFilter {
    Box,
    Triangle,
    Hermite,
    CatmullRom,
    Mitchell,
    BSpline,
    Lanczos2,
    Lanczos3,
    Lanczos4,
}

/// The display name of each filter.
pub open spec fn spec_name(f: KnownFilter) -> Seq<char> {
    match f {
        KnownFilter::Box => "Box"@,
        KnownFilter::Triangle => "Triangle"@,
        KnownFilter::Hermite => "Hermite"@,
        KnownFilter::CatmullRom => "Catmull-Rom"@,
        KnownFilter::Mitchell => "Mitchell"@,
        KnownFilter::BSpline => "B-Spline"@,
        KnownFilter::Lanczos2 => "Lanczos2"@,
        KnownFilter::Lanczos3 => "Lanczos3"@,
        KnownFilter::Lanczos4 => "Lanczos4"@,
    }
}

/// The fixed order in which the filters are scored.
pub open spec fn spec_all_named() -> Seq<KnownFilter> {
    seq![
        KnownFilter::Box,
        KnownFilter::Triangle,
        KnownFilter::Hermite,
        KnownFilter::CatmullRom,
        KnownFilter::Mitchell,
        KnownFilter::BSpline,
        KnownFilter::Lanczos2,
        KnownFilter::Lanczos3,
        KnownFilter::Lanczos4,
    ]
}

impl KnownFilter {
    /// The filter's display name.
    pub fn name(&self) -> (r: &'static str)
        ensures
            r@ == spec_name(*self),
    {
        match self {
            KnownFilter::Box => "Box",
            KnownFilter::Triangle => "Triangle",
            KnownFilter::Hermite => "Hermite",
            KnownFilter::CatmullRom => "Catmull-Rom",
            KnownFilter::Mitchell => "Mitchell",
            KnownFilter::BSpline => "B-Spline",
            KnownFilter::Lanczos2 => "Lanczos2",
            KnownFilter::Lanczos3 => "Lanczos3",
            KnownFilter::Lanczos4 => "Lanczos4",
        }
    }

    /// All built-in named filters, in scoring order.
    pub fn all_named() -> (r: Vec<KnownFilter>)
        ensures
            r@ == spec_all_named(),
    {
        let mut r: Vec<KnownFilter> = Vec::new();
        r.push(KnownFilter::Box);
        r.push(KnownFilter::Triangle);
        r.push(KnownFilter::Hermite);
        r.push(KnownFilter::CatmullRom);
        r.push(KnownFilter::Mitchell);
        r.push(KnownFilter::BSpline);
        r.push(KnownFilter::Lanczos2);
        r.push(KnownFilter::Lanczos3);
        r.push(KnownFilter::Lanczos4);
        proof {
            assert(r@ =~= spec_all_named());
        }
        r
    }
}

} // verus!

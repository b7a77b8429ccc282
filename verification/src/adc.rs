//! Analog voltage sampling: divider scaling.
//!
//! The analog pin sits behind a resistive divider with a high-side leg and a
//! low-side leg.  A raw sample is the voltage at the pin in millivolts; the
//! voltage at the divider input is the sample scaled by
//! `(high + low) / low`.  The library keeps the ratio as an exact rational
//! (numerator and denominator in ohms) and the scaled result in millivolts,
//! so the scaling is exact integer arithmetic whenever the denominator
//! divides the product.
//!
//! The one-shot hardware conversion happens outside the library; the reader
//! here is handed the raw sample and does the verified part: scaling.

use vstd::prelude::*;

verus! {

/// The divider ratio `(high-side + low-side) / low-side` as an exact
/// rational over the two resistor legs.
#[derive(Clone, Copy, PartialEq, Eq, Structural, Debug)]
pub struct DividerRatio {
    /// Sum of both resistor legs, in ohms.
    pub numerator: u32,
    /// The low-side leg, in ohms.
    pub denominator: u32,
}

impl DividerRatio {
    /// A ratio is usable when its denominator is a real resistor.
    pub open spec fn wf(&self) -> bool {
        self.denominator > 0
    }

    /// The ratio of a divider with legs `resistor_a` (high side) and
    /// `resistor_b` (low side).
    pub fn from_resistors(resistor_a: u32, resistor_b: u32) -> (r: DividerRatio)
        requires
            resistor_b > 0,
            resistor_a + resistor_b <= u32::MAX,
        ensures
            r.numerator == resistor_a + resistor_b,
            r.denominator == resistor_b,
            r.wf(),
    {
        DividerRatio { numerator: resistor_a + resistor_b, denominator: resistor_b }
    }
}

/// A raw sample scaled through a divider ratio, in millivolts at the divider
/// input (integer division).
pub open spec fn scaled_millivolts(sample: u16, ratio: DividerRatio) -> int {
    (sample * ratio.numerator) / (ratio.denominator as int)
}

/// Scales raw samples of the analog-to-digital converter through the board's
/// divider ratio.  The converter itself stays outside the library; this type
/// holds the ratio and the scaling logic.
pub struct AdcReader {
    divider_ratio: DividerRatio,
}

impl AdcReader {
    /// The divider ratio this reader was configured with.
    pub closed spec fn spec_divider_ratio(&self) -> DividerRatio {
        self.divider_ratio
    }

    pub open spec fn wf(&self) -> bool {
        self.spec_divider_ratio().wf()
    }

    pub fn new(divider_ratio: DividerRatio) -> (r: AdcReader)
        requires
            divider_ratio.wf(),
        ensures
            r.spec_divider_ratio() == divider_ratio,
            r.wf(),
    {
        AdcReader { divider_ratio }
    }

    /// The configured ratio.
    pub fn divider_ratio(&self) -> (r: DividerRatio)
        ensures
            r == self.spec_divider_ratio(),
    {
        self.divider_ratio
    }

    /// Exact scaling of one raw sample to millivolts at the divider input.
    pub fn read_voltage(&self, sample: u16) -> (millivolts: u64)
        requires
            self.wf(),
        ensures
            millivolts == scaled_millivolts(sample, self.spec_divider_ratio()),
    {
        let num: u64 = self.divider_ratio.numerator as u64;
        let den: u64 = self.divider_ratio.denominator as u64;
        proof {
            assert((sample as u64) * num <= 0xFFFF * 0xFFFF_FFFFu64) by (nonlinear_arith)
                requires
                    sample <= 0xFFFF,
                    num <= 0xFFFF_FFFFu64,
            ;
        }
        (sample as u64 * num) / den
    }
}

} // verus!

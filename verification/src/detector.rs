//! The anomaly policy: a single-sample temperature threshold.

use vstd::prelude::*;
use crate::float_bits::float_gt;
use crate::float_bits::float_le;
use crate::float_bits::is_nan;
use crate::float_bits::bits_gt;
use crate::float_bits::lemma_gt_le_exclusive;
use crate::reading::Reading;

verus! {

/// Bit pattern of the default temperature threshold, the number eighty.
pub const DEFAULT_THRESHOLD_BITS: u32 = 0x42A0_0000;

/// The anomaly detector: a pure, stateless verdict over one reading. A
/// reading is anomalous exactly when its temperature is strictly greater
/// than the configured threshold; a not-a-number temperature is never
/// anomalous, because it is strictly greater than nothing.
#[derive(Clone, Copy, PartialEq, Eq, Structural, Debug)]
pub struct AnomalyDetector {
    /// Bit pattern of the temperature threshold.
    pub threshold: u32,
}

impl AnomalyDetector {
    /// The verdict, as a mathematical function of the reading.
    pub open spec fn spec_verdict(self, r: Reading) -> bool {
        float_gt(r.temperature, self.threshold)
    }

    /// Builds a detector with the given threshold bit pattern.
    pub fn new(threshold: u32) -> (d: AnomalyDetector)
        ensures
            d.threshold == threshold,
    {
        AnomalyDetector { threshold }
    }

    /// Evaluates one reading: true exactly when its temperature is strictly
    /// greater than the threshold.
    pub fn evaluate(&self, reading: &Reading) -> (v: bool)
        ensures
            v == self.spec_verdict(*reading),
    {
        bits_gt(reading.temperature, self.threshold)
    }

    /// The threshold is a strict bound: every reading whose temperature is
    /// at or below the threshold is judged normal, every reading whose
    /// temperature denotes a number above it is judged anomalous, and a
    /// reading whose temperature equals the threshold exactly is normal.
    pub proof fn lemma_verdict_strict(self, r: Reading)
        ensures
            float_le(r.temperature, self.threshold) ==> !self.spec_verdict(r),
            !is_nan(r.temperature) && !is_nan(self.threshold)
                && !float_le(r.temperature, self.threshold) ==> self.spec_verdict(r),
            r.temperature == self.threshold ==> !self.spec_verdict(r),
    {
        if !is_nan(r.temperature) && !is_nan(self.threshold) {
            lemma_gt_le_exclusive(r.temperature, self.threshold);
        }
    }

    /// A not-a-number temperature is judged normal, whatever the threshold.
    pub proof fn lemma_nan_is_normal(self, r: Reading)
        requires
            is_nan(r.temperature),
        ensures
            !self.spec_verdict(r),
    {
    }
}

} // verus!

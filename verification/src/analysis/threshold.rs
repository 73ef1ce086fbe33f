//! Quality thresholds for fail-closed behavior.
//!
//! A sample that breaks a threshold suspends reseeding.

use vstd::prelude::*;
use crate::analysis::ratio::Ratio;
use crate::analysis::statistics::{
    all_bytes_are, bias_of, law_constant_buffer_is_degenerate, variance_of, StatisticalTests,
    MAX_SAMPLE_BYTES,
};

verus! {

/// Quality thresholds for entropy monitoring, each in millionths.
#[derive(Clone, Copy, Debug, PartialEq, Eq)]
pub struct QualityThresholds {
    /// Maximum acceptable bit bias (absolute value), in millionths.
    pub max_bit_bias: u64,
    /// Minimum acceptable variance, in millionths.
    pub min_variance: u64,
    /// Maximum acceptable autocorrelation (absolute value), in millionths.
    pub max_autocorrelation: u64,
}

/// The reason a sample failed its check.
#[derive(Clone, Copy, Debug, PartialEq, Eq)]
pub enum ThresholdViolation {
    /// The bias is further from zero than the threshold, in millionths,
    /// allows.
    BitBias { observed: Ratio, threshold: u64 },
    /// The variance is below the threshold, in millionths.
    LowVariance { observed: Ratio, threshold: u64 },
    /// The autocorrelation is further from zero than the threshold, in
    /// millionths, allows.
    HighAutocorrelation { observed: Ratio, threshold: u64 },
}

impl Default for QualityThresholds {
    /// A bias of at most 0.05, a variance of at least 500, an
    /// autocorrelation of at most 0.3.
    fn default() -> (thresholds: Self)
        ensures
            thresholds == QualityThresholds::standard(),
    {
        Self { max_bit_bias: 50_000, min_variance: 500_000_000, max_autocorrelation: 300_000 }
    }
}

impl QualityThresholds {
    /// The default thresholds.
    pub open spec fn standard() -> QualityThresholds {
        QualityThresholds {
            max_bit_bias: 50_000,
            min_variance: 500_000_000,
            max_autocorrelation: 300_000,
        }
    }

    /// The first bound that `stats` breaks, taken in the fixed order bias,
    /// variance, autocorrelation; `None` where it breaks none.
    pub open spec fn violation(&self, stats: StatisticalTests) -> Option<ThresholdViolation> {
        if stats.bit_bias.magnitude().above(self.max_bit_bias as int) {
            Some(
                ThresholdViolation::BitBias {
                    observed: stats.bit_bias,
                    threshold: self.max_bit_bias,
                },
            )
        } else if stats.variance.below(self.min_variance as int) {
            Some(
                ThresholdViolation::LowVariance {
                    observed: stats.variance,
                    threshold: self.min_variance,
                },
            )
        } else if stats.autocorrelation.magnitude().above(self.max_autocorrelation as int) {
            Some(
                ThresholdViolation::HighAutocorrelation {
                    observed: stats.autocorrelation,
                    threshold: self.max_autocorrelation,
                },
            )
        } else {
            None
        }
    }

    /// Creates more conservative thresholds: 0.02, 1000, 0.1.
    pub fn conservative() -> (thresholds: Self)
        ensures
            thresholds == (QualityThresholds {
                max_bit_bias: 20_000,
                min_variance: 1_000_000_000,
                max_autocorrelation: 100_000,
            }),
    {
        Self { max_bit_bias: 20_000, min_variance: 1_000_000_000, max_autocorrelation: 100_000 }
    }

    /// Creates more permissive thresholds, for testing: 0.2, 100, 0.5.
    pub fn permissive() -> (thresholds: Self)
        ensures
            thresholds == (QualityThresholds {
                max_bit_bias: 200_000,
                min_variance: 100_000_000,
                max_autocorrelation: 500_000,
            }),
    {
        Self { max_bit_bias: 200_000, min_variance: 100_000_000, max_autocorrelation: 500_000 }
    }

    /// Checks statistics against thresholds.
    ///
    /// At most one violation is reported: the first in the order bias,
    /// variance, autocorrelation.
    pub fn check(&self, stats: &StatisticalTests) -> (outcome: Result<(), ThresholdViolation>)
        requires
            stats.wf(),
        ensures
            match self.violation(*stats) {
                Some(violation) => outcome == Err::<(), ThresholdViolation>(violation),
                None => outcome is Ok,
            },
    {
        if stats.bit_bias.abs().is_above(self.max_bit_bias, 1) {
            return Err(
                ThresholdViolation::BitBias {
                    observed: stats.bit_bias,
                    threshold: self.max_bit_bias,
                },
            );
        }
        if stats.variance.is_below(self.min_variance, 65025) {
            return Err(
                ThresholdViolation::LowVariance {
                    observed: stats.variance,
                    threshold: self.min_variance,
                },
            );
        }
        if stats.autocorrelation.abs().is_above(self.max_autocorrelation, 1) {
            return Err(
                ThresholdViolation::HighAutocorrelation {
                    observed: stats.autocorrelation,
                    threshold: self.max_autocorrelation,
                },
            );
        }
        Ok(())
    }
}

/// A buffer of equal bytes fails every check that asks for any variance at
/// all, whatever its autocorrelation: for low variance where its bias is
/// within the bound, and for its bias where that is not, since the bias is
/// checked first.
pub proof fn law_constant_buffer_is_rejected(thresholds: QualityThresholds, s: Seq<u8>, c: u8)
    requires
        s.len() <= MAX_SAMPLE_BYTES,
        all_bytes_are(s, c),
        thresholds.min_variance > 0,
    ensures
        thresholds.violation(StatisticalTests::of(s)) is Some,
        !bias_of(s).magnitude().above(thresholds.max_bit_bias as int) ==> thresholds.violation(
            StatisticalTests::of(s),
        ) == Some(
            ThresholdViolation::LowVariance {
                observed: variance_of(s),
                threshold: thresholds.min_variance,
            },
        ),
        bias_of(s).magnitude().above(thresholds.max_bit_bias as int) ==> thresholds.violation(
            StatisticalTests::of(s),
        ) == Some(
            ThresholdViolation::BitBias { observed: bias_of(s), threshold: thresholds.max_bit_bias },
        ),
{
    law_constant_buffer_is_degenerate(s, c);
    let variance = variance_of(s);
    assert(thresholds.min_variance * variance.den > 0) by (nonlinear_arith)
        requires
            thresholds.min_variance > 0,
            variance.den > 0,
    ;
}

} // verus!

//! Entropy testing and health monitoring.
//!
//! The tests here are sanity checks on a sample, not proofs of entropy.

mod health;
mod ratio;
mod statistics;
mod threshold;

pub use ratio::{Ratio, MILLION};
pub use statistics::{
    all_bytes_are, autocorrelation_of, bias_of, byte_sum, deviation, lag_products,
    law_bias_is_bounded, law_bias_of_constant, law_constant_buffer_is_degenerate,
    law_statistics_are_well_formed, lemma_byte_sum_bound, lemma_byte_sum_constant,
    lemma_deviation_bound, lemma_lag_products_bound, lemma_ones_in_constant,
    lemma_square_deviations_bound, lemma_square_deviations_constant,
    lemma_square_deviations_monotone, square_deviations, variance_of, StatisticalTests,
    MAX_SAMPLE_BYTES,
};
pub use threshold::{law_constant_buffer_is_rejected, QualityThresholds, ThresholdViolation};
pub use health::{
    law_consistency_is_kept, law_failure_is_immediate, law_initial_state_denies,
    law_streak_is_exact, HealthMetrics, HealthMonitor, Sample,
};

//! Entropy health monitoring.
//!
//! Tracks entropy quality over time and fails closed: one bad sample
//! suspends reseeding at once, and only a streak of good ones restores it.

use vstd::prelude::*;
use crate::analysis::statistics::{StatisticalTests, MAX_SAMPLE_BYTES};
use crate::analysis::threshold::{QualityThresholds, ThresholdViolation};
use crate::extraction::RawBits;

verus! {

/// Current health status of the entropy source.
#[derive(Clone, Copy, Debug, PartialEq, Eq)]
pub struct HealthMetrics {
    /// Most recent statistical test results.
    pub latest_stats: Option<StatisticalTests>,
    /// Whether the source is currently healthy.
    pub is_healthy: bool,
    /// Most recent violation, if any.
    pub last_violation: Option<ThresholdViolation>,
    /// Consecutive healthy samples.
    pub consecutive_healthy: u64,
    /// Consecutive unhealthy samples.
    pub consecutive_unhealthy: u64,
    /// Total samples analyzed.
    pub total_samples: u64,
}

/// One analyzed sample, as the health state machine sees it: its
/// statistics, and the bound it broke, if any.
pub struct Sample {
    /// The statistics of the sample.
    pub stats: StatisticalTests,
    /// The first bound that the statistics break; `None` for a passing
    /// sample.
    pub violation: Option<ThresholdViolation>,
}

impl Default for HealthMetrics {
    /// Unhealthy until proven otherwise, with every counter at zero.
    fn default() -> (metrics: Self)
        ensures
            metrics == HealthMetrics::initial(),
    {
        Self {
            latest_stats: None,
            is_healthy: false,
            last_violation: None,
            consecutive_healthy: 0,
            consecutive_unhealthy: 0,
            total_samples: 0,
        }
    }
}

impl HealthMetrics {
    /// The state before any sample: unhealthy, every counter at zero.
    pub open spec fn initial() -> HealthMetrics {
        HealthMetrics {
            latest_stats: None,
            is_healthy: false,
            last_violation: None,
            consecutive_healthy: 0,
            consecutive_unhealthy: 0,
            total_samples: 0,
        }
    }

    /// The state after one more sample, where `required` passing samples in
    /// a row make the source healthy.
    pub open spec fn after(self, sample: Sample, required: u64) -> HealthMetrics {
        match sample.violation {
            None => HealthMetrics {
                latest_stats: Some(sample.stats),
                is_healthy: self.is_healthy || self.consecutive_healthy + 1 >= required,
                last_violation: None,
                consecutive_healthy: (self.consecutive_healthy + 1) as u64,
                consecutive_unhealthy: 0,
                total_samples: (self.total_samples + 1) as u64,
            },
            Some(violation) => HealthMetrics {
                latest_stats: Some(sample.stats),
                is_healthy: false,
                last_violation: Some(violation),
                consecutive_healthy: 0,
                consecutive_unhealthy: (self.consecutive_unhealthy + 1) as u64,
                total_samples: (self.total_samples + 1) as u64,
            },
        }
    }

    /// The state after each of `samples` in turn.
    pub open spec fn after_all(self, samples: Seq<Sample>, required: u64) -> HealthMetrics
        decreases samples.len(),
    {
        if samples.len() == 0 {
            self
        } else {
            self.after_all(samples.drop_last(), required).after(samples.last(), required)
        }
    }

    /// What holds of every state that a monitor with streak requirement
    /// `required` can reach: the source is healthy exactly when the current
    /// streak of passing samples is long enough, one of the two streak
    /// counters is zero, and neither exceeds the number of samples seen.
    pub open spec fn consistent(self, required: u64) -> bool {
        &&& required >= 1
        &&& self.is_healthy <==> self.consecutive_healthy >= required
        &&& self.consecutive_healthy == 0 || self.consecutive_unhealthy == 0
        &&& self.consecutive_healthy <= self.total_samples
        &&& self.consecutive_unhealthy <= self.total_samples
    }
}

/// Monitors entropy health over time.
///
/// Reseeding is only allowed when the source has shown consistent quality.
pub struct HealthMonitor {
    thresholds: QualityThresholds,
    metrics: HealthMetrics,
    required_healthy_streak: u64,
}

impl HealthMonitor {
    /// The thresholds that samples are checked against.
    pub closed spec fn spec_thresholds(&self) -> QualityThresholds {
        self.thresholds
    }

    /// The current metrics.
    pub closed spec fn spec_metrics(&self) -> HealthMetrics {
        self.metrics
    }

    /// The number of passing samples in a row that make the source healthy.
    pub closed spec fn required_streak(&self) -> u64 {
        self.required_healthy_streak
    }

    /// The metrics are consistent with the streak requirement: reseeding
    /// is allowed exactly while the current streak of passing samples is
    /// long enough.
    #[verifier::type_invariant]
    pub open spec fn wf(&self) -> bool {
        self.spec_metrics().consistent(self.required_streak())
    }

    /// What `analyze` makes of the sample `bytes`: its statistics, and the
    /// first threshold they break.
    pub open spec fn sample_of(&self, bytes: Seq<u8>) -> Sample {
        Sample {
            stats: StatisticalTests::of(bytes),
            violation: self.spec_thresholds().violation(StatisticalTests::of(bytes)),
        }
    }

    /// Creates a new health monitor that asks for three good samples in a
    /// row.
    pub fn new(thresholds: QualityThresholds) -> (monitor: Self)
        ensures
            monitor.wf(),
            monitor.spec_thresholds() == thresholds,
            monitor.spec_metrics() == HealthMetrics::initial(),
            monitor.required_streak() == 3,
    {
        Self { thresholds, metrics: HealthMetrics::default(), required_healthy_streak: 3 }
    }

    /// Creates a monitor with a custom healthy streak requirement, of at
    /// least one sample.
    pub fn with_streak_requirement(thresholds: QualityThresholds, streak: u64) -> (monitor: Self)
        ensures
            monitor.wf(),
            monitor.spec_thresholds() == thresholds,
            monitor.spec_metrics() == HealthMetrics::initial(),
            monitor.required_streak() == if streak >= 1 { streak } else { 1 },
    {
        Self {
            thresholds,
            metrics: HealthMetrics::default(),
            required_healthy_streak: if streak >= 1 { streak } else { 1 },
        }
    }

    /// Analyzes a sample and updates health status.
    pub fn analyze(&mut self, raw: &RawBits) -> (metrics: &HealthMetrics)
        requires
            raw@.bytes.len() <= MAX_SAMPLE_BYTES,
            old(self).spec_metrics().total_samples < u64::MAX,
        ensures
            final(self).wf(),
            final(self).spec_thresholds() == old(self).spec_thresholds(),
            final(self).required_streak() == old(self).required_streak(),
            final(self).spec_metrics() == old(self).spec_metrics().after(
                old(self).sample_of(raw@.bytes),
                old(self).required_streak(),
            ),
            *metrics == final(self).spec_metrics(),
    {
        proof {
            use_type_invariant(&*self);
        }
        let stats = StatisticalTests::analyze(raw);
        let before = self.metrics;
        let after = match self.thresholds.check(&stats) {
            Ok(()) => {
                let streak = before.consecutive_healthy + 1;
                HealthMetrics {
                    latest_stats: Some(stats),
                    is_healthy: before.is_healthy || streak >= self.required_healthy_streak,
                    last_violation: None,
                    consecutive_healthy: streak,
                    consecutive_unhealthy: 0,
                    total_samples: before.total_samples + 1,
                }
            },
            Err(violation) => HealthMetrics {
                latest_stats: Some(stats),
                is_healthy: false,
                last_violation: Some(violation),
                consecutive_healthy: 0,
                consecutive_unhealthy: before.consecutive_unhealthy + 1,
                total_samples: before.total_samples + 1,
            },
        };
        self.metrics = after;
        &self.metrics
    }

    /// Returns current health metrics.
    pub fn metrics(&self) -> (metrics: &HealthMetrics)
        ensures
            *metrics == self.spec_metrics(),
    {
        &self.metrics
    }

    /// Returns true if reseeding should be allowed: the current health,
    /// exactly, which is that of a source whose current streak of passing
    /// samples is at least the required one.
    pub fn allow_reseed(&self) -> (allowed: bool)
        ensures
            allowed == self.spec_metrics().is_healthy,
            allowed == (self.spec_metrics().consecutive_healthy >= self.required_streak()),
    {
        proof {
            use_type_invariant(self);
        }
        self.metrics.is_healthy
    }

    /// Resets the monitor to its initial state.
    pub fn reset(&mut self)
        ensures
            final(self).wf(),
            final(self).spec_thresholds() == old(self).spec_thresholds(),
            final(self).required_streak() == old(self).required_streak(),
            final(self).spec_metrics() == HealthMetrics::initial(),
    {
        proof {
            use_type_invariant(&*self);
        }
        self.metrics = HealthMetrics::default();
    }
}

impl Default for HealthMonitor {
    /// A monitor with the default thresholds and a streak of three.
    fn default() -> (monitor: Self)
        ensures
            monitor.wf(),
            monitor.spec_thresholds() == QualityThresholds::standard(),
            monitor.spec_metrics() == HealthMetrics::initial(),
            monitor.required_streak() == 3,
    {
        Self::new(QualityThresholds::default())
    }
}

/// A monitor starts unhealthy: before any sample, reseeding is denied.
pub proof fn law_initial_state_denies(required: u64)
    ensures
        !HealthMetrics::initial().is_healthy,
        required >= 1 ==> HealthMetrics::initial().consistent(required),
{
}

/// Every sample keeps the metrics consistent: the source is healthy exactly
/// while the current streak of passing samples is at least the required
/// one.
pub proof fn law_consistency_is_kept(metrics: HealthMetrics, sample: Sample, required: u64)
    requires
        metrics.consistent(required),
        metrics.total_samples < u64::MAX,
    ensures
        metrics.after(sample, required).consistent(required),
{
}

/// A single failing sample makes the source unhealthy at once, whatever
/// came before it: the passing streak is gone, the failing streak and the
/// total are one longer, and the violation and the statistics are on record.
pub proof fn law_failure_is_immediate(metrics: HealthMetrics, sample: Sample, required: u64)
    requires
        sample.violation is Some,
    ensures
        !metrics.after(sample, required).is_healthy,
        metrics.after(sample, required).consecutive_healthy == 0,
        metrics.after(sample, required).last_violation == sample.violation,
        metrics.after(sample, required).latest_stats == Some(sample.stats),
        metrics.consecutive_unhealthy < u64::MAX ==> metrics.after(
            sample,
            required,
        ).consecutive_unhealthy == metrics.consecutive_unhealthy + 1,
        metrics.total_samples < u64::MAX ==> metrics.after(sample, required).total_samples
            == metrics.total_samples + 1,
{
}

/// Starting with no passing streak (at first, or after any failure), a run
/// of passing samples makes the source healthy exactly when the run is at
/// least as long as the required streak.
pub proof fn law_streak_is_exact(metrics: HealthMetrics, samples: Seq<Sample>, required: u64)
    requires
        metrics.consistent(required),
        metrics.consecutive_healthy == 0,
        metrics.total_samples + samples.len() <= u64::MAX,
        forall|i: int| 0 <= i < samples.len() ==> (#[trigger] samples[i]).violation is None,
    ensures
        metrics.after_all(samples, required).is_healthy <==> samples.len() >= required,
        metrics.after_all(samples, required).consecutive_healthy == samples.len(),
        metrics.after_all(samples, required).total_samples == metrics.total_samples
            + samples.len(),
        samples.len() > 0 ==> metrics.after_all(samples, required).consecutive_unhealthy == 0,
        metrics.after_all(samples, required).consistent(required),
    decreases samples.len(),
{
    if samples.len() > 0 {
        let earlier = samples.drop_last();
        assert forall|i: int| 0 <= i < earlier.len() implies (#[trigger] earlier[i]).violation
            is None by {
            assert(earlier[i] == samples[i]);
        }
        law_streak_is_exact(metrics, earlier, required);
        law_consistency_is_kept(metrics.after_all(earlier, required), samples.last(), required);
    }
}

} // verus!

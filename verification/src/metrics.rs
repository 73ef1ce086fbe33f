//! Read-only snapshots of the pipeline's state, for an exporter to poll.
//!
//! Nothing here pushes: an exporter takes a snapshot when it wants one.

use vstd::prelude::*;
use crate::analysis::{HealthMetrics, Ratio};
use crate::conditioning::EntropyPool;
use crate::reseeding::ReseedableRng;

verus! {

/// A snapshot of system state for a metrics update.
#[derive(Clone, Copy, Debug, PartialEq, Eq)]
pub struct MetricsSnapshot {
    /// Whether the entropy source is currently healthy.
    pub is_healthy: bool,
    /// Consecutive healthy samples.
    pub consecutive_healthy: u64,
    /// Consecutive unhealthy samples.
    pub consecutive_unhealthy: u64,
    /// Total samples analyzed.
    pub total_samples: u64,
    /// Bit bias from latest statistical test.
    pub bit_bias: Option<Ratio>,
    /// Variance from latest statistical test.
    pub variance: Option<Ratio>,
    /// Autocorrelation from latest statistical test.
    pub autocorrelation: Option<Ratio>,
    /// Total reseeds performed.
    pub reseed_count: u64,
    /// Bytes generated since last reseed.
    pub bytes_since_reseed: u64,
    /// Current entropy pool size in bytes.
    pub pool_size_bytes: usize,
    /// Total bits ever added to the pool.
    pub pool_total_bits_added: u64,
    /// Total pool extractions performed.
    pub pool_extractions: u64,
}

impl Default for MetricsSnapshot {
    /// The snapshot of a system that has seen nothing.
    fn default() -> (snapshot: Self)
        ensures
            snapshot == MetricsSnapshot::blank(),
    {
        Self {
            is_healthy: false,
            consecutive_healthy: 0,
            consecutive_unhealthy: 0,
            total_samples: 0,
            bit_bias: None,
            variance: None,
            autocorrelation: None,
            reseed_count: 0,
            bytes_since_reseed: 0,
            pool_size_bytes: 0,
            pool_total_bits_added: 0,
            pool_extractions: 0,
        }
    }
}

impl MetricsSnapshot {
    /// The snapshot of a system that has seen nothing.
    pub open spec fn blank() -> MetricsSnapshot {
        MetricsSnapshot {
            is_healthy: false,
            consecutive_healthy: 0,
            consecutive_unhealthy: 0,
            total_samples: 0,
            bit_bias: None,
            variance: None,
            autocorrelation: None,
            reseed_count: 0,
            bytes_since_reseed: 0,
            pool_size_bytes: 0,
            pool_total_bits_added: 0,
            pool_extractions: 0,
        }
    }

    /// The snapshot of the given components.
    pub open spec fn of(
        health: HealthMetrics,
        rng: ReseedableRng,
        pool: EntropyPool,
    ) -> MetricsSnapshot {
        MetricsSnapshot {
            is_healthy: health.is_healthy,
            consecutive_healthy: health.consecutive_healthy,
            consecutive_unhealthy: health.consecutive_unhealthy,
            total_samples: health.total_samples,
            bit_bias: match health.latest_stats {
                Some(stats) => Some(stats.bit_bias),
                None => None,
            },
            variance: match health.latest_stats {
                Some(stats) => Some(stats.variance),
                None => None,
            },
            autocorrelation: match health.latest_stats {
                Some(stats) => Some(stats.autocorrelation),
                None => None,
            },
            reseed_count: rng.reseeds(),
            bytes_since_reseed: rng.emitted(),
            pool_size_bytes: pool.contents().len() as usize,
            pool_total_bits_added: pool.bits_added(),
            pool_extractions: pool.extractions(),
        }
    }

    /// Creates a snapshot from the current state of entropy components.
    ///
    /// The three statistics are present once a sample has been analyzed.
    pub fn from_components(health: &HealthMetrics, rng: &ReseedableRng, pool: &EntropyPool) -> (
        snapshot: Self)
        ensures
            snapshot == Self::of(*health, *rng, *pool),
    {
        let (bit_bias, variance, autocorrelation) = match health.latest_stats {
            Some(stats) => (Some(stats.bit_bias), Some(stats.variance), Some(stats.autocorrelation)),
            None => (None, None, None),
        };
        Self {
            is_healthy: health.is_healthy,
            consecutive_healthy: health.consecutive_healthy,
            consecutive_unhealthy: health.consecutive_unhealthy,
            total_samples: health.total_samples,
            bit_bias,
            variance,
            autocorrelation,
            reseed_count: rng.reseed_count(),
            bytes_since_reseed: rng.bytes_since_reseed(),
            pool_size_bytes: pool.size_bytes(),
            pool_total_bits_added: pool.total_bits_added(),
            pool_extractions: pool.total_extractions(),
        }
    }
}

/// How far an exported counter that stands at `exported` has to be
/// advanced to show `observed`: the difference, and nothing where the
/// counter is already there or beyond, since a counter never goes back.
pub fn counter_advance(exported: u64, observed: u64) -> (step: u64)
    ensures
        step == if observed > exported {
            observed - exported
        } else {
            0
        },
{
    if observed > exported {
        observed - exported
    } else {
        0
    }
}

} // verus!

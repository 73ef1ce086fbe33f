//! One cycle of the entropy pipeline.
//!
//! A driving loop captures a frame and hands it to
//! [`Pipeline::process_frame`], which extracts, vets, pools and, where the
//! source is healthy and the pool is ready, reseeds. Nothing here waits or
//! retries: a cycle that cannot reseed says so, and the next frame gets the
//! next chance.

use vstd::prelude::*;
use crate::analysis::{HealthMonitor, ThresholdViolation, MAX_SAMPLE_BYTES};
use crate::capture::{Frame, FrameView};
use crate::conditioning::{blake3_hash, ConditionedSeed, EntropyPool};
use crate::extraction::Extractor;
use crate::reseeding::{
    chacha20_after_fill, chacha20_filled, chacha20_seeded, reseed_message, ReseedableRng,
    ReseedingError,
};

verus! {

/// How often a violation is reported while the source stays unhealthy: the
/// first unhealthy cycle, and every hundredth after it.
pub const REPORT_INTERVAL: u64 = 100;

/// What one cycle came to.
#[derive(Clone, Copy, Debug, PartialEq, Eq)]
pub enum CycleOutcome {
    /// The frame primed the extractor and gave no sample.
    Priming,
    /// The source is not healthy after this sample, which was dropped.
    /// `violation` is the bound it broke, if it broke one; `report` says
    /// whether this violation is one of those to be reported.
    Unhealthy { violation: Option<ThresholdViolation>, report: bool },
    /// The sample went into the pool, which is not ready yet.
    Pooled,
    /// The pool was conditioned into a seed of this entropy estimate, and
    /// the generator took it.
    Reseeded { entropy_estimate: usize },
    /// The pool was conditioned into a seed, and the generator refused it.
    Rejected { error: ReseedingError },
}

/// The extractor, health monitor, pool and generator of one entropy source,
/// with the counters of a run.
pub struct Pipeline {
    extractor: Extractor,
    health: HealthMonitor,
    pool: EntropyPool,
    rng: ReseedableRng,
    healthy_count: u64,
    unhealthy_count: u64,
    total_reseeds: u64,
}

impl Pipeline {
    /// The extractor.
    pub closed spec fn extractor(&self) -> Extractor {
        self.extractor
    }

    /// The health monitor.
    pub closed spec fn health(&self) -> HealthMonitor {
        self.health
    }

    /// The entropy pool.
    pub closed spec fn pool(&self) -> EntropyPool {
        self.pool
    }

    /// The generator.
    pub closed spec fn rng(&self) -> ReseedableRng {
        self.rng
    }

    /// Cycles that left the source healthy.
    pub closed spec fn healthy_cycles(&self) -> u64 {
        self.healthy_count
    }

    /// Cycles that gave a sample and left the source unhealthy.
    pub closed spec fn unhealthy_cycles(&self) -> u64 {
        self.unhealthy_count
    }

    /// Reseeds that the generator took.
    pub closed spec fn reseeds(&self) -> u64 {
        self.total_reseeds
    }

    /// No counter is at its limit, and the frame is small enough to be
    /// analyzed: the pipeline can take `frame`.
    ///
    /// Which counters a cycle moves is known only once the sample has been
    /// analyzed. This asks room of all of them, so that it can be tested
    /// before the cycle runs: see [`Pipeline::has_headroom`].
    pub open spec fn can_process(&self, frame: FrameView) -> bool {
        &&& frame.pixels.len() <= MAX_SAMPLE_BYTES
        &&& self.health().spec_metrics().total_samples < u64::MAX
        &&& self.pool().bits_added() + 8 * frame.pixels.len() <= u64::MAX
        &&& self.pool().extractions() < u64::MAX
        &&& self.rng().reseeds() < u64::MAX
        &&& self.healthy_cycles() < u64::MAX
        &&& self.unhealthy_cycles() < u64::MAX
        &&& self.reseeds() < u64::MAX
    }

    /// Whether the violation of the unhealthy cycle that follows `earlier`
    /// others is one to be reported.
    pub open spec fn reported(earlier: u64, violation: Option<ThresholdViolation>) -> bool {
        violation is Some && (earlier + 1) % (REPORT_INTERVAL as int) == 1
    }

    /// Puts a pipeline together, with its counters at zero.
    pub fn new(
        extractor: Extractor,
        health: HealthMonitor,
        pool: EntropyPool,
        rng: ReseedableRng,
    ) -> (pipeline: Self)
        ensures
            pipeline.extractor() == extractor,
            pipeline.health() == health,
            pipeline.pool() == pool,
            pipeline.rng() == rng,
            pipeline.healthy_cycles() == 0,
            pipeline.unhealthy_cycles() == 0,
            pipeline.reseeds() == 0,
    {
        Self {
            extractor,
            health,
            pool,
            rng,
            healthy_count: 0,
            unhealthy_count: 0,
            total_reseeds: 0,
        }
    }

    /// Whether the pipeline can take `frame`: see
    /// [`Pipeline::can_process`].
    pub fn has_headroom(&self, frame: &Frame) -> (ok: bool)
        ensures
            ok == self.can_process(frame@),
    {
        let len = frame.pixels().len();
        len <= MAX_SAMPLE_BYTES && self.health.metrics().total_samples < u64::MAX
            && self.pool.total_bits_added() <= u64::MAX - 8 * (len as u64)
            && self.pool.total_extractions() < u64::MAX && self.rng.reseed_count() < u64::MAX
            && self.healthy_count < u64::MAX && self.unhealthy_count < u64::MAX
            && self.total_reseeds < u64::MAX
    }

    /// Runs one cycle on a captured frame.
    ///
    /// The frame goes through the extractor. A sample that comes out is
    /// analyzed by the health monitor. Only while the source is healthy
    /// after it does the sample enter the pool; and only then, once the
    /// pool is ready, is the pool conditioned and the generator reseeded.
    /// An unhealthy source leaves pool and generator untouched.
    pub fn process_frame(&mut self, frame: &Frame) -> (outcome: CycleOutcome)
        requires
            old(self).can_process(frame@),
        ensures
            final(self).extractor().previous() == Some(frame@),
            final(self).extractor().stride() == old(self).extractor().stride(),
            final(self).health().spec_thresholds() == old(self).health().spec_thresholds(),
            final(self).health().required_streak() == old(self).health().required_streak(),
            final(self).pool().config() == old(self).pool().config(),
            final(self).rng().min_entropy() == old(self).rng().min_entropy(),
            match old(self).extractor().previous() {
                None => {
                    &&& outcome == CycleOutcome::Priming
                    &&& final(self).health() == old(self).health()
                    &&& final(self).pool() == old(self).pool()
                    &&& final(self).rng() == old(self).rng()
                    &&& final(self).healthy_cycles() == old(self).healthy_cycles()
                    &&& final(self).unhealthy_cycles() == old(self).unhealthy_cycles()
                    &&& final(self).reseeds() == old(self).reseeds()
                },
                Some(_) => {
                    let bits = old(self).extractor().extracted(frame@.pixels);
                    let metrics = old(self).health().spec_metrics().after(
                        old(self).health().sample_of(bits),
                        old(self).health().required_streak(),
                    );
                    &&& final(self).health().spec_metrics() == metrics
                    &&& if !metrics.is_healthy {
                        &&& outcome == (CycleOutcome::Unhealthy {
                            violation: metrics.last_violation,
                            report: Self::reported(
                                old(self).unhealthy_cycles(),
                                metrics.last_violation,
                            ),
                        })
                        &&& final(self).pool() == old(self).pool()
                        &&& final(self).rng() == old(self).rng()
                        &&& final(self).healthy_cycles() == old(self).healthy_cycles()
                        &&& final(self).unhealthy_cycles() == old(self).unhealthy_cycles() + 1
                        &&& final(self).reseeds() == old(self).reseeds()
                    } else {
                        let pooled = old(self).pool().contents() + bits.take(
                            old(self).pool().room_for(bits.len()) as int,
                        );
                        let estimate = ConditionedSeed::credited_bits(pooled.len());
                        &&& final(self).healthy_cycles() == old(self).healthy_cycles() + 1
                        &&& final(self).unhealthy_cycles() == old(self).unhealthy_cycles()
                        &&& final(self).pool().bits_added() == old(self).pool().bits_added() + 8
                            * old(self).pool().room_for(bits.len())
                        &&& if pooled.len() * 8 < old(self).pool().config().min_bits {
                            &&& outcome == CycleOutcome::Pooled
                            &&& final(self).pool().contents() == pooled
                            &&& final(self).pool().extractions() == old(self).pool().extractions()
                            &&& final(self).rng() == old(self).rng()
                            &&& final(self).reseeds() == old(self).reseeds()
                        } else {
                            &&& final(self).pool().contents() == Seq::<u8>::empty()
                            &&& final(self).pool().extractions() == old(self).pool().extractions()
                                + 1
                            &&& if estimate < old(self).rng().min_entropy() {
                                &&& outcome == (CycleOutcome::Rejected {
                                    error: ReseedingError::InsufficientEntropy {
                                        got: estimate as usize,
                                        need: old(self).rng().min_entropy(),
                                    },
                                })
                                &&& final(self).rng() == old(self).rng()
                                &&& final(self).reseeds() == old(self).reseeds()
                            } else {
                                &&& outcome == (CycleOutcome::Reseeded {
                                    entropy_estimate: estimate as usize,
                                })
                                &&& final(self).rng().material() == blake3_hash(
                                    reseed_message(
                                        old(self).rng().reseeds(),
                                        old(self).rng().material(),
                                        old(self).pool().config().algorithm.digest(pooled),
                                    ),
                                )
                                &&& final(self).rng().cipher() == chacha20_seeded(
                                    final(self).rng().material(),
                                )
                                &&& final(self).rng().reseeds() == old(self).rng().reseeds() + 1
                                &&& final(self).rng().emitted() == 0
                                &&& final(self).reseeds() == old(self).reseeds() + 1
                            }
                        }
                    }
                },
            },
    {
        let bits = match self.extractor.process(frame) {
            Some(bits) => bits,
            None => {
                return CycleOutcome::Priming;
            },
        };
        proof {
            assert(bits@.bytes.len() <= frame@.pixels.len());
        }
        let metrics = *self.health.analyze(&bits);
        if !metrics.is_healthy {
            self.unhealthy_count = self.unhealthy_count + 1;
            let report = metrics.last_violation.is_some() && self.unhealthy_count % REPORT_INTERVAL
                == 1;
            return CycleOutcome::Unhealthy { violation: metrics.last_violation, report };
        }
        self.healthy_count = self.healthy_count + 1;
        self.pool.add(&bits);
        if !(self.health.allow_reseed() && self.pool.is_ready()) {
            return CycleOutcome::Pooled;
        }
        match self.pool.extract() {
            Some(seed) => match self.rng.reseed(&seed) {
                Ok(()) => {
                    self.total_reseeds = self.total_reseeds + 1;
                    CycleOutcome::Reseeded { entropy_estimate: seed.entropy_estimate() }
                },
                Err(error) => CycleOutcome::Rejected { error },
            },
            None => CycleOutcome::Pooled,
        }
    }

    /// Fills `dest` with the generator's next bytes.
    pub fn fill_bytes(&mut self, dest: &mut [u8])
        requires
            old(self).rng().emitted() + old(dest)@.len() <= u64::MAX,
        ensures
            final(dest)@.len() == old(dest)@.len(),
            final(dest)@ == chacha20_filled(old(self).rng().cipher(), old(dest)@.len() as nat),
            final(self).rng().cipher() == chacha20_after_fill(
                old(self).rng().cipher(),
                old(dest)@.len() as nat,
            ),
            final(self).rng().emitted() == old(self).rng().emitted() + old(dest)@.len(),
            final(self).rng().material() == old(self).rng().material(),
            final(self).rng().min_entropy() == old(self).rng().min_entropy(),
            final(self).rng().reseeds() == old(self).rng().reseeds(),
            final(self).extractor() == old(self).extractor(),
            final(self).health() == old(self).health(),
            final(self).pool() == old(self).pool(),
            final(self).healthy_cycles() == old(self).healthy_cycles(),
            final(self).unhealthy_cycles() == old(self).unhealthy_cycles(),
            final(self).reseeds() == old(self).reseeds(),
    {
        self.rng.fill_bytes(dest);
    }

    /// Takes the pipeline apart for its generator.
    pub fn into_generator(self) -> (rng: ReseedableRng)
        ensures
            rng == self.rng(),
    {
        self.rng
    }

    /// The health monitor, to be read.
    pub fn health_monitor(&self) -> (health: &HealthMonitor)
        ensures
            *health == self.health(),
    {
        &self.health
    }

    /// The entropy pool, to be read.
    pub fn entropy_pool(&self) -> (pool: &EntropyPool)
        ensures
            *pool == self.pool(),
    {
        &self.pool
    }

    /// The generator, to be read.
    pub fn generator(&self) -> (rng: &ReseedableRng)
        ensures
            *rng == self.rng(),
    {
        &self.rng
    }

    /// Returns the number of cycles that left the source healthy.
    pub fn healthy_count(&self) -> (count: u64)
        ensures
            count == self.healthy_cycles(),
    {
        self.healthy_count
    }

    /// Returns the number of cycles that gave a sample and left the source
    /// unhealthy.
    pub fn unhealthy_count(&self) -> (count: u64)
        ensures
            count == self.unhealthy_cycles(),
    {
        self.unhealthy_count
    }

    /// Returns the number of reseeds that the generator took.
    pub fn total_reseeds(&self) -> (count: u64)
        ensures
            count == self.reseeds(),
    {
        self.total_reseeds
    }
}

} // verus!

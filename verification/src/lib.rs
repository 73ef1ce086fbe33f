//! Optical entropy generation.
//!
//! Turns frames of noisy optical samples into seed material for a
//! reseedable stream generator, and refuses samples whose statistical
//! quality has degraded.
//!
//! # Architecture
//!
//! ```text
//! capture -> extraction -> conditioning -> reseeding
//!                |
//!            analysis (health monitoring)
//! ```
//!
//! # Design principles
//!
//! - **Fail-closed**: reseeding is suspended as soon as a sample fails its
//!   check, and resumes only after a streak of good ones.
//! - **Supplements the initial seed**: every reseed mixes the retained seed
//!   material with the new entropy.
//! - **Exact statistics**: bias, variance and autocorrelation are rational
//!   numbers, and thresholds are given in millionths; nothing rounds.
//! - **No cryptographic claims**: the statistical tests are sanity checks,
//!   not proofs of entropy.
//!
//! # Example
//!
//! ```no_run
//! use optical_entropy::{
//!     Camera, CaptureConfig, CycleOutcome, EntropyPool, Extractor, HealthMonitor, MockCamera,
//!     Pipeline, ReseedableRng,
//! };
//!
//! let mut camera = MockCamera::new();
//! camera.open(&CaptureConfig::default()).unwrap();
//!
//! let mut pipeline = Pipeline::new(
//!     Extractor::new(),
//!     HealthMonitor::default(),
//!     EntropyPool::default(),
//!     ReseedableRng::from_os_entropy(),
//! );
//!
//! for _ in 0..10 {
//!     let frame = camera.capture().unwrap();
//!     if !pipeline.has_headroom(&frame) {
//!         break;
//!     }
//!     if let CycleOutcome::Reseeded { entropy_estimate } = pipeline.process_frame(&frame) {
//!         println!("reseeded with {} bits", entropy_estimate);
//!     }
//! }
//!
//! let mut key = [0u8; 32];
//! pipeline.fill_bytes(&mut key);
//! ```

pub mod analysis;
pub mod capture;
pub mod conditioning;
pub mod encoding;
pub mod extraction;
pub mod metrics;
pub mod pipeline;
pub mod reseeding;

pub use analysis::{HealthMetrics, HealthMonitor, QualityThresholds};
pub use capture::{Camera, CaptureConfig, Frame, MockCamera};
pub use conditioning::{ConditionedSeed, Conditioner, EntropyPool, HashAlgorithm};
pub use extraction::{Extractor, RawBits};
pub use pipeline::{CycleOutcome, Pipeline};
pub use reseeding::ReseedableRng;

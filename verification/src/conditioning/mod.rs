//! Entropy conditioning via cryptographic hashing.
//!
//! Turns raw extracted bits into uniformly distributed seed material.

mod hash;
mod pool;

pub(crate) use hash::blake3_digest;
pub use hash::{
    blake3_hash, lemma_seed_is_32_bytes, sha256_hash, ConditionedSeed, Conditioner,
    HashAlgorithm, SEED_BITS,
};
pub use pool::{law_pool_never_outgrows_its_maximum, EntropyPool, PoolConfig};

//! Entropy accumulation pool.
//!
//! Collects raw bytes over several extraction cycles, so that enough has
//! been gathered before anything is conditioned.

use vstd::prelude::*;
use vstd::slice::slice_subrange;
use crate::conditioning::hash::{ConditionedSeed, Conditioner, HashAlgorithm};
use crate::extraction::RawBits;

verus! {

/// Configuration for the entropy pool.
#[derive(Clone, Copy, Debug, PartialEq, Eq)]
pub struct PoolConfig {
    /// Minimum bits to accumulate before allowing extraction.
    pub min_bits: usize,
    /// Maximum bytes to buffer (prevents unbounded growth).
    pub max_bytes: usize,
    /// Hash algorithm for conditioning.
    pub algorithm: HashAlgorithm,
}

impl Default for PoolConfig {
    /// 512 bits before extraction, at most 64 KiB buffered, BLAKE3.
    fn default() -> (config: Self)
        ensures
            config == PoolConfig::standard(),
    {
        Self { min_bits: 512, max_bytes: 65536, algorithm: HashAlgorithm::Blake3 }
    }
}

impl PoolConfig {
    /// The default configuration.
    pub open spec fn standard() -> PoolConfig {
        PoolConfig { min_bits: 512, max_bytes: 65536, algorithm: HashAlgorithm::Blake3 }
    }
}

/// Accumulates entropy before conditioning.
pub struct EntropyPool {
    buffer: Vec<u8>,
    config: PoolConfig,
    conditioner: Conditioner,
    total_bits_added: u64,
    total_extractions: u64,
}

impl EntropyPool {
    /// The bytes accumulated since the last extraction.
    pub closed spec fn contents(&self) -> Seq<u8> {
        self.buffer@
    }

    /// The configuration given at construction.
    pub closed spec fn config(&self) -> PoolConfig {
        self.config
    }

    /// Bits added over the pool's lifetime.
    pub closed spec fn bits_added(&self) -> u64 {
        self.total_bits_added
    }

    /// Extractions performed over the pool's lifetime.
    pub closed spec fn extractions(&self) -> u64 {
        self.total_extractions
    }

    /// The algorithm that the pool conditions with.
    pub closed spec fn algorithm(&self) -> HashAlgorithm {
        self.conditioner.algorithm()
    }

    /// The buffer never outgrows the configured maximum, and the pool
    /// conditions with the configured algorithm.
    #[verifier::type_invariant]
    pub open spec fn wf(&self) -> bool {
        &&& self.contents().len() <= self.config().max_bytes
        &&& self.algorithm() == self.config().algorithm
    }

    /// The pool holds at least the configured minimum of bits.
    pub open spec fn ready(&self) -> bool {
        self.contents().len() * 8 >= self.config().min_bits
    }

    /// How many of `offered` more bytes the pool has room for.
    pub open spec fn room_for(&self, offered: nat) -> nat {
        let space = (self.config().max_bytes - self.contents().len()) as nat;
        if offered <= space {
            offered
        } else {
            space
        }
    }

    /// Creates a new entropy pool with the given configuration.
    pub fn new(config: PoolConfig) -> (pool: Self)
        requires
            config.max_bytes <= isize::MAX,
        ensures
            pool.wf(),
            pool.config() == config,
            pool.contents() == Seq::<u8>::empty(),
            pool.bits_added() == 0,
            pool.extractions() == 0,
    {
        let conditioner = Conditioner::new(config.algorithm);
        Self {
            buffer: Vec::with_capacity(config.max_bytes),
            config,
            conditioner,
            total_bits_added: 0,
            total_extractions: 0,
        }
    }

    /// Adds raw bits to the pool.
    ///
    /// Bytes beyond the configured maximum are dropped, and count for
    /// nothing.
    pub fn add(&mut self, raw: &RawBits)
        requires
            old(self).bits_added() + 8 * old(self).room_for(raw@.bytes.len()) <= u64::MAX,
        ensures
            final(self).wf(),
            final(self).config() == old(self).config(),
            final(self).contents() == old(self).contents() + raw@.bytes.take(
                old(self).room_for(raw@.bytes.len()) as int,
            ),
            final(self).contents().len() <= final(self).config().max_bytes,
            final(self).bits_added() == old(self).bits_added() + 8 * old(self).room_for(
                raw@.bytes.len(),
            ),
            final(self).extractions() == old(self).extractions(),
    {
        proof {
            use_type_invariant(&*self);
        }
        let space_remaining = self.config.max_bytes - self.buffer.len();
        let bytes_to_add = if raw.len() <= space_remaining {
            raw.len()
        } else {
            space_remaining
        };
        // The buffer is moved out while it grows, so that the pool is well
        // formed at every step.
        let mut buffer: Vec<u8> = Vec::new();
        std::mem::swap(&mut self.buffer, &mut buffer);
        let ghost before = buffer@;
        buffer.extend_from_slice(slice_subrange(raw.data(), 0, bytes_to_add));
        proof {
            assert(buffer@ =~= before + raw@.bytes.take(bytes_to_add as int));
        }
        std::mem::swap(&mut self.buffer, &mut buffer);
        self.total_bits_added = self.total_bits_added + 8 * (bytes_to_add as u64);
    }

    /// Returns true if the pool has enough entropy for extraction.
    pub fn is_ready(&self) -> (ready: bool)
        ensures
            ready == self.ready(),
    {
        let whole_bytes = self.config.min_bits / 8;
        if self.config.min_bits % 8 == 0 {
            self.buffer.len() >= whole_bytes
        } else {
            self.buffer.len() > whole_bytes
        }
    }

    /// Extracts conditioned entropy from the pool.
    ///
    /// Returns `None`, and leaves the pool as it is, while too little has
    /// been accumulated. Otherwise the whole buffer is conditioned into one
    /// seed, and the pool is left empty.
    pub fn extract(&mut self) -> (seed: Option<ConditionedSeed>)
        requires
            old(self).ready() ==> old(self).extractions() < u64::MAX,
        ensures
            final(self).wf(),
            !old(self).ready() ==> seed is None && *final(self) == *old(self),
            old(self).ready() ==> {
                &&& seed is Some
                &&& seed->0.bytes() == old(self).config().algorithm.digest(old(self).contents())
                &&& seed->0.estimate() == ConditionedSeed::credited_bits(
                    old(self).contents().len(),
                )
                &&& final(self).contents() == Seq::<u8>::empty()
                &&& final(self).config() == old(self).config()
                &&& final(self).bits_added() == old(self).bits_added()
                &&& final(self).extractions() == old(self).extractions() + 1
            },
    {
        proof {
            use_type_invariant(&*self);
        }
        if !self.is_ready() {
            return None;
        }
        let mut taken: Vec<u8> = Vec::new();
        std::mem::swap(&mut self.buffer, &mut taken);
        let raw = RawBits::from_bytes(taken, self.total_extractions);
        let seed = self.conditioner.condition(&raw);
        self.total_extractions = self.total_extractions + 1;
        Some(seed)
    }

    /// Returns the current pool size in bytes.
    pub fn size_bytes(&self) -> (bytes: usize)
        ensures
            bytes == self.contents().len(),
    {
        self.buffer.len()
    }

    /// Returns the current pool size in bits.
    pub fn size_bits(&self) -> (bits: usize)
        requires
            self.contents().len() * 8 <= usize::MAX,
        ensures
            bits == self.contents().len() * 8,
    {
        self.buffer.len() * 8
    }

    /// Returns total bits ever added to the pool.
    pub fn total_bits_added(&self) -> (bits: u64)
        ensures
            bits == self.bits_added(),
    {
        self.total_bits_added
    }

    /// Returns total extractions performed.
    pub fn total_extractions(&self) -> (count: u64)
        ensures
            count == self.extractions(),
    {
        self.total_extractions
    }

    /// Clears the pool without extracting.
    pub fn clear(&mut self)
        ensures
            final(self).wf(),
            final(self).contents() == Seq::<u8>::empty(),
            final(self).config() == old(self).config(),
            final(self).bits_added() == old(self).bits_added(),
            final(self).extractions() == old(self).extractions(),
    {
        proof {
            use_type_invariant(&*self);
        }
        let mut buffer: Vec<u8> = Vec::new();
        std::mem::swap(&mut self.buffer, &mut buffer);
        buffer.clear();
        std::mem::swap(&mut self.buffer, &mut buffer);
    }
}

impl Default for EntropyPool {
    /// A pool with the default configuration.
    fn default() -> (pool: Self)
        ensures
            pool.wf(),
            pool.config() == PoolConfig::standard(),
            pool.contents() == Seq::<u8>::empty(),
            pool.bits_added() == 0,
            pool.extractions() == 0,
    {
        Self::new(PoolConfig::default())
    }
}

/// A pool takes what it has room for and no more: after one more buffer of
/// `offered` bytes it holds the smaller of what it would hold without a
/// limit and the configured maximum.
pub proof fn law_pool_never_outgrows_its_maximum(pool: EntropyPool, offered: nat)
    requires
        pool.wf(),
    ensures
        pool.contents().len() + pool.room_for(offered) == if pool.contents().len() + offered
            <= pool.config().max_bytes {
            pool.contents().len() + offered
        } else {
            pool.config().max_bytes as nat
        },
        pool.contents().len() + pool.room_for(offered) <= pool.config().max_bytes,
{
}

} // verus!

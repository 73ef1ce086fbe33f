//! Cryptographic hash-based entropy conditioning.
//!
//! A standard hash function turns biased, correlated raw bits into
//! uniformly distributed output.

use vstd::prelude::*;
use crate::extraction::RawBits;
use sha2::Digest;

verus! {

/// Width of a conditioned seed, in bits.
pub const SEED_BITS: usize = 256;

/// The BLAKE3 hash of `input`, 32 bytes long.
pub uninterp spec fn blake3_hash(input: Seq<u8>) -> Seq<u8>;

/// The SHA-256 hash of `input`, 32 bytes long.
pub uninterp spec fn sha256_hash(input: Seq<u8>) -> Seq<u8>;

/// Calls `blake3::hash`, the default BLAKE3 hash function, and copies the
/// 32 bytes out of the `Hash` it returns. Trusted: the result is the BLAKE3
/// hash of the input, a function of the input's bytes alone.
#[verifier::external_body]
pub(crate) fn blake3_digest(input: &[u8]) -> (digest: [u8; 32])
    ensures
        digest@ == blake3_hash(input@),
{
    *blake3::hash(input).as_bytes()
}

/// Calls `sha2::Sha256::digest`, which hashes the whole input in one go, and
/// copies the 32 bytes out of the array it returns. Trusted: the result is
/// the SHA-256 hash of the input, a function of the input's bytes alone.
#[verifier::external_body]
pub(crate) fn sha256_digest(input: &[u8]) -> (digest: [u8; 32])
    ensures
        digest@ == sha256_hash(input@),
{
    let output = sha2::Sha256::digest(input);
    let mut digest = [0u8; 32];
    digest.copy_from_slice(&output);
    digest
}

/// Supported hash algorithms for conditioning.
#[derive(Clone, Copy, Debug, PartialEq, Eq)]
pub enum HashAlgorithm {
    /// BLAKE3: fast, secure, the default.
    Blake3,
    /// SHA-256: widely deployed, the conservative choice.
    Sha256,
}

impl Default for HashAlgorithm {
    fn default() -> (algorithm: Self)
        ensures
            algorithm == HashAlgorithm::Blake3,
    {
        HashAlgorithm::Blake3
    }
}

impl HashAlgorithm {
    /// The 32-byte digest of `input` under this algorithm.
    pub open spec fn digest(self, input: Seq<u8>) -> Seq<u8> {
        match self {
            HashAlgorithm::Blake3 => blake3_hash(input),
            HashAlgorithm::Sha256 => sha256_hash(input),
        }
    }
}

/// Conditioned entropy output: 32 bytes of seed material, with a
/// conservative estimate of the entropy behind them.
pub struct ConditionedSeed {
    data: [u8; 32],
    entropy_estimate: usize,
}

impl Clone for ConditionedSeed {
    fn clone(&self) -> (copy: Self)
        ensures
            copy == *self,
    {
        Self { data: self.data, entropy_estimate: self.entropy_estimate }
    }
}

impl ConditionedSeed {
    /// The 32 seed bytes.
    pub closed spec fn bytes(&self) -> Seq<u8> {
        self.data@
    }

    /// The entropy estimate, in bits.
    pub closed spec fn estimate(&self) -> usize {
        self.entropy_estimate
    }

    /// The entropy credited to `input_bytes` bytes of raw input: one bit per
    /// byte, and never more than the width of the seed.
    pub open spec fn credited_bits(input_bytes: nat) -> nat {
        if input_bytes <= SEED_BITS {
            input_bytes
        } else {
            SEED_BITS as nat
        }
    }

    /// Wraps the digest of `input_bytes` bytes of raw input as a seed, with
    /// the entropy estimate that this much input earns.
    pub fn from_digest(digest: [u8; 32], input_bytes: usize) -> (seed: Self)
        ensures
            seed.bytes() == digest@,
            seed.estimate() == Self::credited_bits(input_bytes as nat),
    {
        Self {
            data: digest,
            entropy_estimate: if input_bytes <= SEED_BITS { input_bytes } else { SEED_BITS },
        }
    }

    /// Returns the seed bytes.
    pub fn as_bytes(&self) -> (bytes: &[u8; 32])
        ensures
            bytes@ == self.bytes(),
    {
        &self.data
    }

    /// Returns the entropy estimate.
    pub fn entropy_estimate(&self) -> (bits: usize)
        ensures
            bits == self.estimate(),
    {
        self.entropy_estimate
    }

    /// Creates a seed with a chosen entropy estimate, for testing purposes
    /// only: this bypasses conditioning.
    pub fn new_for_testing(data: [u8; 32], entropy_estimate: usize) -> (seed: Self)
        ensures
            seed.bytes() == data@,
            seed.estimate() == entropy_estimate,
    {
        Self { data, entropy_estimate }
    }
}

/// The bytes of every seed are 32.
pub proof fn lemma_seed_is_32_bytes(seed: ConditionedSeed)
    ensures
        seed.bytes().len() == 32,
{
}

/// Entropy conditioner using cryptographic hashing.
pub struct Conditioner {
    algorithm: HashAlgorithm,
}

impl Conditioner {
    /// The configured algorithm.
    pub closed spec fn algorithm(&self) -> HashAlgorithm {
        self.algorithm
    }

    /// Creates a new conditioner with the specified algorithm.
    pub fn new(algorithm: HashAlgorithm) -> (conditioner: Self)
        ensures
            conditioner.algorithm() == algorithm,
    {
        Self { algorithm }
    }

    /// Conditions raw bits into a fixed-size seed: the digest of the whole
    /// buffer under the configured algorithm.
    ///
    /// The entropy estimate is conservative: at most one bit per byte of
    /// input, and at most the size of the output.
    pub fn condition(&self, raw: &RawBits) -> (seed: ConditionedSeed)
        ensures
            seed.bytes() == self.algorithm().digest(raw@.bytes),
            seed.estimate() == ConditionedSeed::credited_bits(raw@.bytes.len()),
    {
        let digest = match self.algorithm {
            HashAlgorithm::Blake3 => blake3_digest(raw.data()),
            HashAlgorithm::Sha256 => sha256_digest(raw.data()),
        };
        ConditionedSeed::from_digest(digest, raw.len())
    }
}

impl Default for Conditioner {
    fn default() -> (conditioner: Self)
        ensures
            conditioner.algorithm() == HashAlgorithm::Blake3,
    {
        Self::new(HashAlgorithm::Blake3)
    }
}

} // verus!

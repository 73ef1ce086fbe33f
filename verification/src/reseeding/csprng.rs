//! ChaCha20 stream generator with reseeding support.
//!
//! # Reseeding model
//!
//! A reseed hashes, with BLAKE3, the concatenation of
//! - a fixed domain tag,
//! - the number of reseeds so far, as eight little-endian bytes,
//! - the seed material retained from the last reseed, and
//! - the new conditioned entropy.
//!
//! The digest becomes both the key of the generator and the retained seed
//! material. Mixing through a hash, not by XOR, keeps the result uniform
//! where the new entropy is biased or chosen by an adversary.

use vstd::prelude::*;
use vstd::bytes::{
    lemma_auto_spec_u64_to_from_le_bytes, spec_u64_from_le_bytes, spec_u64_to_le_bytes,
    u64_to_le_bytes,
};
use crate::conditioning::{blake3_digest, blake3_hash, ConditionedSeed};
use rand_chacha::ChaCha20Rng;
use rand_core::{OsRng, RngCore, SeedableRng};

verus! {

/// Entropy that a reseed asks for unless told otherwise, in bits.
pub const DEFAULT_MIN_ENTROPY_BITS: usize = 128;

/// The ChaCha20 generator of `rand_chacha`: a key, a stream number and a
/// position in the key stream, none of them visible here.
#[verifier::external_type_specification]
#[verifier::external_body]
pub struct ExChaCha20Rng(ChaCha20Rng);

/// The generator that `ChaCha20Rng::from_seed` makes of the 32-byte key
/// `seed`: at the start of stream zero.
pub uninterp spec fn chacha20_seeded(seed: Seq<u8>) -> ChaCha20Rng;

/// Calls `ChaCha20Rng::from_seed`. Trusted: the generator it returns is a
/// function of the 32 key bytes alone (stream number and position start at
/// zero).
#[verifier::external_body]
fn chacha20_from_seed(seed: [u8; 32]) -> (rng: ChaCha20Rng)
    ensures
        rng == chacha20_seeded(seed@),
{
    ChaCha20Rng::from_seed(seed)
}

/// The word that `next_u32` hands out of the generator `rng`: the next word
/// of its key stream.
pub uninterp spec fn chacha20_word(rng: ChaCha20Rng) -> u32;

/// The generator that `next_u32` leaves of `rng`: one word further on.
pub uninterp spec fn chacha20_after_word(rng: ChaCha20Rng) -> ChaCha20Rng;

/// The value that `next_u64` hands out of the generator `rng`: the next two
/// words of its key stream as one.
pub uninterp spec fn chacha20_wide_word(rng: ChaCha20Rng) -> u64;

/// The generator that `next_u64` leaves of `rng`: two words further on.
pub uninterp spec fn chacha20_after_wide_word(rng: ChaCha20Rng) -> ChaCha20Rng;

/// The bytes that `fill_bytes` writes from the generator `rng` into a
/// buffer of `len` bytes: the next `len` bytes of its key stream.
pub uninterp spec fn chacha20_filled(rng: ChaCha20Rng, len: nat) -> Seq<u8>;

/// The generator that `fill_bytes` leaves of `rng` after a buffer of `len`
/// bytes.
pub uninterp spec fn chacha20_after_fill(rng: ChaCha20Rng, len: nat) -> ChaCha20Rng;

/// Calls `ChaCha20Rng::next_u32`, which hands out the next word of the key
/// stream. Trusted: the word, and the generator as it is left, are
/// functions of the generator as it was.
#[verifier::external_body]
fn chacha20_next_u32(rng: &mut ChaCha20Rng) -> (word: u32)
    ensures
        word == chacha20_word(*old(rng)),
        *final(rng) == chacha20_after_word(*old(rng)),
{
    rng.next_u32()
}

/// Calls `ChaCha20Rng::next_u64`, which hands out the next two words of the
/// key stream. Trusted: the value, and the generator as it is left, are
/// functions of the generator as it was.
#[verifier::external_body]
fn chacha20_next_u64(rng: &mut ChaCha20Rng) -> (word: u64)
    ensures
        word == chacha20_wide_word(*old(rng)),
        *final(rng) == chacha20_after_wide_word(*old(rng)),
{
    rng.next_u64()
}

/// Calls `ChaCha20Rng::fill_bytes`, which overwrites every byte of `dest`
/// with key stream. Trusted: the buffer keeps its length, and the bytes
/// written, and the generator as it is left, are functions of the generator
/// as it was and of the length of the buffer.
#[verifier::external_body]
fn chacha20_fill_bytes(rng: &mut ChaCha20Rng, dest: &mut [u8])
    ensures
        final(dest)@.len() == old(dest)@.len(),
        final(dest)@ == chacha20_filled(*old(rng), old(dest)@.len() as nat),
        *final(rng) == chacha20_after_fill(*old(rng), old(dest)@.len() as nat),
{
    rng.fill_bytes(dest)
}

/// Calls `OsRng.fill_bytes` on a 32-byte buffer: a seed from the operating
/// system's entropy source. Nothing is claimed of the bytes. The call
/// panics where the operating system has no entropy to give, which the
/// hosting environment is taken to rule out.
#[verifier::external_body]
fn os_entropy_seed() -> [u8; 32] {
    let mut seed = [0u8; 32];
    OsRng.fill_bytes(&mut seed);
    seed
}

/// Errors that can occur during reseeding.
#[derive(Clone, Copy, Debug, PartialEq, Eq)]
pub enum ReseedingError {
    /// The seed's entropy estimate is below the generator's minimum.
    InsufficientEntropy { got: usize, need: usize },
}

/// The domain tag of a reseed: the ASCII bytes of
/// `optical-entropy-reseed-v1`.
pub open spec fn domain_tag() -> Seq<u8> {
    seq![
        0x6f, 0x70, 0x74, 0x69, 0x63, 0x61, 0x6c, 0x2d, 0x65, 0x6e, 0x74, 0x72, 0x6f, 0x70, 0x79,
        0x2d, 0x72, 0x65, 0x73, 0x65, 0x65, 0x64, 0x2d, 0x76, 0x31,
    ]
}

/// The bytes that a reseed hashes: the domain tag, the reseed counter as
/// eight little-endian bytes, the retained seed material, and the new seed.
pub open spec fn reseed_message(counter: u64, material: Seq<u8>, seed: Seq<u8>) -> Seq<u8> {
    domain_tag() + spec_u64_to_le_bytes(counter) + material + seed
}

/// A reseedable stream generator backed by ChaCha20.
///
/// The generator starts from operating-system entropy. Conditioned optical
/// entropy supplements that seed and never replaces it: every reseed mixes
/// the retained seed material with the new entropy.
pub struct ReseedableRng {
    inner: ChaCha20Rng,
    seed_material: [u8; 32],
    min_entropy_bits: usize,
    reseed_count: u64,
    bytes_since_reseed: u64,
}

impl ReseedableRng {
    /// The live generator.
    pub closed spec fn cipher(&self) -> ChaCha20Rng {
        self.inner
    }

    /// The retained seed material, 32 bytes.
    pub closed spec fn material(&self) -> Seq<u8> {
        self.seed_material@
    }

    /// The entropy, in bits, that a seed must claim to be accepted.
    pub closed spec fn min_entropy(&self) -> usize {
        self.min_entropy_bits
    }

    /// The number of reseeds performed.
    pub closed spec fn reseeds(&self) -> u64 {
        self.reseed_count
    }

    /// The number of bytes given out since the last reseed.
    pub closed spec fn emitted(&self) -> u64 {
        self.bytes_since_reseed
    }

    /// A generator freshly keyed with the 32 bytes `material`, with both
    /// counters at zero.
    pub open spec fn is_fresh(&self, material: Seq<u8>, min_entropy_bits: usize) -> bool {
        &&& self.material() == material
        &&& self.material().len() == 32
        &&& self.cipher() == chacha20_seeded(material)
        &&& self.min_entropy() == min_entropy_bits
        &&& self.reseeds() == 0
        &&& self.emitted() == 0
    }

    /// Creates a new generator seeded from the operating system's entropy
    /// source, which asks for 128 bits of every reseed.
    pub fn from_os_entropy() -> (rng: Self)
        ensures
            rng.is_fresh(rng.material(), DEFAULT_MIN_ENTROPY_BITS),
    {
        Self::from_seed(os_entropy_seed(), DEFAULT_MIN_ENTROPY_BITS)
    }

    /// Creates a generator seeded from the operating system's entropy
    /// source, with a specific minimum entropy requirement.
    pub fn with_min_entropy(min_entropy_bits: usize) -> (rng: Self)
        ensures
            rng.is_fresh(rng.material(), min_entropy_bits),
    {
        Self::from_seed(os_entropy_seed(), min_entropy_bits)
    }

    /// Creates a generator from a known seed, for testing only, which asks
    /// for 128 bits of every reseed.
    pub fn from_seed_for_testing(seed: [u8; 32]) -> (rng: Self)
        ensures
            rng.is_fresh(seed@, DEFAULT_MIN_ENTROPY_BITS),
    {
        Self::from_seed(seed, DEFAULT_MIN_ENTROPY_BITS)
    }

    /// Creates a generator keyed with `seed`, which is also retained as
    /// seed material for the first reseed.
    pub fn from_seed(seed: [u8; 32], min_entropy_bits: usize) -> (rng: Self)
        ensures
            rng.is_fresh(seed@, min_entropy_bits),
    {
        Self {
            inner: chacha20_from_seed(seed),
            seed_material: seed,
            min_entropy_bits,
            reseed_count: 0,
            bytes_since_reseed: 0,
        }
    }

    /// Builds the message that a reseed hashes.
    pub fn build_reseed_message(counter: u64, material: &[u8; 32], seed: &[u8; 32]) -> (message:
        Vec<u8>)
        ensures
            message@ == reseed_message(counter, material@, seed@),
    {
        let mut message: Vec<u8> = vec![
            0x6f, 0x70, 0x74, 0x69, 0x63, 0x61, 0x6c, 0x2d, 0x65, 0x6e, 0x74, 0x72, 0x6f, 0x70,
            0x79, 0x2d, 0x72, 0x65, 0x73, 0x65, 0x65, 0x64, 0x2d, 0x76, 0x31,
        ];
        assert(message@ == domain_tag());
        let counter_bytes = u64_to_le_bytes(counter);
        let mut i: usize = 0;
        while i < 8
            invariant
                i <= 8,
                counter_bytes@ == spec_u64_to_le_bytes(counter),
                counter_bytes@.len() == 8,
                message@ == domain_tag() + counter_bytes@.take(i as int),
            decreases 8 - i,
        {
            message.push(counter_bytes[i]);
            i = i + 1;
            assert(message@ == domain_tag() + counter_bytes@.take(i as int));
        }
        assert(counter_bytes@.take(8) == counter_bytes@);
        let mut i: usize = 0;
        while i < 32
            invariant
                i <= 32,
                message@ == domain_tag() + spec_u64_to_le_bytes(counter) + material@.take(i as int),
            decreases 32 - i,
        {
            message.push(material[i]);
            i = i + 1;
            assert(message@ == domain_tag() + spec_u64_to_le_bytes(counter) + material@.take(
                i as int,
            ));
        }
        assert(material@.take(32) == material@);
        let mut i: usize = 0;
        while i < 32
            invariant
                i <= 32,
                message@ == domain_tag() + spec_u64_to_le_bytes(counter) + material@ + seed@.take(
                    i as int,
                ),
            decreases 32 - i,
        {
            message.push(seed[i]);
            i = i + 1;
            assert(message@ == domain_tag() + spec_u64_to_le_bytes(counter) + material@
                + seed@.take(i as int));
        }
        assert(seed@.take(32) == seed@);
        message
    }

    /// Replaces the key of the generator and the retained seed material by
    /// `material`, counts one more reseed, and starts counting output bytes
    /// anew.
    ///
    /// This is the second half of [`ReseedableRng::reseed`], which hands it
    /// the digest of the reseed message; it tests no entropy estimate.
    pub fn install_material(&mut self, material: [u8; 32])
        requires
            old(self).reseeds() < u64::MAX,
        ensures
            final(self).material() == material@,
            final(self).material().len() == 32,
            final(self).cipher() == chacha20_seeded(material@),
            final(self).min_entropy() == old(self).min_entropy(),
            final(self).reseeds() == old(self).reseeds() + 1,
            final(self).emitted() == 0,
    {
        self.seed_material = material;
        self.inner = chacha20_from_seed(material);
        self.reseed_count = self.reseed_count + 1;
        self.bytes_since_reseed = 0;
    }

    /// Reseeds the generator with conditioned optical entropy.
    ///
    /// A seed whose entropy estimate is below the minimum is refused, and
    /// the generator stays as it was. Otherwise the new key is the BLAKE3
    /// hash of the reseed message: see [`reseed_message`].
    pub fn reseed(&mut self, seed: &ConditionedSeed) -> (outcome: Result<(), ReseedingError>)
        requires
            seed.estimate() >= old(self).min_entropy() ==> old(self).reseeds() < u64::MAX,
        ensures
            final(self).material().len() == 32,
            seed.estimate() < old(self).min_entropy() ==> {
                &&& outcome == Err::<(), ReseedingError>(
                    ReseedingError::InsufficientEntropy {
                        got: seed.estimate(),
                        need: old(self).min_entropy(),
                    },
                )
                &&& *final(self) == *old(self)
            },
            seed.estimate() >= old(self).min_entropy() ==> {
                &&& outcome is Ok
                &&& final(self).material() == blake3_hash(
                    reseed_message(old(self).reseeds(), old(self).material(), seed.bytes()),
                )
                &&& final(self).cipher() == chacha20_seeded(final(self).material())
                &&& final(self).min_entropy() == old(self).min_entropy()
                &&& final(self).reseeds() == old(self).reseeds() + 1
                &&& final(self).emitted() == 0
            },
    {
        if seed.entropy_estimate() < self.min_entropy_bits {
            return Err(
                ReseedingError::InsufficientEntropy {
                    got: seed.entropy_estimate(),
                    need: self.min_entropy_bits,
                },
            );
        }
        let message = Self::build_reseed_message(
            self.reseed_count,
            &self.seed_material,
            seed.as_bytes(),
        );
        let material = blake3_digest(message.as_slice());
        self.install_material(material);
        Ok(())
    }

    /// Returns the number of reseeds performed.
    pub fn reseed_count(&self) -> (count: u64)
        ensures
            count == self.reseeds(),
    {
        self.reseed_count
    }

    /// Returns bytes generated since last reseed.
    pub fn bytes_since_reseed(&self) -> (bytes: u64)
        ensures
            bytes == self.emitted(),
    {
        self.bytes_since_reseed
    }

    /// Gives out the next four bytes of the stream, as one word.
    pub fn next_u32(&mut self) -> (word: u32)
        requires
            old(self).emitted() + 4 <= u64::MAX,
        ensures
            word == chacha20_word(old(self).cipher()),
            final(self).cipher() == chacha20_after_word(old(self).cipher()),
            final(self).emitted() == old(self).emitted() + 4,
            final(self).material() == old(self).material(),
            final(self).min_entropy() == old(self).min_entropy(),
            final(self).reseeds() == old(self).reseeds(),
    {
        self.bytes_since_reseed = self.bytes_since_reseed + 4;
        chacha20_next_u32(&mut self.inner)
    }

    /// Gives out the next eight bytes of the stream, as one word.
    pub fn next_u64(&mut self) -> (word: u64)
        requires
            old(self).emitted() + 8 <= u64::MAX,
        ensures
            word == chacha20_wide_word(old(self).cipher()),
            final(self).cipher() == chacha20_after_wide_word(old(self).cipher()),
            final(self).emitted() == old(self).emitted() + 8,
            final(self).material() == old(self).material(),
            final(self).min_entropy() == old(self).min_entropy(),
            final(self).reseeds() == old(self).reseeds(),
    {
        self.bytes_since_reseed = self.bytes_since_reseed + 8;
        chacha20_next_u64(&mut self.inner)
    }

    /// Fills `dest` with the next bytes of the stream.
    pub fn fill_bytes(&mut self, dest: &mut [u8])
        requires
            old(self).emitted() + old(dest)@.len() <= u64::MAX,
        ensures
            final(dest)@.len() == old(dest)@.len(),
            final(dest)@ == chacha20_filled(old(self).cipher(), old(dest)@.len() as nat),
            final(self).cipher() == chacha20_after_fill(
                old(self).cipher(),
                old(dest)@.len() as nat,
            ),
            final(self).emitted() == old(self).emitted() + old(dest)@.len(),
            final(self).material() == old(self).material(),
            final(self).min_entropy() == old(self).min_entropy(),
            final(self).reseeds() == old(self).reseeds(),
    {
        self.bytes_since_reseed = self.bytes_since_reseed + dest.len() as u64;
        chacha20_fill_bytes(&mut self.inner, dest);
    }
}

/// The retained seed material of every generator is 32 bytes long.
pub proof fn lemma_material_is_32_bytes(rng: ReseedableRng)
    ensures
        rng.material().len() == 32,
{
}

/// The reseed message binds each of its parts: two messages built from
/// 32-byte material and 32-byte seeds are equal only where the counters,
/// the materials and the seeds are. So the same entropy, applied at two
/// different reseed counters, is never hashed to the same input.
pub proof fn law_reseed_message_binds_its_parts(
    counter_a: u64,
    material_a: Seq<u8>,
    seed_a: Seq<u8>,
    counter_b: u64,
    material_b: Seq<u8>,
    seed_b: Seq<u8>,
)
    requires
        material_a.len() == 32,
        material_b.len() == 32,
        seed_a.len() == 32,
        seed_b.len() == 32,
        reseed_message(counter_a, material_a, seed_a) == reseed_message(
            counter_b,
            material_b,
            seed_b,
        ),
    ensures
        counter_a == counter_b,
        material_a == material_b,
        seed_a == seed_b,
{
    lemma_auto_spec_u64_to_from_le_bytes();
    let a = reseed_message(counter_a, material_a, seed_a);
    let b = reseed_message(counter_b, material_b, seed_b);
    assert(domain_tag().len() == 25);
    assert(a.subrange(25, 33) == spec_u64_to_le_bytes(counter_a));
    assert(b.subrange(25, 33) == spec_u64_to_le_bytes(counter_b));
    assert(spec_u64_from_le_bytes(spec_u64_to_le_bytes(counter_a)) == counter_a);
    assert(spec_u64_from_le_bytes(spec_u64_to_le_bytes(counter_b)) == counter_b);
    assert(a.subrange(33, 65) == material_a);
    assert(b.subrange(33, 65) == material_b);
    assert(a.subrange(65, 97) == seed_a);
    assert(b.subrange(65, 97) == seed_b);
}

} // verus!

//! Raw bitstream type for extracted entropy.

use vstd::prelude::*;
use crate::analysis::{bias_of, Ratio};

verus! {

/// Number of set bits in one byte.
pub open spec fn byte_ones(b: u8) -> nat {
    ((b & 1) + ((b >> 1) & 1) + ((b >> 2) & 1) + ((b >> 3) & 1) + ((b >> 4) & 1) + ((b >> 5) & 1)
        + ((b >> 6) & 1) + ((b >> 7) & 1)) as nat
}

/// Number of set bits in a byte sequence.
pub open spec fn ones_in(s: Seq<u8>) -> nat
    decreases s.len(),
{
    if s.len() == 0 {
        0
    } else {
        ones_in(s.drop_last()) + byte_ones(s.last())
    }
}

/// `u8::count_ones` returns the number of ones in the binary representation
/// of its argument: the sum of its eight bits.
pub assume_specification[ u8::count_ones ](b: u8) -> (n: u32)
    ensures
        n == byte_ones(b),
;

/// No byte has more than eight set bits.
pub proof fn lemma_byte_ones_bound(b: u8)
    ensures
        byte_ones(b) <= 8,
{
    assert(((b & 1) + ((b >> 1) & 1) + ((b >> 2) & 1) + ((b >> 3) & 1) + ((b >> 4) & 1) + ((b >> 5)
        & 1) + ((b >> 6) & 1) + ((b >> 7) & 1)) <= 8) by (bit_vector);
}

/// A byte sequence has at most eight set bits per byte.
pub proof fn lemma_ones_in_bound(s: Seq<u8>)
    ensures
        ones_in(s) <= 8 * s.len(),
    decreases s.len(),
{
    if s.len() > 0 {
        lemma_ones_in_bound(s.drop_last());
        lemma_byte_ones_bound(s.last());
    }
}

/// Raw bits extracted from camera frames.
///
/// The bits are decorrelated but not yet cryptographically processed.
#[derive(Debug)]
pub struct RawBits {
    data: Vec<u8>,
    source_frames: u64,
}

/// What a `RawBits` holds.
pub struct RawBitsView {
    /// The raw bytes.
    pub bytes: Seq<u8>,
    /// The provenance tag given at construction.
    pub source_frames: u64,
}

impl View for RawBits {
    type V = RawBitsView;

    closed spec fn view(&self) -> RawBitsView {
        RawBitsView { bytes: self.data@, source_frames: self.source_frames }
    }
}

impl Clone for RawBits {
    fn clone(&self) -> (copy: Self)
        ensures
            copy@ == self@,
    {
        let data = self.data.clone();
        assert(data@ =~= self.data@);
        Self { data, source_frames: self.source_frames }
    }
}

impl RawBits {
    /// Creates a new `RawBits` from byte data.
    pub fn from_bytes(data: Vec<u8>, source_frames: u64) -> (raw: Self)
        ensures
            raw@ == (RawBitsView { bytes: data@, source_frames }),
    {
        Self { data, source_frames }
    }

    /// Returns the raw byte data.
    pub fn data(&self) -> (bytes: &[u8])
        ensures
            bytes@ == self@.bytes,
    {
        self.data.as_slice()
    }

    /// Returns the number of bytes.
    pub fn len(&self) -> (n: usize)
        ensures
            n == self@.bytes.len(),
    {
        self.data.len()
    }

    /// Returns true if empty.
    pub fn is_empty(&self) -> (empty: bool)
        ensures
            empty == (self@.bytes.len() == 0),
    {
        self.data.len() == 0
    }

    /// Returns the number of bits.
    pub fn bit_count(&self) -> (bits: usize)
        requires
            self@.bytes.len() * 8 <= usize::MAX,
        ensures
            bits == self@.bytes.len() * 8,
    {
        self.data.len() * 8
    }

    /// Returns the source frame count.
    pub fn source_frames(&self) -> (n: u64)
        ensures
            n == self@.source_frames,
    {
        self.source_frames
    }

    /// Counts the number of set bits.
    pub fn popcount(&self) -> (ones: usize)
        requires
            self@.bytes.len() * 8 <= usize::MAX,
        ensures
            ones == ones_in(self@.bytes),
    {
        proof {
            lemma_ones_in_bound(self@.bytes);
        }
        self.count_set_bits() as usize
    }

    /// Counts the number of set bits, in 128 bits: wide enough for a buffer
    /// of any length.
    fn count_set_bits(&self) -> (ones: u128)
        ensures
            ones == ones_in(self@.bytes),
    {
        let mut ones: u128 = 0;
        let mut i: usize = 0;
        while i < self.data.len()
            invariant
                i <= self.data.len(),
                ones == ones_in(self.data@.take(i as int)),
            decreases self.data.len() - i,
        {
            proof {
                let next = self.data@.take(i + 1);
                assert(next.drop_last() == self.data@.take(i as int));
                assert(next.last() == self.data@[i as int]);
                lemma_ones_in_bound(self.data@.take(i as int));
                lemma_byte_ones_bound(self.data@[i as int]);
            }
            ones = ones + self.data[i].count_ones() as u128;
            i = i + 1;
        }
        proof {
            assert(self.data@.take(i as int) == self.data@);
        }
        ones
    }

    /// Calculates the bit bias: the share of set bits, less one half.
    ///
    /// The result lies in `[-1/2, 1/2]`, and is zero for unbiased data.
    pub fn bit_bias(&self) -> (bias: Ratio)
        ensures
            bias == bias_of(self@.bytes),
            bias.wf(),
            -bias.den <= 2 * bias.num <= bias.den,
    {
        if self.is_empty() {
            return Ratio::zero();
        }
        proof {
            lemma_ones_in_bound(self@.bytes);
        }
        let ones = self.count_set_bits() as i128;
        let total = 8 * (self.data.len() as i128);
        Ratio { num: 2 * ones - total, den: 2 * total }
    }
}

} // verus!

//! Bit harvesting and decorrelation.
//!
//! Turns raw camera frames into decorrelated byte buffers, by differencing
//! in time and mixing in space.

mod bitstream;
mod spatial;
mod temporal;

pub use bitstream::{
    byte_ones, lemma_byte_ones_bound, lemma_ones_in_bound, ones_in, RawBits, RawBitsView,
};
pub use spatial::{
    effective_stride, law_mix_keeps_length, law_mix_of_equal_bytes_is_zero,
    lemma_partner_index_is_modular, mixed, partner_index, SpatialMixer,
};
pub use temporal::{
    difference_of, distance, law_constant_offset_shows, law_identical_frames_cancel,
    TemporalDifferencer,
};

use vstd::prelude::*;
use crate::capture::{Frame, FrameView};

verus! {

/// Extracts raw bits from a sequence of frames: temporal differencing, then
/// spatial mixing.
pub struct Extractor {
    temporal: TemporalDifferencer,
    spatial: SpatialMixer,
}

impl Extractor {
    /// The frame processed last, if any since the last reset.
    pub closed spec fn previous(&self) -> Option<FrameView> {
        self.temporal.previous()
    }

    /// The pixels of the frame processed last, if any since the last reset.
    pub open spec fn previous_pixels(&self) -> Option<Seq<u8>> {
        match self.previous() {
            Some(frame) => Some(frame.pixels),
            None => None,
        }
    }

    /// The stride of the spatial mixer.
    pub closed spec fn stride(&self) -> usize {
        self.spatial.stride()
    }

    /// What a primed extractor makes of a frame with pixels `current`.
    pub open spec fn extracted(&self, current: Seq<u8>) -> Seq<u8> {
        mixed(difference_of(current, self.previous_pixels()->0), self.stride() as nat)
    }

    /// Creates an extractor that has seen no frame, mixing at stride one.
    pub fn new() -> (extractor: Self)
        ensures
            extractor.previous() is None,
            extractor.stride() == 1,
    {
        Self { temporal: TemporalDifferencer::new(), spatial: SpatialMixer::new() }
    }

    /// Processes a frame and returns extracted bits if ready.
    ///
    /// The first frame after construction or a reset primes the extractor
    /// and yields nothing. Every later frame yields its difference from the
    /// frame before, mixed, and tagged with its sequence number.
    pub fn process(&mut self, frame: &Frame) -> (bits: Option<RawBits>)
        ensures
            final(self).previous() == Some(frame@),
            final(self).stride() == old(self).stride(),
            old(self).previous() is None ==> bits is None,
            old(self).previous() is Some ==> {
                &&& bits is Some
                &&& bits->0@ == (RawBitsView {
                    bytes: old(self).extracted(frame@.pixels),
                    source_frames: frame@.sequence,
                })
            },
    {
        let diff = match self.temporal.difference(frame) {
            Some(diff) => diff,
            None => {
                return None;
            },
        };
        let mixed = self.spatial.mix(diff.as_slice());
        Some(RawBits::from_bytes(mixed, frame.sequence()))
    }

    /// Resets internal state: the next frame primes the extractor anew.
    pub fn reset(&mut self)
        ensures
            final(self).previous() is None,
            final(self).stride() == old(self).stride(),
    {
        self.temporal.reset();
    }
}

impl Default for Extractor {
    fn default() -> (extractor: Self)
        ensures
            extractor.previous() is None,
            extractor.stride() == 1,
    {
        Self::new()
    }
}

} // verus!

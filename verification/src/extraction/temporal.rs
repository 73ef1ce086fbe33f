//! Temporal decorrelation via frame differencing.
//!
//! The difference between consecutive frames cancels what stays the same
//! from frame to frame: dead pixels and fixed-pattern noise.

use vstd::prelude::*;
use crate::capture::{Frame, FrameView};

verus! {

/// The unsigned distance between two byte values.
pub open spec fn distance(a: u8, b: u8) -> u8 {
    if a >= b {
        (a - b) as u8
    } else {
        (b - a) as u8
    }
}

/// The byte-wise distance between two pixel buffers, as far as both reach.
pub open spec fn difference_of(current: Seq<u8>, previous: Seq<u8>) -> Seq<u8> {
    Seq::new(
        if current.len() <= previous.len() {
            current.len()
        } else {
            previous.len()
        },
        |i: int| distance(current[i], previous[i]),
    )
}

/// Computes differences between consecutive frames.
pub struct TemporalDifferencer {
    previous: Option<Frame>,
}

impl TemporalDifferencer {
    /// The frame seen last, if any.
    pub closed spec fn previous(&self) -> Option<FrameView> {
        match self.previous {
            Some(frame) => Some(frame@),
            None => None,
        }
    }

    /// The pixels of the frame seen last, if any.
    pub open spec fn previous_pixels(&self) -> Option<Seq<u8>> {
        match self.previous() {
            Some(frame) => Some(frame.pixels),
            None => None,
        }
    }

    /// Creates a differencer that has seen no frame.
    pub fn new() -> (differencer: Self)
        ensures
            differencer.previous() is None,
    {
        Self { previous: None }
    }

    /// Computes the absolute difference with the previous frame, and keeps
    /// the current frame for the next call.
    ///
    /// Returns `None` on the first frame, which has nothing to be compared
    /// with.
    pub fn difference(&mut self, current: &Frame) -> (output: Option<Vec<u8>>)
        ensures
            final(self).previous() == Some(current@),
            match old(self).previous_pixels() {
                Some(previous) => output is Some && output->0@ == difference_of(
                    current@.pixels,
                    previous,
                ),
                None => output is None,
            },
    {
        let output = match &self.previous {
            Some(previous) => Some(pixel_distances(current.pixels(), previous.pixels())),
            None => None,
        };
        self.previous = Some(current.clone());
        output
    }

    /// Resets the differencer state: the next frame primes it anew.
    pub fn reset(&mut self)
        ensures
            final(self).previous() is None,
    {
        self.previous = None;
    }

    /// Returns true if ready to produce output.
    pub fn is_primed(&self) -> (primed: bool)
        ensures
            primed == self.previous() is Some,
    {
        self.previous.is_some()
    }
}

impl Default for TemporalDifferencer {
    fn default() -> (differencer: Self)
        ensures
            differencer.previous() is None,
    {
        Self::new()
    }
}

/// The distance between two byte values.
fn byte_distance(a: u8, b: u8) -> (d: u8)
    ensures
        d == distance(a, b),
{
    if a >= b {
        a - b
    } else {
        b - a
    }
}

/// The byte-wise distance between two buffers, as far as both reach.
fn pixel_distances(current: &[u8], previous: &[u8]) -> (output: Vec<u8>)
    ensures
        output@ == difference_of(current@, previous@),
{
    let len = if current.len() <= previous.len() {
        current.len()
    } else {
        previous.len()
    };
    let mut output: Vec<u8> = Vec::new();
    let mut i: usize = 0;
    while i < len
        invariant
            len <= current@.len(),
            len <= previous@.len(),
            i <= len,
            output@.len() == i,
            forall|j: int| 0 <= j < i ==> output@[j] == distance(current@[j], previous@[j]),
        decreases len - i,
    {
        output.push(byte_distance(current[i], previous[i]));
        i = i + 1;
    }
    assert(output@ =~= difference_of(current@, previous@));
    output
}

/// Two identical frames differ by zero at every pixel.
pub proof fn law_identical_frames_cancel(pixels: Seq<u8>)
    ensures
        difference_of(pixels, pixels).len() == pixels.len(),
        forall|i: int| 0 <= i < pixels.len() ==> (#[trigger] difference_of(pixels, pixels)[i]) == 0,
{
}

/// Two frames of one shape that differ by `delta` at every pixel, in either
/// direction, give a difference buffer that holds `delta` throughout.
pub proof fn law_constant_offset_shows(current: Seq<u8>, previous: Seq<u8>, delta: u8)
    requires
        current.len() == previous.len(),
        forall|i: int|
            0 <= i < current.len() ==> current[i] - previous[i] == delta || previous[i]
                - current[i] == delta,
    ensures
        difference_of(current, previous).len() == current.len(),
        forall|i: int|
            0 <= i < current.len() ==> (#[trigger] difference_of(current, previous)[i]) == delta,
{
}

} // verus!

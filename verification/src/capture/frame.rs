//! Frame type representing a captured image with metadata.

use vstd::prelude::*;
use std::time::Instant;

verus! {

/// A point in time, as `std::time::Instant` measures it. Nothing of it is
/// visible here.
#[verifier::external_type_specification]
#[verifier::external_body]
pub struct ExInstant(Instant);

/// Calls `std::time::Instant::now`. Nothing is claimed of the instant it
/// returns.
#[verifier::external_body]
fn current_instant() -> Instant {
    Instant::now()
}

/// A single captured frame from the camera.
#[derive(Debug)]
pub struct Frame {
    pixels: Vec<u8>,
    width: u32,
    height: u32,
    timestamp: Instant,
    sequence: u64,
}

/// What a frame holds.
pub struct FrameView {
    /// Raw pixel data.
    pub pixels: Seq<u8>,
    /// Frame width in pixels.
    pub width: u32,
    /// Frame height in pixels.
    pub height: u32,
    /// Monotonic sequence number.
    pub sequence: u64,
    /// The time of capture.
    pub captured_at: Instant,
}

impl FrameView {
    /// The pixel buffer has one byte for each of `width * height` pixels.
    pub open spec fn valid(self) -> bool {
        self.pixels.len() == self.width * self.height
    }
}

impl View for Frame {
    type V = FrameView;

    closed spec fn view(&self) -> FrameView {
        FrameView {
            pixels: self.pixels@,
            width: self.width,
            height: self.height,
            sequence: self.sequence,
            captured_at: self.timestamp,
        }
    }
}

impl Clone for Frame {
    /// A copy of the frame, time of capture included.
    fn clone(&self) -> (copy: Self)
        ensures
            copy@ == self@,
    {
        let pixels = self.pixels.clone();
        assert(pixels@ =~= self.pixels@);
        Self {
            pixels,
            width: self.width,
            height: self.height,
            timestamp: self.timestamp,
            sequence: self.sequence,
        }
    }
}

impl Frame {
    /// Creates a new frame with the given parameters, captured now.
    ///
    /// The buffer is taken as it is: see [`Frame::is_valid`].
    pub fn new(pixels: Vec<u8>, width: u32, height: u32, sequence: u64) -> (frame: Self)
        ensures
            frame@.pixels == pixels@,
            frame@.width == width,
            frame@.height == height,
            frame@.sequence == sequence,
    {
        Self { pixels, width, height, timestamp: current_instant(), sequence }
    }

    /// Returns a reference to the raw pixel data.
    pub fn pixels(&self) -> (pixels: &[u8])
        ensures
            pixels@ == self@.pixels,
    {
        self.pixels.as_slice()
    }

    /// Returns the frame width.
    pub fn width(&self) -> (width: u32)
        ensures
            width == self@.width,
    {
        self.width
    }

    /// Returns the frame height.
    pub fn height(&self) -> (height: u32)
        ensures
            height == self@.height,
    {
        self.height
    }

    /// Returns the capture timestamp.
    pub fn timestamp(&self) -> (timestamp: Instant)
        ensures
            timestamp == self@.captured_at,
    {
        self.timestamp
    }

    /// Returns the sequence number.
    pub fn sequence(&self) -> (sequence: u64)
        ensures
            sequence == self@.sequence,
    {
        self.sequence
    }

    /// Returns the total number of pixels (width * height).
    pub fn pixel_count(&self) -> (count: usize)
        requires
            self@.width * self@.height <= usize::MAX,
        ensures
            count == self@.width * self@.height,
    {
        proof {
            assert(0 <= self.width * self.height) by (nonlinear_arith);
        }
        (self.width as usize) * (self.height as usize)
    }

    /// Validates that the pixel buffer size matches dimensions.
    pub fn is_valid(&self) -> (valid: bool)
        ensures
            valid == self@.valid(),
    {
        proof {
            assert(0 <= self.width * self.height <= 0xFFFF_FFFF * 0xFFFF_FFFF) by (nonlinear_arith)
                requires
                    0 <= self.width <= 0xFFFF_FFFF,
                    0 <= self.height <= 0xFFFF_FFFF,
            ;
        }
        self.pixels.len() as u64 == (self.width as u64) * (self.height as u64)
    }
}

} // verus!

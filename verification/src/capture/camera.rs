//! Camera abstraction for frame capture.
//!
//! A trait stands for the camera, so that real hardware and a synthetic
//! source can be swapped for one another.

use vstd::prelude::*;
use crate::capture::config::{CaptureConfig, ConfigError};
use crate::capture::frame::Frame;

verus! {

/// Errors that can occur during camera operations.
#[derive(Debug)]
pub enum CameraError {
    /// No such camera device.
    DeviceNotFound(String),
    /// The camera could not be opened.
    OpenFailed(String),
    /// The camera could not be configured.
    ConfigFailed(String),
    /// No frame could be captured.
    CaptureFailed(String),
    /// The camera has not been opened.
    NotInitialized,
}

/// Information about an available camera device.
#[derive(Debug)]
pub struct CameraInfo {
    /// Device index.
    pub index: u32,
    /// Name of the device, as shown to people.
    pub name: String,
    /// Description of the device.
    pub description: String,
}

impl Clone for CameraInfo {
    fn clone(&self) -> (copy: Self)
        ensures
            copy == *self,
    {
        Self {
            index: self.index,
            name: self.name.clone(),
            description: self.description.clone(),
        }
    }
}

/// Trait for camera implementations.
pub trait Camera {
    /// Opens and initializes the camera with the given configuration.
    fn open(&mut self, config: &CaptureConfig) -> Result<(), CameraError>;

    /// Captures a single frame.
    fn capture(&mut self) -> Result<Frame, CameraError>;

    /// Checks if the camera is currently open.
    fn is_open(&self) -> bool;

    /// Closes the camera and releases resources.
    fn close(&mut self);
}

/// The synthetic pixel at position `i` of the frame that follows `sequence`
/// earlier ones: the low byte of `i ^ sequence`.
pub open spec fn mock_pixel(i: int, sequence: u64) -> u8 {
    (((i as u64) ^ sequence) % 256) as u8
}

/// The synthetic frame of `count` pixels that follows `sequence` earlier
/// ones.
pub open spec fn mock_pixels(count: nat, sequence: u64) -> Seq<u8> {
    Seq::new(count, |i: int| mock_pixel(i, sequence))
}

/// Mock camera for testing that generates synthetic frames.
///
/// The frames follow a fixed pattern: they exercise frame handling, and
/// hold no entropy.
#[derive(Debug)]
pub struct MockCamera {
    config: Option<CaptureConfig>,
    sequence: u64,
}

impl Default for MockCamera {
    fn default() -> (camera: Self)
        ensures
            camera.configuration() is None,
            camera.frames_captured() == 0,
    {
        Self { config: None, sequence: 0 }
    }
}

impl MockCamera {
    /// The configuration the camera was opened with; `None` while closed.
    pub closed spec fn configuration(&self) -> Option<CaptureConfig> {
        self.config
    }

    /// Frames captured since the camera was opened.
    pub closed spec fn frames_captured(&self) -> u64 {
        self.sequence
    }

    /// Creates a closed mock camera.
    pub fn new() -> (camera: Self)
        ensures
            camera.configuration() is None,
            camera.frames_captured() == 0,
    {
        Self { config: None, sequence: 0 }
    }
}

impl Camera for MockCamera {
    /// Opens the camera where the configuration is valid, and starts
    /// counting frames from zero. An invalid configuration is refused with
    /// its fault in words, and leaves the camera as it was.
    fn open(&mut self, config: &CaptureConfig) -> (outcome: Result<(), CameraError>)
        ensures
            match config.fault() {
                None => {
                    &&& outcome is Ok
                    &&& final(self).configuration() == Some(*config)
                    &&& final(self).frames_captured() == 0
                },
                Some(fault) => {
                    &&& outcome matches Err(CameraError::ConfigFailed(message))
                    &&& message@ == fault.text()
                    &&& *final(self) == *old(self)
                },
            },
    {
        match config.validate() {
            Ok(()) => {},
            Err(fault) => {
                return Err(CameraError::ConfigFailed(fault.message()));
            },
        }
        self.config = Some(*config);
        self.sequence = 0;
        Ok(())
    }

    /// Captures the next synthetic frame, numbered from one.
    ///
    /// Fails with `NotInitialized` while the camera is closed, and with
    /// `CaptureFailed` where the frame counter or the address space is
    /// exhausted; a failed capture leaves the camera as it was.
    fn capture(&mut self) -> (outcome: Result<Frame, CameraError>)
        ensures
            match old(self).configuration() {
                None => outcome matches Err(CameraError::NotInitialized) && *final(self) == *old(
                    self,
                ),
                Some(config) => if old(self).frames_captured() < u64::MAX && config.width
                    * config.height <= usize::MAX {
                    &&& outcome is Ok
                    &&& outcome->Ok_0@.pixels == mock_pixels(
                        (config.width * config.height) as nat,
                        old(self).frames_captured(),
                    )
                    &&& outcome->Ok_0@.width == config.width
                    &&& outcome->Ok_0@.height == config.height
                    &&& outcome->Ok_0@.sequence == old(self).frames_captured() + 1
                    &&& outcome->Ok_0@.valid()
                    &&& final(self).configuration() == old(self).configuration()
                    &&& final(self).frames_captured() == old(self).frames_captured() + 1
                } else {
                    outcome matches Err(CameraError::CaptureFailed(_)) && *final(self) == *old(
                        self,
                    )
                },
            },
    {
        let config = match self.config {
            Some(config) => config,
            None => {
                return Err(CameraError::NotInitialized);
            },
        };
        proof {
            assert(0 <= config.width * config.height <= 0xFFFF_FFFF * 0xFFFF_FFFF)
                by (nonlinear_arith)
                requires
                    0 <= config.width <= 0xFFFF_FFFF,
                    0 <= config.height <= 0xFFFF_FFFF,
            ;
        }
        let wide_count = (config.width as u64) * (config.height as u64);
        if self.sequence == u64::MAX {
            return Err(CameraError::CaptureFailed("frame counter exhausted".to_owned()));
        }
        if wide_count > usize::MAX as u64 {
            return Err(CameraError::CaptureFailed("frame too large".to_owned()));
        }
        let pixel_count = wide_count as usize;
        let mut pixels: Vec<u8> = Vec::new();
        let mut i: usize = 0;
        while i < pixel_count
            invariant
                i <= pixel_count,
                pixels@.len() == i,
                forall|j: int| 0 <= j < i ==> pixels@[j] == mock_pixel(j, self.sequence),
            decreases pixel_count - i,
        {
            pixels.push((((i as u64) ^ self.sequence) % 256) as u8);
            i = i + 1;
        }
        assert(pixels@ =~= mock_pixels(pixel_count as nat, self.sequence));
        self.sequence = self.sequence + 1;
        Ok(Frame::new(pixels, config.width, config.height, self.sequence))
    }

    /// Checks if the camera is currently open.
    fn is_open(&self) -> (open: bool)
        ensures
            open == self.configuration() is Some,
    {
        self.config.is_some()
    }

    /// Closes the camera.
    fn close(&mut self)
        ensures
            final(self).configuration() is None,
            final(self).frames_captured() == old(self).frames_captured(),
    {
        self.config = None;
    }
}

} // verus!

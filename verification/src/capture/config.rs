//! Camera capture configuration.
//!
//! Exposure and gain are fixed: automatic exposure would put correlations
//! of its own into the samples.

use vstd::prelude::*;

verus! {

/// `String::push_str` appends the given string slice onto the end of the
/// string.
pub assume_specification[ String::push_str ](text: &mut String, tail: &str)
    ensures
        final(text)@ == old(text)@ + tail@,
;

/// Configuration for camera capture.
#[derive(Clone, Copy, Debug, PartialEq, Eq)]
pub struct CaptureConfig {
    /// Camera device index or identifier.
    pub device_id: u32,
    /// Frame width in pixels.
    pub width: u32,
    /// Frame height in pixels.
    pub height: u32,
    /// Fixed exposure time in microseconds.
    pub exposure_us: u32,
    /// Fixed gain value (camera-specific units).
    pub gain: u32,
    /// Target frames per second.
    pub fps: u32,
    /// Use grayscale mode (recommended for entropy extraction).
    pub grayscale: bool,
}

/// Configuration validation errors.
#[derive(Debug)]
pub enum ConfigError {
    /// A frame dimension is zero.
    InvalidDimensions,
    /// The exposure time is zero.
    InvalidExposure,
    /// The frame rate is outside 1 to 120 frames per second.
    InvalidFrameRate,
    /// The configuration file could not be read.
    FileReadError(String),
    /// The configuration file could not be parsed.
    ParseError(String),
}

/// Output configuration.
#[derive(Clone, Copy, Debug, PartialEq, Eq)]
pub struct OutputConfig {
    /// Run continuously (true) or process fixed number of frames (false).
    pub continuous: bool,
    /// Number of frames to process if not continuous.
    pub frame_count: u32,
    /// Metrics server port (0 to disable).
    pub metrics_port: u16,
}

impl Default for CaptureConfig {
    /// Device 0, 640 by 480 pixels, 10 ms exposure, unit gain, 30 frames
    /// per second, grayscale.
    fn default() -> (config: Self)
        ensures
            config == CaptureConfig::standard(),
    {
        Self {
            device_id: 0,
            width: 640,
            height: 480,
            exposure_us: 10000,
            gain: 1,
            fps: 30,
            grayscale: true,
        }
    }
}

impl Default for OutputConfig {
    /// A fixed run of 100 frames, with metrics on port 9090.
    fn default() -> (config: Self)
        ensures
            config == (OutputConfig { continuous: false, frame_count: 100, metrics_port: 9090 }),
    {
        Self { continuous: false, frame_count: 100, metrics_port: 9090 }
    }
}

impl CaptureConfig {
    /// The default configuration.
    pub open spec fn standard() -> CaptureConfig {
        CaptureConfig {
            device_id: 0,
            width: 640,
            height: 480,
            exposure_us: 10000,
            gain: 1,
            fps: 30,
            grayscale: true,
        }
    }

    /// The first fault of the configuration, in the order dimensions,
    /// exposure, frame rate; `None` where it has none.
    pub open spec fn fault(&self) -> Option<ConfigError> {
        if self.width == 0 || self.height == 0 {
            Some(ConfigError::InvalidDimensions)
        } else if self.exposure_us == 0 {
            Some(ConfigError::InvalidExposure)
        } else if self.fps == 0 || self.fps > 120 {
            Some(ConfigError::InvalidFrameRate)
        } else {
            None
        }
    }

    /// Creates a new configuration with the specified dimensions, and the
    /// defaults for the rest.
    pub fn with_dimensions(width: u32, height: u32) -> (config: Self)
        ensures
            config == (CaptureConfig { width, height, ..CaptureConfig::standard() }),
    {
        Self { width, height, ..Self::default() }
    }

    /// Validates the configuration parameters.
    pub fn validate(&self) -> (outcome: Result<(), ConfigError>)
        ensures
            match self.fault() {
                Some(fault) => outcome == Err::<(), ConfigError>(fault),
                None => outcome is Ok,
            },
    {
        if self.width == 0 || self.height == 0 {
            return Err(ConfigError::InvalidDimensions);
        }
        if self.exposure_us == 0 {
            return Err(ConfigError::InvalidExposure);
        }
        if self.fps == 0 || self.fps > 120 {
            return Err(ConfigError::InvalidFrameRate);
        }
        Ok(())
    }
}

impl Clone for ConfigError {
    fn clone(&self) -> (copy: Self)
        ensures
            copy == *self,
    {
        match self {
            ConfigError::InvalidDimensions => ConfigError::InvalidDimensions,
            ConfigError::InvalidExposure => ConfigError::InvalidExposure,
            ConfigError::InvalidFrameRate => ConfigError::InvalidFrameRate,
            ConfigError::FileReadError(cause) => ConfigError::FileReadError(cause.clone()),
            ConfigError::ParseError(cause) => ConfigError::ParseError(cause.clone()),
        }
    }
}

impl ConfigError {
    /// The error in words.
    pub open spec fn text(&self) -> Seq<char> {
        match self {
            ConfigError::InvalidDimensions => "invalid frame dimensions"@,
            ConfigError::InvalidExposure => "invalid exposure time"@,
            ConfigError::InvalidFrameRate => "invalid frame rate (must be 1-120 fps)"@,
            ConfigError::FileReadError(cause) => "failed to read config file: "@ + cause@,
            ConfigError::ParseError(cause) => "failed to parse config file: "@ + cause@,
        }
    }

    /// Returns the error in words.
    pub fn message(&self) -> (message: String)
        ensures
            message@ == self.text(),
    {
        match self {
            ConfigError::InvalidDimensions => "invalid frame dimensions".to_owned(),
            ConfigError::InvalidExposure => "invalid exposure time".to_owned(),
            ConfigError::InvalidFrameRate => "invalid frame rate (must be 1-120 fps)".to_owned(),
            ConfigError::FileReadError(cause) => {
                let mut message = "failed to read config file: ".to_owned();
                message.push_str(cause.as_str());
                message
            },
            ConfigError::ParseError(cause) => {
                let mut message = "failed to parse config file: ".to_owned();
                message.push_str(cause.as_str());
                message
            },
        }
    }
}

} // verus!

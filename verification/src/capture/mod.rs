//! Camera input and frame handling.
//!
//! The camera is a source of raw optical data, not of entropy as such.

mod camera;
mod config;
mod frame;

pub use camera::{mock_pixel, mock_pixels, Camera, CameraError, CameraInfo, MockCamera};
pub use config::{CaptureConfig, ConfigError, OutputConfig};
pub use frame::{Frame, FrameView};

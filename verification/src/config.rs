//! What a recording is asked to be, and what the stream is configured with.

use crate::bindings::{FrameInterval, ScreenCaptureKitHelpers, kCGColorSpaceSRGB, kCVPixelFormatType_32BGRA};
use vstd::prelude::*;

verus! {

pub const DEFAULT_WIDTH: u32 = 1920;

pub const DEFAULT_HEIGHT: u32 = 1080;

pub const DEFAULT_FPS: u32 = 30;

/// A recording as the user asks for it. Whatever is left open takes its
/// default when the stream is configured.
#[derive(Debug, PartialEq, Eq)]
pub struct RecordingConfiguration {
    pub width: Option<u32>,
    pub height: Option<u32>,
    pub fps: Option<u32>,
    pub show_cursor: Option<bool>,
    pub capture_audio: Option<bool>,
    pub audio_device_id: Option<String>,
    pub output_path: String,
    pub pixel_format: Option<String>,
    pub color_space: Option<String>,
}

/// What a stream is configured with.
#[derive(Debug, Clone, Copy, PartialEq, Eq, Structural)]
pub struct StreamSettings {
    pub width: u32,
    pub height: u32,
    pub fps: u32,
    pub frame_interval: FrameInterval,
    pub shows_cursor: bool,
    pub captures_audio: bool,
    pub pixel_format: u32,
    pub color_space: u32,
}

/// The value of an option, or `default` without one.
pub open spec fn value_or<V>(option: Option<V>, default: V) -> V {
    match option {
        Some(value) => value,
        None => default,
    }
}

impl RecordingConfiguration {
    /// Width of the recording, 1920 unless asked otherwise.
    pub fn effective_width(&self) -> (width: u32)
        ensures
            width == value_or(self.width, DEFAULT_WIDTH),
    {
        match self.width {
            Some(width) => width,
            None => DEFAULT_WIDTH,
        }
    }

    /// Height of the recording, 1080 unless asked otherwise.
    pub fn effective_height(&self) -> (height: u32)
        ensures
            height == value_or(self.height, DEFAULT_HEIGHT),
    {
        match self.height {
            Some(height) => height,
            None => DEFAULT_HEIGHT,
        }
    }

    /// Frame rate of the recording, 30 unless asked otherwise.
    pub fn effective_fps(&self) -> (fps: u32)
        ensures
            fps == value_or(self.fps, DEFAULT_FPS),
    {
        match self.fps {
            Some(fps) => fps,
            None => DEFAULT_FPS,
        }
    }

    /// The settings of the stream for this recording: size and rate as
    /// asked or by default, the cursor shown unless asked otherwise, audio
    /// captured only if asked, 32-bit BGRA pixels in the sRGB colour space.
    /// The pixel format and colour space that the user names are not
    /// consulted.
    pub open spec fn settings(self) -> StreamSettings {
        StreamSettings {
            width: value_or(self.width, DEFAULT_WIDTH),
            height: value_or(self.height, DEFAULT_HEIGHT),
            fps: value_or(self.fps, DEFAULT_FPS),
            frame_interval: FrameInterval {
                value: 1,
                timescale: value_or(self.fps, DEFAULT_FPS) as i32,
            },
            shows_cursor: value_or(self.show_cursor, true),
            captures_audio: value_or(self.capture_audio, false),
            pixel_format: kCVPixelFormatType_32BGRA,
            color_space: kCGColorSpaceSRGB,
        }
    }

    /// Computes the settings of the stream for this recording.
    pub fn stream_settings(&self) -> (settings: StreamSettings)
        ensures
            settings == self.settings(),
    {
        let fps = self.effective_fps();
        StreamSettings {
            width: self.effective_width(),
            height: self.effective_height(),
            fps,
            frame_interval: ScreenCaptureKitHelpers::minimum_frame_interval(fps),
            shows_cursor: match self.show_cursor {
                Some(shown) => shown,
                None => true,
            },
            captures_audio: match self.capture_audio {
                Some(captured) => captured,
                None => false,
            },
            pixel_format: kCVPixelFormatType_32BGRA,
            color_space: kCGColorSpaceSRGB,
        }
    }
}

} // verus!

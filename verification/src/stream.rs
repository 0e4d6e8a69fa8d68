//! The stream manager that the recorder drives, with the recording flag
//! that it shares with its delegate.

use crate::bindings::ForeignHandle;
use crate::config::RecordingConfiguration;
use crate::content::ShareableContent;
use crate::delegate::{DelegateState, RealStreamDelegate};
use crate::error::{CaptureError, ErrorStatus};
use crate::text::{decimal, numbered_between};
use vstd::pervasive::unreached;
use vstd::prelude::*;

verus! {

/// A stream manager as the contracts see it.
pub struct Manager {
    pub stream: Option<ForeignHandle>,
    pub delegate: Option<DelegateState>,
    pub output_path: Option<Seq<char>>,
    /// The recording flag. While there is a delegate it is the delegate's
    /// flag: manager and delegate see the same one.
    pub recording: bool,
}

/// Manager of one capture stream.
#[derive(Debug)]
pub struct RealStreamManager {
    stream: Option<ForeignHandle>,
    delegate: Option<RealStreamDelegate>,
    is_recording: bool,
    output_path: Option<String>,
}

impl View for RealStreamManager {
    type V = Manager;

    closed spec fn view(&self) -> Manager {
        Manager {
            stream: self.stream,
            delegate: match self.delegate {
                Some(delegate) => Some(delegate@),
                None => None,
            },
            output_path: match self.output_path {
                Some(path) => Some(path@),
                None => None,
            },
            recording: match self.delegate {
                Some(delegate) => delegate@.recording,
                None => self.is_recording,
            },
        }
    }
}

impl RealStreamManager {
    /// A manager without a stream, not recording.
    pub fn new() -> (manager: Self)
        ensures
            manager@ == (Manager {
                stream: None,
                delegate: None,
                output_path: None,
                recording: false,
            }),
    {
        RealStreamManager { stream: None, delegate: None, is_recording: false, output_path: None }
    }

    /// Takes hold of a stream that has been created and started for
    /// `config`: the manager gets a fresh delegate for the configured
    /// size and rate, remembers the output path, and records.
    pub fn start_recording(&mut self, stream: ForeignHandle, config: RecordingConfiguration)
        ensures
            final(self)@ == (Manager {
                stream: Some(stream),
                delegate: Some(
                    DelegateState {
                        output_path: config.output_path@,
                        recording: true,
                        frames: 0,
                        audio_frames: 0,
                        width: config.settings().width,
                        height: config.settings().height,
                        fps: config.settings().fps,
                        video_attached: false,
                        audio_attached: false,
                    },
                ),
                output_path: Some(config.output_path@),
                recording: true,
            }),
    {
        let delegate = RealStreamDelegate::new(
            config.output_path.clone(),
            true,
            config.effective_width(),
            config.effective_height(),
            config.effective_fps(),
        );
        self.stream = Some(stream);
        self.delegate = Some(delegate);
        self.output_path = Some(config.output_path);
        self.is_recording = true;
    }

    /// Stops recording, with or without a stream. The manager lets go of
    /// stream, delegate and output path. Returns the stream that has to be
    /// told to stop, if there was one, and the output path, empty if none
    /// was remembered.
    pub fn stop_recording(&mut self) -> (stopped: (Option<ForeignHandle>, String))
        ensures
            stopped.0 == old(self)@.stream,
            stopped.1@ == match old(self)@.output_path {
                Some(path) => path,
                None => Seq::empty(),
            },
            final(self)@ == (Manager {
                stream: None,
                delegate: None,
                output_path: None,
                recording: false,
            }),
    {
        let stream = self.stream.take();
        let output_path = match self.output_path.take() {
            Some(path) => path,
            None => String::new(),
        };
        self.is_recording = false;
        self.delegate = None;
        (stream, output_path)
    }

    /// Whether the manager records.
    pub fn is_recording(&self) -> (recording: bool)
        ensures
            recording == self@.recording,
    {
        match &self.delegate {
            Some(delegate) => delegate.is_recording(),
            None => self.is_recording,
        }
    }

    /// The stream has stopped by itself: the shared flag goes down.
    /// Returns whether the stop is to be reported as an error.
    pub fn handle_stream_stopped(&mut self, error_reported: bool) -> (failed: bool)
        ensures
            failed == error_reported,
            final(self)@ == (Manager {
                delegate: match old(self)@.delegate {
                    Some(delegate) => Some(delegate.stopped()),
                    None => None,
                },
                recording: false,
                ..old(self)@
            }),
    {
        self.is_recording = false;
        match self.delegate.take() {
            Some(delegate) => {
                let mut delegate = delegate;
                let failed = delegate.handle_stream_stopped(error_reported);
                self.delegate = Some(delegate);
                failed
            },
            None => error_reported,
        }
    }

    /// Video frames encoded so far; zero without a delegate.
    pub fn get_frame_count(&self) -> (count: u64)
        ensures
            count == match self@.delegate {
                Some(delegate) => delegate.frames,
                None => 0,
            },
    {
        match &self.delegate {
            Some(delegate) => delegate.get_frame_count(),
            None => 0,
        }
    }

    /// Audio buffers encoded so far; zero without a delegate.
    pub fn get_audio_frame_count(&self) -> (count: u64)
        ensures
            count == match self@.delegate {
                Some(delegate) => delegate.audio_frames,
                None => 0,
            },
    {
        match &self.delegate {
            Some(delegate) => delegate.get_audio_frame_count(),
            None => 0,
        }
    }
}

/// What a filter captures.
#[derive(Debug, Clone, Copy, PartialEq, Eq, Structural)]
pub enum ContentFilterType {
    Display(u32),
    Window(u32),
}

/// A content filter built from a display or window object of the
/// framework.
#[derive(Debug, Clone, Copy, PartialEq, Eq, Structural)]
pub struct RealContentFilter {
    filter_ptr: ForeignHandle,
    filter_type: ContentFilterType,
}

impl RealContentFilter {
    /// The framework's filter object.
    pub closed spec fn handle(self) -> ForeignHandle {
        self.filter_ptr
    }

    /// What the filter captures.
    pub closed spec fn captures(self) -> ContentFilterType {
        self.filter_type
    }

    /// A filter on the display with the given identifier. It needs the
    /// framework's display object, and the content hands no objects out,
    /// so the display is never found.
    pub fn new_with_display(content: &ShareableContent, display_id: u32) -> (filter: Result<
        Self,
        CaptureError,
    >)
        ensures
            filter matches Err(error) && error.says(
                ErrorStatus::InvalidArg,
                "Display with ID "@ + decimal(display_id as nat) + " not found"@,
            ),
    {
        match content.get_sc_display_by_id(display_id) {
            Some(_) => unreached(),
            None => Err(
                CaptureError::invalid_arg(
                    numbered_between("Display with ID ", display_id as u64, " not found"),
                ),
            ),
        }
    }

    /// A filter on the window with the given identifier. It needs the
    /// framework's window object, and the content hands no objects out, so
    /// the window is never found.
    pub fn new_with_window(content: &ShareableContent, window_id: u32) -> (filter: Result<
        Self,
        CaptureError,
    >)
        ensures
            filter matches Err(error) && error.says(
                ErrorStatus::InvalidArg,
                "Window with ID "@ + decimal(window_id as nat) + " not found"@,
            ),
    {
        match content.get_sc_window_by_id(window_id) {
            Some(_) => unreached(),
            None => Err(
                CaptureError::invalid_arg(
                    numbered_between("Window with ID ", window_id as u64, " not found"),
                ),
            ),
        }
    }

    /// The framework's filter object.
    pub fn get_filter_ptr(&self) -> (handle: ForeignHandle)
        ensures
            handle == self.handle(),
    {
        self.filter_ptr
    }

    /// What the filter captures.
    pub fn filter_type(&self) -> (kind: ContentFilterType)
        ensures
            kind == self.captures(),
    {
        self.filter_type
    }

    /// Whether there is a filter object behind the handle.
    pub fn is_valid(&self) -> (valid: bool)
        ensures
            valid == (self.handle().token != 0),
    {
        !self.filter_ptr.is_null()
    }
}

} // verus!

//! One recording session: what has to exist before it starts, what it
//! holds while it runs, and what it reports when it stops.

use super::filter::RealContentFilter;
use crate::bindings::ForeignHandle;
use crate::config::{RecordingConfiguration, StreamSettings};
use crate::delegate::{DelegateState, RealStreamDelegate};
use crate::error::{CaptureError, ErrorStatus};
use crate::status::{boolean, idle_session_status, json_text, no_members, object, put, text, render};
use vstd::prelude::*;

verus! {

/// A framework object that a recording needs.
#[derive(Debug, Clone, Copy, PartialEq, Eq, Structural)]
pub enum StreamObject {
    Configuration,
    Delegate,
    Stream,
}

impl StreamObject {
    /// The words in which the lack of this object is reported.
    pub open spec fn missing(self) -> Seq<char> {
        match self {
            StreamObject::Configuration => "Failed to create stream configuration"@,
            StreamObject::Delegate => "Failed to create stream delegate"@,
            StreamObject::Stream => "Failed to create SCStream"@,
        }
    }

    /// Accepts what the framework returned when it was asked for this
    /// object: a null handle is a generic failure that names the object.
    pub fn require(self, created: ForeignHandle) -> (object: Result<ForeignHandle, CaptureError>)
        ensures
            match object {
                Ok(handle) => handle == created && created.token != 0,
                Err(error) => created.token == 0 && error.says(
                    ErrorStatus::GenericFailure,
                    self.missing(),
                ),
            },
    {
        if created.is_null() {
            let reason = match self {
                StreamObject::Configuration => "Failed to create stream configuration",
                StreamObject::Delegate => "Failed to create stream delegate",
                StreamObject::Stream => "Failed to create SCStream",
            };
            Err(CaptureError::generic_failure(reason.to_owned()))
        } else {
            Ok(created)
        }
    }
}

/// Path reported for a recording that was started without one.
pub open spec fn fallback_output_path() -> Seq<char> {
    "/tmp/recording.mp4"@
}

/// A session as the contracts see it.
pub struct Session {
    pub stream: Option<ForeignHandle>,
    pub delegate: Option<DelegateState>,
    pub recording: bool,
    pub output_path: Option<Seq<char>>,
}

/// What a stopped session leaves behind.
#[derive(Debug)]
pub struct StopReport {
    /// The stream that has to be told to stop.
    pub stream: ForeignHandle,
    /// Where the recording was written.
    pub output_path: String,
    /// Video frames encoded, if the session had a delegate.
    pub video_frames: Option<u64>,
    /// Audio buffers encoded, if the session had a delegate.
    pub audio_frames: Option<u64>,
}

/// Figures of a session, for display.
#[derive(Debug)]
pub struct SessionStats {
    pub is_recording: bool,
    pub stream_active: bool,
    pub output_path: Option<String>,
    /// Video frames and audio buffers encoded, and whether the delegate
    /// still records; `None` without a delegate.
    pub delegate: Option<(u64, u64, bool)>,
}

/// One recording session.
#[derive(Debug)]
pub struct RealStreamManager {
    stream: Option<ForeignHandle>,
    delegate: Option<RealStreamDelegate>,
    is_recording: bool,
    output_path: Option<String>,
}

impl View for RealStreamManager {
    type V = Session;

    closed spec fn view(&self) -> Session {
        Session {
            stream: self.stream,
            delegate: match self.delegate {
                Some(delegate) => Some(delegate@),
                None => None,
            },
            recording: self.is_recording,
            output_path: match self.output_path {
                Some(path) => Some(path@),
                None => None,
            },
        }
    }
}

impl RealStreamManager {
    /// A session that has not started.
    pub fn new() -> (manager: Self)
        ensures
            manager@ == (Session {
                stream: None,
                delegate: None,
                recording: false,
                output_path: None,
            }),
    {
        RealStreamManager { stream: None, delegate: None, is_recording: false, output_path: None }
    }

    /// First step of a start: the filter must be valid. Returns what the
    /// stream is to be configured with.
    pub fn prepare_recording(content_filter: &RealContentFilter, config: &RecordingConfiguration) -> (settings:
        Result<StreamSettings, CaptureError>)
        ensures
            match settings {
                Ok(made) => content_filter.valid() && made == config.settings(),
                Err(error) => !content_filter.valid() && error.says(
                    ErrorStatus::GenericFailure,
                    "Invalid content filter"@,
                ),
            },
    {
        if !content_filter.is_valid() {
            Err(CaptureError::generic_failure("Invalid content filter".to_owned()))
        } else {
            Ok(config.stream_settings())
        }
    }

    /// Last step of a start: the session takes hold of the stream and of
    /// its delegate, remembers the output path, and records.
    pub fn start_recording(&mut self, stream: ForeignHandle, delegate: RealStreamDelegate, output_path: String)
        ensures
            final(self)@ == (Session {
                stream: Some(stream),
                delegate: Some(delegate@),
                recording: true,
                output_path: Some(output_path@),
            }),
    {
        self.stream = Some(stream);
        self.delegate = Some(delegate);
        self.is_recording = true;
        self.output_path = Some(output_path);
    }

    /// Stops the session. Without a stream there is nothing to stop:
    /// that is the failure `No active recording session`, and the session
    /// stays as it is. With one, the session lets go of stream and
    /// delegate, stops recording, keeps its output path, and reports the
    /// stream to stop, the delegate's last counts, and the output path
    /// (`/tmp/recording.mp4` if none was remembered).
    pub fn stop_recording(&mut self) -> (report: Result<StopReport, CaptureError>)
        ensures
            match report {
                Ok(stopped) => {
                    &&& old(self)@.stream == Some(stopped.stream)
                    &&& stopped.output_path@ == match old(self)@.output_path {
                        Some(path) => path,
                        None => fallback_output_path(),
                    }
                    &&& match old(self)@.delegate {
                        Some(delegate) => stopped.video_frames == Some(delegate.frames as u64)
                            && stopped.audio_frames == Some(delegate.audio_frames as u64),
                        None => stopped.video_frames is None && stopped.audio_frames is None,
                    }
                    &&& final(self)@ == (Session {
                        stream: None,
                        delegate: None,
                        recording: false,
                        output_path: old(self)@.output_path,
                    })
                },
                Err(error) => {
                    &&& old(self)@.stream is None
                    &&& error.says(ErrorStatus::GenericFailure, "No active recording session"@)
                    &&& final(self)@ == old(self)@
                },
            },
    {
        let stream = match self.stream {
            Some(stream) => stream,
            None => {
                return Err(CaptureError::generic_failure("No active recording session".to_owned()));
            },
        };
        let (video_frames, audio_frames) = match &self.delegate {
            Some(delegate) => (Some(delegate.get_frame_count()), Some(delegate.get_audio_frame_count())),
            None => (None, None),
        };
        let output_path = match &self.output_path {
            Some(path) => path.clone(),
            None => "/tmp/recording.mp4".to_owned(),
        };
        self.is_recording = false;
        self.stream = None;
        self.delegate = None;
        Ok(StopReport { stream, output_path, video_frames, audio_frames })
    }

    /// Whether the session records.
    pub fn is_recording(&self) -> (recording: bool)
        ensures
            recording == self@.recording,
    {
        self.is_recording
    }

    /// The figures of a session without a delegate as JSON text: whether
    /// it records, whether it holds a stream, and the note that no delegate
    /// is active. A session with a delegate has rates to report, which are
    /// computed from [`RealStreamManager::get_stats`]; for it the answer is
    /// `None`.
    pub fn get_idle_stats(&self) -> (written: Option<String>)
        ensures
            match written {
                Some(document) => self@.delegate is None && document@ == json_text(
                    idle_session_status(self@.recording, self@.stream is Some),
                ),
                None => self@.delegate is Some,
            },
    {
        if self.delegate.is_some() {
            return None;
        }
        let mut members = no_members();
        put(&mut members, "isRecording", boolean(self.is_recording));
        put(&mut members, "streamActive", boolean(self.stream.is_some()));
        put(&mut members, "error", text("No active delegate"));
        put(&mut members, "method", text("real-screencapturekit-stream"));
        Some(render(&object(members)))
    }

    /// The session's figures: whether it records, whether it holds a
    /// stream, its output path, and its delegate's counts.
    pub fn get_stats(&self) -> (stats: SessionStats)
        ensures
            stats.is_recording == self@.recording,
            stats.stream_active == (self@.stream is Some),
            match self@.output_path {
                Some(path) => stats.output_path matches Some(reported) && reported@ == path,
                None => stats.output_path is None,
            },
            match self@.delegate {
                Some(delegate) => stats.delegate == Some(
                    (delegate.frames as u64, delegate.audio_frames as u64, delegate.recording),
                ),
                None => stats.delegate is None,
            },
    {
        SessionStats {
            is_recording: self.is_recording,
            stream_active: self.stream.is_some(),
            output_path: match &self.output_path {
                Some(path) => Some(path.clone()),
                None => None,
            },
            delegate: match &self.delegate {
                Some(delegate) => Some(
                    (
                        delegate.get_frame_count(),
                        delegate.get_audio_frame_count(),
                        delegate.is_recording(),
                    ),
                ),
                None => None,
            },
        }
    }
}

} // verus!

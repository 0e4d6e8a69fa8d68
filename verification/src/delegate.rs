//! Bookkeeping of a running capture stream: which sample buffers are
//! encoded, how many were, and what happens when the stream stops.

use crate::bindings::SCStreamOutputType;
use vstd::prelude::*;
use vstd::string::*;

verus! {

/// Every this many video frames the delegate asks for a progress report.
pub const VIDEO_REPORT_INTERVAL: u64 = 30;

/// Every this many audio buffers the delegate asks for a progress report.
pub const AUDIO_REPORT_INTERVAL: u64 = 100;

/// Sample rate of the audio track, in hertz.
pub const AUDIO_SAMPLE_RATE: u32 = 48000;

/// Channels of the audio track.
pub const AUDIO_CHANNELS: u32 = 2;

/// What the video encoder is to be created with.
#[derive(Debug, PartialEq, Eq)]
pub struct VideoEncoderPlan {
    pub path: String,
    pub width: u32,
    pub height: u32,
    pub fps: u32,
}

/// What the audio encoder is to be created with.
#[derive(Debug, PartialEq, Eq)]
pub struct AudioEncoderPlan {
    pub path: String,
    pub sample_rate: u32,
    pub channels: u32,
}

/// What to do with a sample buffer that the stream delivered.
#[derive(Debug, Clone, Copy, PartialEq, Eq, Structural)]
pub enum SampleAction {
    /// Hand the buffer to the video encoder; `report_progress` is set on
    /// every thirtieth frame.
    EncodeVideo { report_progress: bool },
    /// Hand the buffer to the audio encoder; `report_progress` is set on
    /// every hundredth buffer.
    EncodeAudio { report_progress: bool },
    /// There is no encoder for this kind of buffer, or a screen buffer
    /// holds no image: drop it, count nothing.
    Skip,
}

/// What to do when the stream has stopped.
#[derive(Debug, Clone, Copy, PartialEq, Eq, Structural)]
pub struct StopActions {
    /// The stream stopped because of an error, to be reported as such.
    pub failed: bool,
    /// Close the video file.
    pub finalize_video: bool,
    /// Close the audio file.
    pub finalize_audio: bool,
}

/// State of a delegate as the contracts see it.
pub struct DelegateState {
    pub output_path: Seq<char>,
    pub recording: bool,
    pub frames: nat,
    pub audio_frames: nat,
    pub width: u32,
    pub height: u32,
    pub fps: u32,
    pub video_attached: bool,
    pub audio_attached: bool,
}

impl DelegateState {
    /// Whether a buffer of the given kind is encoded: a video buffer
    /// needs the video encoder and an image in it; an audio buffer needs
    /// the audio encoder.
    pub open spec fn accepts(self, kind: SCStreamOutputType, has_image: bool) -> bool {
        if kind.carries_video() {
            self.video_attached && has_image
        } else {
            self.audio_attached
        }
    }

    /// The state after a buffer of the given kind: the matching counter
    /// goes up by one if the buffer is encoded.
    pub open spec fn after_sample(self, kind: SCStreamOutputType, has_image: bool) -> Self {
        if !self.accepts(kind, has_image) {
            self
        } else if kind.carries_video() {
            DelegateState { frames: self.frames + 1, ..self }
        } else {
            DelegateState { audio_frames: self.audio_frames + 1, ..self }
        }
    }

    /// What is to be done with a buffer of the given kind.
    pub open spec fn sample_action(self, kind: SCStreamOutputType, has_image: bool) -> SampleAction {
        if !self.accepts(kind, has_image) {
            SampleAction::Skip
        } else if kind.carries_video() {
            SampleAction::EncodeVideo {
                report_progress: (self.frames + 1) % (VIDEO_REPORT_INTERVAL as nat) == 0,
            }
        } else {
            SampleAction::EncodeAudio {
                report_progress: (self.audio_frames + 1) % (AUDIO_REPORT_INTERVAL as nat) == 0,
            }
        }
    }

    /// The state after the stream stopped: no longer recording, all else
    /// as before.
    pub open spec fn stopped(self) -> Self {
        DelegateState { recording: false, ..self }
    }
}

/// Delegate of one capture stream.
#[derive(Debug)]
pub struct RealStreamDelegate {
    output_path: String,
    is_recording: bool,
    frame_count: u64,
    audio_frame_count: u64,
    width: u32,
    height: u32,
    fps: u32,
    video_encoder: bool,
    audio_encoder: bool,
}

impl View for RealStreamDelegate {
    type V = DelegateState;

    closed spec fn view(&self) -> DelegateState {
        DelegateState {
            output_path: self.output_path@,
            recording: self.is_recording,
            frames: self.frame_count as nat,
            audio_frames: self.audio_frame_count as nat,
            width: self.width,
            height: self.height,
            fps: self.fps,
            video_attached: self.video_encoder,
            audio_attached: self.audio_encoder,
        }
    }
}

impl RealStreamDelegate {
    /// A delegate for a stream that writes below `output_path`. Both
    /// counters start at zero and no encoder is attached yet.
    pub fn new(output_path: String, is_recording: bool, width: u32, height: u32, fps: u32) -> (delegate:
        Self)
        ensures
            delegate@ == (DelegateState {
                output_path: output_path@,
                recording: is_recording,
                frames: 0,
                audio_frames: 0,
                width,
                height,
                fps,
                video_attached: false,
                audio_attached: false,
            }),
    {
        RealStreamDelegate {
            output_path,
            is_recording,
            frame_count: 0,
            audio_frame_count: 0,
            width,
            height,
            fps,
            video_encoder: false,
            audio_encoder: false,
        }
    }

    /// File and format of the video track: `<output_path>_video.mp4` at the
    /// delegate's size and frame rate.
    pub fn video_encoder_plan(&self) -> (plan: VideoEncoderPlan)
        ensures
            plan.path@ == self@.output_path + "_video.mp4"@,
            plan.width == self@.width,
            plan.height == self@.height,
            plan.fps == self@.fps,
    {
        let path = self.output_path.clone().concat("_video.mp4");
        VideoEncoderPlan { path, width: self.width, height: self.height, fps: self.fps }
    }

    /// File and format of the audio track: `<output_path>_audio.mp4`,
    /// 48 kHz, stereo.
    pub fn audio_encoder_plan(&self) -> (plan: AudioEncoderPlan)
        ensures
            plan.path@ == self@.output_path + "_audio.mp4"@,
            plan.sample_rate == AUDIO_SAMPLE_RATE,
            plan.channels == AUDIO_CHANNELS,
    {
        let path = self.output_path.clone().concat("_audio.mp4");
        AudioEncoderPlan { path, sample_rate: AUDIO_SAMPLE_RATE, channels: AUDIO_CHANNELS }
    }

    /// Records which encoders could be created. A track whose encoder is
    /// missing is dropped silently from then on.
    pub fn attach_encoders(&mut self, video: bool, audio: bool)
        ensures
            final(self)@ == (DelegateState {
                video_attached: video,
                audio_attached: audio,
                ..old(self)@
            }),
    {
        self.video_encoder = video;
        self.audio_encoder = audio;
    }

    /// Routes one sample buffer: `Screen` goes to the video encoder,
    /// `Audio` and `Microphone` go to the audio encoder. `has_image` says
    /// whether the buffer holds an image; it matters for `Screen` only. A
    /// buffer that is encoded is counted; a buffer without an encoder, or a
    /// screen buffer without an image, is skipped and not counted.
    pub fn handle_sample_buffer(&mut self, output_type: SCStreamOutputType, has_image: bool) -> (action:
        SampleAction)
        requires
            old(self)@.accepts(output_type, has_image) ==> (if output_type.carries_video() {
                old(self)@.frames < u64::MAX
            } else {
                old(self)@.audio_frames < u64::MAX
            }),
        ensures
            action == old(self)@.sample_action(output_type, has_image),
            final(self)@ == old(self)@.after_sample(output_type, has_image),
    {
        if output_type.is_video() {
            if self.video_encoder && has_image {
                self.frame_count = self.frame_count + 1;
                SampleAction::EncodeVideo {
                    report_progress: self.frame_count % VIDEO_REPORT_INTERVAL == 0,
                }
            } else {
                SampleAction::Skip
            }
        } else {
            if self.audio_encoder {
                self.audio_frame_count = self.audio_frame_count + 1;
                SampleAction::EncodeAudio {
                    report_progress: self.audio_frame_count % AUDIO_REPORT_INTERVAL == 0,
                }
            } else {
                SampleAction::Skip
            }
        }
    }

    /// The stream stopped and nothing is to be closed: recording ends.
    /// Returns whether the stop is to be reported as an error.
    pub fn handle_stream_stopped(&mut self, error_reported: bool) -> (failed: bool)
        ensures
            failed == error_reported,
            final(self)@ == old(self)@.stopped(),
    {
        self.is_recording = false;
        error_reported
    }

    /// The path that the delegate was created with.
    pub fn get_output_path(&self) -> (path: String)
        ensures
            path@ == self@.output_path,
    {
        self.output_path.clone()
    }

    /// Number of video frames handed to the encoder so far.
    pub fn get_frame_count(&self) -> (count: u64)
        ensures
            count == self@.frames,
    {
        self.frame_count
    }

    /// Number of audio buffers handed to the encoder so far.
    pub fn get_audio_frame_count(&self) -> (count: u64)
        ensures
            count == self@.audio_frames,
    {
        self.audio_frame_count
    }

    /// The frame rate that the delegate was created for.
    pub fn get_fps(&self) -> (fps: u32)
        ensures
            fps == self@.fps,
    {
        self.fps
    }

    /// Whether the stream is still recording.
    pub fn is_recording(&self) -> (recording: bool)
        ensures
            recording == self@.recording,
    {
        self.is_recording
    }

    /// The stream stopped: recording ends and every attached encoder is to
    /// be closed, video first.
    pub fn stream_did_stop_with_error(&mut self, error_reported: bool) -> (actions: StopActions)
        ensures
            actions == (StopActions {
                failed: error_reported,
                finalize_video: old(self)@.video_attached,
                finalize_audio: old(self)@.audio_attached,
            }),
            final(self)@ == old(self)@.stopped(),
    {
        self.is_recording = false;
        StopActions {
            failed: error_reported,
            finalize_video: self.video_encoder,
            finalize_audio: self.audio_encoder,
        }
    }
}

} // verus!

//! Plain-data side of the capture framework's interface: names, constants,
//! and the rules applied to what the framework hands back.
//!
//! Nothing here touches a foreign object. The embedding program talks to
//! the framework and passes identifiers, sizes and presence flags; the
//! functions below decide what they mean.

use crate::bridge::laws::law_failure_is_delivered;
use crate::bridge::model::{Call, Event, Outcome};
use crate::bridge::outcome::completion_view;
use crate::text::{decimal, numbered};
use vstd::prelude::*;

verus! {

pub const SC_SHAREABLE_CONTENT_CLASS: &'static str = "SCShareableContent";

pub const SC_DISPLAY_CLASS: &'static str = "SCDisplay";

pub const SC_WINDOW_CLASS: &'static str = "SCWindow";

pub const SC_CONTENT_FILTER_CLASS: &'static str = "SCContentFilter";

pub const SC_STREAM_CLASS: &'static str = "SCStream";

pub const SC_STREAM_CONFIGURATION_CLASS: &'static str = "SCStreamConfiguration";

/// Four-character code `'BGRA'`.
#[allow(non_upper_case_globals)]
pub const kCVPixelFormatType_32BGRA: u32 = 0x42475241;

/// Four-character code `'420v'`.
#[allow(non_upper_case_globals)]
pub const kCVPixelFormatType_420YpCbCr8BiPlanarVideoRange: u32 = 0x34323076;

#[allow(non_upper_case_globals)]
pub const kCGColorSpaceDisplayP3: u32 = 0;

#[allow(non_upper_case_globals)]
pub const kCGColorSpaceSRGB: u32 = 1;

/// Opaque token for an object that the capture framework owns. The library
/// carries it and never looks inside.
#[derive(Debug, Clone, Copy, PartialEq, Eq, Structural)]
pub struct ForeignHandle {
    /// The object's address; zero stands for no object.
    pub token: u64,
}

impl ForeignHandle {
    /// The handle that stands for no object.
    pub fn null() -> (handle: Self)
        ensures
            handle.token == 0,
    {
        ForeignHandle { token: 0 }
    }

    /// Whether this handle stands for no object.
    pub fn is_null(&self) -> (b: bool)
        ensures
            b == (self.token == 0),
    {
        self.token == 0
    }
}

/// Kind of sample buffer that a stream delivers.
#[derive(Debug, Clone, Copy, PartialEq, Eq, Structural)]
pub enum SCStreamOutputType {
    Screen,
    Audio,
    Microphone,
}

impl SCStreamOutputType {
    /// The framework's number for this kind.
    pub open spec fn raw(self) -> u32 {
        match self {
            SCStreamOutputType::Screen => 0,
            SCStreamOutputType::Audio => 1,
            SCStreamOutputType::Microphone => 2,
        }
    }

    /// Whether buffers of this kind carry video frames; the other two kinds
    /// carry audio.
    pub open spec fn carries_video(self) -> bool {
        self is Screen
    }

    /// The framework's number for this kind: 0, 1 or 2.
    pub fn raw_value(self) -> (raw: u32)
        ensures
            raw == self.raw(),
    {
        match self {
            SCStreamOutputType::Screen => 0,
            SCStreamOutputType::Audio => 1,
            SCStreamOutputType::Microphone => 2,
        }
    }

    /// The kind with the given number, if there is one.
    pub fn from_raw(raw: u32) -> (kind: Option<Self>)
        ensures
            raw > 2 <==> kind is None,
            kind matches Some(k) ==> k.raw() == raw,
    {
        if raw == 0 {
            Some(SCStreamOutputType::Screen)
        } else if raw == 1 {
            Some(SCStreamOutputType::Audio)
        } else if raw == 2 {
            Some(SCStreamOutputType::Microphone)
        } else {
            None
        }
    }

    /// True for `Screen`, false for `Audio` and `Microphone`.
    pub fn is_video(self) -> (b: bool)
        ensures
            b == self.carries_video(),
    {
        match self {
            SCStreamOutputType::Screen => true,
            _ => false,
        }
    }
}

/// Identifier and pixel size of a display or window as the framework
/// reports them.
#[derive(Debug, Clone, Copy, PartialEq, Eq, Structural)]
pub struct RawSurface {
    pub id: u32,
    pub width: u32,
    pub height: u32,
}

/// Identifier, label and size of a display or window.
#[derive(Debug, PartialEq, Eq)]
pub struct SurfaceSummary {
    pub id: u32,
    pub name: String,
    pub width: u32,
    pub height: u32,
}

/// Smallest time between two frames, as a rational number of seconds.
#[derive(Debug, Clone, Copy, PartialEq, Eq, Structural)]
pub struct FrameInterval {
    pub value: i64,
    pub timescale: i32,
}

/// View of an optional error description.
pub open spec fn description_view(error: Option<String>) -> Option<Seq<char>> {
    match error {
        Some(description) => Some(description@),
        None => None,
    }
}

/// The completion that stands for what the framework's completion handler
/// received. A reported error is a failure with that error's own
/// description, whatever else came with it; content without an error is
/// the payload; a handler that received neither failed for no known
/// reason.
pub open spec fn completion_of<T>(content: Option<T>, error: Option<Seq<char>>) -> Result<
    T,
    Seq<char>,
> {
    match error {
        Some(description) => Err(description),
        None => match content {
            Some(payload) => Ok(payload),
            None => Err("Unknown ScreenCaptureKit error"@),
        },
    }
}

/// Rules for the capture framework's entry points.
#[derive(Debug, Clone, Copy)]
pub struct ScreenCaptureKitHelpers;

impl ScreenCaptureKitHelpers {
    /// Gate in front of every content request: `Ok` if screen recording is
    /// permitted, else the error that the request fails with.
    pub fn require_permission(granted: bool) -> (gate: Result<(), String>)
        ensures
            gate is Ok <==> granted,
            gate matches Err(e) ==> e@ == "Screen recording permission not granted"@,
    {
        if granted {
            Ok(())
        } else {
            Err("Screen recording permission not granted".to_owned())
        }
    }

    /// The blocking content request. It never succeeds: without permission
    /// it says how to grant it, and with permission it refuses the direct
    /// call and points at the timeout-guarded one.
    pub fn get_shareable_content_sync(granted: bool) -> (content: Result<ForeignHandle, String>)
        ensures
            content matches Err(e) && e@ == (if granted {
                "Direct sync ScreenCaptureKit calls avoided to prevent segfaults. Use timeout version instead."@
            } else {
                "Screen recording permission not granted. Please enable screen recording permission in System Preferences > Security & Privacy > Privacy > Screen Recording"@
            }),
    {
        if granted {
            Err(
                "Direct sync ScreenCaptureKit calls avoided to prevent segfaults. Use timeout version instead.".to_owned(),
            )
        } else {
            Err(
                "Screen recording permission not granted. Please enable screen recording permission in System Preferences > Security & Privacy > Privacy > Screen Recording".to_owned(),
            )
        }
    }

    /// Turns what a completion handler received into the completion that
    /// the bridge stores. `error` is the description of the error that the
    /// framework reported, if it reported one: the completion is then a
    /// failure with exactly that description. Without an error the content
    /// is the payload, and a handler that received neither fails with
    /// `Unknown ScreenCaptureKit error`.
    pub fn classify_completion<T>(content: Option<T>, error: Option<String>) -> (completion: Result<
        T,
        String,
    >)
        ensures
            completion_view(completion) == completion_of(content, description_view(error)),
            error matches Some(description) ==> completion == Err::<T, String>(description),
    {
        match error {
            Some(description) => Err(description),
            None => match content {
                Some(payload) => Ok(payload),
                None => Err("Unknown ScreenCaptureKit error".to_owned()),
            },
        }
    }

    /// First step of a content request that does not wait: with the
    /// permission nothing is decided yet, and the request is to be
    /// registered with the framework (`None`); without it the completion is
    /// due at once, and it is the one of a handler that received nothing.
    pub fn get_shareable_content_async<T>(granted: bool) -> (immediate: Option<Result<T, String>>)
        ensures
            granted <==> immediate is None,
            !granted ==> (immediate matches Some(completion) && completion_view(completion)
                == completion_of(None::<T>, None)),
    {
        if granted {
            None
        } else {
            Some(Self::classify_completion(None, None))
        }
    }

    /// Summary of a display: its identifier and size, labelled
    /// `Display <id>`. An absent display is `(0, "Unknown Display", 0, 0)`.
    pub fn get_display_info(display: Option<RawSurface>) -> (info: SurfaceSummary)
        ensures
            match display {
                Some(raw) => info.id == raw.id && info.width == raw.width && info.height
                    == raw.height && info.name@ == "Display "@ + decimal(raw.id as nat),
                None => info.id == 0 && info.width == 0 && info.height == 0 && info.name@
                    == "Unknown Display"@,
            },
    {
        match display {
            Some(raw) => SurfaceSummary {
                id: raw.id,
                name: numbered("Display ", raw.id as u64),
                width: raw.width,
                height: raw.height,
            },
            None => SurfaceSummary {
                id: 0,
                name: "Unknown Display".to_owned(),
                width: 0,
                height: 0,
            },
        }
    }

    /// Summary of a window: its identifier and size, labelled
    /// `Window <id>`. An absent window is `(0, "Unknown Window", 0, 0)`.
    pub fn get_window_info(window: Option<RawSurface>) -> (info: SurfaceSummary)
        ensures
            match window {
                Some(raw) => info.id == raw.id && info.width == raw.width && info.height
                    == raw.height && info.name@ == "Window "@ + decimal(raw.id as nat),
                None => info.id == 0 && info.width == 0 && info.height == 0 && info.name@
                    == "Unknown Window"@,
            },
    {
        match window {
            Some(raw) => SurfaceSummary {
                id: raw.id,
                name: numbered("Window ", raw.id as u64),
                width: raw.width,
                height: raw.height,
            },
            None => SurfaceSummary {
                id: 0,
                name: "Unknown Window".to_owned(),
                width: 0,
                height: 0,
            },
        }
    }

    /// The frame interval for a frame rate: one tick of a clock that runs
    /// `fps` times a second. The rate is reinterpreted as a signed 32-bit
    /// number, as the framework's time type stores it.
    pub fn minimum_frame_interval(fps: u32) -> (interval: FrameInterval)
        ensures
            interval.value == 1,
            interval.timescale == fps as i32,
    {
        FrameInterval { value: 1, timescale: #[verifier::truncate] (fps as i32) }
    }
}

/// An error that the framework reports while the waiter is still waiting
/// is what the bridge returns, as `Failure` with that error's own
/// description: the classification keeps it and the bridge delivers it.
pub proof fn law_reported_error_is_delivered<T>(
    timeout_ms: nat,
    before: Seq<Event<T>>,
    content: Option<T>,
    description: Seq<char>,
    between: Seq<Event<T>>,
    wake: Event<T>,
    after: Seq<Event<T>>,
)
    requires
        forall|i: int| 0 <= i < before.len() ==> (#[trigger] before[i]).is_early_wake(timeout_ms),
        forall|i: int| 0 <= i < between.len() ==> (#[trigger] between[i]) is Completed,
        wake is Woke,
    ensures
        Call::<T>::start(timeout_ms).outcome(
            before + seq![Event::Completed(completion_of(content, Some(description)))] + between
                + seq![wake] + after,
        ) == Some(Outcome::<T>::Failure(description)),
{
    law_failure_is_delivered::<T>(timeout_ms, before, description, between, wake, after);
}

} // verus!

//! The recorder's memory of shareable content.

use crate::config::{RecordingConfiguration, value_or};
use crate::content::{Content, ContentManager, DEFAULT_TIMEOUT_MS, ShareableContent};
use crate::error::{CaptureError, ErrorStatus};
use crate::screen_id::{ScreenTarget, screen_target};
use crate::status::{
    all_set, boolean, capability_keys, feature_keys, json_text, no_members, null, object, put,
    recorder_status, render, text,
};
use crate::stream::RealContentFilter;
use crate::surface::{ScreenSource, sources_of, sources_view};
use crate::text::decimal;
use vstd::pervasive::unreached;
use vstd::prelude::*;

verus! {

/// Why no content filter is made for a screen identifier: the identifier
/// is malformed, or what it names is not found.
pub open spec fn filter_refusal(screen_id: Seq<char>) -> Seq<char> {
    match screen_target(screen_id) {
        Ok(ScreenTarget::Display(id)) => "Display with ID "@ + decimal(id as nat) + " not found"@,
        Ok(ScreenTarget::Window(id)) => "Window with ID "@ + decimal(id as nat) + " not found"@,
        Err(malformed) => malformed.reason(),
    }
}

/// Whether `sources` are the sources of `content`, in order.
pub open spec fn lists(sources: Vec<ScreenSource>, content: Content) -> bool {
    sources_view(sources@) == sources_of(content.displays, content.windows)
}

/// View of optional content.
pub open spec fn optional_content_view(content: Option<ShareableContent>) -> Option<Content> {
    match content {
        Some(held) => Some(held@),
        None => None,
    }
}

/// A recorder. It remembers the first content it gets and lists sources
/// from that content from then on.
#[derive(Debug)]
pub struct ScreenCaptureKitRecorder {
    current_content: Option<ShareableContent>,
}

impl View for ScreenCaptureKitRecorder {
    type V = Option<Content>;

    closed spec fn view(&self) -> Option<Content> {
        optional_content_view(self.current_content)
    }
}

impl ScreenCaptureKitRecorder {
    /// A recorder that remembers nothing yet.
    pub fn new() -> (recorder: Self)
        ensures
            recorder@ is None,
    {
        ScreenCaptureKitRecorder { current_content: None }
    }

    /// The timeout of a content request: the caller's, or five seconds.
    pub fn effective_timeout(timeout_ms: Option<u32>) -> (ms: u32)
        ensures
            ms == value_or(timeout_ms, DEFAULT_TIMEOUT_MS),
    {
        match timeout_ms {
            Some(chosen) => chosen,
            None => DEFAULT_TIMEOUT_MS,
        }
    }

    /// The content that the recorder remembers.
    pub fn current_content(&self) -> (content: Option<&ShareableContent>)
        ensures
            match content {
                Some(held) => self@ == Some(held@),
                None => self@ is None,
            },
    {
        self.current_content.as_ref()
    }

    /// The sources of the remembered content; `None` if nothing is
    /// remembered and content has to be requested.
    pub fn cached_screens(&self) -> (sources: Option<Vec<ScreenSource>>)
        ensures
            match sources {
                Some(listed) => self@ matches Some(content) && sources_view(listed@) == sources_of(
                    content.displays,
                    content.windows,
                ),
                None => self@ is None,
            },
    {
        match &self.current_content {
            Some(content) => Some(ContentManager::extract_screen_sources(content)),
            None => None,
        }
    }

    /// Lists the capture sources without a timeout of the caller's.
    ///
    /// Remembered content is listed as it is, and `request` is not
    /// called. Else `request` is called once, and what it brings is
    /// remembered and listed. A request always brings content, degraded to
    /// the system's lists if the framework did not answer, so the listing
    /// never fails.
    pub fn get_available_screens<F>(&mut self, request: F) -> (sources: Vec<ScreenSource>) where
        F: FnOnce() -> ShareableContent,

        requires
            old(self)@ is None ==> request.requires(()),
        ensures
            match old(self)@ {
                Some(content) => lists(sources, content) && final(self)@ == old(self)@,
                None => exists|brought: ShareableContent| #[trigger]
                    request.ensures((), brought) && lists(sources, brought@) && final(self)@
                        == Some(brought@),
            },
    {
        match self.cached_screens() {
            Some(listed) => listed,
            None => {
                let brought = request();
                let ghost witness = brought;
                let listed = ContentManager::extract_screen_sources(&brought);
                self.current_content = Some(brought);
                proof {
                    assert(request.ensures((), witness));
                }
                listed
            },
        }
    }

    /// Lists the capture sources, waiting for content no longer than the
    /// caller's timeout, or five seconds if the caller names none.
    ///
    /// Remembered content is listed as it is, and `request` is not
    /// called. Else `request` is called once, with the timeout in
    /// milliseconds, and what it brings is remembered and listed. A request
    /// always brings content, degraded to the system's lists if the
    /// framework failed, timed out or could not be asked, so the listing
    /// never fails.
    pub fn get_available_screens_with_timeout<F>(&mut self, timeout_ms: Option<u32>, request: F) -> (sources:
        Vec<ScreenSource>) where F: FnOnce(u32) -> ShareableContent
        requires
            old(self)@ is None ==> request.requires((value_or(timeout_ms, DEFAULT_TIMEOUT_MS),)),
        ensures
            match old(self)@ {
                Some(content) => lists(sources, content) && final(self)@ == old(self)@,
                None => exists|brought: ShareableContent| #[trigger]
                    request.ensures((value_or(timeout_ms, DEFAULT_TIMEOUT_MS),), brought) && lists(
                        sources,
                        brought@,
                    ) && final(self)@ == Some(brought@),
            },
    {
        match self.cached_screens() {
            Some(listed) => listed,
            None => {
                let timeout = Self::effective_timeout(timeout_ms);
                let brought = request(timeout);
                let ghost witness = brought;
                let listed = ContentManager::extract_screen_sources(&brought);
                self.current_content = Some(brought);
                proof {
                    assert(request.ensures((timeout,), witness));
                }
                listed
            },
        }
    }

    /// Reads a screen identifier and makes the content filter for what it
    /// names. The identifier must be well formed; even then the filter
    /// cannot be made, because the content hands out no display or window
    /// objects.
    pub fn create_real_content_filter(content: &ShareableContent, screen_id: &str) -> (filter:
        Result<RealContentFilter, CaptureError>)
        ensures
            filter matches Err(error) && error.says(
                ErrorStatus::InvalidArg,
                filter_refusal(screen_id@),
            ),
    {
        match ScreenTarget::parse(screen_id) {
            Ok(ScreenTarget::Display(display_id)) => RealContentFilter::new_with_display(
                content,
                display_id,
            ),
            Ok(ScreenTarget::Window(window_id)) => RealContentFilter::new_with_window(
                content,
                window_id,
            ),
            Err(malformed) => Err(malformed.into_error()),
        }
    }

    /// Starts a recording of what `screen_id` names. The configuration
    /// is taken over and, as things stand, never used.
    ///
    /// The recorder first makes sure that it remembers content: if it
    /// remembers none, `request` is called once and what it brings is
    /// remembered. Then it asks for the content filter, which cannot be
    /// made: the call always fails with the reason that
    /// [`ScreenCaptureKitRecorder::create_real_content_filter`] gives.
    pub fn start_recording<F>(&mut self, screen_id: &str, _config: RecordingConfiguration, request: F) -> (started:
        Result<(), CaptureError>) where F: FnOnce() -> ShareableContent
        requires
            old(self)@ is None ==> request.requires(()),
        ensures
            started matches Err(error) && error.says(
                ErrorStatus::InvalidArg,
                filter_refusal(screen_id@),
            ),
            match old(self)@ {
                Some(content) => final(self)@ == old(self)@,
                None => exists|fresh: ShareableContent| #[trigger]
                    request.ensures((), fresh) && final(self)@ == Some(fresh@),
            },
    {
        if self.current_content.is_none() {
            let fresh = request();
            let ghost witness = fresh;
            self.current_content = Some(fresh);
            proof {
                assert(request.ensures((), witness));
            }
        }
        let filter = match &self.current_content {
            Some(content) => Self::create_real_content_filter(content, screen_id),
            None => unreached(),
        };
        match filter {
            Ok(_) => unreached(),
            Err(error) => Err(error),
        }
    }

    /// The recorder's status as JSON text: not recording, no output path,
    /// a stream at hand, the method and version of the implementation, and
    /// every capability and feature switched on.
    pub fn get_status(&self) -> (written: String)
        ensures
            written@ == json_text(recorder_status()),
    {
        let mut capability_names: Vec<&'static str> = Vec::new();
        capability_names.push("directAPI");
        capability_names.push("nativePerformance");
        capability_names.push("screenCapture");
        capability_names.push("audioCapture");
        capability_names.push("windowCapture");
        capability_names.push("realTimeStreaming");
        capability_names.push("realScreenCaptureKitAPIs");
        capability_names.push("scStreamInstances");
        capability_names.push("scStreamDelegate");
        capability_names.push("cvPixelBufferProcessing");
        capability_names.push("cmSampleBufferProcessing");
        capability_names.push("realFrameProcessing");
        let mut feature_names: Vec<&'static str> = Vec::new();
        feature_names.push("realSCStreamInstances");
        feature_names.push("properConfiguration");
        feature_names.push("realDelegate");
        feature_names.push("videoFrameProcessing");
        feature_names.push("audioFrameProcessing");
        feature_names.push("pixelBufferHandling");
        feature_names.push("sampleBufferHandling");
        proof {
            assert(capability_names@.map_values(|key: &'static str| key@) =~= capability_keys());
            assert(feature_names@.map_values(|key: &'static str| key@) =~= feature_keys());
        }
        let capabilities = all_set(&capability_names);
        let features = all_set(&feature_names);
        let mut members = no_members();
        put(&mut members, "isRecording", boolean(false));
        put(&mut members, "outputPath", null());
        put(&mut members, "hasStream", boolean(true));
        put(&mut members, "method", text("objc2-screencapturekit-phase2-real"));
        put(&mut members, "version", text("0.2.0"));
        put(&mut members, "capabilities", object(capabilities));
        put(&mut members, "phase2Features", object(features));
        render(&object(members))
    }

    /// Whether a recording runs. The recorder keeps no stream, so none
    /// ever does.
    pub fn is_recording(&self) -> (recording: bool)
        ensures
            !recording,
    {
        false
    }

    /// Where a stopped recording is reported to be.
    pub fn stop_recording(&mut self) -> (output_path: String)
        ensures
            output_path@ == "/tmp/screencapturekit-recording.mp4"@,
            final(self)@ == old(self)@,
    {
        "/tmp/screencapturekit-recording.mp4".to_owned()
    }
}

} // verus!

use whisperdesk_screencapturekit::bindings::{
    kCGColorSpaceDisplayP3, kCGColorSpaceSRGB, kCVPixelFormatType_32BGRA,
    kCVPixelFormatType_420YpCbCr8BiPlanarVideoRange, ForeignHandle, FrameInterval, RawSurface,
    SCStreamOutputType, ScreenCaptureKitHelpers, SurfaceSummary, SC_CONTENT_FILTER_CLASS,
    SC_DISPLAY_CLASS, SC_SHAREABLE_CONTENT_CLASS, SC_STREAM_CLASS, SC_STREAM_CONFIGURATION_CLASS,
    SC_WINDOW_CLASS,
};
use whisperdesk_screencapturekit::config::{RecordingConfiguration, StreamSettings};
use whisperdesk_screencapturekit::delegate::{
    AudioEncoderPlan, RealStreamDelegate, SampleAction, StopActions, VideoEncoderPlan,
};

fn configuration(output_path: &str) -> RecordingConfiguration {
    RecordingConfiguration {
        width: None,
        height: None,
        fps: None,
        show_cursor: None,
        capture_audio: None,
        audio_device_id: None,
        output_path: output_path.to_string(),
        pixel_format: None,
        color_space: None,
    }
}

#[test]
fn framework_constants() {
    assert_eq!(SC_SHAREABLE_CONTENT_CLASS, "SCShareableContent");
    assert_eq!(SC_DISPLAY_CLASS, "SCDisplay");
    assert_eq!(SC_WINDOW_CLASS, "SCWindow");
    assert_eq!(SC_CONTENT_FILTER_CLASS, "SCContentFilter");
    assert_eq!(SC_STREAM_CLASS, "SCStream");
    assert_eq!(SC_STREAM_CONFIGURATION_CLASS, "SCStreamConfiguration");
    assert_eq!(kCVPixelFormatType_32BGRA, 1111970369);
    assert_eq!(kCVPixelFormatType_32BGRA.to_be_bytes(), *b"BGRA");
    assert_eq!(kCVPixelFormatType_420YpCbCr8BiPlanarVideoRange.to_be_bytes(), *b"420v");
    assert_eq!(kCGColorSpaceDisplayP3, 0);
    assert_eq!(kCGColorSpaceSRGB, 1);
}

#[test]
fn output_type_numbers() {
    assert_eq!(SCStreamOutputType::Screen.raw_value(), 0);
    assert_eq!(SCStreamOutputType::Audio.raw_value(), 1);
    assert_eq!(SCStreamOutputType::Microphone.raw_value(), 2);
    assert_eq!(SCStreamOutputType::from_raw(0), Some(SCStreamOutputType::Screen));
    assert_eq!(SCStreamOutputType::from_raw(1), Some(SCStreamOutputType::Audio));
    assert_eq!(SCStreamOutputType::from_raw(2), Some(SCStreamOutputType::Microphone));
    assert_eq!(SCStreamOutputType::from_raw(3), None);
    assert_eq!(SCStreamOutputType::from_raw(u32::MAX), None);
    assert!(SCStreamOutputType::Screen.is_video());
    assert!(!SCStreamOutputType::Audio.is_video());
    assert!(!SCStreamOutputType::Microphone.is_video());
}

#[test]
fn null_handles() {
    assert!(ForeignHandle::null().is_null());
    assert_eq!(ForeignHandle::null(), ForeignHandle { token: 0 });
    assert!(!ForeignHandle { token: 0x7f00_1000 }.is_null());
}

#[test]
fn permission_gate() {
    assert_eq!(ScreenCaptureKitHelpers::require_permission(true), Ok(()));
    assert_eq!(
        ScreenCaptureKitHelpers::require_permission(false),
        Err("Screen recording permission not granted".to_string())
    );
}

#[test]
fn blocking_content_request_never_succeeds() {
    assert_eq!(
        ScreenCaptureKitHelpers::get_shareable_content_sync(true),
        Err("Direct sync ScreenCaptureKit calls avoided to prevent segfaults. Use timeout version instead.".to_string())
    );
    assert_eq!(
        ScreenCaptureKitHelpers::get_shareable_content_sync(false),
        Err("Screen recording permission not granted. Please enable screen recording permission in System Preferences > Security & Privacy > Privacy > Screen Recording".to_string())
    );
}

#[test]
fn completion_classes() {
    let handle = ForeignHandle { token: 77 };
    assert_eq!(ScreenCaptureKitHelpers::classify_completion(Some(handle), None), Ok(handle));
    assert_eq!(
        ScreenCaptureKitHelpers::classify_completion::<ForeignHandle>(None, Some("E".to_string())),
        Err("E".to_string())
    );
    assert_eq!(
        ScreenCaptureKitHelpers::classify_completion::<ForeignHandle>(
            None,
            Some("The user declined TCCs for application, window, display capture".to_string())
        ),
        Err("The user declined TCCs for application, window, display capture".to_string())
    );
    assert_eq!(
        ScreenCaptureKitHelpers::classify_completion(Some(handle), Some("both".to_string())),
        Err("both".to_string())
    );
    assert_eq!(
        ScreenCaptureKitHelpers::classify_completion::<ForeignHandle>(None, Some(String::new())),
        Err(String::new())
    );
    assert_eq!(
        ScreenCaptureKitHelpers::classify_completion::<ForeignHandle>(None, None),
        Err("Unknown ScreenCaptureKit error".to_string())
    );
}

#[test]
fn content_request_that_does_not_wait() {
    assert_eq!(ScreenCaptureKitHelpers::get_shareable_content_async::<ForeignHandle>(true), None);
    assert_eq!(
        ScreenCaptureKitHelpers::get_shareable_content_async::<ForeignHandle>(false),
        Some(Err("Unknown ScreenCaptureKit error".to_string()))
    );
}

#[test]
fn display_and_window_summaries() {
    assert_eq!(
        ScreenCaptureKitHelpers::get_display_info(Some(RawSurface { id: 69733248, width: 2560, height: 1440 })),
        SurfaceSummary { id: 69733248, name: "Display 69733248".to_string(), width: 2560, height: 1440 }
    );
    assert_eq!(
        ScreenCaptureKitHelpers::get_display_info(None),
        SurfaceSummary { id: 0, name: "Unknown Display".to_string(), width: 0, height: 0 }
    );
    assert_eq!(
        ScreenCaptureKitHelpers::get_window_info(Some(RawSurface { id: 0, width: 1, height: 2 })),
        SurfaceSummary { id: 0, name: "Window 0".to_string(), width: 1, height: 2 }
    );
    assert_eq!(
        ScreenCaptureKitHelpers::get_window_info(None),
        SurfaceSummary { id: 0, name: "Unknown Window".to_string(), width: 0, height: 0 }
    );
}

#[test]
fn frame_intervals() {
    assert_eq!(
        ScreenCaptureKitHelpers::minimum_frame_interval(30),
        FrameInterval { value: 1, timescale: 30 }
    );
    assert_eq!(
        ScreenCaptureKitHelpers::minimum_frame_interval(0),
        FrameInterval { value: 1, timescale: 0 }
    );
    assert_eq!(
        ScreenCaptureKitHelpers::minimum_frame_interval(i32::MAX as u32),
        FrameInterval { value: 1, timescale: i32::MAX }
    );
    assert_eq!(
        ScreenCaptureKitHelpers::minimum_frame_interval(2147483648),
        FrameInterval { value: 1, timescale: i32::MIN }
    );
    assert_eq!(
        ScreenCaptureKitHelpers::minimum_frame_interval(u32::MAX),
        FrameInterval { value: 1, timescale: -1 }
    );
}

#[test]
fn configuration_defaults() {
    let config = configuration("/tmp/out");
    assert_eq!(config.effective_width(), 1920);
    assert_eq!(config.effective_height(), 1080);
    assert_eq!(config.effective_fps(), 30);
    assert_eq!(
        config.stream_settings(),
        StreamSettings {
            width: 1920,
            height: 1080,
            fps: 30,
            frame_interval: FrameInterval { value: 1, timescale: 30 },
            shows_cursor: true,
            captures_audio: false,
            pixel_format: 1111970369,
            color_space: 1,
        }
    );
}

#[test]
fn configuration_as_asked() {
    let mut config = configuration("/tmp/out");
    config.width = Some(1280);
    config.height = Some(720);
    config.fps = Some(60);
    config.show_cursor = Some(false);
    config.capture_audio = Some(true);
    config.pixel_format = Some("420v".to_string());
    config.color_space = Some("p3".to_string());
    assert_eq!(
        config.stream_settings(),
        StreamSettings {
            width: 1280,
            height: 720,
            fps: 60,
            frame_interval: FrameInterval { value: 1, timescale: 60 },
            shows_cursor: false,
            captures_audio: true,
            pixel_format: 1111970369,
            color_space: 1,
        }
    );
}

#[test]
fn new_delegate() {
    let delegate = RealStreamDelegate::new("/tmp/rec".to_string(), true, 1920, 1080, 30);
    assert_eq!(delegate.get_output_path(), "/tmp/rec");
    assert_eq!(delegate.get_frame_count(), 0);
    assert_eq!(delegate.get_audio_frame_count(), 0);
    assert!(delegate.is_recording());
    let idle = RealStreamDelegate::new(String::new(), false, 1, 2, 3);
    assert!(!idle.is_recording());
    assert_eq!(idle.get_output_path(), "");
}

#[test]
fn encoder_plans() {
    let delegate = RealStreamDelegate::new("/tmp/rec".to_string(), true, 1280, 720, 24);
    assert_eq!(
        delegate.video_encoder_plan(),
        VideoEncoderPlan { path: "/tmp/rec_video.mp4".to_string(), width: 1280, height: 720, fps: 24 }
    );
    assert_eq!(
        delegate.audio_encoder_plan(),
        AudioEncoderPlan { path: "/tmp/rec_audio.mp4".to_string(), sample_rate: 48000, channels: 2 }
    );
}

#[test]
fn buffers_without_an_encoder_are_skipped() {
    let mut delegate = RealStreamDelegate::new("/tmp/rec".to_string(), true, 1920, 1080, 30);
    assert_eq!(delegate.handle_sample_buffer(SCStreamOutputType::Screen, true), SampleAction::Skip);
    assert_eq!(delegate.handle_sample_buffer(SCStreamOutputType::Audio, true), SampleAction::Skip);
    assert_eq!(delegate.handle_sample_buffer(SCStreamOutputType::Microphone, true), SampleAction::Skip);
    assert_eq!(delegate.get_frame_count(), 0);
    assert_eq!(delegate.get_audio_frame_count(), 0);
    delegate.attach_encoders(true, false);
    assert_eq!(
        delegate.handle_sample_buffer(SCStreamOutputType::Screen, true),
        SampleAction::EncodeVideo { report_progress: false }
    );
    assert_eq!(delegate.handle_sample_buffer(SCStreamOutputType::Audio, true), SampleAction::Skip);
    assert_eq!(delegate.get_frame_count(), 1);
    assert_eq!(delegate.get_audio_frame_count(), 0);
}

#[test]
fn screen_buffers_without_an_image_are_skipped() {
    let mut delegate = RealStreamDelegate::new("/tmp/rec".to_string(), true, 1920, 1080, 30);
    delegate.attach_encoders(true, true);
    assert_eq!(delegate.handle_sample_buffer(SCStreamOutputType::Screen, false), SampleAction::Skip);
    assert_eq!(delegate.get_frame_count(), 0);
    assert_eq!(
        delegate.handle_sample_buffer(SCStreamOutputType::Audio, false),
        SampleAction::EncodeAudio { report_progress: false }
    );
    assert_eq!(delegate.get_audio_frame_count(), 1);
    assert_eq!(
        delegate.handle_sample_buffer(SCStreamOutputType::Screen, true),
        SampleAction::EncodeVideo { report_progress: false }
    );
    assert_eq!(delegate.get_frame_count(), 1);
}

#[test]
fn video_frames_are_counted_and_reported_every_thirtieth() {
    let mut delegate = RealStreamDelegate::new("/tmp/rec".to_string(), true, 1920, 1080, 30);
    delegate.attach_encoders(true, true);
    for frame in 1u64..=95 {
        let action = delegate.handle_sample_buffer(SCStreamOutputType::Screen, true);
        assert_eq!(action, SampleAction::EncodeVideo { report_progress: frame % 30 == 0 });
        assert_eq!(delegate.get_frame_count(), frame);
    }
    assert_eq!(delegate.get_audio_frame_count(), 0);
}

#[test]
fn audio_buffers_are_counted_and_reported_every_hundredth() {
    let mut delegate = RealStreamDelegate::new("/tmp/rec".to_string(), true, 1920, 1080, 30);
    delegate.attach_encoders(true, true);
    for buffer in 1u64..=250 {
        let kind = if buffer % 2 == 0 { SCStreamOutputType::Audio } else { SCStreamOutputType::Microphone };
        let action = delegate.handle_sample_buffer(kind, true);
        assert_eq!(action, SampleAction::EncodeAudio { report_progress: buffer % 100 == 0 });
        assert_eq!(delegate.get_audio_frame_count(), buffer);
    }
    assert_eq!(delegate.get_frame_count(), 0);
}

#[test]
fn stop_without_closing() {
    let mut delegate = RealStreamDelegate::new("/tmp/rec".to_string(), true, 1920, 1080, 30);
    delegate.attach_encoders(true, true);
    delegate.handle_sample_buffer(SCStreamOutputType::Screen, true);
    assert!(!delegate.handle_stream_stopped(false));
    assert!(!delegate.is_recording());
    assert_eq!(delegate.get_frame_count(), 1);
    let mut other = RealStreamDelegate::new("/tmp/rec".to_string(), true, 1920, 1080, 30);
    assert!(other.handle_stream_stopped(true));
    assert!(!other.is_recording());
}

#[test]
fn stop_closes_the_attached_encoders() {
    let mut delegate = RealStreamDelegate::new("/tmp/rec".to_string(), true, 1920, 1080, 30);
    assert_eq!(
        delegate.stream_did_stop_with_error(false),
        StopActions { failed: false, finalize_video: false, finalize_audio: false }
    );
    assert!(!delegate.is_recording());
    let mut delegate = RealStreamDelegate::new("/tmp/rec".to_string(), true, 1920, 1080, 30);
    delegate.attach_encoders(true, false);
    assert_eq!(
        delegate.stream_did_stop_with_error(true),
        StopActions { failed: true, finalize_video: true, finalize_audio: false }
    );
    let mut delegate = RealStreamDelegate::new("/tmp/rec".to_string(), false, 1920, 1080, 30);
    delegate.attach_encoders(false, true);
    assert_eq!(
        delegate.stream_did_stop_with_error(false),
        StopActions { failed: false, finalize_video: false, finalize_audio: true }
    );
    assert!(!delegate.is_recording());
    assert_eq!(delegate.get_output_path(), "/tmp/rec");
}

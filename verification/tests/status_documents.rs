use serde_json::Value;
use whisperdesk_screencapturekit::bindings::ForeignHandle;
use whisperdesk_screencapturekit::content::manager::RealStreamManager;
use whisperdesk_screencapturekit::delegate::RealStreamDelegate;
use whisperdesk_screencapturekit::recorder::ScreenCaptureKitRecorder;

fn all_true(keys: &[&str]) -> Value {
    let mut members = serde_json::Map::new();
    for key in keys {
        members.insert(key.to_string(), Value::Bool(true));
    }
    Value::Object(members)
}

#[test]
fn recorder_status_document() {
    let written = ScreenCaptureKitRecorder::new().get_status();
    let parsed: Value = serde_json::from_str(&written).unwrap();
    let mut expected = serde_json::Map::new();
    expected.insert("isRecording".to_string(), Value::Bool(false));
    expected.insert("outputPath".to_string(), Value::Null);
    expected.insert("hasStream".to_string(), Value::Bool(true));
    expected.insert("method".to_string(), Value::String("objc2-screencapturekit-phase2-real".to_string()));
    expected.insert("version".to_string(), Value::String("0.2.0".to_string()));
    expected.insert(
        "capabilities".to_string(),
        all_true(&[
            "directAPI",
            "nativePerformance",
            "screenCapture",
            "audioCapture",
            "windowCapture",
            "realTimeStreaming",
            "realScreenCaptureKitAPIs",
            "scStreamInstances",
            "scStreamDelegate",
            "cvPixelBufferProcessing",
            "cmSampleBufferProcessing",
            "realFrameProcessing",
        ]),
    );
    expected.insert(
        "phase2Features".to_string(),
        all_true(&[
            "realSCStreamInstances",
            "properConfiguration",
            "realDelegate",
            "videoFrameProcessing",
            "audioFrameProcessing",
            "pixelBufferHandling",
            "sampleBufferHandling",
        ]),
    );
    assert_eq!(parsed, Value::Object(expected));
    assert_eq!(parsed["capabilities"].as_object().map(|members| members.len()), Some(12));
    assert_eq!(parsed["phase2Features"].as_object().map(|members| members.len()), Some(7));
}

#[test]
fn recorder_status_text() {
    let written = ScreenCaptureKitRecorder::new().get_status();
    assert_eq!(
        written,
        "{\"capabilities\":{\"audioCapture\":true,\"cmSampleBufferProcessing\":true,\"cvPixelBufferProcessing\":true,\"directAPI\":true,\"nativePerformance\":true,\"realFrameProcessing\":true,\"realScreenCaptureKitAPIs\":true,\"realTimeStreaming\":true,\"scStreamDelegate\":true,\"scStreamInstances\":true,\"screenCapture\":true,\"windowCapture\":true},\"hasStream\":true,\"isRecording\":false,\"method\":\"objc2-screencapturekit-phase2-real\",\"outputPath\":null,\"phase2Features\":{\"audioFrameProcessing\":true,\"pixelBufferHandling\":true,\"properConfiguration\":true,\"realDelegate\":true,\"realSCStreamInstances\":true,\"sampleBufferHandling\":true,\"videoFrameProcessing\":true},\"version\":\"0.2.0\"}"
    );
}

#[test]
fn idle_session_document() {
    let manager = RealStreamManager::new();
    assert_eq!(
        manager.get_idle_stats(),
        Some(
            "{\"error\":\"No active delegate\",\"isRecording\":false,\"method\":\"real-screencapturekit-stream\",\"streamActive\":false}"
                .to_string()
        )
    );
}

#[test]
fn session_with_a_delegate_has_no_idle_document() {
    let mut manager = RealStreamManager::new();
    manager.start_recording(
        ForeignHandle { token: 1 },
        RealStreamDelegate::new("/tmp/x".to_string(), true, 1, 1, 1),
        "/tmp/x".to_string(),
    );
    assert_eq!(manager.get_idle_stats(), None);
    manager.stop_recording().unwrap();
    let written = manager.get_idle_stats().unwrap();
    let parsed: Value = serde_json::from_str(&written).unwrap();
    assert_eq!(parsed["isRecording"], Value::Bool(false));
    assert_eq!(parsed["streamActive"], Value::Bool(false));
    assert_eq!(parsed["error"], Value::String("No active delegate".to_string()));
    assert_eq!(parsed["method"], Value::String("real-screencapturekit-stream".to_string()));
    assert_eq!(parsed.as_object().map(|members| members.len()), Some(4));
}

use whisperdesk_screencapturekit::bindings::{ForeignHandle, ScreenCaptureKitHelpers};
use whisperdesk_screencapturekit::content::ShareableContent;
use whisperdesk_screencapturekit::diagnostics::{
    test_permissions_and_api, test_phase2_implementation, test_screencapturekit_with_timeout,
    TimeoutProbe,
};
use whisperdesk_screencapturekit::error::{CaptureError, ErrorStatus};
use whisperdesk_screencapturekit::surface::{DisplayInfo, WindowInfo};

const FEATURES: &str = "\n\n🚀 Async Implementation Features:\n  • get_available_screens_with_timeout() - Proper async content retrieval with timeout\n  • Tokio-based async/await support\n  • Safe completion handler bridging\n  • Cached content for sync fallback\n  • Timeout protection (5s)";

const CLOSING: &str = "\n\n🎉 Timeout-based ScreenCaptureKit implementation is working!\n💡 This approach avoids the segfault by using timeout-protected completion handlers";

fn display(id: u32, name: &str, width: u32, height: u32) -> Option<DisplayInfo> {
    Some(DisplayInfo { id, name: name.to_string(), width, height })
}

fn window(id: u32, title: &str, width: u32, height: u32) -> WindowInfo {
    WindowInfo { id, title: title.to_string(), width, height }
}

#[test]
fn permissions_report_on_an_unsupported_system() {
    let report = test_permissions_and_api(
        Err("GenericFailure, ScreenCaptureKit requires macOS 12.3 or later, found: 11.6".to_string()),
        true,
        Ok(ForeignHandle { token: 1 }),
    );
    assert_eq!(
        report,
        "=== ScreenCaptureKit Async Implementation Test ===\n❌ macOS Version Check Failed: GenericFailure, ScreenCaptureKit requires macOS 12.3 or later, found: 11.6"
    );
}

#[test]
fn permissions_report_with_permission() {
    let report = test_permissions_and_api(
        Ok("14.5".to_string()),
        true,
        ScreenCaptureKitHelpers::get_shareable_content_sync(true),
    );
    assert_eq!(
        report,
        format!(
            "=== ScreenCaptureKit Async Implementation Test ===\n✅ macOS Version: 14.5 (ScreenCaptureKit compatible)\n✅ Screen Recording Permission: Granted\n⚠️ ScreenCaptureKit Sync API: Direct sync ScreenCaptureKit calls avoided to prevent segfaults. Use timeout version instead. (expected for async-first implementation)\n💡 Use async version for full functionality{}",
            FEATURES
        )
    );
}

#[test]
fn permissions_report_without_permission() {
    let report = test_permissions_and_api(Ok("13.0".to_string()), false, Err("no".to_string()));
    assert_eq!(
        report,
        format!(
            "=== ScreenCaptureKit Async Implementation Test ===\n✅ macOS Version: 13.0 (ScreenCaptureKit compatible)\n⚠️ Screen Recording Permission: Not Granted\n💡 Please enable screen recording permission in System Preferences\n⚠️ ScreenCaptureKit Sync API: no (expected for async-first implementation)\n💡 Use async version for full functionality{}",
            FEATURES
        )
    );
}

#[test]
fn permissions_report_with_direct_access() {
    let report = test_permissions_and_api(Ok("15.1".to_string()), true, Ok(ForeignHandle { token: 9 }));
    assert_eq!(
        report,
        format!(
            "=== ScreenCaptureKit Async Implementation Test ===\n✅ macOS Version: 15.1 (ScreenCaptureKit compatible)\n✅ Screen Recording Permission: Granted\n✅ ScreenCaptureKit API: Accessible (sync){}",
            FEATURES
        )
    );
}

#[test]
fn timeout_report_without_permission() {
    assert_eq!(
        test_screencapturekit_with_timeout(TimeoutProbe::NotPermitted),
        "=== ScreenCaptureKit Timeout Implementation Test ===\n❌ Screen Recording Permission: Not Granted\nPlease enable screen recording permission and try again"
    );
}

#[test]
fn timeout_report_with_content() {
    let content = ShareableContent::create_safe_system_content(
        vec![
            display(1, "Built-in Display", 2560, 1600),
            display(2, "Display 2", 1920, 1080),
            display(3, "Display 3", 1280, 720),
            display(4, "Display 4", 800, 600),
        ],
        vec![window(10, "Editor", 1200, 800), window(11, "", 500, 500), window(12, "Small", 50, 50)],
    );
    let report = test_screencapturekit_with_timeout(TimeoutProbe::Probed { content: Ok(content), recorder: Ok(5) });
    assert_eq!(
        report,
        format!(
            "=== ScreenCaptureKit Timeout Implementation Test ===\n✅ Screen Recording Permission: Granted\n✅ Timeout Content Retrieval: Success\n  📺 Displays found: 4\n  🪟 Windows found: 3\n    Display 1: Built-in Display (2560x1600)\n    Display 2: Display 2 (1920x1080)\n    Display 3: Display 3 (1280x720)\n✅ Screen Sources Extracted: 5 total\n  📺 Display sources: 4\n  🪟 Window sources: 1\n✅ Recorder Timeout Method: Found 5 sources{}",
            CLOSING
        )
    );
}

#[test]
fn timeout_report_with_little_content() {
    let content = ShareableContent::create_safe_system_content(vec![display(7, "Only", 1, 2)], vec![]);
    let report = test_screencapturekit_with_timeout(TimeoutProbe::Probed {
        content: Ok(content),
        recorder: Err("GenericFailure, nothing".to_string()),
    });
    assert_eq!(
        report,
        format!(
            "=== ScreenCaptureKit Timeout Implementation Test ===\n✅ Screen Recording Permission: Granted\n✅ Timeout Content Retrieval: Success\n  📺 Displays found: 1\n  🪟 Windows found: 0\n    Display 1: Only (1x2)\n✅ Screen Sources Extracted: 1 total\n  📺 Display sources: 1\n  🪟 Window sources: 0\n❌ Recorder Timeout Method Failed: GenericFailure, nothing{}",
            CLOSING
        )
    );
    let empty = test_screencapturekit_with_timeout(TimeoutProbe::Probed {
        content: Ok(ShareableContent::new()),
        recorder: Ok(0),
    });
    assert_eq!(
        empty,
        format!(
            "=== ScreenCaptureKit Timeout Implementation Test ===\n✅ Screen Recording Permission: Granted\n✅ Timeout Content Retrieval: Success\n  📺 Displays found: 0\n  🪟 Windows found: 0\n✅ Screen Sources Extracted: 0 total\n  📺 Display sources: 0\n  🪟 Window sources: 0\n✅ Recorder Timeout Method: Found 0 sources{}",
            CLOSING
        )
    );
}

#[test]
fn timeout_report_with_a_failed_request() {
    let report = test_screencapturekit_with_timeout(TimeoutProbe::Probed {
        content: Err("GenericFailure, Completion handler setup failed: x".to_string()),
        recorder: Ok(12),
    });
    assert_eq!(
        report,
        format!(
            "=== ScreenCaptureKit Timeout Implementation Test ===\n✅ Screen Recording Permission: Granted\n❌ Timeout Content Retrieval Failed: GenericFailure, Completion handler setup failed: x\n✅ Recorder Timeout Method: Found 12 sources{}",
            CLOSING
        )
    );
}

#[test]
fn stream_layer_test_ends_at_the_filter() {
    let content = ShareableContent::create_safe_system_content(vec![display(1, "Built-in Display", 1, 1)], vec![]);
    assert_eq!(
        test_phase2_implementation(&content),
        Err(CaptureError { status: ErrorStatus::InvalidArg, reason: "Display with ID 1 not found".to_string() })
    );
    assert_eq!(
        test_phase2_implementation(&ShareableContent::new()),
        Err(CaptureError { status: ErrorStatus::InvalidArg, reason: "Display with ID 1 not found".to_string() })
    );
}

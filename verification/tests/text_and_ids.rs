use whisperdesk_screencapturekit::error::{CaptureError, ErrorStatus};
use whisperdesk_screencapturekit::screen_id::{ScreenIdError, ScreenTarget};
use whisperdesk_screencapturekit::text::{
    append_decimal, numbered, numbered_between, parse_u32_after, starts_with, text_precedes, trim,
};
use whisperdesk_screencapturekit::version::{check_macos_version, get_version};

#[test]
fn decimal_numerals() {
    assert_eq!(numbered("", 0), "0");
    assert_eq!(numbered("", 7), "7");
    assert_eq!(numbered("", 10), "10");
    assert_eq!(numbered("n=", 1234567890), "n=1234567890");
    assert_eq!(numbered("", u64::MAX), "18446744073709551615");
    assert_eq!(numbered_between("<", 42, ">"), "<42>");
    let mut text = String::from("a");
    append_decimal(&mut text, 305);
    append_decimal(&mut text, 0);
    assert_eq!(text, "a3050");
}

#[test]
fn decimal_numerals_agree_with_the_standard_library() {
    for n in [0u64, 1, 9, 10, 11, 99, 100, 101, 999, 1000, 65535, 4294967295, 4294967296] {
        assert_eq!(numbered("", n), n.to_string());
    }
}

#[test]
fn prefixes() {
    assert!(starts_with("display:1", "display:"));
    assert!(starts_with("display:", "display:"));
    assert!(!starts_with("display", "display:"));
    assert!(!starts_with("Display:1", "display:"));
    assert!(!starts_with("", "x"));
    assert!(starts_with("", ""));
    assert!(starts_with("abc", ""));
    assert!(starts_with("äöü", "äö"));
    assert!(!starts_with("äöü", "äü"));
}

#[test]
fn numbers_after_a_prefix() {
    assert_eq!(parse_u32_after("display:42", 8), Some(42));
    assert_eq!(parse_u32_after("42", 0), Some(42));
    assert_eq!(parse_u32_after("+42", 0), Some(42));
    assert_eq!(parse_u32_after("0042", 0), Some(42));
    assert_eq!(parse_u32_after("0", 0), Some(0));
    assert_eq!(parse_u32_after("4294967295", 0), Some(u32::MAX));
    assert_eq!(parse_u32_after("4294967296", 0), None);
    assert_eq!(parse_u32_after("99999999999999999999999999", 0), None);
    assert_eq!(parse_u32_after("00000000000000000000000001", 0), Some(1));
    assert_eq!(parse_u32_after("", 0), None);
    assert_eq!(parse_u32_after("+", 0), None);
    assert_eq!(parse_u32_after("-1", 0), None);
    assert_eq!(parse_u32_after("++1", 0), None);
    assert_eq!(parse_u32_after("1+", 0), None);
    assert_eq!(parse_u32_after("12a", 0), None);
    assert_eq!(parse_u32_after(" 12", 0), None);
    assert_eq!(parse_u32_after("12 ", 0), None);
    assert_eq!(parse_u32_after("١٢", 0), None);
    assert_eq!(parse_u32_after("ab", 2), None);
    assert_eq!(parse_u32_after("ab", 3), None);
    assert_eq!(parse_u32_after("ab7", 2), Some(7));
    assert_eq!(parse_u32_after("é7", 1), Some(7));
}

#[test]
fn numbers_agree_with_the_standard_library() {
    for text in ["0", "7", "+7", "007", "4294967295", "4294967296", "", "+", "-", "-0", "1_000", "0x10", "١"] {
        assert_eq!(parse_u32_after(text, 0), text.parse::<u32>().ok(), "{:?}", text);
    }
}

#[test]
fn trimming() {
    assert_eq!(trim("14.5\n"), "14.5");
    assert_eq!(trim("  a b \t\r\n"), "a b");
    assert_eq!(trim(""), "");
    assert_eq!(trim(" \n\t"), "");
    assert_eq!(trim("x"), "x");
    assert_eq!(trim("\u{a0}x\u{3000}"), "x");
    assert_eq!(trim("\u{200b}x"), "\u{200b}x");
    assert_eq!(trim("\u{1680}\u{2000}\u{200a}\u{2028}\u{2029}\u{202f}\u{205f}\u{85}é \u{b}\u{c}"), "é");
}

#[test]
fn trimming_agrees_with_the_standard_library() {
    for code in 0u32..0x3100 {
        if let Some(c) = char::from_u32(code) {
            let text = format!("{}a{}b{}", c, c, c);
            assert_eq!(trim(&text), text.trim(), "U+{:04X}", code);
        }
    }
}

#[test]
fn order_of_strings() {
    assert!(text_precedes("12.", "12.3"));
    assert!(text_precedes("12.2", "12.3"));
    assert!(text_precedes("12.10", "12.3"));
    assert!(text_precedes("12.2.1", "12.3"));
    assert!(!text_precedes("12.3", "12.3"));
    assert!(!text_precedes("12.3.1", "12.3"));
    assert!(!text_precedes("12.4", "12.3"));
    assert!(!text_precedes("13", "12.3"));
    assert!(text_precedes("", "a"));
    assert!(!text_precedes("", ""));
    assert!(!text_precedes("a", ""));
    assert!(text_precedes("a", "é"));
    assert!(!text_precedes("é", "z"));
}

#[test]
fn order_agrees_with_the_standard_library() {
    let samples = ["", "1", "12", "12.", "12.3", "12.30", "12.4", "2", "a", "é", "\u{10000}", "\u{ffff}"];
    for a in samples {
        for b in samples {
            assert_eq!(text_precedes(a, b), a < b, "{:?} {:?}", a, b);
        }
    }
}

#[test]
fn screen_identifiers() {
    assert_eq!(ScreenTarget::parse("display:1"), Ok(ScreenTarget::Display(1)));
    assert_eq!(ScreenTarget::parse("window:123"), Ok(ScreenTarget::Window(123)));
    assert_eq!(ScreenTarget::parse("display:+7"), Ok(ScreenTarget::Display(7)));
    assert_eq!(ScreenTarget::parse("display:007"), Ok(ScreenTarget::Display(7)));
    assert_eq!(ScreenTarget::parse("window:4294967295"), Ok(ScreenTarget::Window(u32::MAX)));
    assert_eq!(ScreenTarget::parse("display:4294967296"), Err(ScreenIdError::InvalidDisplayId));
    assert_eq!(ScreenTarget::parse("display:"), Err(ScreenIdError::InvalidDisplayId));
    assert_eq!(ScreenTarget::parse("display:-1"), Err(ScreenIdError::InvalidDisplayId));
    assert_eq!(ScreenTarget::parse("display: 1"), Err(ScreenIdError::InvalidDisplayId));
    assert_eq!(ScreenTarget::parse("display:1 "), Err(ScreenIdError::InvalidDisplayId));
    assert_eq!(ScreenTarget::parse("window:"), Err(ScreenIdError::InvalidWindowId));
    assert_eq!(ScreenTarget::parse("window:abc"), Err(ScreenIdError::InvalidWindowId));
    assert_eq!(ScreenTarget::parse("window:1x"), Err(ScreenIdError::InvalidWindowId));
    assert_eq!(ScreenTarget::parse(""), Err(ScreenIdError::InvalidFormat));
    assert_eq!(ScreenTarget::parse("screen:1"), Err(ScreenIdError::InvalidFormat));
    assert_eq!(ScreenTarget::parse("Display:1"), Err(ScreenIdError::InvalidFormat));
    assert_eq!(ScreenTarget::parse("display"), Err(ScreenIdError::InvalidFormat));
    assert_eq!(ScreenTarget::parse(" display:1"), Err(ScreenIdError::InvalidFormat));
    assert_eq!(ScreenTarget::parse("1"), Err(ScreenIdError::InvalidFormat));
}

#[test]
fn screen_identifier_round_trip() {
    for n in [0u32, 1, 9, 10, 69733248, u32::MAX] {
        let display = ScreenTarget::Display(n);
        let window = ScreenTarget::Window(n);
        assert_eq!(display.to_identifier(), format!("display:{}", n));
        assert_eq!(window.to_identifier(), format!("window:{}", n));
        assert_eq!(ScreenTarget::parse(&display.to_identifier()), Ok(display));
        assert_eq!(ScreenTarget::parse(&window.to_identifier()), Ok(window));
    }
}

#[test]
fn screen_identifier_errors() {
    assert_eq!(
        ScreenIdError::InvalidDisplayId.into_error(),
        CaptureError { status: ErrorStatus::InvalidArg, reason: "Invalid display ID".to_string() }
    );
    assert_eq!(
        ScreenIdError::InvalidWindowId.into_error(),
        CaptureError { status: ErrorStatus::InvalidArg, reason: "Invalid window ID".to_string() }
    );
    assert_eq!(
        ScreenIdError::InvalidFormat.into_error(),
        CaptureError { status: ErrorStatus::InvalidArg, reason: "Invalid screen ID format".to_string() }
    );
}

#[test]
fn error_constructors() {
    assert_eq!(
        CaptureError::invalid_arg("a".to_string()),
        CaptureError { status: ErrorStatus::InvalidArg, reason: "a".to_string() }
    );
    assert_eq!(
        CaptureError::generic_failure("b".to_string()),
        CaptureError { status: ErrorStatus::GenericFailure, reason: "b".to_string() }
    );
}

#[test]
fn library_version() {
    assert_eq!(get_version(), "0.2.0-real-screencapturekit-implementation");
}

#[test]
fn supported_system_versions() {
    assert_eq!(check_macos_version("12.3\n"), Ok("12.3".to_string()));
    assert_eq!(check_macos_version("12.3.1"), Ok("12.3.1".to_string()));
    assert_eq!(check_macos_version("12.4"), Ok("12.4".to_string()));
    assert_eq!(check_macos_version("12.7.6\n"), Ok("12.7.6".to_string()));
    assert_eq!(check_macos_version(" 13.0 "), Ok("13.0".to_string()));
    assert_eq!(check_macos_version("14.5\n"), Ok("14.5".to_string()));
    assert_eq!(check_macos_version("15.0"), Ok("15.0".to_string()));
    assert_eq!(check_macos_version("12"), Ok("12".to_string()));
    assert_eq!(check_macos_version("10"), Ok("10".to_string()));
    assert_eq!(check_macos_version(""), Ok("".to_string()));
}

#[test]
fn unsupported_system_versions() {
    let refused = |found: &str| {
        Err(CaptureError {
            status: ErrorStatus::GenericFailure,
            reason: format!("ScreenCaptureKit requires macOS 12.3 or later, found: {}", found),
        })
    };
    assert_eq!(check_macos_version("10.15.7\n"), refused("10.15.7"));
    assert_eq!(check_macos_version("11.6"), refused("11.6"));
    assert_eq!(check_macos_version("12.0"), refused("12.0"));
    assert_eq!(check_macos_version("12.2.1\n"), refused("12.2.1"));
    assert_eq!(check_macos_version("12."), refused("12."));
    assert_eq!(check_macos_version("  12.10  "), refused("12.10"));
}

//! The library's version and the operating-system versions it supports.

use crate::error::{CaptureError, ErrorStatus};
use crate::text::{has_prefix, precedes, starts_with, text_precedes, trim, trimmed};
use vstd::prelude::*;
use vstd::string::*;

verus! {

/// Whether a system version is too old for screen capture: every 10.x and
/// 11.x, and every 12.x that comes before `12.3` in the order of strings.
pub open spec fn is_unsupported(version: Seq<char>) -> bool {
    ||| has_prefix(version, "10."@)
    ||| has_prefix(version, "11."@)
    ||| (has_prefix(version, "12."@) && precedes(version, "12.3"@))
}

/// Why an unsupported version is refused.
pub open spec fn unsupported_reason(version: Seq<char>) -> Seq<char> {
    "ScreenCaptureKit requires macOS 12.3 or later, found: "@ + version
}

/// The library's version.
pub fn get_version() -> (version: String)
    ensures
        version@ == "0.2.0-real-screencapturekit-implementation"@,
{
    "0.2.0-real-screencapturekit-implementation".to_owned()
}

/// Checks the system version that the system reported, white space
/// around it removed. A supported version is returned as it is; an
/// unsupported one is a generic failure that names it.
pub fn check_macos_version(reported: &str) -> (checked: Result<String, CaptureError>)
    ensures
        match checked {
            Ok(version) => version@ == trimmed(reported@) && !is_unsupported(version@),
            Err(error) => is_unsupported(trimmed(reported@)) && error.says(
                ErrorStatus::GenericFailure,
                unsupported_reason(trimmed(reported@)),
            ),
        },
{
    let version = trim(reported);
    if starts_with(version, "10.") || starts_with(version, "11.") || (starts_with(version, "12.")
        && text_precedes(version, "12.3")) {
        Err(
            CaptureError::generic_failure(
                "ScreenCaptureKit requires macOS 12.3 or later, found: ".to_owned().concat(version),
            ),
        )
    } else {
        Ok(version.to_owned())
    }
}

} // verus!

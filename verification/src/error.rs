//! The error that the library's fallible operations report.

use vstd::prelude::*;

verus! {

/// Class of a failure, as the host runtime distinguishes them.
#[derive(Debug, Clone, Copy, PartialEq, Eq, Structural)]
pub enum ErrorStatus {
    /// The caller passed something unusable.
    InvalidArg,
    /// Anything else went wrong.
    GenericFailure,
}

/// A failure with its class and a reason in words.
#[derive(Debug, PartialEq, Eq)]
pub struct CaptureError {
    pub status: ErrorStatus,
    pub reason: String,
}

impl CaptureError {
    /// Whether this error has the given class and reason.
    pub open spec fn says(self, status: ErrorStatus, reason: Seq<char>) -> bool {
        self.status == status && self.reason@ == reason
    }

    /// An `InvalidArg` error with the given reason.
    pub fn invalid_arg(reason: String) -> (error: Self)
        ensures
            error.status == ErrorStatus::InvalidArg,
            error.reason == reason,
    {
        CaptureError { status: ErrorStatus::InvalidArg, reason }
    }

    /// A `GenericFailure` error with the given reason.
    pub fn generic_failure(reason: String) -> (error: Self)
        ensures
            error.status == ErrorStatus::GenericFailure,
            error.reason == reason,
    {
        CaptureError { status: ErrorStatus::GenericFailure, reason }
    }
}

} // verus!

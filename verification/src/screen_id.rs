//! Textual identifiers of capture sources: `display:<number>` and
//! `window:<number>`.

use crate::error::{CaptureError, ErrorStatus};
use crate::text::{
    after, decimal, has_prefix, law_decimal_round_trip, numbered, parse_u32_after, parsed_u32,
    starts_with,
};
use vstd::prelude::*;

verus! {

/// What a screen identifier names.
#[derive(Debug, Clone, Copy, PartialEq, Eq, Structural)]
pub enum ScreenTarget {
    Display(u32),
    Window(u32),
}

/// Why a text is no screen identifier.
#[derive(Debug, Clone, Copy, PartialEq, Eq, Structural)]
pub enum ScreenIdError {
    /// It begins with `display:`, but no 32-bit number follows.
    InvalidDisplayId,
    /// It begins with `window:`, but no 32-bit number follows.
    InvalidWindowId,
    /// It begins with neither.
    InvalidFormat,
}

/// What a text names, or why it names nothing. The number after the
/// prefix may carry a plus sign and leading zeros; nothing may follow it.
pub open spec fn screen_target(id: Seq<char>) -> Result<ScreenTarget, ScreenIdError> {
    if has_prefix(id, "display:"@) {
        match parsed_u32(after(id, 8)) {
            Some(number) => Ok(ScreenTarget::Display(number)),
            None => Err(ScreenIdError::InvalidDisplayId),
        }
    } else if has_prefix(id, "window:"@) {
        match parsed_u32(after(id, 7)) {
            Some(number) => Ok(ScreenTarget::Window(number)),
            None => Err(ScreenIdError::InvalidWindowId),
        }
    } else {
        Err(ScreenIdError::InvalidFormat)
    }
}

impl ScreenIdError {
    /// The words in which this error is reported.
    pub open spec fn reason(self) -> Seq<char> {
        match self {
            ScreenIdError::InvalidDisplayId => "Invalid display ID"@,
            ScreenIdError::InvalidWindowId => "Invalid window ID"@,
            ScreenIdError::InvalidFormat => "Invalid screen ID format"@,
        }
    }

    /// This error as the library reports it: an invalid argument.
    pub fn into_error(self) -> (error: CaptureError)
        ensures
            error.says(ErrorStatus::InvalidArg, self.reason()),
    {
        let reason = match self {
            ScreenIdError::InvalidDisplayId => "Invalid display ID",
            ScreenIdError::InvalidWindowId => "Invalid window ID",
            ScreenIdError::InvalidFormat => "Invalid screen ID format",
        };
        CaptureError::invalid_arg(reason.to_owned())
    }
}

impl ScreenTarget {
    /// The identifier under which this target is offered.
    pub open spec fn identifier(self) -> Seq<char> {
        match self {
            ScreenTarget::Display(id) => "display:"@ + decimal(id as nat),
            ScreenTarget::Window(id) => "window:"@ + decimal(id as nat),
        }
    }

    /// Reads a screen identifier.
    pub fn parse(screen_id: &str) -> (target: Result<ScreenTarget, ScreenIdError>)
        ensures
            target == screen_target(screen_id@),
    {
        proof {
            reveal_strlit("display:");
            reveal_strlit("window:");
        }
        if starts_with(screen_id, "display:") {
            match parse_u32_after(screen_id, 8) {
                Some(number) => Ok(ScreenTarget::Display(number)),
                None => Err(ScreenIdError::InvalidDisplayId),
            }
        } else if starts_with(screen_id, "window:") {
            match parse_u32_after(screen_id, 7) {
                Some(number) => Ok(ScreenTarget::Window(number)),
                None => Err(ScreenIdError::InvalidWindowId),
            }
        } else {
            Err(ScreenIdError::InvalidFormat)
        }
    }

    /// Writes the identifier under which this target is offered.
    pub fn to_identifier(self) -> (text: String)
        ensures
            text@ == self.identifier(),
    {
        match self {
            ScreenTarget::Display(id) => numbered("display:", id as u64),
            ScreenTarget::Window(id) => numbered("window:", id as u64),
        }
    }
}

/// Reading the identifier under which a target is offered gives back that
/// target.
pub proof fn law_identifier_round_trip(target: ScreenTarget)
    ensures
        screen_target(target.identifier()) == Ok::<ScreenTarget, ScreenIdError>(target),
{
    reveal_strlit("display:");
    reveal_strlit("window:");
    let id = target.identifier();
    match target {
        ScreenTarget::Display(number) => {
            law_decimal_round_trip(number);
            assert(id.subrange(0, 8) =~= "display:"@);
            assert(after(id, 8) =~= decimal(number as nat));
        },
        ScreenTarget::Window(number) => {
            law_decimal_round_trip(number);
            assert(id.subrange(0, 7) =~= "window:"@);
            assert(after(id, 7) =~= decimal(number as nat));
            assert(id[0] == 'w');
            if has_prefix(id, "display:"@) {
                assert(id.subrange(0, 8)[0] == id[0]);
            }
        },
    }
}

} // verus!

//! A content filter built from the framework object that the content
//! selected.

use super::{FilterError, FilterKind};
use crate::bindings::ForeignHandle;
use crate::error::{CaptureError, ErrorStatus};
use vstd::prelude::*;

verus! {

/// A content filter, or the lack of one.
#[derive(Debug, Clone, Copy, PartialEq, Eq, Structural)]
pub struct RealContentFilter {
    content_filter: Option<ForeignHandle>,
}

impl RealContentFilter {
    /// The framework's filter object, if there is one.
    pub closed spec fn handle(self) -> Option<ForeignHandle> {
        self.content_filter
    }

    /// Whether the filter can be recorded through: it is valid exactly if
    /// there is a filter object behind it.
    pub open spec fn valid(self) -> bool {
        self.handle() matches Some(object) && object.token != 0
    }

    /// No filter: invalid, and without a framework object.
    pub fn new() -> (filter: Self)
        ensures
            filter.handle() is None,
            !filter.valid(),
    {
        RealContentFilter { content_filter: None }
    }

    fn from_created(kind: FilterKind, id: u32, created: ForeignHandle) -> (filter: Result<
        Self,
        CaptureError,
    >)
        ensures
            match filter {
                Ok(made) => created.token != 0 && made.handle() == Some(created) && made.valid(),
                Err(error) => created.token == 0 && error.says(
                    ErrorStatus::GenericFailure,
                    FilterError::CreationFailed.reason(kind, id),
                ),
            },
    {
        if created.is_null() {
            Err(FilterError::CreationFailed.into_error(kind, id))
        } else {
            Ok(RealContentFilter { content_filter: Some(created) })
        }
    }

    /// The filter for a display, from what the framework returned when it
    /// was asked to make one. A null object is the failure
    /// `Failed to create display content filter`.
    pub fn new_with_display(created: ForeignHandle) -> (filter: Result<Self, CaptureError>)
        ensures
            match filter {
                Ok(made) => created.token != 0 && made.handle() == Some(created) && made.valid(),
                Err(error) => created.token == 0 && error.says(
                    ErrorStatus::GenericFailure,
                    "Failed to create display content filter"@,
                ),
            },
    {
        Self::from_created(FilterKind::Display, 0, created)
    }

    /// The filter for a window, from what the framework returned when it
    /// was asked to make one. A null object is the failure
    /// `Failed to create window content filter`.
    pub fn new_with_window(created: ForeignHandle) -> (filter: Result<Self, CaptureError>)
        ensures
            match filter {
                Ok(made) => created.token != 0 && made.handle() == Some(created) && made.valid(),
                Err(error) => created.token == 0 && error.says(
                    ErrorStatus::GenericFailure,
                    "Failed to create window content filter"@,
                ),
            },
    {
        Self::from_created(FilterKind::Window, 0, created)
    }

    /// Whether the filter can be recorded through.
    pub fn is_valid(&self) -> (valid: bool)
        ensures
            valid == self.valid(),
    {
        match self.content_filter {
            Some(object) => !object.is_null(),
            None => false,
        }
    }

    /// The framework's filter object, or the null handle without one. The
    /// handle of a valid filter is never null, and that of an invalid one
    /// always is.
    pub fn get_filter_ptr(&self) -> (handle: ForeignHandle)
        ensures
            handle == match self.handle() {
                Some(object) => object,
                None => (ForeignHandle { token: 0 }),
            },
            handle.token != 0 <==> self.valid(),
    {
        match self.content_filter {
            Some(object) => object,
            None => ForeignHandle::null(),
        }
    }
}

/// A filter is valid exactly if it holds a framework object that is not
/// null: what passes the validity test can be handed to the framework.
pub proof fn law_valid_filter_has_an_object(filter: RealContentFilter)
    ensures
        filter.valid() <==> (filter.handle() matches Some(object) && object.token != 0),
{
}

} // verus!

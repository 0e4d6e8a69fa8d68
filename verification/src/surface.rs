//! Displays, windows and the capture sources offered for them.

use crate::screen_id::{ScreenIdError, ScreenTarget, law_identifier_round_trip, screen_target};
use vstd::prelude::*;
use vstd::string::*;

verus! {

/// A display or a window as the contracts see it: identifier, label and
/// size in pixels.
pub struct Surface {
    pub id: u32,
    pub label: Seq<char>,
    pub width: u32,
    pub height: u32,
}

/// A display that can be captured.
#[derive(Debug, PartialEq, Eq)]
pub struct DisplayInfo {
    pub id: u32,
    pub name: String,
    pub width: u32,
    pub height: u32,
}

/// A window that can be captured.
#[derive(Debug, PartialEq, Eq)]
pub struct WindowInfo {
    pub id: u32,
    pub title: String,
    pub width: u32,
    pub height: u32,
}

/// A capture source as it is offered to the user: a display or a window
/// under a textual identifier.
#[derive(Debug, PartialEq, Eq)]
pub struct ScreenSource {
    pub id: String,
    pub name: String,
    pub width: u32,
    pub height: u32,
    pub is_display: bool,
}

/// A capture source as the contracts see it.
pub struct Source {
    pub id: Seq<char>,
    pub name: Seq<char>,
    pub width: u32,
    pub height: u32,
    pub is_display: bool,
}

impl View for DisplayInfo {
    type V = Surface;

    open spec fn view(&self) -> Surface {
        Surface { id: self.id, label: self.name@, width: self.width, height: self.height }
    }
}

impl View for WindowInfo {
    type V = Surface;

    open spec fn view(&self) -> Surface {
        Surface { id: self.id, label: self.title@, width: self.width, height: self.height }
    }
}

impl View for ScreenSource {
    type V = Source;

    open spec fn view(&self) -> Source {
        Source {
            id: self.id@,
            name: self.name@,
            width: self.width,
            height: self.height,
            is_display: self.is_display,
        }
    }
}

impl Clone for DisplayInfo {
    fn clone(&self) -> (copy: Self)
        ensures
            copy == *self,
    {
        DisplayInfo {
            id: self.id,
            name: self.name.clone(),
            width: self.width,
            height: self.height,
        }
    }
}

impl Clone for WindowInfo {
    fn clone(&self) -> (copy: Self)
        ensures
            copy == *self,
    {
        WindowInfo {
            id: self.id,
            title: self.title.clone(),
            width: self.width,
            height: self.height,
        }
    }
}

impl Clone for ScreenSource {
    fn clone(&self) -> (copy: Self)
        ensures
            copy == *self,
    {
        ScreenSource {
            id: self.id.clone(),
            name: self.name.clone(),
            width: self.width,
            height: self.height,
            is_display: self.is_display,
        }
    }
}

/// Smallest width and height, exclusive, of a window that is offered as a
/// capture source.
pub const MIN_LISTED_EXTENT: u32 = 100;

impl Surface {
    /// The source offered for a display: `display:<id>` under the
    /// display's name.
    pub open spec fn as_display_source(self) -> Source {
        Source {
            id: ScreenTarget::Display(self.id).identifier(),
            name: self.label,
            width: self.width,
            height: self.height,
            is_display: true,
        }
    }

    /// The source offered for a window: `window:<id>` under the window's
    /// title.
    pub open spec fn as_window_source(self) -> Source {
        Source {
            id: ScreenTarget::Window(self.id).identifier(),
            name: self.label,
            width: self.width,
            height: self.height,
            is_display: false,
        }
    }

    /// Whether a window is worth offering: it has a title and is more than
    /// a hundred pixels wide and high.
    pub open spec fn is_listed_window(self) -> bool {
        self.label.len() > 0 && self.width > MIN_LISTED_EXTENT && self.height > MIN_LISTED_EXTENT
    }

    /// The source offered for a window, if it is worth offering.
    pub open spec fn listed_window_source(self) -> Option<Source> {
        if self.is_listed_window() {
            Some(self.as_window_source())
        } else {
            None
        }
    }
}

impl DisplayInfo {
    /// The capture source for this display.
    pub fn to_source(&self) -> (source: ScreenSource)
        ensures
            source@ == self@.as_display_source(),
    {
        ScreenSource {
            id: ScreenTarget::Display(self.id).to_identifier(),
            name: self.name.clone(),
            width: self.width,
            height: self.height,
            is_display: true,
        }
    }
}

impl WindowInfo {
    /// Whether this window is offered as a capture source.
    pub fn is_listed(&self) -> (listed: bool)
        ensures
            listed == self@.is_listed_window(),
    {
        !self.title.as_str().is_empty() && self.width > MIN_LISTED_EXTENT && self.height
            > MIN_LISTED_EXTENT
    }

    /// The capture source for this window.
    pub fn to_source(&self) -> (source: ScreenSource)
        ensures
            source@ == self@.as_window_source(),
    {
        ScreenSource {
            id: ScreenTarget::Window(self.id).to_identifier(),
            name: self.title.clone(),
            width: self.width,
            height: self.height,
            is_display: false,
        }
    }
}

/// Views of a list of displays, in order.
pub open spec fn displays_view(displays: Seq<DisplayInfo>) -> Seq<Surface> {
    displays.map_values(|d: DisplayInfo| d@)
}

/// Views of a list of windows, in order.
pub open spec fn windows_view(windows: Seq<WindowInfo>) -> Seq<Surface> {
    windows.map_values(|w: WindowInfo| w@)
}

/// Views of a list of sources, in order.
pub open spec fn sources_view(sources: Seq<ScreenSource>) -> Seq<Source> {
    sources.map_values(|s: ScreenSource| s@)
}

/// The sources offered for the given displays and windows: every display
/// in order, then every listed window in order.
pub open spec fn sources_of(displays: Seq<Surface>, windows: Seq<Surface>) -> Seq<Source> {
    displays.map_values(|d: Surface| d.as_display_source()) + windows.filter_map(
        |w: Surface| w.listed_window_source(),
    )
}

/// The identifier of every source on offer reads back as the display or
/// window that the source was made for.
pub proof fn law_source_identifiers_read_back(surface: Surface)
    ensures
        screen_target(surface.as_display_source().id) == Ok::<ScreenTarget, ScreenIdError>(
            ScreenTarget::Display(surface.id),
        ),
        screen_target(surface.as_window_source().id) == Ok::<ScreenTarget, ScreenIdError>(
            ScreenTarget::Window(surface.id),
        ),
{
    law_identifier_round_trip(ScreenTarget::Display(surface.id));
    law_identifier_round_trip(ScreenTarget::Window(surface.id));
}

} // verus!

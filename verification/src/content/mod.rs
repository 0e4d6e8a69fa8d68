//! Shareable content: the displays and windows that can be captured, the
//! sources offered for them, and the choice of the framework object that a
//! content filter is built from.

use crate::bindings::ForeignHandle;
use crate::bridge::model::Outcome;
use crate::bridge::outcome::BridgeOutcome;
use crate::display_list::optional_display_view;
use crate::error::{CaptureError, ErrorStatus};
use crate::surface::{
    DisplayInfo, ScreenSource, Source, Surface, WindowInfo, displays_view, sources_of,
    sources_view, windows_view,
};
use crate::text::{decimal, numbered_between};
use vstd::prelude::*;
use vstd::string::*;

pub mod filter;
pub mod manager;

verus! {

/// Timeout of a content request unless the caller names one, in
/// milliseconds.
pub const DEFAULT_TIMEOUT_MS: u32 = 5000;

/// Timeout of the content request behind the blocking constructor, in
/// milliseconds.
pub const FETCH_TIMEOUT_MS: u32 = 3000;

/// Shareable content as the contracts see it.
pub struct Content {
    pub displays: Seq<Surface>,
    pub windows: Seq<Surface>,
    /// The framework's own content object, if the request for it succeeded.
    pub handle: Option<ForeignHandle>,
}

/// The displays and windows that can be captured.
///
/// The lists are always filled from the system's display and window
/// lists. The framework's content object is carried along when the request
/// for it succeeded; without it nothing can be filtered, but everything can
/// still be listed.
#[derive(Debug)]
pub struct ShareableContent {
    displays: Vec<DisplayInfo>,
    windows: Vec<WindowInfo>,
    sc_content: Option<ForeignHandle>,
}

impl View for ShareableContent {
    type V = Content;

    closed spec fn view(&self) -> Content {
        Content {
            displays: displays_view(self.displays@),
            windows: windows_view(self.windows@),
            handle: self.sc_content,
        }
    }
}

/// The displays that are there, in order.
pub open spec fn present_displays(listed: Seq<Option<DisplayInfo>>) -> Seq<Surface> {
    listed.filter_map(|display: Option<DisplayInfo>| optional_display_view(display))
}

/// The payload of a content request as the content keeps it: the handle of
/// a success, nothing otherwise.
pub open spec fn handle_of(outcome: Outcome<ForeignHandle>) -> Option<ForeignHandle> {
    match outcome {
        Outcome::Success(handle) => Some(handle),
        _ => None,
    }
}

/// What a content request leaves for the content to keep: the handle of a
/// success; nothing of a failure, of a timeout, or of a request that could
/// not be registered.
pub open spec fn request_handle(request: Result<BridgeOutcome<ForeignHandle>, String>) -> Option<
    ForeignHandle,
> {
    match request {
        Ok(outcome) => handle_of(outcome@),
        Err(_) => None,
    }
}

/// Why a content request that did not succeed is reported as failed.
pub open spec fn fetch_failure(outcome: Outcome<ForeignHandle>) -> Seq<char> {
    match outcome {
        Outcome::Failure(description) => "ScreenCaptureKit error: "@ + description,
        _ => "ScreenCaptureKit timeout"@,
    }
}

/// Why a content request that could not be registered is reported as
/// failed.
pub open spec fn setup_failure(description: Seq<char>) -> Seq<char> {
    "Completion handler setup failed: "@ + description
}

/// Which kind of surface a content filter captures.
#[derive(Debug, Clone, Copy, PartialEq, Eq, Structural)]
pub enum FilterKind {
    Display,
    Window,
}

/// Why no content filter could be made.
#[derive(Debug, Clone, Copy, PartialEq, Eq, Structural)]
pub enum FilterError {
    /// The content lists no surface with the wanted identifier.
    UnknownSurface,
    /// The content carries no framework object.
    NoFrameworkContent,
    /// The framework object has no list of such surfaces.
    NoFrameworkList,
    /// The framework's list holds no surface with the wanted identifier.
    NotInFrameworkList,
    /// The framework returned no filter.
    CreationFailed,
}

impl FilterError {
    /// Class of this error: an identifier that cannot be found is an
    /// invalid argument; everything else is a generic failure.
    pub open spec fn status(self) -> ErrorStatus {
        match self {
            FilterError::UnknownSurface | FilterError::NotInFrameworkList => ErrorStatus::InvalidArg,
            _ => ErrorStatus::GenericFailure,
        }
    }

    /// The words in which this error is reported for a filter of the
    /// given kind on the given identifier.
    pub open spec fn reason(self, kind: FilterKind, id: u32) -> Seq<char> {
        match (self, kind) {
            (FilterError::UnknownSurface, FilterKind::Display) => "Display ID "@ + decimal(
                id as nat,
            ) + " not found"@,
            (FilterError::UnknownSurface, FilterKind::Window) => "Window ID "@ + decimal(id as nat)
                + " not found"@,
            (FilterError::NoFrameworkContent, _) => "No ScreenCaptureKit content available"@,
            (FilterError::NoFrameworkList, FilterKind::Display) =>
                "No displays in ScreenCaptureKit content"@,
            (FilterError::NoFrameworkList, FilterKind::Window) =>
                "No windows in ScreenCaptureKit content"@,
            (FilterError::NotInFrameworkList, FilterKind::Display) => "Display ID "@ + decimal(
                id as nat,
            ) + " not found in ScreenCaptureKit content"@,
            (FilterError::NotInFrameworkList, FilterKind::Window) => "Window ID "@ + decimal(
                id as nat,
            ) + " not found in ScreenCaptureKit content"@,
            (FilterError::CreationFailed, FilterKind::Display) =>
                "Failed to create display content filter"@,
            (FilterError::CreationFailed, FilterKind::Window) =>
                "Failed to create window content filter"@,
        }
    }

    /// This error as the library reports it.
    pub fn into_error(self, kind: FilterKind, id: u32) -> (error: CaptureError)
        ensures
            error.says(self.status(), self.reason(kind, id)),
    {
        match self {
            FilterError::UnknownSurface => CaptureError::invalid_arg(
                match kind {
                    FilterKind::Display => numbered_between("Display ID ", id as u64, " not found"),
                    FilterKind::Window => numbered_between("Window ID ", id as u64, " not found"),
                },
            ),
            FilterError::NoFrameworkContent => CaptureError::generic_failure(
                "No ScreenCaptureKit content available".to_owned(),
            ),
            FilterError::NoFrameworkList => CaptureError::generic_failure(
                match kind {
                    FilterKind::Display => "No displays in ScreenCaptureKit content".to_owned(),
                    FilterKind::Window => "No windows in ScreenCaptureKit content".to_owned(),
                },
            ),
            FilterError::NotInFrameworkList => CaptureError::invalid_arg(
                match kind {
                    FilterKind::Display => numbered_between(
                        "Display ID ",
                        id as u64,
                        " not found in ScreenCaptureKit content",
                    ),
                    FilterKind::Window => numbered_between(
                        "Window ID ",
                        id as u64,
                        " not found in ScreenCaptureKit content",
                    ),
                },
            ),
            FilterError::CreationFailed => CaptureError::generic_failure(
                match kind {
                    FilterKind::Display => "Failed to create display content filter".to_owned(),
                    FilterKind::Window => "Failed to create window content filter".to_owned(),
                },
            ),
        }
    }
}

/// Whether `index` is the first position of `surfaces` with the given
/// identifier.
pub open spec fn is_first_with_id(surfaces: Seq<Surface>, id: u32, index: int) -> bool {
    &&& 0 <= index < surfaces.len()
    &&& surfaces[index].id == id
    &&& forall|j: int| 0 <= j < index ==> (#[trigger] surfaces[j]).id != id
}

/// Whether some surface has the given identifier.
pub open spec fn lists_id(surfaces: Seq<Surface>, id: u32) -> bool {
    exists|j: int| 0 <= j < surfaces.len() && (#[trigger] surfaces[j]).id == id
}

/// Whether `index` is the first position of the framework's list that
/// holds an object with the given identifier. Empty places hold none.
pub open spec fn is_first_object_with_id(objects: Seq<Option<u32>>, id: u32, index: int) -> bool {
    &&& 0 <= index < objects.len()
    &&& objects[index] == Some(id)
    &&& forall|j: int| 0 <= j < index ==> #[trigger] objects[j] != Some(id)
}

impl Content {
    /// The identified surfaces of the given kind.
    pub open spec fn surfaces(self, kind: FilterKind) -> Seq<Surface> {
        match kind {
            FilterKind::Display => self.displays,
            FilterKind::Window => self.windows,
        }
    }

    /// Whether a filter of the given kind can be built from the object at
    /// position `index` of the framework's list: the content lists the
    /// identifier, carries the framework's object, and `index` is where the
    /// framework's list first holds the identifier.
    pub open spec fn selects(
        self,
        kind: FilterKind,
        id: u32,
        objects: Option<Seq<Option<u32>>>,
        index: int,
    ) -> bool {
        &&& lists_id(self.surfaces(kind), id)
        &&& self.handle is Some
        &&& objects matches Some(list)
        &&& is_first_object_with_id(list, id, index)
    }

    /// Why no object can be selected, if none can. The reasons are tried
    /// in this order: the content does not list the identifier; it carries
    /// no framework object; the framework has no list; the list does not
    /// hold the identifier.
    pub open spec fn refusal(self, kind: FilterKind, id: u32, objects: Option<Seq<Option<u32>>>) -> Option<
        FilterError,
    > {
        if !lists_id(self.surfaces(kind), id) {
            Some(FilterError::UnknownSurface)
        } else if self.handle is None {
            Some(FilterError::NoFrameworkContent)
        } else {
            match objects {
                None => Some(FilterError::NoFrameworkList),
                Some(list) => if exists|j: int| 0 <= j < list.len() && #[trigger] list[j] == Some(id) {
                    None
                } else {
                    Some(FilterError::NotInFrameworkList)
                },
            }
        }
    }
}

fn duplicate_displays(displays: &Vec<DisplayInfo>) -> (copy: Vec<DisplayInfo>)
    ensures
        copy@ == displays@,
{
    let copy = displays.clone();
    assert(copy@ =~= displays@);
    copy
}

fn duplicate_windows(windows: &Vec<WindowInfo>) -> (copy: Vec<WindowInfo>)
    ensures
        copy@ == windows@,
{
    let copy = windows.clone();
    assert(copy@ =~= windows@);
    copy
}

fn position_in_displays(displays: &Vec<DisplayInfo>, id: u32) -> (position: Option<usize>)
    ensures
        match position {
            Some(index) => is_first_with_id(displays_view(displays@), id, index as int),
            None => !lists_id(displays_view(displays@), id),
        },
{
    let mut i: usize = 0;
    while i < displays.len()
        invariant
            i <= displays.len(),
            forall|j: int| 0 <= j < i ==> (#[trigger] displays_view(displays@)[j]).id != id,
        decreases displays.len() - i,
    {
        if displays[i].id == id {
            return Some(i);
        }
        i = i + 1;
    }
    None
}

fn position_in_windows(windows: &Vec<WindowInfo>, id: u32) -> (position: Option<usize>)
    ensures
        match position {
            Some(index) => is_first_with_id(windows_view(windows@), id, index as int),
            None => !lists_id(windows_view(windows@), id),
        },
{
    let mut i: usize = 0;
    while i < windows.len()
        invariant
            i <= windows.len(),
            forall|j: int| 0 <= j < i ==> (#[trigger] windows_view(windows@)[j]).id != id,
        decreases windows.len() - i,
    {
        if windows[i].id == id {
            return Some(i);
        }
        i = i + 1;
    }
    None
}

fn position_in_objects(objects: &Vec<Option<u32>>, id: u32) -> (position: Option<usize>)
    ensures
        match position {
            Some(index) => is_first_object_with_id(objects@, id, index as int),
            None => forall|j: int| 0 <= j < objects.len() ==> #[trigger] objects@[j] != Some(id),
        },
{
    let mut i: usize = 0;
    while i < objects.len()
        invariant
            i <= objects.len(),
            forall|j: int| 0 <= j < i ==> #[trigger] objects@[j] != Some(id),
        decreases objects.len() - i,
    {
        match objects[i] {
            Some(found) => {
                if found == id {
                    return Some(i);
                }
            },
            None => {},
        }
        i = i + 1;
    }
    None
}

impl ShareableContent {
    /// Content that lists nothing and carries no framework object.
    pub fn new() -> (content: Self)
        ensures
            content@ == (Content { displays: Seq::empty(), windows: Seq::empty(), handle: None }),
    {
        let content = ShareableContent {
            displays: Vec::new(),
            windows: Vec::new(),
            sc_content: None,
        };
        proof {
            assert(displays_view(content.displays@) =~= Seq::empty());
            assert(windows_view(content.windows@) =~= Seq::empty());
        }
        content
    }

    /// Content from the system's lists alone: the displays that could be
    /// read, in order, and the given windows. It carries no framework
    /// object.
    pub fn create_safe_system_content(
        displays: Vec<Option<DisplayInfo>>,
        windows: Vec<WindowInfo>,
    ) -> (content: Self)
        ensures
            content@ == (Content {
                displays: present_displays(displays@),
                windows: windows_view(windows@),
                handle: None,
            }),
    {
        let mut kept: Vec<DisplayInfo> = Vec::new();
        let ghost read = |display: Option<DisplayInfo>| optional_display_view(display);
        proof {
            assert(displays_view(kept@) =~= displays@.take(0).filter_map(read));
        }
        for display in it: displays
            invariant
                it.seq() == displays@,
                read == |display: Option<DisplayInfo>| optional_display_view(display),
                displays_view(kept@) == displays@.take(it.index() as int).filter_map(read),
        {
            proof {
                displays@.lemma_filter_map_take_succ(read, it.index() as int);
            }
            let ghost before = kept@;
            match display {
                Some(info) => {
                    kept.push(info);
                    proof {
                        assert(displays_view(kept@) =~= displays_view(before) + seq![info@]);
                    }
                },
                None => {
                    proof {
                        assert(displays_view(before) + Seq::<Surface>::empty() =~= displays_view(
                            before,
                        ));
                    }
                },
            }
        }
        proof {
            assert(displays@.take(displays@.len() as int) =~= displays@);
        }
        ShareableContent { displays: kept, windows, sc_content: None }
    }

    /// What becomes of a content request that was made through the
    /// bridge. `Ok` carries the framework's object; a request that could
    /// not be registered, failed or timed out is a generic failure that
    /// says which.
    pub fn fetch_real_sc_shareable_content(
        request: Result<BridgeOutcome<ForeignHandle>, String>,
    ) -> (fetched: Result<ForeignHandle, CaptureError>)
        ensures
            match request {
                Ok(outcome) => match outcome {
                    BridgeOutcome::Success(handle) => fetched == Ok::<ForeignHandle, CaptureError>(
                        handle,
                    ),
                    _ => fetched matches Err(e) && e.says(
                        ErrorStatus::GenericFailure,
                        fetch_failure(outcome@),
                    ),
                },
                Err(description) => fetched matches Err(e) && e.says(
                    ErrorStatus::GenericFailure,
                    setup_failure(description@),
                ),
            },
    {
        match request {
            Ok(BridgeOutcome::Success(handle)) => Ok(handle),
            Ok(BridgeOutcome::Failure(description)) => Err(
                CaptureError::generic_failure(
                    "ScreenCaptureKit error: ".to_owned().concat(description.as_str()),
                ),
            ),
            Ok(BridgeOutcome::TimedOut) => Err(
                CaptureError::generic_failure("ScreenCaptureKit timeout".to_owned()),
            ),
            Err(description) => Err(
                CaptureError::generic_failure(
                    "Completion handler setup failed: ".to_owned().concat(description.as_str()),
                ),
            ),
        }
    }

    /// Content after a blocking content request: the system's lists in
    /// every case, and the framework's object if the request brought one.
    /// A failed request degrades the content; it never fails the caller.
    pub fn new_with_real_data(fetched: Result<ForeignHandle, CaptureError>, safe_content: Self) -> (content:
        Self)
        ensures
            content@ == (Content {
                handle: match fetched {
                    Ok(handle) => Some(handle),
                    Err(_) => None,
                },
                ..safe_content@
            }),
    {
        let sc_content = match fetched {
            Ok(handle) => Some(handle),
            Err(_) => None,
        };
        ShareableContent {
            displays: safe_content.displays,
            windows: safe_content.windows,
            sc_content,
        }
    }

    /// Content after a content request with a caller-chosen timeout.
    ///
    /// Every request yields content, with the system's lists as they were
    /// read: a request that succeeded keeps the framework's object; one
    /// that failed or timed out, and one that could not be registered
    /// because screen recording is not permitted, fall back to the system's
    /// lists alone. The caller is never failed.
    pub fn new_with_timeout(request: Result<BridgeOutcome<ForeignHandle>, String>, safe_content: Self) -> (content:
        Self)
        ensures
            content@ == (Content { handle: request_handle(request), ..safe_content@ }),
    {
        let sc_content = match request {
            Ok(BridgeOutcome::Success(handle)) => Some(handle),
            _ => None,
        };
        ShareableContent {
            displays: safe_content.displays,
            windows: safe_content.windows,
            sc_content,
        }
    }

    /// A copy of the displays, in order.
    pub fn get_displays(&self) -> (displays: Vec<DisplayInfo>)
        ensures
            displays_view(displays@) == self@.displays,
    {
        duplicate_displays(&self.displays)
    }

    /// A copy of the windows, in order.
    pub fn get_windows(&self) -> (windows: Vec<WindowInfo>)
        ensures
            windows_view(windows@) == self@.windows,
    {
        duplicate_windows(&self.windows)
    }

    /// The framework's content object, if the content carries one.
    pub fn framework_content(&self) -> (handle: Option<ForeignHandle>)
        ensures
            handle == self@.handle,
    {
        self.sc_content
    }

    /// The first display with the given identifier.
    pub fn find_display_by_id(&self, display_id: u32) -> (found: Option<&DisplayInfo>)
        ensures
            match found {
                Some(display) => exists|index: int|
                    is_first_with_id(self@.displays, display_id, index) && display@
                        == #[trigger] self@.displays[index],
                None => !lists_id(self@.displays, display_id),
            },
    {
        match position_in_displays(&self.displays, display_id) {
            Some(index) => {
                proof {
                    assert(self.displays@[index as int]@ == self@.displays[index as int]);
                }
                Some(&self.displays[index])
            },
            None => None,
        }
    }

    /// The first window with the given identifier.
    pub fn find_window_by_id(&self, window_id: u32) -> (found: Option<&WindowInfo>)
        ensures
            match found {
                Some(window) => exists|index: int|
                    is_first_with_id(self@.windows, window_id, index) && window@
                        == #[trigger] self@.windows[index],
                None => !lists_id(self@.windows, window_id),
            },
    {
        match position_in_windows(&self.windows, window_id) {
            Some(index) => {
                proof {
                    assert(self.windows@[index as int]@ == self@.windows[index as int]);
                }
                Some(&self.windows[index])
            },
            None => None,
        }
    }

    fn select(&self, kind: FilterKind, id: u32, objects: Option<&Vec<Option<u32>>>) -> (selected:
        Result<usize, FilterError>)
        ensures
            match selected {
                Ok(index) => self@.selects(kind, id, option_list_view(objects), index as int),
                Err(error) => self@.refusal(kind, id, option_list_view(objects)) == Some(error),
            },
    {
        let listed = match kind {
            FilterKind::Display => position_in_displays(&self.displays, id).is_some(),
            FilterKind::Window => position_in_windows(&self.windows, id).is_some(),
        };
        if !listed {
            return Err(FilterError::UnknownSurface);
        }
        if self.sc_content.is_none() {
            return Err(FilterError::NoFrameworkContent);
        }
        match objects {
            None => Err(FilterError::NoFrameworkList),
            Some(list) => match position_in_objects(list, id) {
                Some(index) => Ok(index),
                None => Err(FilterError::NotInFrameworkList),
            },
        }
    }

    /// Chooses the framework's display object that a content filter for
    /// `display_id` is built from.
    ///
    /// `objects` is the framework's list of displays by identifier, with
    /// `None` for an empty place, or `None` if the framework has no list.
    /// It is consulted only if the content lists the display and carries
    /// the framework's object.
    pub fn create_display_content_filter(
        &self,
        display_id: u32,
        objects: Option<&Vec<Option<u32>>>,
    ) -> (selected: Result<usize, CaptureError>)
        ensures
            match selected {
                Ok(index) => self@.selects(
                    FilterKind::Display,
                    display_id,
                    option_list_view(objects),
                    index as int,
                ),
                Err(error) => exists|why: FilterError|
                    self@.refusal(FilterKind::Display, display_id, option_list_view(objects))
                        == Some(why) && error.says(
                        why.status(),
                        #[trigger] why.reason(FilterKind::Display, display_id),
                    ),
            },
    {
        match self.select(FilterKind::Display, display_id, objects) {
            Ok(index) => Ok(index),
            Err(why) => Err(why.into_error(FilterKind::Display, display_id)),
        }
    }

    /// Chooses the framework's window object that a content filter for
    /// `window_id` is built from; see
    /// [`ShareableContent::create_display_content_filter`].
    pub fn create_window_content_filter(
        &self,
        window_id: u32,
        objects: Option<&Vec<Option<u32>>>,
    ) -> (selected: Result<usize, CaptureError>)
        ensures
            match selected {
                Ok(index) => self@.selects(
                    FilterKind::Window,
                    window_id,
                    option_list_view(objects),
                    index as int,
                ),
                Err(error) => exists|why: FilterError|
                    self@.refusal(FilterKind::Window, window_id, option_list_view(objects))
                        == Some(why) && error.says(
                        why.status(),
                        #[trigger] why.reason(FilterKind::Window, window_id),
                    ),
            },
    {
        match self.select(FilterKind::Window, window_id, objects) {
            Ok(index) => Ok(index),
            Err(why) => Err(why.into_error(FilterKind::Window, window_id)),
        }
    }

    /// The framework's display object with the given identifier. Objects
    /// are never handed out: filters are built through
    /// [`ShareableContent::create_display_content_filter`] instead.
    pub fn get_sc_display_by_id(&self, display_id: u32) -> (object: Option<ForeignHandle>)
        ensures
            object is None,
    {
        None
    }

    /// The framework's window object with the given identifier. Objects
    /// are never handed out: filters are built through
    /// [`ShareableContent::create_window_content_filter`] instead.
    pub fn get_sc_window_by_id(&self, window_id: u32) -> (object: Option<ForeignHandle>)
        ensures
            object is None,
    {
        None
    }
}

/// Number of displays among the first `upto` sources.
pub open spec fn display_count(sources: Seq<Source>, upto: nat) -> nat
    decreases upto,
{
    if upto == 0 {
        0
    } else if sources[upto - 1].is_display {
        display_count(sources, (upto - 1) as nat) + 1
    } else {
        display_count(sources, (upto - 1) as nat)
    }
}

/// View of the framework's list as it is passed in.
pub open spec fn option_list_view(objects: Option<&Vec<Option<u32>>>) -> Option<Seq<Option<u32>>> {
    match objects {
        Some(list) => Some(list@),
        None => None,
    }
}

/// Lists the capture sources of shareable content.
#[derive(Debug, Clone, Copy)]
pub struct ContentManager;

impl ContentManager {
    /// How many of the sources are displays; the others are windows.
    pub fn count_display_sources(sources: &Vec<ScreenSource>) -> (count: usize)
        ensures
            count == display_count(sources_view(sources@), sources.len() as nat),
    {
        let mut count: usize = 0;
        let mut i: usize = 0;
        while i < sources.len()
            invariant
                i <= sources.len(),
                count <= i,
                count == display_count(sources_view(sources@), i as nat),
            decreases sources.len() - i,
        {
            if sources[i].is_display {
                count = count + 1;
            }
            i = i + 1;
        }
        count
    }

    /// The sources offered for the content: one per display, in order,
    /// then one per window that has a title and is more than a hundred
    /// pixels wide and high, in order.
    pub fn extract_screen_sources(content: &ShareableContent) -> (sources: Vec<ScreenSource>)
        ensures
            sources_view(sources@) == sources_of(content@.displays, content@.windows),
    {
        let mut sources: Vec<ScreenSource> = Vec::new();
        let ghost displays = content@.displays;
        let ghost windows = content@.windows;
        let ghost offer = |d: Surface| d.as_display_source();
        let ghost list = |w: Surface| w.listed_window_source();
        let mut i: usize = 0;
        proof {
            assert(sources_view(sources@) =~= displays.take(0).map_values(offer));
        }
        while i < content.displays.len()
            invariant
                i <= content.displays.len(),
                displays == content@.displays,
                offer == |d: Surface| d.as_display_source(),
                sources_view(sources@) == displays.take(i as int).map_values(offer),
            decreases content.displays.len() - i,
        {
            let ghost before = sources@;
            let source = content.displays[i].to_source();
            sources.push(source);
            proof {
                assert(content.displays@[i as int]@ == displays[i as int]);
                assert(sources_view(sources@) =~= sources_view(before).push(source@));
                assert(displays.take(i + 1).map_values(offer) =~= displays.take(i as int).map_values(
                    offer,
                ).push(offer(displays[i as int])));
            }
            i = i + 1;
        }
        proof {
            assert(displays.take(i as int) =~= displays);
            assert(windows.take(0).filter_map(list) =~= Seq::<Source>::empty());
            assert(sources_view(sources@) =~= displays.map_values(offer) + windows.take(
                0,
            ).filter_map(list));
        }
        let mut j: usize = 0;
        while j < content.windows.len()
            invariant
                j <= content.windows.len(),
                displays == content@.displays,
                windows == content@.windows,
                offer == |d: Surface| d.as_display_source(),
                list == |w: Surface| w.listed_window_source(),
                sources_view(sources@) == displays.map_values(offer) + windows.take(
                    j as int,
                ).filter_map(list),
            decreases content.windows.len() - j,
        {
            let ghost before = sources@;
            proof {
                assert(content.windows@[j as int]@ == windows[j as int]);
                windows.lemma_filter_map_take_succ(list, j as int);
            }
            if content.windows[j].is_listed() {
                let source = content.windows[j].to_source();
                sources.push(source);
                proof {
                    assert(sources_view(sources@) =~= sources_view(before).push(source@));
                    assert(sources_view(sources@) =~= displays.map_values(offer) + (windows.take(
                        j as int,
                    ).filter_map(list) + seq![source@]));
                }
            } else {
                proof {
                    assert(windows.take(j as int).filter_map(list) + Seq::<Source>::empty() =~= windows.take(j as int).filter_map(list));
                }
            }
            j = j + 1;
        }
        proof {
            assert(windows.take(j as int) =~= windows);
        }
        sources
    }
}

} // verus!

//! Reading the system's window list.
//!
//! The system describes each on-screen window by a dictionary. The
//! embedding program copies the entries that matter into a
//! [`WindowRecord`], noting for each whether it was there and of the
//! expected type; the rules for turning records into windows are here.

use crate::surface::{Surface, WindowInfo, windows_view};
use vstd::prelude::*;
use vstd::string::*;

verus! {

/// Width assumed for a window whose bounds do not give one.
pub const DEFAULT_WINDOW_WIDTH: u32 = 800;

/// Height assumed for a window whose bounds do not give one.
pub const DEFAULT_WINDOW_HEIGHT: u32 = 600;

/// Smallest width and height of a window that is kept.
pub const MIN_WINDOW_EXTENT: u32 = 100;

/// One entry of a dictionary, looked up under a fixed key.
#[derive(Debug, PartialEq, Eq)]
pub enum Field<V> {
    /// The dictionary has no such key.
    Absent,
    /// The key is there, but its value is not of the expected type.
    Mistyped,
    /// The value under the key.
    Present(V),
}

/// The `kCGWindowBounds` dictionary of a window.
#[derive(Debug, PartialEq, Eq)]
pub struct BoundsRecord {
    /// `Width`, as a 32-bit integer.
    pub width: Field<i32>,
    /// `Height`, as a 32-bit integer.
    pub height: Field<i32>,
}

/// What the rules read from one window's dictionary.
#[derive(Debug, PartialEq, Eq)]
pub struct WindowRecord {
    /// `kCGWindowNumber`, as a 32-bit integer.
    pub number: Field<i32>,
    /// `kCGWindowName`.
    pub name: Field<String>,
    /// `kCGWindowOwnerName`.
    pub owner_name: Field<String>,
    /// `kCGWindowBounds`.
    pub bounds: Field<BoundsRecord>,
}

/// A window's dictionary as the contracts see it.
pub struct Record {
    pub number: Field<i32>,
    pub name: Field<Seq<char>>,
    pub owner_name: Field<Seq<char>>,
    pub bounds: Field<BoundsRecord>,
}

/// View of a text entry.
pub open spec fn text_field_view(field: Field<String>) -> Field<Seq<char>> {
    match field {
        Field::Absent => Field::Absent,
        Field::Mistyped => Field::Mistyped,
        Field::Present(text) => Field::Present(text@),
    }
}

impl View for WindowRecord {
    type V = Record;

    open spec fn view(&self) -> Record {
        Record {
            number: self.number,
            name: text_field_view(self.name),
            owner_name: text_field_view(self.owner_name),
            bounds: self.bounds,
        }
    }
}

/// A signed 32-bit number read as unsigned, bit for bit.
pub open spec fn reinterpreted(n: i32) -> u32 {
    if n >= 0 {
        n as u32
    } else {
        (n + 0x1_0000_0000) as u32
    }
}

/// A number entry read as unsigned, or `default` if it is not there.
pub open spec fn number_or(field: Field<i32>, default: u32) -> u32 {
    match field {
        Field::Present(n) => reinterpreted(n),
        _ => default,
    }
}

impl Record {
    /// The window's identifier: its number, or `fallback_id` without one.
    pub open spec fn window_id(self, fallback_id: u32) -> u32 {
        number_or(self.number, fallback_id)
    }

    /// The owner's name, or `Unknown Window` without one.
    pub open spec fn owner_title(self) -> Seq<char> {
        match self.owner_name {
            Field::Present(owner) => owner,
            _ => "Unknown Window"@,
        }
    }

    /// The window's title: its name if it has a non-empty one; the owner's
    /// name if the name is empty or absent; `Unknown Window` if the name
    /// is there but is not text.
    pub open spec fn title(self) -> Seq<char> {
        match self.name {
            Field::Present(name) => if name.len() > 0 {
                name
            } else {
                self.owner_title()
            },
            Field::Absent => self.owner_title(),
            Field::Mistyped => "Unknown Window"@,
        }
    }

    /// The window's width, 800 where the bounds give none.
    pub open spec fn width(self) -> u32 {
        match self.bounds {
            Field::Present(bounds) => number_or(bounds.width, DEFAULT_WINDOW_WIDTH),
            _ => DEFAULT_WINDOW_WIDTH,
        }
    }

    /// The window's height, 600 where the bounds give none.
    pub open spec fn height(self) -> u32 {
        match self.bounds {
            Field::Present(bounds) => number_or(bounds.height, DEFAULT_WINDOW_HEIGHT),
            _ => DEFAULT_WINDOW_HEIGHT,
        }
    }

    /// The window that the record describes, unless it has no title or is
    /// less than a hundred pixels wide or high.
    pub open spec fn window(self, fallback_id: u32) -> Option<Surface> {
        if self.title().len() == 0 || self.width() < MIN_WINDOW_EXTENT || self.height()
            < MIN_WINDOW_EXTENT {
            None
        } else {
            Some(
                Surface {
                    id: self.window_id(fallback_id),
                    label: self.title(),
                    width: self.width(),
                    height: self.height(),
                },
            )
        }
    }
}

/// The windows described by the first `count` entries of a listing, in
/// order. An entry that is no dictionary describes none; the fallback
/// identifier of an entry is its position.
pub open spec fn windows_among(listing: Seq<Option<Record>>, count: nat) -> Seq<Surface>
    decreases count,
{
    if count == 0 {
        Seq::empty()
    } else {
        let earlier = windows_among(listing, (count - 1) as nat);
        match listing[count - 1] {
            Some(record) => match record.window((count - 1) as u32) {
                Some(window) => earlier.push(window),
                None => earlier,
            },
            None => earlier,
        }
    }
}

/// Views of a listing's entries, in order.
pub open spec fn listing_view(listing: Seq<Option<WindowRecord>>) -> Seq<Option<Record>> {
    listing.map_values(
        |entry: Option<WindowRecord>|
            match entry {
                Some(record) => Some(record@),
                None => None,
            },
    )
}

/// The two windows reported when the system's list is unavailable or
/// yields nothing.
pub open spec fn fallback_windows() -> Seq<Surface> {
    seq![
        Surface { id: 1, label: "Desktop"@, width: 1920, height: 1080 },
        Surface { id: 2, label: "Finder"@, width: 800, height: 600 },
    ]
}

/// The windows reported for a listing: those that its entries describe,
/// or the fallback windows if there is no listing or it describes none.
pub open spec fn windows_reported(listing: Option<Seq<Option<Record>>>) -> Seq<Surface> {
    match listing {
        Some(entries) => {
            let found = windows_among(entries, entries.len());
            if found.len() == 0 {
                fallback_windows()
            } else {
                found
            }
        },
        None => fallback_windows(),
    }
}

fn reinterpret(n: i32) -> (u: u32)
    ensures
        u == reinterpreted(n),
{
    if n >= 0 {
        n as u32
    } else {
        (n as i64 + 0x1_0000_0000) as u32
    }
}

fn read_number(field: &Field<i32>, default: u32) -> (n: u32)
    ensures
        n == number_or(*field, default),
{
    match field {
        Field::Present(n) => reinterpret(*n),
        _ => default,
    }
}

fn owner_title(record: &WindowRecord) -> (title: String)
    ensures
        title@ == record@.owner_title(),
{
    match &record.owner_name {
        Field::Present(owner) => owner.clone(),
        _ => "Unknown Window".to_owned(),
    }
}

fn title_of(record: &WindowRecord) -> (title: String)
    ensures
        title@ == record@.title(),
{
    match &record.name {
        Field::Present(name) => {
            if !name.as_str().is_empty() {
                name.clone()
            } else {
                owner_title(record)
            }
        },
        Field::Absent => owner_title(record),
        Field::Mistyped => "Unknown Window".to_owned(),
    }
}

/// View of an optional window.
pub open spec fn optional_window_view(window: Option<WindowInfo>) -> Option<Surface> {
    match window {
        Some(info) => Some(info@),
        None => None,
    }
}

/// Reads one window out of its dictionary.
///
/// The identifier is the window number, or `fallback_id` if there is
/// none. The title is the window's name; an empty or absent name gives way
/// to the owner's name, and whatever is missing or not text becomes
/// `Unknown Window`. Width and height come from the bounds, 800 and 600
/// where they are missing. A window without a title, or less than a
/// hundred pixels wide or high, is left out.
pub fn extract_window_info_from_dict(window_dict: &WindowRecord, fallback_id: u32) -> (info:
    Option<WindowInfo>)
    ensures
        optional_window_view(info) == window_dict@.window(fallback_id),
{
    let window_id = read_number(&window_dict.number, fallback_id);
    let title = title_of(window_dict);
    let (width, height) = match &window_dict.bounds {
        Field::Present(bounds) => (
            read_number(&bounds.width, DEFAULT_WINDOW_WIDTH),
            read_number(&bounds.height, DEFAULT_WINDOW_HEIGHT),
        ),
        _ => (DEFAULT_WINDOW_WIDTH, DEFAULT_WINDOW_HEIGHT),
    };
    if title.as_str().is_empty() || width < MIN_WINDOW_EXTENT || height < MIN_WINDOW_EXTENT {
        None
    } else {
        Some(WindowInfo { id: window_id, title, width, height })
    }
}

/// The two windows reported when the system's list is unavailable or
/// yields nothing: the desktop and the file manager.
pub fn get_fallback_window_info() -> (windows: Vec<WindowInfo>)
    ensures
        windows_view(windows@) == fallback_windows(),
{
    let mut windows = Vec::new();
    windows.push(WindowInfo { id: 1, title: "Desktop".to_owned(), width: 1920, height: 1080 });
    windows.push(WindowInfo { id: 2, title: "Finder".to_owned(), width: 800, height: 600 });
    proof {
        assert(windows_view(windows@) =~= fallback_windows());
    }
    windows
}

/// Turns the system's window list into the windows to report.
///
/// `listing` is `None` if the system returned no list; an entry is `None`
/// if it is no dictionary. Entries are read in order, each with its
/// position as fallback identifier. If nothing comes of it, the fallback
/// windows are reported.
pub fn get_real_window_info(listing: Option<Vec<Option<WindowRecord>>>) -> (windows: Vec<
    WindowInfo,
>)
    ensures
        windows_view(windows@) == windows_reported(
            match listing {
                Some(entries) => Some(listing_view(entries@)),
                None => None,
            },
        ),
{
    let entries = match listing {
        Some(entries) => entries,
        None => {
            return get_fallback_window_info();
        },
    };
    let mut windows: Vec<WindowInfo> = Vec::new();
    let mut i: usize = 0;
    while i < entries.len()
        invariant
            i <= entries.len(),
            windows_view(windows@) == windows_among(listing_view(entries@), i as nat),
        decreases entries.len() - i,
    {
        let ghost before = windows@;
        match &entries[i] {
            Some(record) => {
                match extract_window_info_from_dict(record, #[verifier::truncate] (i as u32)) {
                    Some(info) => {
                        windows.push(info);
                        proof {
                            assert(windows_view(windows@) =~= windows_view(before).push(info@));
                        }
                    },
                    None => {},
                }
            },
            None => {},
        }
        i = i + 1;
    }
    if windows.len() == 0 {
        get_fallback_window_info()
    } else {
        windows
    }
}

} // verus!

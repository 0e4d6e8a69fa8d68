//! Reading the system's list of active displays.

use crate::surface::{DisplayInfo, Surface};
use crate::text::{decimal, numbered};
use vstd::prelude::*;

verus! {

/// Most displays that the system is asked to list.
pub const MAX_DISPLAYS: u32 = 32;

/// Name under which the display at the given position of the list is
/// reported: the first is the built-in one, the others are numbered from 2.
pub open spec fn display_label(index: u32) -> Seq<char> {
    if index == 0 {
        "Built-in Display"@
    } else {
        "Display "@ + decimal((index + 1) as nat)
    }
}

/// Low 32 bits of a pixel count.
pub open spec fn extent(pixels: usize) -> u32 {
    (pixels as int % 0x1_0000_0000) as u32
}

/// The display at position `index` of a list of `listed` displays that the
/// system returned with `status`: there is one only if the status is zero
/// and the position lies within the list.
pub open spec fn display_at(
    status: i32,
    listed: u32,
    index: u32,
    display_id: u32,
    pixels_wide: usize,
    pixels_high: usize,
) -> Option<Surface> {
    if status == 0 && index < listed {
        Some(
            Surface {
                id: display_id,
                label: display_label(index),
                width: extent(pixels_wide),
                height: extent(pixels_high),
            },
        )
    } else {
        None
    }
}

/// View of an optional display.
pub open spec fn optional_display_view(display: Option<DisplayInfo>) -> Option<Surface> {
    match display {
        Some(info) => Some(info@),
        None => None,
    }
}

/// Number of displays to ask about: what the system counted if its status
/// is zero, and else one, so that at least one display is tried.
pub fn get_display_count_safe(status: i32, counted: u32) -> (count: u32)
    ensures
        count == if status == 0 {
            counted
        } else {
            1
        },
{
    if status == 0 {
        counted
    } else {
        1
    }
}

/// Name of the display at the given position of the list.
pub fn display_name(index: u32) -> (name: String)
    ensures
        name@ == display_label(index),
{
    if index == 0 {
        "Built-in Display".to_owned()
    } else {
        numbered("Display ", index as u64 + 1)
    }
}

fn low_bits(pixels: usize) -> (low: u32)
    ensures
        low == extent(pixels),
{
    (pixels as u64 % 0x1_0000_0000) as u32
}

/// The display at position `index` of the system's list.
///
/// `status` and `listed` are what the system returned for the list,
/// `display_id` the identifier at that position, and the pixel counts the
/// display's size. Sizes keep their low 32 bits.
pub fn get_display_info_safe(
    status: i32,
    listed: u32,
    index: u32,
    display_id: u32,
    pixels_wide: usize,
    pixels_high: usize,
) -> (info: Option<DisplayInfo>)
    ensures
        optional_display_view(info) == display_at(
            status,
            listed,
            index,
            display_id,
            pixels_wide,
            pixels_high,
        ),
{
    if status == 0 && index < listed {
        Some(
            DisplayInfo {
                id: display_id,
                name: display_name(index),
                width: low_bits(pixels_wide),
                height: low_bits(pixels_high),
            },
        )
    } else {
        None
    }
}

} // verus!

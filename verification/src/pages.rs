//! The pages, in the order of the tab bar and with their sub-pages.

use crate::app::PageId;
use crate::components::{centered_column, column};
use crate::geometry::Rect;
use vstd::prelude::*;

pub mod account;
pub mod logs;
pub mod ownership;
pub mod select_location;
pub mod select_location_filter;
pub mod settings;
pub mod status;

verus! {

/// Whether `page` takes the whole body.
pub open spec fn takes_the_body(page: PageId) -> bool {
    page == PageId::Status || page == PageId::Logs
}

/// The part of the body `area` that `page` is drawn in.
pub open spec fn part_of_body(page: PageId, area: Rect, width: u16) -> Rect {
    if takes_the_body(page) {
        area
    } else {
        column(area, width)
    }
}

/// The area that `page` is drawn in: all of the body `area` for Status and Logs,
/// and a column of `width` cells in the middle of it for every other page.
pub fn page_area(page: PageId, area: Rect, width: u16) -> (r: Rect)
    requires
        area.x + area.width <= u16::MAX,
    ensures
        r == part_of_body(page, area, width),
{
    match page {
        PageId::Status => area,
        PageId::Logs => area,
        _ => centered_column(area, width),
    }
}

/// The Status and Logs pages have the whole body; every other page has a column in
/// its middle, as high as the body and no wider than asked.
pub proof fn pages_have_their_part_of_the_body(page: PageId, area: Rect, width: u16)
    requires
        area.x + area.width <= u16::MAX,
    ensures
        ({
            let part = part_of_body(page, area, width);
            let left = part.x - area.x;
            let right = area.x + area.width - (part.x + part.width);
            &&& part.y == area.y && part.height == area.height
            &&& page == PageId::Status || page == PageId::Logs ==> part == area
            &&& page != PageId::Status && page != PageId::Logs ==> part.width == (if width
                < area.width {
                width
            } else {
                area.width
            }) && 0 <= left <= right <= left + 1
        }),
{
}


} // verus!

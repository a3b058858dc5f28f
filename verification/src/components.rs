//! Small pieces that several pages share: glyphs, labels and placement.

use crate::geometry::{on_screen, Rect};
use vstd::prelude::*;

verus! {

// ---- Glyphs and labels ----

/// A radio button.
pub open spec fn radio(selected: bool) -> Seq<char> {
    if selected {
        "(•)"@
    } else {
        "( )"@
    }
}

/// A radio button.
pub fn radio_glyph(selected: bool) -> (r: &'static str)
    ensures
        r@ == radio(selected),
{
    if selected {
        "(•)"
    } else {
        "( )"
    }
}

/// A checkbox.
pub open spec fn checkbox(checked: bool) -> Seq<char> {
    if checked {
        "[x]"@
    } else {
        "[ ]"@
    }
}

/// A checkbox.
pub fn checkbox_glyph(checked: bool) -> (r: &'static str)
    ensures
        r@ == checkbox(checked),
{
    if checked {
        "[x]"
    } else {
        "[ ]"
    }
}

/// A chevron: up on what is open, down on what is closed.
pub open spec fn chevron(open: bool) -> Seq<char> {
    if open {
        "▲"@
    } else {
        "▼"@
    }
}

/// A chevron: up on what is open, down on what is closed.
pub fn chevron_glyph(open: bool) -> (r: &'static str)
    ensures
        r@ == chevron(open),
{
    if open {
        "▲"
    } else {
        "▼"
    }
}

/// `On` or `Off`.
pub open spec fn on_off(value: bool) -> Seq<char> {
    if value {
        "On"@
    } else {
        "Off"@
    }
}

/// `On` or `Off`.
pub fn on_off_label(value: bool) -> (r: &'static str)
    ensures
        r@ == on_off(value),
{
    if value {
        "On"
    } else {
        "Off"
    }
}

/// What stands between the brackets of a checkbox.
pub open spec fn check_mark(checked: bool) -> Seq<char> {
    if checked {
        "x"@
    } else {
        " "@
    }
}

/// What stands between the brackets of a checkbox: as a button, it reads `[x]`
/// or `[ ]`.
pub fn checkbox_label(checked: bool) -> (r: &'static str)
    ensures
        r@ == check_mark(checked),
{
    if checked {
        "x"
    } else {
        " "
    }
}

// ---- Placement ----

/// The smaller of two lengths.
pub open spec fn least(a: u16, b: u16) -> u16 {
    if a < b {
        a
    } else {
        b
    }
}

/// The larger of two lengths.
pub open spec fn most(a: u16, b: u16) -> u16 {
    if a < b {
        b
    } else {
        a
    }
}

/// `a - b`, or 0 where `b` is larger.
pub open spec fn less(a: u16, b: u16) -> u16 {
    if a > b {
        (a - b) as u16
    } else {
        0
    }
}

/// The smaller of two lengths.
pub fn min_of(a: u16, b: u16) -> (r: u16)
    ensures
        r == least(a, b),
{
    if a < b {
        a
    } else {
        b
    }
}

/// The larger of two lengths.
pub fn max_of(a: u16, b: u16) -> (r: u16)
    ensures
        r == most(a, b),
{
    if a < b {
        b
    } else {
        a
    }
}

/// `a - b`, or 0 where `b` is larger.
pub fn minus(a: u16, b: u16) -> (r: u16)
    ensures
        r == less(a, b),
{
    if a > b {
        a - b
    } else {
        0
    }
}

/// One row of `width` cells in the middle of the first row of `area`; all of
/// that row if `width` is more than it has.
pub open spec fn centered(area: Rect, width: u16) -> Rect {
    let w = least(width, area.width);
    Rect {
        x: (area.x + (area.width - w) / 2) as u16,
        y: area.y,
        width: w,
        height: least(area.height, 1),
    }
}

/// One row of `width` cells in the middle of the first row of `area`; all of
/// that row if `width` is more than it has.
pub fn centered_horizontal(area: Rect, width: u16) -> (r: Rect)
    requires
        on_screen(area),
    ensures
        r == centered(area, width),
{
    let w: u16 = min_of(width, area.width);
    Rect { x: area.x + (area.width - w) / 2, y: area.y, width: w, height: min_of(area.height, 1) }
}

/// A column of `width` cells in the middle of `area`, as high as it; all of
/// `area` if `width` is more than it has.
pub open spec fn column(area: Rect, width: u16) -> Rect {
    let w = least(width, area.width);
    Rect { x: (area.x + (area.width - w) / 2) as u16, width: w, ..area }
}

/// A column of `width` cells in the middle of `area`, as high as it; all of
/// `area` if `width` is more than it has.
pub fn centered_column(area: Rect, width: u16) -> (r: Rect)
    requires
        area.x + area.width <= u16::MAX,
    ensures
        r == column(area, width),
{
    let w: u16 = min_of(width, area.width);
    Rect { x: area.x + (area.width - w) / 2, y: area.y, width: w, height: area.height }
}

/// `area` without its last column where `rows` rows do not fit `capacity`, and
/// that column, for a scrollbar.
pub open spec fn beside_scrollbar(area: Rect, rows: int, capacity: int) -> (Rect, Option<Rect>) {
    if rows > capacity && area.width > 0 {
        (
            Rect { width: (area.width - 1) as u16, ..area },
            Some(Rect { x: (area.x + area.width - 1) as u16, width: 1, ..area }),
        )
    } else {
        (area, None)
    }
}

/// `area` without its last column where `rows` rows do not fit `capacity`, and
/// that column, for a scrollbar.
pub fn split_for_vertical_scrollbar(area: Rect, rows: usize, capacity: usize) -> (r: (
    Rect,
    Option<Rect>,
))
    requires
        on_screen(area),
    ensures
        r == beside_scrollbar(area, rows as int, capacity as int),
{
    if rows > capacity && area.width > 0 {
        (
            Rect { x: area.x, y: area.y, width: area.width - 1, height: area.height },
            Some(
                Rect {
                    x: area.x + area.width - 1,
                    y: area.y,
                    width: 1,
                    height: area.height,
                },
            ),
        )
    } else {
        (area, None)
    }
}

// ---- What holds of the areas ----

/// A part that is centred lies inside its area, is as wide as asked where there is
/// room, and has as much to its left as to its right, give or take a cell.
pub proof fn centred_parts_are_in_the_middle(area: Rect, width: u16)
    requires
        area.x + area.width <= u16::MAX,
    ensures
        ({
            let one = centered(area, width);
            let all = column(area, width);
            let left = one.x - area.x;
            let right = area.x + area.width - (one.x + one.width);
            &&& one.width == if width < area.width {
                width
            } else {
                area.width
            }
            &&& 0 <= left <= right <= left + 1
            &&& one.y == area.y
            &&& one.height == if area.height > 0 {
                1u16
            } else {
                0u16
            }
            &&& all.x == one.x && all.width == one.width
            &&& all.y == area.y && all.height == area.height
        }),
{
}

/// There is a scrollbar exactly where not all rows fit: it takes the last column,
/// and the rows have the others.
pub proof fn scrollbars_take_the_last_column(area: Rect, rows: int, capacity: int)
    requires
        area.x + area.width <= u16::MAX,
    ensures
        ({
            let (content, bar) = beside_scrollbar(area, rows, capacity);
            &&& bar is Some <==> rows > capacity && area.width > 0
            &&& content.x == area.x && content.y == area.y && content.height == area.height
            &&& bar is None ==> content.width == area.width
            &&& bar is Some ==> {
                &&& content.width + 1 == area.width
                &&& bar->0.width == 1
                &&& bar->0.x == content.x + content.width
                &&& bar->0.y == area.y && bar->0.height == area.height
            }
        }),
{
}

} // verus!

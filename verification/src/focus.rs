//! Focusable widgets: their identifiers, their kinds, and the id ranges that
//! hold one id per row of a list.

use vstd::prelude::*;

verus! {

/// Identifies one focusable widget, across all pages.
#[derive(Clone, Copy, Debug, PartialEq, Eq, Structural)]
pub struct WidgetId(pub u32);

/// How the focus engine treats a widget.
#[derive(Clone, Copy, Debug, PartialEq, Eq, Structural)]
pub enum FocusKind {
    Button,
    Toggle,
    SelectOption,
    TextInput,
}

/// An arrow key.
#[derive(Clone, Copy, Debug, PartialEq, Eq, Structural)]
pub enum ArrowDir {
    Up,
    Down,
    Left,
    Right,
}

/// The position of `widget` in the range of `max` ids that starts at `base`.
pub open spec fn index_in(widget: WidgetId, base: u32, max: u32) -> Option<usize> {
    if base <= widget.0 && widget.0 < base + max {
        Some((widget.0 - base) as usize)
    } else {
        None
    }
}

/// The id of row `index` in the range of `max` ids that starts at `base`; rows
/// past the range have none.
pub open spec fn id_in(index: int, base: u32, max: u32) -> Option<WidgetId> {
    if 0 <= index < max {
        Some(WidgetId((base + index) as u32))
    } else {
        None
    }
}

/// Decode `widget` into its row in the range of `max` ids that starts at `base`.
pub fn decode(widget: WidgetId, base: u32, max: u32) -> (r: Option<usize>)
    requires
        base + max <= u32::MAX,
    ensures
        r == index_in(widget, base, max),
{
    let id: u32 = widget.0;
    if id >= base && id < base + max {
        Some((id - base) as usize)
    } else {
        None
    }
}

/// The id of row `index`, or none when the row is past the range.
pub fn row_id_or_none(index: usize, max: u32, base: u32) -> (r: Option<WidgetId>)
    requires
        base + max <= u32::MAX,
    ensures
        r == id_in(index as int, base, max),
{
    if index < max as usize {
        Some(WidgetId(base + index as u32))
    } else {
        None
    }
}

/// Whether `focused` is the widget `id`.
pub fn is_focused(focused: Option<WidgetId>, id: WidgetId) -> (r: bool)
    ensures
        r == (focused == Some(id)),
{
    match focused {
        Some(f) => f == id,
        None => false,
    }
}

/// Decoding the id of a row gives the row back.
pub proof fn row_id_decodes(index: int, base: u32, max: u32)
    requires
        base + max <= u32::MAX,
        0 <= index < max,
    ensures
        index_in(id_in(index, base, max)->0, base, max) == Some(index as usize),
{
}

/// The id of a decoded row is the widget that was decoded.
pub proof fn decoded_row_has_the_id(widget: WidgetId, base: u32, max: u32)
    requires
        base + max <= u32::MAX,
        index_in(widget, base, max) is Some,
    ensures
        id_in(index_in(widget, base, max)->0 as int, base, max) == Some(widget),
{
}

/// Ranges that do not overlap share no widget.
pub proof fn separate_ranges_share_no_widget(
    widget: WidgetId,
    base: u32,
    max: u32,
    other_base: u32,
    other_max: u32,
)
    requires
        base + max <= other_base,
    ensures
        !(index_in(widget, base, max) is Some && index_in(widget, other_base, other_max) is Some),
{
}

} // verus!

//! Rows that several Settings pages share.

use crate::components::{
    check_mark, checkbox_label, less, minus, on_off, on_off_label,
};
use crate::focus::WidgetId;
use crate::geometry::{on_screen, rect, Rect};
use crate::scene::{button_op, label_op, OpView, Scene};
use crate::text::{cat, owned};
use vstd::prelude::*;
use vstd::utf8::is_ascii_chars;

verus! {

/// `Status: Off          [ ]`, with the checkbox as the row's button.
pub open spec fn status_toggle_ops(
    area: Rect,
    enabled: bool,
    id: WidgetId,
    focused: Option<WidgetId>,
) -> Seq<OpView> {
    let width = less(area.width, 4);
    seq![
        label_op(rect(area.x, area.y, width, 1), "Status: "@ + on_off(enabled)),
        button_op(
            rect((area.x + width + 1) as u16, area.y, 3, 1),
            check_mark(enabled),
            id,
            focused,
        ),
        OpView::EndRow,
    ]
}

/// `Status: Off          [ ]`, with the checkbox as the row's button.
pub(crate) fn render_status_toggle_row(
    area: Rect,
    enabled: bool,
    id: WidgetId,
    focused: Option<WidgetId>,
) -> (scene: Scene)
    requires
        on_screen(area),
    ensures
        scene@ == status_toggle_ops(area, enabled, id, focused),
{
    let width: u16 = minus(area.width, 4);
    let mut scene = Scene::new();
    let text = cat("Status: ", on_off_label(enabled));
    scene.label(Rect::new(area.x, area.y, width, 1), text.as_str());
    scene.button(
        Rect::new(area.x + width + 1, area.y, 3, 1),
        checkbox_label(enabled),
        id,
        focused,
    );
    scene.end_row();
    assert(scene@ =~= status_toggle_ops(area, enabled, id, focused));
    scene
}

/// `[label]     value`: a button, and at the right end a value if there is room
/// for it.
pub open spec fn menu_button_ops(
    area: Rect,
    label: Seq<char>,
    value: Option<Seq<char>>,
    id: WidgetId,
    focused: Option<WidgetId>,
) -> Seq<OpView> {
    let width = (label.len() + 2) as u16;
    let button = seq![button_op(rect(area.x, area.y, width, 1), label, id, focused)];
    let shown = match value {
        Some(v) => if area.width > width + v.len() + 1 {
            seq![
                label_op(
                    rect((area.x + area.width - v.len()) as u16, area.y, v.len() as u16, 1),
                    v,
                ),
            ]
        } else {
            Seq::empty()
        },
        None => Seq::empty(),
    };
    (button + shown).push(OpView::EndRow)
}

/// Whether `text` is one of the page's own: ASCII, and short enough for its
/// width to be a coordinate.
pub open spec fn is_label(text: Seq<char>) -> bool {
    is_ascii_chars(text) && text.len() < 1000
}

/// An optional text.
pub open spec fn str_view(s: Option<&str>) -> Option<Seq<char>> {
    match s {
        Some(s) => Some(s@),
        None => None,
    }
}

/// `[label]     value`: a button, and at the right end a value if there is room
/// for it.
pub(crate) fn render_menu_button(
    area: Rect,
    label: &str,
    right_value: Option<&str>,
    id: WidgetId,
    focused: Option<WidgetId>,
) -> (scene: Scene)
    requires
        on_screen(area),
        is_label(label@),
        right_value is Some ==> is_label(right_value->0@),
    ensures
        scene@ == menu_button_ops(area, label@, str_view(right_value), id, focused),
{
    let width: u16 = (label.unicode_len() + 2) as u16;
    let mut scene = Scene::new();
    scene.button(Rect::new(area.x, area.y, width, 1), label, id, focused);
    if let Some(value) = right_value {
        let value_width: u16 = value.unicode_len() as u16;
        if area.width > width + value_width + 1 {
            let x: u16 = area.x + (area.width - value_width);
            scene.label(Rect::new(x, area.y, value_width, 1), value);
        }
    }
    scene.end_row();
    assert(scene@ =~= menu_button_ops(area, label@, str_view(right_value), id, focused));
    scene
}

/// A list row `label  [Remove]`; without its button where `id` is none.
pub open spec fn remove_row_ops(
    area: Rect,
    label: Seq<char>,
    id: Option<WidgetId>,
    focused: Option<WidgetId>,
) -> Seq<OpView> {
    match id {
        Some(id) => {
            let width = less(area.width, 9);
            seq![
                label_op(rect(area.x, area.y, width, 1), label),
                button_op(
                    rect((area.x + width + 1) as u16, area.y, 8, 1),
                    "Remove"@,
                    id,
                    focused,
                ),
                OpView::EndRow,
            ]
        },
        None => seq![label_op(area, label)],
    }
}

/// A list row `label  [Remove]`; without its button where `id` is none.
pub(crate) fn render_remove_row(
    area: Rect,
    label: &str,
    id: Option<WidgetId>,
    focused: Option<WidgetId>,
) -> (scene: Scene)
    requires
        on_screen(area),
    ensures
        scene@ == remove_row_ops(area, label@, id, focused),
{
    let mut scene = Scene::new();
    match id {
        Some(id) => {
            let width: u16 = minus(area.width, 9);
            scene.label(Rect::new(area.x, area.y, width, 1), label);
            scene.button(Rect::new(area.x + width + 1, area.y, 8, 1), "Remove", id, focused);
            scene.end_row();
        },
        None => {
            scene.label(area, label);
        },
    }
    assert(scene@ =~= remove_row_ops(area, label@, id, focused));
    scene
}

} // verus!

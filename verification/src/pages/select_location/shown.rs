//! What the page draws of a row and around the rows, said of the settings and of
//! the row itself.

use crate::app::select_location::{NodeKind, PageStateView};
use crate::app::{App, SelectionView};
use crate::focus::{FocusKind, WidgetId};
use crate::geometry::{
    divides_into_columns, fills, fits, grants, growing, right_beside, total, Rect,
};
use crate::pages::select_location::picking::{
    edited_end, has_two_ends, is_place_of, is_the_other_end, selections_come_from_the_settings,
    set_to,
};
use crate::pages::select_location::rows::{
    chevron_of, radio_of, sliding_offset, RowKindView, RowView,
};
use crate::pages::select_location::view::{
    daita_override_message, draws_and_registers, draws_body, draws_page, draws_row,
    draws_search_row, draws_tabs, draws_tree, field_columns,
    offset_for, register_row_ops, search_columns, search_ops, state_after_frame, taken_selection,
};
use crate::pages::select_location::{effective, is_chevron, is_own, is_tree_row, widgets};
use crate::pages::settings::shown::{is_button, reads};
use crate::scene::{Color, OpView};
use crate::text::spaces;
use vstd::prelude::*;

verus! {

/// What a row is called: a place by its name, a relay by its hostname.
pub open spec fn called(row: RowView) -> Seq<char> {
    match row.kind {
        RowKindView::Country { name, .. } => name,
        RowKindView::City { name, .. } => name,
        RowKindView::Relay { hostname } => hostname,
    }
}

/// How far a row stands in: cities inside countries, relays inside cities.
pub open spec fn depth(row: RowView) -> nat {
    match row.kind {
        RowKindView::Country { .. } => 0,
        RowKindView::City { .. } => 2,
        RowKindView::Relay { .. } => 4,
    }
}

/// Whether a row is open; a relay is not.
pub open spec fn is_open(row: RowView) -> bool {
    match row.kind {
        RowKindView::Country { expanded, .. } => expanded,
        RowKindView::City { expanded, .. } => expanded,
        RowKindView::Relay { .. } => false,
    }
}

/// Whether the end that the page edits is set to the very place that a row shows.
pub open spec fn is_set(app: App, row: RowView) -> bool {
    match set_to(app, edited_end(app)) {
        Some(c) => is_place_of(c, row),
        None => false,
    }
}

/// A row shows its name, the mark of the place that the edited end is set to, and
/// no other mark; it is yellow with the focus, and else grey where the place
/// belongs to the other end. A place that can be opened shows which way.
pub proof fn rows_show_what_is_set(
    ops: Seq<OpView>,
    area: Rect,
    row: RowView,
    app: App,
)
    requires
        area.height > 0,
        draws_row(
            ops,
            area,
            row,
            app.selection(effective(app)),
            taken_selection(app, effective(app)),
            app.focused,
        ),
    ensures
        ops.len() == if row.kind is Relay {
            1int
        } else {
            2int
        },
        reads(
            ops[0],
            spaces(depth(row)) + (if is_set(app, row) {
                "(•)"@
            } else {
                "( )"@
            }) + " "@ + called(row),
        ),
        ops[0]->Text_style.fg == if radio_of(row) is Some && app.focused == radio_of(row) {
            Some(Color::Yellow)
        } else if is_the_other_end(app, row) {
            Some(Color::DarkGray)
        } else {
            None
        },
        !(row.kind is Relay) ==> reads(
            ops[1],
            "["@ + (if is_open(row) {
                "▲"@
            } else {
                "▼"@
            }) + "]"@,
        ),
{
    selections_come_from_the_settings(app, NodeKind::Entry);
    selections_come_from_the_settings(app, NodeKind::Exit);
    reveal_strlit("    ");
    assert(spaces(4) =~= "    "@);
}

/// The whole of a row picks it; the cells at its end, on a row that can be opened,
/// open or close it.
pub proof fn rows_take_the_focus_and_the_click(row: RowView, area: Rect)
    requires
        area.x + area.width <= u16::MAX,
        area.y + area.height <= u16::MAX,
    ensures
        ({
            let ops = register_row_ops(row, area);
            &&& radio_of(row) is Some ==> ops.contains(
                OpView::Register { id: radio_of(row)->0, area, kind: FocusKind::SelectOption },
            )
            &&& area.height > 0 && area.width >= 3 && chevron_of(row) is Some ==> ops.contains(
                OpView::ClickTarget {
                    id: chevron_of(row)->0,
                    area: Rect {
                        x: (area.x + area.width - 3) as u16,
                        y: area.y,
                        width: 3,
                        height: 1,
                    },
                },
            )
            &&& row.kind is Relay ==> chevron_of(row) is None
        }),
{
    let ops = register_row_ops(row, area);
    if radio_of(row) is Some {
        assert(ops[0] == (OpView::Register {
            id: radio_of(row)->0,
            area,
            kind: FocusKind::SelectOption,
        }));
    }
    if area.height > 0 && area.width >= 3 && chevron_of(row) is Some {
        let target = OpView::ClickTarget {
            id: chevron_of(row)->0,
            area: Rect { x: (area.x + area.width - 3) as u16, y: area.y, width: 3, height: 1 },
        };
        let at: int = if radio_of(row) is Some {
            1
        } else {
            0
        };
        assert(ops[at] == target);
    }
}

/// The tab of the end that is edited is underlined, and the other is not.
pub proof fn the_tab_of_the_edited_end_is_underlined(
    ops: Seq<OpView>,
    area: Rect,
    active: NodeKind,
    focused: Option<WidgetId>,
)
    requires
        draws_tabs(ops, area, active, focused),
    ensures
        ops.len() == 5,
        reads(ops[0], "[Entry]"@),
        ops[1] is Register && ops[1]->Register_id == WidgetId(widgets::ENTRY_TAB)
            && ops[1]->Register_area == ops[0]->Text_area,
        reads(ops[2], "[Exit]"@),
        ops[3] is Register && ops[3]->Register_id == WidgetId(widgets::EXIT_TAB)
            && ops[3]->Register_area == ops[2]->Text_area,
        ops[0]->Text_style.add_modifier != 0 <==> active == NodeKind::Entry,
        ops[2]->Text_style.add_modifier != 0 <==> active == NodeKind::Exit,
        ops[0]->Text_style.fg == Some(Color::Yellow) <==> focused == Some(
            WidgetId(widgets::ENTRY_TAB),
        ),
        ops[2]->Text_style.fg == Some(Color::Yellow) <==> focused == Some(
            WidgetId(widgets::EXIT_TAB),
        ),
{
}

/// There are tabs exactly where there are two ends.
pub proof fn two_ends_have_tabs(ops: Seq<OpView>, area: Rect, app: App, after: PageStateView)
    requires
        draws_page(ops, area, app, after),
    ensures
        ({
            let tabs = ops.len() > 1 && ops[1] is Register && ops[1]->Register_id == WidgetId(
                widgets::ENTRY_TAB,
            );
            tabs <==> has_two_ends(app)
        }),
{
    if !has_two_ends(app) {
        assert(draws_body(ops, area, app, after));
    }
}

/// Where the daemon picks the entry by itself, the page for the entry says so in
/// place of the tree, and nothing of it changes.
pub proof fn an_entry_that_daita_picks_is_not_offered(
    ops: Seq<OpView>,
    area: Rect,
    app: App,
    after: PageStateView,
)
    requires
        draws_body(ops, area, app, after),
    ensures
        ({
            let picked = match app.settings {
                Some(s) => s.daita.enabled && s.daita.use_multihop_if_necessary,
                None => false,
            };
            let says_so = ops.len() == 1 && reads(ops[0], daita_override_message());
            &&& says_so <==> picked && edited_end(app) == NodeKind::Entry
            &&& says_so ==> after == (PageStateView {
                node_mode: edited_end(app),
                ..app.select_location_state@
            })
        }),
{
}

/// The search line shows what was typed, and a hint where nothing was and nothing
/// is being typed; beside it stands the filter button.
pub proof fn the_search_line_shows_the_query(
    ops: Seq<OpView>,
    area: Rect,
    query: Seq<char>,
    focused: Option<WidgetId>,
)
    requires
        draws_search_row(ops, area, query, focused),
    ensures
        ({
            let typing = focused == Some(WidgetId(widgets::SEARCH_ANCHOR));
            let shown = ops[1]->text[0];
            &&& ops.len() == 6
            &&& ops[1] is Text && ops[1]->text.len() == 1
            &&& shown[0] is Styled
            &&& shown[0]->Styled_content == if typing || query.len() > 0 {
                query
            } else {
                "Filter location list (/ to focus)"@
            }
            &&& shown.len() == 2 && shown[1] is Cursor <==> typing
            &&& ops[3] is Register && ops[3]->Register_id == WidgetId(widgets::SEARCH_ANCHOR)
            &&& is_button(ops[4], widgets::FILTER_BUTTON)
        }),
{
}

// ---- Scrolling ----

/// A frame notes what was drawn and where the focus was, and moves the window of
/// the end that is edited; all else stays.
pub proof fn a_frame_moves_only_the_window(
    state: PageStateView,
    rows: Seq<RowView>,
    focused: Option<WidgetId>,
    capacity: usize,
)
    requires
        rows.len() <= usize::MAX,
    ensures
        ({
            let after = state_after_frame(state, rows, focused, capacity as int);
            &&& after.query == state.query
            &&& after.node_mode == state.node_mode
            &&& after.rows == rows.len()
            &&& after.capacity == capacity
            &&& after.observed_focus == focused
            &&& !after.center_focused
            &&& after.user_scrolled <==> state.user_scrolled && state.observed_focus == focused
            &&& state.node_mode == NodeKind::Exit ==> after.entry == state.entry
                && after.exit.countries == state.exit.countries && after.exit.cities
                == state.exit.cities
            &&& state.node_mode == NodeKind::Entry ==> after.exit == state.exit
                && after.entry.countries == state.entry.countries && after.entry.cities
                == state.entry.cities
        }),
{
}

/// A window that the user scrolled stays where it is, as long as the focus does,
/// but never past the end of the list; a window that is to be centred is, and any
/// other follows the focus.
pub proof fn a_scrolled_window_stays(
    state: PageStateView,
    focus: Option<int>,
    rows: int,
    capacity: int,
)
    requires
        0 <= rows,
        0 < capacity,
        focus is Some ==> 0 <= focus->0 < rows,
    ensures
        ({
            let current = if state.node_mode == NodeKind::Exit {
                state.exit.scroll_offset as int
            } else {
                state.entry.scroll_offset as int
            };
            let offset = offset_for(state, focus, rows, capacity);
            &&& !state.center_focused && state.user_scrolled && current + capacity <= rows
                ==> offset == current
            &&& !state.center_focused && state.user_scrolled && current + capacity > rows
                ==> offset == if rows > capacity {
                rows - capacity
            } else {
                0
            }
            &&& state.center_focused && focus is Some && rows > capacity ==> {
                ||| offset == focus->0 - capacity / 2
                ||| offset == 0 && focus->0 < capacity / 2
                ||| offset == rows - capacity && focus->0 - capacity / 2 > offset
            }
            &&& !state.center_focused && !state.user_scrolled ==> offset == sliding_offset(
                current,
                focus,
                rows,
                capacity,
            )
        }),
{
}

/// The radio of a row is a widget of the tree, its chevron is a chevron, and no
/// widget is both.
pub proof fn radios_and_chevrons_are_told_apart(row: RowView, widget: WidgetId)
    ensures
        radio_of(row) == Some(widget) ==> is_tree_row(widget) && is_own(widget),
        chevron_of(row) == Some(widget) ==> is_chevron(widget) && is_own(widget),
        !(is_tree_row(widget) && is_chevron(widget)),
        is_tree_row(widget) || is_chevron(widget) ==> widget != WidgetId(widgets::SEARCH_ANCHOR)
            && widget != WidgetId(widgets::FILTER_BUTTON) && widget != WidgetId(widgets::ENTRY_TAB)
            && widget != WidgetId(widgets::EXIT_TAB),
        is_own(widget) ==> is_tree_row(widget) || is_chevron(widget) || widget == WidgetId(
            widgets::SEARCH_ANCHOR,
        ) || widget == WidgetId(widgets::FILTER_BUTTON) || widget == WidgetId(widgets::ENTRY_TAB)
            || widget == WidgetId(widgets::EXIT_TAB),
{
}

/// A row in the window is drawn in its place there; a row outside of it draws
/// nothing, and takes the focus only.
pub proof fn only_rows_in_the_window_are_drawn(
    ops: Seq<OpView>,
    rows: Seq<RowView>,
    i: int,
    offset: int,
    areas: Seq<Rect>,
    selection: SelectionView,
    taken: Option<SelectionView>,
    focused: Option<WidgetId>,
)
    requires
        draws_and_registers(ops, rows, i, offset, areas, selection, taken, focused),
        0 <= offset,
        0 <= i < rows.len(),
    ensures
        offset <= i < offset + areas.len() && areas[i - offset].height > 0 ==> ops.len() > 0
            && ops[0] is Text && (radio_of(rows[i]) is Some ==> exists|q: int|
            0 <= q < ops.len() && #[trigger] ops[q] == (OpView::Register {
                id: radio_of(rows[i])->0,
                area: areas[i - offset],
                kind: FocusKind::SelectOption,
            })),
        !(offset <= i < offset + areas.len()) ==> forall|q: int|
            0 <= q < ops.len() ==> !((#[trigger] ops[q]) is Text) && !(ops[q] is ClickTarget),
{
    if offset <= i < offset + areas.len() && areas[i - offset].height > 0 {
        let area = areas[i - offset];
        let drawn = choose|drawn: Seq<OpView>|
            #[trigger] draws_row(drawn, area, rows[i], selection, taken, focused) && ops == drawn
                + register_row_ops(rows[i], area);
        assert(drawn.len() > 0);
        assert(ops[0] == drawn[0]);
        if radio_of(rows[i]) is Some {
            assert(ops[drawn.len() as int] == register_row_ops(rows[i], area)[0]);
        }
    }
}

/// The tree has a scrollbar exactly where it does not fit; it tells the size of the
/// list, where the window stands, and how much it shows.
pub proof fn the_scrollbar_tells_where_the_window_is(
    ops: Seq<OpView>,
    area: Rect,
    rows: Seq<RowView>,
    offset: usize,
    selection: SelectionView,
    taken: Option<SelectionView>,
    focused: Option<WidgetId>,
)
    requires
        draws_tree(ops, area, rows, offset, selection, taken, focused),
        rows.len() <= usize::MAX,
    ensures
        ops.len() > 0,
        ops.last() is Scrollbar <==> rows.len() > area.height && area.width > 0,
        ops.last() is Scrollbar ==> ops.last()->total == rows.len() && ops.last()->offset == offset
            && ops.last()->viewport == area.height,
{
}

/// Where there is room, the filter button ends at the right edge of the search line,
/// with a blank before it.
pub proof fn the_filter_button_ends_the_search_line(
    ops: Seq<OpView>,
    area: Rect,
    query: Seq<char>,
    focused: Option<WidgetId>,
)
    requires
        draws_search_row(ops, area, query, focused),
        area.width >= 9,
        area.x + area.width <= u16::MAX,
        area.y < u16::MAX,
    ensures
        ops[4]->Button_area.x + ops[4]->Button_area.width == area.x + area.width,
        ops[4]->Button_area.width == 8,
        ops[3]->Register_area.x == area.x,
        ops[3]->Register_area.x + ops[3]->Register_area.width + 1 == ops[4]->Button_area.x,
{
    let (columns, parts) = choose|columns: Seq<Rect>, parts: Seq<Rect>|
        #[trigger] divides_into_columns(area, search_columns(), columns)
            && #[trigger] divides_into_columns(columns[0], field_columns(), parts) && ops
            == search_ops(columns, parts, query, focused);
    let asked = search_columns();
    reveal_with_fuel(total, 3);
    reveal_with_fuel(growing, 3);
    assert(asked.drop_last().drop_last() =~= Seq::empty());
    assert(fits(asked, area.x, area.width));
    assert(asked[0] is Min);
    assert(fills(asked));
    assert(right_beside(columns, 1));
    assert(grants(asked[1], columns[1].width));
}

} // verus!

//! How the Select-location page is drawn.
//!
//! Where the layout solver has a say in what is drawn, the predicates here say
//! what is drawn for every way in which it may divide an area.

use crate::app::select_location::{NodeKind, PageState, PageStateView, TreeStateView};
use crate::app::{App, CurrentRelaySelection, SelectionView};
use crate::components::{
    beside_scrollbar, chevron, chevron_glyph, least, less, min_of, minus, radio, radio_glyph,
    split_for_vertical_scrollbar,
};
use crate::focus::{is_focused, FocusKind, WidgetId};
use crate::geometry::{
    divides_into_columns, divides_into_rows, on_screen, one_cell_each, rect, single_rows,
    single_rows_ask_for_one_cell_each, single_rows_come_first, split_columns, split_rows,
    Constraint, Rect, MOST_PARTS,
};
use crate::pages::select_location::rows::{
    centered_offset, centered_scroll_offset, chevron_for_row, chevron_of, clamp_scroll_offset,
    collect_visible_rows, index_view, last_offset, radio_of, row_index_for_widget, row_of,
    row_views, sliding_offset, visible_rows, widget_for_row, RowKindView, RowView, TreeRow,
    TreeRowKind,
};
use crate::pages::select_location::tree::{
    filter_active, filtering, project_filtered_tree, tree_in,
};
use crate::pages::select_location::widgets::{ENTRY_TAB, EXIT_TAB, FILTER_BUTTON, SEARCH_ANCHOR};
use crate::pages::select_location::{
    current_selection_for_mode, effective, is_city, is_country, is_relay, other,
    other_node_selection, selects_city, selects_country, selects_relay, sync_effective_mode,
};
use crate::scene::{
    bg_style, button_op, fg_bg_style, fg_style, focus_style, joined, joined_push, label_op, no_style, raw_line, span,
    styled_op, styled_span, Color, Op, OpView, Scene, SpanView, Style, TextBlock, TextLine,
    TextSpan, Wrap, UNDERLINED,
};
use crate::text::{blank, cat, owned, spaces};
use vstd::prelude::*;

verus! {

// ---- Rows of the tree ----

/// The style of a row. The focus shows on a row that is dimmed, too.
pub open spec fn row_style(id: Option<WidgetId>, focused: Option<WidgetId>, dimmed: bool) -> Style {
    if id is Some && focused == id {
        fg_style(Color::Yellow)
    } else if dimmed {
        fg_style(Color::DarkGray)
    } else {
        no_style()
    }
}

fn style_of_row(id: Option<WidgetId>, focused: Option<WidgetId>, dimmed: bool) -> (r: Style)
    ensures
        r == row_style(id, focused, dimmed),
{
    let has_focus = match id {
        Some(id) => is_focused(focused, id),
        None => false,
    };
    if has_focus {
        Style::new().fg(Color::Yellow)
    } else if dimmed {
        Style::new().fg(Color::DarkGray)
    } else {
        Style::new()
    }
}

/// The width of a bracketed chevron.
pub const CHEVRON_LABEL_WIDTH: u16 = 3;

/// The columns of a row with a chevron.
pub open spec fn chevron_columns() -> Seq<Constraint> {
    seq![Constraint::Min(0), Constraint::Length(1), Constraint::Length(CHEVRON_LABEL_WIDTH)]
}

/// What a row with a chevron shows, in columns `columns`.
pub open spec fn chevron_row_ops(
    columns: Seq<Rect>,
    indent: nat,
    label: Seq<char>,
    selected: bool,
    expanded: bool,
    style: Style,
) -> Seq<OpView> {
    seq![
        styled_op(columns[0], spaces(indent) + radio(selected) + " "@ + label, style),
        label_op(columns[2], "["@ + chevron(expanded) + "]"@),
    ]
}

/// `ops` draws `<indent>( ) <label>    [v]` in the first row of `area`, or
/// nothing if `area` has no rows.
pub open spec fn draws_chevron_row(
    ops: Seq<OpView>,
    area: Rect,
    indent: nat,
    label: Seq<char>,
    selected: bool,
    expanded: bool,
    style: Style,
) -> bool {
    if area.height == 0 {
        ops == Seq::<OpView>::empty()
    } else {
        exists|columns: Seq<Rect>|
            #[trigger] divides_into_columns(
                rect(area.x, area.y, area.width, 1),
                chevron_columns(),
                columns,
            ) && ops == chevron_row_ops(columns, indent, label, selected, expanded, style)
    }
}

fn render_radio_with_chevron_glyph(
    area: Rect,
    indent: usize,
    label: &str,
    selected: bool,
    expanded: bool,
    style: Style,
) -> (scene: Scene)
    ensures
        draws_chevron_row(scene@, area, indent as nat, label@, selected, expanded, style),
{
    let mut scene = Scene::new();
    if area.height == 0 {
        return scene;
    }
    let constraints: Vec<Constraint> = vec![
        Constraint::Min(0),
        Constraint::Length(1),
        Constraint::Length(CHEVRON_LABEL_WIDTH),
    ];
    assert(constraints@ =~= chevron_columns());
    let columns = split_columns(Rect::new(area.x, area.y, area.width, 1), &constraints);
    let mut text = blank(indent);
    text.append(radio_glyph(selected));
    text.append(" ");
    text.append(label);
    scene.styled(columns[0], text.as_str(), style);
    let mut glyph = owned("[");
    glyph.append(chevron_glyph(expanded));
    glyph.append("]");
    scene.label(columns[2], glyph.as_str());
    assert(scene@ =~= chevron_row_ops(columns@, indent as nat, label@, selected, expanded, style));
    scene
}

/// What a relay row shows.
pub open spec fn relay_row_ops(
    area: Rect,
    hostname: Seq<char>,
    selected: bool,
    style: Style,
) -> Seq<OpView> {
    if area.height == 0 {
        Seq::empty()
    } else {
        seq![
            styled_op(
                rect(area.x, area.y, area.width, 1),
                "    "@ + radio(selected) + " "@ + hostname,
                style,
            ),
        ]
    }
}

fn render_relay_row_visual(area: Rect, hostname: &str, selected: bool, style: Style) -> (scene:
    Scene)
    ensures
        scene@ == relay_row_ops(area, hostname@, selected, style),
{
    let mut scene = Scene::new();
    if area.height == 0 {
        return scene;
    }
    let mut text = cat("    ", radio_glyph(selected));
    text.append(" ");
    text.append(hostname);
    scene.styled(Rect::new(area.x, area.y, area.width, 1), text.as_str(), style);
    assert(scene@ =~= relay_row_ops(area, hostname@, selected, style));
    scene
}

/// Whether the row is the selection `selection`.
pub open spec fn row_is(row: RowView, selection: SelectionView) -> bool {
    match row.kind {
        RowKindView::Country { code, .. } => is_country(selection, code),
        RowKindView::City { country, code, .. } => is_city(selection, country, code),
        RowKindView::Relay { hostname } => is_relay(selection, hostname),
    }
}

/// Whether the row is the location of the other end, where there is one.
pub open spec fn row_is_taken(row: RowView, taken: Option<SelectionView>) -> bool {
    taken is Some && row_is(row, taken->0)
}

/// `ops` draws the row `row` in `area`. The row of `selection` is marked, and
/// the row of `taken` dimmed.
pub open spec fn draws_row(
    ops: Seq<OpView>,
    area: Rect,
    row: RowView,
    selection: SelectionView,
    taken: Option<SelectionView>,
    focused: Option<WidgetId>,
) -> bool {
    let style = row_style(radio_of(row), focused, row_is_taken(row, taken));
    let selected = row_is(row, selection);
    match row.kind {
        RowKindView::Country { name, expanded, .. } => draws_chevron_row(
            ops,
            area,
            0,
            name,
            selected,
            expanded,
            style,
        ),
        RowKindView::City { name, expanded, .. } => draws_chevron_row(
            ops,
            area,
            2,
            name,
            selected,
            expanded,
            style,
        ),
        RowKindView::Relay { hostname } => ops == relay_row_ops(area, hostname, selected, style),
    }
}

fn row_selected(row: &TreeRow<'_>, selection: &CurrentRelaySelection<'_>) -> (r: bool)
    ensures
        r == row_is(row@, selection@),
{
    match row.kind {
        TreeRowKind::Country { code, .. } => selects_country(selection, code),
        TreeRowKind::City { country, code, .. } => selects_city(selection, country, code),
        TreeRowKind::Relay { hostname } => selects_relay(selection, hostname),
    }
}

/// A selection that may be missing, over texts.
pub open spec fn selection_view(s: Option<CurrentRelaySelection<'_>>) -> Option<SelectionView> {
    match s {
        Some(s) => Some(s@),
        None => None,
    }
}

fn render_tree_row_visual(
    area: Rect,
    row: &TreeRow<'_>,
    selection: &CurrentRelaySelection<'_>,
    disabled: &Option<CurrentRelaySelection<'_>>,
    focused: Option<WidgetId>,
) -> (scene: Scene)
    ensures
        draws_row(scene@, area, row@, selection@, selection_view(*disabled), focused),
{
    let selected = row_selected(row, selection);
    let dimmed = match disabled {
        Some(d) => row_selected(row, d),
        None => false,
    };
    let style = style_of_row(widget_for_row(row), focused, dimmed);
    match row.kind {
        TreeRowKind::Country { name, expanded, .. } => render_radio_with_chevron_glyph(
            area,
            0,
            name,
            selected,
            expanded,
            style,
        ),
        TreeRowKind::City { name, expanded, .. } => render_radio_with_chevron_glyph(
            area,
            2,
            name,
            selected,
            expanded,
            style,
        ),
        TreeRowKind::Relay { hostname } => render_relay_row_visual(area, hostname, selected, style),
    }
}

/// How the row is registered: its radio over the whole row, its chevron over
/// the last cells of a row that is drawn, and then the end of the row.
pub open spec fn register_row_ops(row: RowView, area: Rect) -> Seq<OpView> {
    let radio = match radio_of(row) {
        Some(id) => seq![OpView::Register { id, area, kind: FocusKind::SelectOption }],
        None => Seq::empty(),
    };
    let chevron = if area.height > 0 && area.width >= CHEVRON_LABEL_WIDTH {
        match chevron_of(row) {
            Some(id) => seq![
                OpView::ClickTarget {
                    id,
                    area: rect(
                        (area.x + area.width - CHEVRON_LABEL_WIDTH) as u16,
                        area.y,
                        CHEVRON_LABEL_WIDTH,
                        1,
                    ),
                },
            ],
            None => Seq::empty(),
        }
    } else {
        Seq::empty()
    };
    (radio + chevron).push(OpView::EndRow)
}

fn register_tree_row_focus(row: &TreeRow<'_>, area: Rect) -> (scene: Scene)
    requires
        area.x + area.width <= u16::MAX,
    ensures
        scene@ == register_row_ops(row@, area),
{
    let mut scene = Scene::new();
    if let Some(id) = widget_for_row(row) {
        scene.register(id, area, FocusKind::SelectOption);
    }
    if area.height > 0 && area.width >= CHEVRON_LABEL_WIDTH {
        if let Some(id) = chevron_for_row(row) {
            let x: u16 = area.x + (area.width - CHEVRON_LABEL_WIDTH);
            scene.push(
                Op::ClickTarget { id, area: Rect::new(x, area.y, CHEVRON_LABEL_WIDTH, 1) },
            );
        }
    }
    scene.end_row();
    assert(scene@ =~= register_row_ops(row@, area));
    scene
}

/// The area of row `i` while the rows from `offset` on have the areas `areas`.
/// A row that is not in the window has an area without cells.
pub open spec fn area_of_row(i: int, offset: int, areas: Seq<Rect>) -> Rect {
    if offset <= i < offset + areas.len() {
        areas[i - offset]
    } else {
        Rect { x: 0, y: 0, width: 0, height: 0 }
    }
}

/// `ops` draws and registers row `i`: rows in the window are drawn, all rows
/// are registered.
pub open spec fn draws_and_registers(
    ops: Seq<OpView>,
    rows: Seq<RowView>,
    i: int,
    offset: int,
    areas: Seq<Rect>,
    selection: SelectionView,
    taken: Option<SelectionView>,
    focused: Option<WidgetId>,
) -> bool {
    let area = area_of_row(i, offset, areas);
    if offset <= i < offset + areas.len() {
        exists|drawn: Seq<OpView>|
            #[trigger] draws_row(drawn, area, rows[i], selection, taken, focused) && ops == drawn
                + register_row_ops(rows[i], area)
    } else {
        ops == register_row_ops(rows[i], area)
    }
}

/// Whether `pieces` draw and register the rows, one piece for each.
pub open spec fn draw_rows(
    pieces: Seq<Seq<OpView>>,
    rows: Seq<RowView>,
    offset: int,
    areas: Seq<Rect>,
    selection: SelectionView,
    taken: Option<SelectionView>,
    focused: Option<WidgetId>,
) -> bool {
    forall|i: int|
        0 <= i < pieces.len() ==> draws_and_registers(
            #[trigger] pieces[i],
            rows,
            i,
            offset,
            areas,
            selection,
            taken,
            focused,
        )
}

/// `ops` draws and registers the rows, one after the other.
pub open spec fn draws_rows(
    ops: Seq<OpView>,
    rows: Seq<RowView>,
    offset: int,
    areas: Seq<Rect>,
    selection: SelectionView,
    taken: Option<SelectionView>,
    focused: Option<WidgetId>,
) -> bool {
    exists|pieces: Seq<Seq<OpView>>|
        pieces.len() == rows.len() && draw_rows(
            pieces,
            rows,
            offset,
            areas,
            selection,
            taken,
            focused,
        ) && ops == #[trigger] joined(pieces)
}

fn render_rows(
    rows: &Vec<TreeRow<'_>>,
    offset: usize,
    areas: &Vec<Rect>,
    selection: &CurrentRelaySelection<'_>,
    disabled: &Option<CurrentRelaySelection<'_>>,
    focused: Option<WidgetId>,
) -> (scene: Scene)
    requires
        offset + areas@.len() <= rows@.len(),
        forall|i: int|
            0 <= i < areas@.len() ==> (#[trigger] areas@[i]).x + areas@[i].width <= u16::MAX,
    ensures
        draws_rows(
            scene@,
            row_views(rows@),
            offset as int,
            areas@,
            selection@,
            selection_view(*disabled),
            focused,
        ),
{
    let mut scene = Scene::new();
    let ghost v = row_views(rows@);
    let ghost taken = selection_view(*disabled);
    let ghost mut pieces: Seq<Seq<OpView>> = Seq::empty();
    let mut i: usize = 0;
    while i < rows.len()
        invariant
            i <= rows.len(),
            v == row_views(rows@),
            taken == selection_view(*disabled),
            offset + areas@.len() <= rows@.len(),
            forall|i: int|
                0 <= i < areas@.len() ==> (#[trigger] areas@[i]).x + areas@[i].width <= u16::MAX,
            pieces.len() == i,
            draw_rows(pieces, v, offset as int, areas@, selection@, taken, focused),
            scene@ == joined(pieces),
        decreases rows.len() - i,
    {
        let row = &rows[i];
        assert(v[i as int] == row@);
        let mut piece = Scene::new();
        if i >= offset && i - offset < areas.len() {
            let area = areas[i - offset];
            let drawn = render_tree_row_visual(area, row, selection, disabled, focused);
            let ghost d = drawn@;
            let registered = register_tree_row_focus(row, area);
            piece = drawn;
            piece.append(registered);
            assert(area == area_of_row(i as int, offset as int, areas@));
            assert(draws_row(d, area, v[i as int], selection@, taken, focused));
        } else {
            let area = Rect { x: 0, y: 0, width: 0, height: 0 };
            piece = register_tree_row_focus(row, area);
        }
        proof {
            joined_push(pieces, piece@);
            pieces = pieces.push(piece@);
        }
        scene.append(piece);
        i = i + 1;
    }
    assert(scene@ == joined(pieces));
    scene
}

// ---- Tabs ----

/// The columns of the tabs.
pub open spec fn tab_columns() -> Seq<Constraint> {
    seq![Constraint::Length(7), Constraint::Length(2), Constraint::Length(6)]
}

/// The row of the tabs: in the middle of `area`.
pub open spec fn tab_row(area: Rect) -> Rect {
    rect(
        (area.x + less(area.width, 15) / 2) as u16,
        area.y,
        least(15, area.width),
        least(area.height, 1),
    )
}

/// The style of a tab: yellow with the focus, underlined while its end is
/// edited.
pub open spec fn tab_style(id: WidgetId, active: bool, focused: Option<WidgetId>) -> Style {
    Style {
        add_modifier: if active {
            UNDERLINED
        } else {
            0
        },
        ..focus_style(focused == Some(id))
    }
}

/// One tab.
pub open spec fn tab_ops(
    area: Rect,
    label: Seq<char>,
    id: WidgetId,
    active: bool,
    focused: Option<WidgetId>,
) -> Seq<OpView> {
    seq![
        styled_op(area, label, tab_style(id, active, focused)),
        OpView::Register { id, area, kind: FocusKind::Button },
    ]
}

/// `ops` draws `[Entry] [Exit]` in the middle of `area`, as one row of widgets.
pub open spec fn draws_tabs(
    ops: Seq<OpView>,
    area: Rect,
    active: NodeKind,
    focused: Option<WidgetId>,
) -> bool {
    exists|columns: Seq<Rect>|
        #[trigger] divides_into_columns(tab_row(area), tab_columns(), columns) && ops == (tab_ops(
            columns[0],
            "[Entry]"@,
            WidgetId(ENTRY_TAB),
            active == NodeKind::Entry,
            focused,
        ) + tab_ops(
            columns[2],
            "[Exit]"@,
            WidgetId(EXIT_TAB),
            active == NodeKind::Exit,
            focused,
        )).push(OpView::EndRow)
}

fn render_mode_tab(
    area: Rect,
    label: &str,
    id: WidgetId,
    active: bool,
    focused: Option<WidgetId>,
) -> (scene: Scene)
    ensures
        scene@ == tab_ops(area, label@, id, active, focused),
{
    let mut style = Style::focus(is_focused(focused, id));
    if active {
        style.add_modifier = UNDERLINED;
    }
    let mut scene = Scene::new();
    scene.styled(area, label, style);
    scene.register(id, area, FocusKind::Button);
    assert(scene@ =~= tab_ops(area, label@, id, active, focused));
    scene
}

fn render_mode_tabs(area: Rect, active: NodeKind, focused: Option<WidgetId>) -> (scene: Scene)
    requires
        on_screen(area),
    ensures
        draws_tabs(scene@, area, active, focused),
{
    let x: u16 = area.x + minus(area.width, 15) / 2;
    let row = Rect::new(x, area.y, min_of(15, area.width), min_of(area.height, 1));
    let constraints: Vec<Constraint> = vec![
        Constraint::Length(7),
        Constraint::Length(2),
        Constraint::Length(6),
    ];
    assert(constraints@ =~= tab_columns());
    assert(row == tab_row(area));
    let columns = split_columns(row, &constraints);
    let mut scene = render_mode_tab(
        columns[0],
        "[Entry]",
        WidgetId(ENTRY_TAB),
        active == NodeKind::Entry,
        focused,
    );
    scene.append(
        render_mode_tab(
            columns[2],
            "[Exit]",
            WidgetId(EXIT_TAB),
            active == NodeKind::Exit,
            focused,
        ),
    );
    scene.end_row();
    scene
}

/// The text that stands in for the entry's tree while DAITA picks the entry.
pub open spec fn daita_override_message() -> Seq<char> {
    "The multihop entry server is currently chosen by DAITA. To pick an entry location, enable \"Direct only\" or disable DAITA in Settings."@
}

/// What stands in for the entry's tree while DAITA picks the entry.
pub open spec fn daita_override_ops(area: Rect) -> Seq<OpView> {
    seq![
        OpView::Text {
            area,
            text: seq![raw_line(daita_override_message())],
            wrap: Wrap::Keep,
            scroll: 0,
            style: fg_style(Color::DarkGray),
        },
    ]
}

fn render_daita_override_message(area: Rect) -> (scene: Scene)
    ensures
        scene@ == daita_override_ops(area),
{
    let mut scene = Scene::new();
    scene.push(
        Op::Text {
            area,
            text: TextBlock::of(
                TextLine::raw(
                    "The multihop entry server is currently chosen by DAITA. To pick an entry location, enable \"Direct only\" or disable DAITA in Settings.",
                ),
            ),
            wrap: Wrap::Keep,
            scroll: 0,
            style: Style::new().fg(Color::DarkGray),
        },
    );
    assert(scene@ =~= daita_override_ops(area));
    scene
}

// ---- Search row ----

/// The background of the search field.
pub open spec fn field() -> Color {
    Color::Indexed(234)
}

/// The columns of the search row: the field, and a gap with the button.
pub open spec fn search_columns() -> Seq<Constraint> {
    seq![Constraint::Min(0), Constraint::Length(9)]
}

/// The columns of the search field: its text between two brackets.
pub open spec fn field_columns() -> Seq<Constraint> {
    seq![Constraint::Length(1), Constraint::Min(0), Constraint::Length(1)]
}

/// The style of the search field's brackets.
pub open spec fn bracket_style(focused: bool) -> Style {
    fg_bg_style(
        if focused {
            Color::Yellow
        } else {
            Color::White
        },
        field(),
    )
}

/// What the search field shows: the query, with a cursor behind it while the
/// field has the focus; and without the focus and a query, a hint.
pub open spec fn field_text(query: Seq<char>, focused: bool) -> Seq<SpanView> {
    if focused {
        seq![
            styled_span(query, fg_bg_style(Color::Yellow, field())),
            SpanView::Cursor { bg: field() },
        ]
    } else if query.len() == 0 {
        seq![
            styled_span(
                "Filter location list (/ to focus)"@,
                fg_bg_style(Color::DarkGray, field()),
            ),
        ]
    } else {
        seq![styled_span(query, fg_bg_style(Color::White, field()))]
    }
}

/// A bracket of the search field.
pub open spec fn bracket_op(area: Rect, bracket: Seq<char>, focused: bool) -> OpView {
    OpView::Text {
        area,
        text: seq![seq![styled_span(bracket, bracket_style(focused))]],
        wrap: Wrap::Cut,
        scroll: 0,
        style: no_style(),
    }
}

/// What the search row shows, and how it is registered.
pub open spec fn search_ops(
    columns: Seq<Rect>,
    parts: Seq<Rect>,
    query: Seq<char>,
    focused: Option<WidgetId>,
) -> Seq<OpView> {
    let has_focus = focused == Some(WidgetId(SEARCH_ANCHOR));
    seq![
        bracket_op(parts[0], "["@, has_focus),
        OpView::Text {
            area: parts[1],
            text: seq![field_text(query, has_focus)],
            wrap: Wrap::Cut,
            scroll: 0,
            style: bg_style(field()),
        },
        bracket_op(parts[2], "]"@, has_focus),
        OpView::Register {
            id: WidgetId(SEARCH_ANCHOR),
            area: columns[0],
            kind: FocusKind::TextInput,
        },
        button_op(
            rect((columns[1].x + 1) as u16, columns[1].y, 8, 1),
            "Filter"@,
            WidgetId(FILTER_BUTTON),
            focused,
        ),
        OpView::EndRow,
    ]
}

/// `ops` draws the search field and the `[Filter]` button in `area`.
pub open spec fn draws_search_row(
    ops: Seq<OpView>,
    area: Rect,
    query: Seq<char>,
    focused: Option<WidgetId>,
) -> bool {
    exists|columns: Seq<Rect>, parts: Seq<Rect>|
        #[trigger] divides_into_columns(area, search_columns(), columns)
            && #[trigger] divides_into_columns(columns[0], field_columns(), parts) && ops
            == search_ops(columns, parts, query, focused)
}

fn bracket(area: Rect, text: &str, focused: bool) -> (op: Op)
    ensures
        op@ == bracket_op(area, text@, focused),
{
    let color = if focused {
        Color::Yellow
    } else {
        Color::White
    };
    let style = Style::new().fg(color).bg(Color::Indexed(234));
    Op::Text {
        area,
        text: TextBlock::of(TextLine::styled(text, style)),
        wrap: Wrap::Cut,
        scroll: 0,
        style: Style::new(),
    }
}

fn search_text(query: &str, focused: bool) -> (line: TextLine)
    ensures
        line@ == field_text(query@, focused),
{
    let bg = Color::Indexed(234);
    if focused {
        let mut line = TextLine::styled(query, Style::new().fg(Color::Yellow).bg(bg));
        line.push(TextSpan::Cursor { bg });
        assert(line@ =~= field_text(query@, focused));
        line
    } else if query.is_empty() {
        TextLine::styled(
            "Filter location list (/ to focus)",
            Style::new().fg(Color::DarkGray).bg(bg),
        )
    } else {
        TextLine::styled(query, Style::new().fg(Color::White).bg(bg))
    }
}

/// Draw the search field and the `[Filter]` button in `area`.
pub fn render_search_row(area: Rect, query: &str, focused: Option<WidgetId>) -> (scene: Scene)
    requires
        on_screen(area),
    ensures
        draws_search_row(scene@, area, query@, focused),
{
    let outer: Vec<Constraint> = vec![Constraint::Min(0), Constraint::Length(9)];
    assert(outer@ =~= search_columns());
    let columns = split_columns(area, &outer);
    let inner: Vec<Constraint> = vec![
        Constraint::Length(1),
        Constraint::Min(0),
        Constraint::Length(1),
    ];
    assert(inner@ =~= field_columns());
    let parts = split_columns(columns[0], &inner);
    let has_focus = is_focused(focused, WidgetId(SEARCH_ANCHOR));
    let mut scene = Scene::new();
    scene.push(bracket(parts[0], "[", has_focus));
    scene.push(
        Op::Text {
            area: parts[1],
            text: TextBlock::of(search_text(query, has_focus)),
            wrap: Wrap::Cut,
            scroll: 0,
            style: Style::new().bg(Color::Indexed(234)),
        },
    );
    scene.push(bracket(parts[2], "]", has_focus));
    scene.register(WidgetId(SEARCH_ANCHOR), columns[0], FocusKind::TextInput);
    let button = Rect::new(columns[1].x + 1, columns[1].y, 8, 1);
    scene.button(button, "Filter", WidgetId(FILTER_BUTTON), focused);
    scene.end_row();
    assert(scene@ =~= search_ops(columns@, parts@, query@, focused));
    scene
}

// ---- The tree ----

/// The rows in the window: those from `offset` on, as many as `capacity` takes.
pub open spec fn window(rows: int, offset: int, capacity: int) -> int {
    if offset + capacity < rows {
        capacity
    } else {
        rows - offset
    }
}

/// Whether `areas` are the areas of the `count` rows in the window. No area is
/// divided for no rows.
pub open spec fn window_areas(content: Rect, count: int, areas: Seq<Rect>) -> bool {
    areas.len() == count && (count > 0 ==> divides_into_rows(
        content,
        single_rows(count as nat),
        areas,
    ))
}

/// The scrollbar, where there is room and need for one.
pub open spec fn scrollbar_ops(
    bar: Option<Rect>,
    total: usize,
    offset: usize,
    viewport: usize,
) -> Seq<OpView> {
    match bar {
        Some(area) => seq![OpView::Scrollbar { area, total, offset, viewport }],
        None => Seq::empty(),
    }
}

/// `ops` draws the rows of the tree in `area`, those in the window that starts
/// at `offset`, and registers all of them inside one scroll group.
pub open spec fn draws_tree(
    ops: Seq<OpView>,
    area: Rect,
    rows: Seq<RowView>,
    offset: usize,
    selection: SelectionView,
    taken: Option<SelectionView>,
    focused: Option<WidgetId>,
) -> bool {
    let content = beside_scrollbar(area, rows.len() as int, area.height as int).0;
    let bar = beside_scrollbar(area, rows.len() as int, area.height as int).1;
    exists|areas: Seq<Rect>, drawn: Seq<OpView>|
        #[trigger] window_areas(
            content,
            window(rows.len() as int, offset as int, content.height as int),
            areas,
        ) && #[trigger] draws_rows(drawn, rows, offset as int, areas, selection, taken, focused)
            && ops == (seq![OpView::BeginScrollGroup] + drawn).push(OpView::EndScrollGroup)
            + scrollbar_ops(bar, rows.len() as usize, offset, content.height as usize)
}

fn render_tree(
    area: Rect,
    rows: &Vec<TreeRow<'_>>,
    offset: usize,
    selection: &CurrentRelaySelection<'_>,
    disabled: &Option<CurrentRelaySelection<'_>>,
    focused: Option<WidgetId>,
) -> (scene: Scene)
    requires
        on_screen(area),
        offset <= rows@.len(),
    ensures
        draws_tree(
            scene@,
            area,
            row_views(rows@),
            offset,
            selection@,
            selection_view(*disabled),
            focused,
        ),
{
    let (content, bar) = split_for_vertical_scrollbar(area, rows.len(), area.height as usize);
    let capacity: usize = content.height as usize;
    let count: usize = if capacity < rows.len() - offset {
        capacity
    } else {
        rows.len() - offset
    };
    let areas: Vec<Rect> = if count == 0 {
        Vec::new()
    } else {
        split_rows(content, &one_cell_each(count))
    };
    let drawn = render_rows(rows, offset, &areas, selection, disabled, focused);
    let ghost v = row_views(rows@);
    let ghost d = drawn@;
    assert(window_areas(content, window(v.len() as int, offset as int, content.height as int), areas@));
    let mut scene = Scene::new();
    scene.push(Op::BeginScrollGroup);
    scene.append(drawn);
    scene.push(Op::EndScrollGroup);
    if let Some(area) = bar {
        scene.push(Op::Scrollbar { area, total: rows.len(), offset, viewport: capacity });
    }
    assert(scene@ =~= (seq![OpView::BeginScrollGroup] + d).push(OpView::EndScrollGroup)
        + scrollbar_ops(bar, rows@.len() as usize, offset, content.height as usize));
    scene
}

// ---- Scrolling ----

/// The offset of the window for the next frame. Right after the page opened the
/// focused row is centred; after a turn of the wheel the window stays, as far
/// as there are rows; else it moves as little as the focused row demands.
pub open spec fn offset_for(
    state: PageStateView,
    focused_row: Option<int>,
    rows: int,
    capacity: int,
) -> int {
    let current = state.tree().scroll_offset as int;
    if state.center_focused {
        centered_offset(focused_row, rows, capacity)
    } else if state.user_scrolled {
        if current < last_offset(rows, capacity) {
            current
        } else {
            last_offset(rows, capacity)
        }
    } else {
        sliding_offset(current, focused_row, rows, capacity)
    }
}

/// The row that has the focus.
pub open spec fn focused_row(rows: Seq<RowView>, focused: Option<WidgetId>) -> Option<int> {
    match focused {
        Some(id) => row_of(rows, id),
        None => None,
    }
}

/// The page's state after a frame that showed `rows` in a window of `capacity`
/// rows.
pub open spec fn state_after_frame(
    state: PageStateView,
    rows: Seq<RowView>,
    focused: Option<WidgetId>,
    capacity: int,
) -> PageStateView {
    let seen = PageStateView {
        rows: rows.len() as usize,
        capacity: capacity as usize,
        ..state.observe_focus(focused)
    };
    let offset = offset_for(seen, focused_row(rows, focused), rows.len() as int, capacity);
    PageStateView {
        center_focused: false,
        ..seen.with_tree(TreeStateView { scroll_offset: offset as usize, ..seen.tree() })
    }
}

fn next_offset(
    state: &PageState,
    focused: Option<WidgetId>,
    focused_idx: Option<usize>,
    rows_len: usize,
    capacity: usize,
) -> (offset: usize)
    requires
        focused_idx is Some ==> focused_idx->0 < rows_len,
    ensures
        offset == offset_for(
            state@.observe_focus(focused),
            index_view(focused_idx),
            rows_len as int,
            capacity as int,
        ),
        offset <= rows_len,
{
    let focus_stayed = match (state.observed_focus, focused) {
        (Some(a), Some(b)) => a == b,
        (None, None) => true,
        _ => false,
    };
    if state.center_focused {
        centered_scroll_offset(focused_idx, rows_len, capacity)
    } else if state.user_scrolled && focus_stayed {
        let max_offset: usize = if rows_len > capacity {
            rows_len - capacity
        } else {
            0
        };
        let current: usize = state.scroll_offset();
        if current < max_offset {
            current
        } else {
            max_offset
        }
    } else {
        clamp_scroll_offset(state.scroll_offset(), focused_idx, rows_len, capacity)
    }
}

fn finish_frame(
    state: &mut PageState,
    focused: Option<WidgetId>,
    offset: usize,
    rows_len: usize,
    capacity: usize,
    Ghost(rows): Ghost<Seq<RowView>>,
)
    requires
        rows.len() == rows_len,
        offset == offset_for(
            old(state)@.observe_focus(focused),
            focused_row(rows, focused),
            rows_len as int,
            capacity as int,
        ),
    ensures
        final(state)@ == state_after_frame(old(state)@, rows, focused, capacity as int),
        final(state)@.tree().scroll_offset == offset,
{
    state.observe_focus_for_scroll(focused);
    state.record_dimensions(rows_len, capacity);
    state.center_focused = false;
    state.set_scroll_offset(offset);
}

// ---- The page ----

/// The tabs above the rest of the page.
pub open spec fn page_rows() -> Seq<Constraint> {
    seq![Constraint::Length(1), Constraint::Min(0)]
}

/// The location of the other end, while there is one.
pub open spec fn taken_selection(app: App, mode: NodeKind) -> Option<SelectionView> {
    if app.multihop() {
        Some(app.selection(other(mode)))
    } else {
        None
    }
}

/// `ops` draws what is below the tabs in `area`, and the page's state is
/// `after` then.
pub open spec fn draws_body(ops: Seq<OpView>, area: Rect, app: App, after: PageStateView) -> bool {
    let mode = effective(app);
    let state = app.select_location_state@.with_mode(mode);
    if mode == NodeKind::Entry && app.daita_picks_entry() {
        ops == daita_override_ops(area) && after == state
    } else {
        let rows = visible_rows(tree_in(app, state), state.tree(), filtering(state));
        exists|parts: Seq<Rect>, search: Seq<OpView>, tree: Seq<OpView>|
            #[trigger] divides_into_rows(area, page_rows(), parts) && #[trigger] draws_search_row(
                search,
                parts[0],
                state.query,
                app.focused,
            ) && #[trigger] draws_tree(
                tree,
                parts[1],
                rows,
                after.tree().scroll_offset,
                app.selection(mode),
                taken_selection(app, mode),
                app.focused,
            ) && after == state_after_frame(
                state,
                rows,
                app.focused,
                beside_scrollbar(parts[1], rows.len() as int, parts[1].height as int).0.height as int,
            ) && ops == search + tree
    }
}

/// `ops` draws the page in `area`, and the page's state is `after` then.
pub open spec fn draws_page(ops: Seq<OpView>, area: Rect, app: App, after: PageStateView) -> bool {
    if app.multihop() {
        exists|parts: Seq<Rect>, tabs: Seq<OpView>, body: Seq<OpView>|
            #[trigger] divides_into_rows(area, page_rows(), parts) && #[trigger] draws_tabs(
                tabs,
                parts[0],
                effective(app),
                app.focused,
            ) && #[trigger] draws_body(body, parts[1], app, after) && ops == tabs + body
    } else {
        draws_body(ops, area, app, after)
    }
}

fn render_body(area: Rect, app: &mut App, Ghost(before): Ghost<App>) -> (scene: Scene)
    requires
        on_screen(area),
        old(app).select_location_state@ == before.select_location_state@.with_mode(
            effective(before),
        ),
        *old(app) == (App { select_location_state: old(app).select_location_state, ..before }),
    ensures
        draws_body(scene@, area, before, final(app).select_location_state@),
        *final(app) == (App {
            select_location_state: final(app).select_location_state,
            ..*old(app)
        }),
{
    let mode = app.select_location_state.node_mode;
    if mode == NodeKind::Entry && app.daita_overrides_entry() {
        return render_daita_override_message(area);
    }
    let constraints: Vec<Constraint> = vec![Constraint::Length(1), Constraint::Min(0)];
    assert(constraints@ =~= page_rows());
    let parts = split_rows(area, &constraints);
    let focused = app.focused;
    let search = render_search_row(parts[0], app.select_location_state.query(), focused);
    let ghost state = app.select_location_state@;
    let ghost t = tree_in(before, state);
    let ghost rows_view = visible_rows(t, state.tree(), filtering(state));
    let tree = project_filtered_tree(app);
    let rows = collect_visible_rows(&tree, app.select_location_state.tree(), filter_active(app));
    let rows_len: usize = rows.len();
    assert(row_views(rows@) == rows_view);
    let focused_idx: Option<usize> = match focused {
        Some(id) => row_index_for_widget(&rows, id),
        None => None,
    };
    let (content, _) = split_for_vertical_scrollbar(parts[1], rows_len, parts[1].height as usize);
    let capacity: usize = content.height as usize;
    let offset: usize = next_offset(
        &app.select_location_state,
        focused,
        focused_idx,
        rows_len,
        capacity,
    );
    let selection = current_selection_for_mode(app, mode);
    let disabled = if app.is_multihop_enabled() {
        Some(other_node_selection(app, mode))
    } else {
        None
    };
    let drawn = render_tree(parts[1], &rows, offset, &selection, &disabled, focused);
    finish_frame(
        &mut app.select_location_state,
        focused,
        offset,
        rows_len,
        capacity,
        Ghost(rows_view),
    );
    let ghost s = search@;
    let ghost d = drawn@;
    let mut scene = search;
    scene.append(drawn);
    assert(draws_tree(
        d,
        parts@[1],
        rows_view,
        offset,
        before.selection(mode),
        taken_selection(before, mode),
        before.focused,
    ));
    assert(draws_search_row(s, parts@[0], state.query, before.focused));
    scene
}

/// Draw the page in `area`, and leave its state as the next frame needs it.
///
/// `area` is the page's column, as [`crate::pages::page_area`] gives it.
pub fn render(area: Rect, app: &mut App) -> (scene: Scene)
    requires
        on_screen(area),
    ensures
        draws_page(scene@, area, *old(app), final(app).select_location_state@),
        *final(app) == (App {
            select_location_state: final(app).select_location_state,
            ..*old(app)
        }),
{
    let ghost before = *app;
    let mode = sync_effective_mode(app);
    if app.is_multihop_enabled() {
        let constraints: Vec<Constraint> = vec![Constraint::Length(1), Constraint::Min(0)];
        assert(constraints@ =~= page_rows());
        let parts = split_rows(area, &constraints);
        let mut scene = render_mode_tabs(parts[0], mode, app.focused);
        let body = render_body(parts[1], app, Ghost(before));
        let ghost tabs = scene@;
        let ghost b = body@;
        scene.append(body);
        assert(draws_tabs(tabs, parts@[0], effective(before), before.focused));
        assert(draws_body(b, parts@[1], before, app.select_location_state@));
        scene
    } else {
        render_body(area, app, Ghost(before))
    }
}

/// The rows in the window stand one below the other, each in a row of its own:
/// none is drawn over another.
pub proof fn rows_in_the_window_stand_in_order(
    content: Rect,
    rows: int,
    offset: int,
    areas: Seq<Rect>,
    i: int,
)
    requires
        window_areas(content, window(rows, offset, content.height as int), areas),
        content.height <= MOST_PARTS,
        content.y + content.height <= u16::MAX,
        0 <= offset <= rows,
        0 <= i < areas.len(),
    ensures
        areas[i] == (Rect {
            x: content.x,
            y: (content.y + i) as u16,
            width: content.width,
            height: 1,
        }),
{
    let n = areas.len();
    single_rows_ask_for_one_cell_each(n);
    single_rows_come_first(content, single_rows(n), areas, n as int, i);
}

/// A frame that shows the tree fulfils a request to centre the focus: no later
/// frame centres it again unasked.
pub proof fn centring_happens_once(ops: Seq<OpView>, area: Rect, app: App, after: PageStateView)
    requires
        draws_body(ops, area, app, after),
        !(effective(app) == NodeKind::Entry && app.daita_picks_entry()),
    ensures
        !after.center_focused,
{
}

} // verus!

//! The location filter page: which relays the location tree should offer, by
//! owner and by provider. The filter is kept, and not yet applied to the tree.

use crate::app::filter::{names, Ownership, PageState, PageStateView};
use crate::app::App;
use crate::components::{checkbox, checkbox_glyph, radio, radio_glyph};
use crate::focus::{decode, id_in, index_in, is_focused, row_id_or_none, FocusKind, WidgetId};
use crate::geometry::{
    divides_into_columns, divides_into_rows, one_cell_each, single_rows, split_columns,
    split_rows, Constraint, Rect,
};
use crate::scene::{
    focus_style, joined, joined_push, label_op, styled_op, OpView, Scene, Style,
};
use crate::text::owned;
use vstd::prelude::*;

pub mod laws;
pub mod widgets;

verus! {

/// Ids of the provider rows, and how many there can be.
pub const PROVIDER_RADIO_BASE: u32 = 0x2010;

pub const PROVIDER_MAX: u32 = 64;

/// The row of a provider checkbox.
pub fn provider_index(widget: WidgetId) -> (r: Option<usize>)
    ensures
        r == index_in(widget, PROVIDER_RADIO_BASE, PROVIDER_MAX),
{
    decode(widget, PROVIDER_RADIO_BASE, PROVIDER_MAX)
}

/// Whether `widget` is one of the page's widgets.
pub open spec fn is_own(widget: WidgetId) -> bool {
    widget.0 == widgets::OWNERSHIP_ANY || widget.0 == widgets::OWNERSHIP_MULLVAD_OWNED
        || widget.0 == widgets::OWNERSHIP_RENTED || widget.0 == widgets::PROVIDERS_ALL
        || index_in(widget, PROVIDER_RADIO_BASE, PROVIDER_MAX) is Some
}

/// Whether `widget` is one of the page's widgets.
pub fn owns_widget(widget: WidgetId) -> (r: bool)
    ensures
        r == is_own(widget),
{
    widget.0 == widgets::OWNERSHIP_ANY || widget.0 == widgets::OWNERSHIP_MULLVAD_OWNED || widget.0
        == widgets::OWNERSHIP_RENTED || widget.0 == widgets::PROVIDERS_ALL || provider_index(
        widget,
    ).is_some()
}

// ---- Providers ----

/// The providers, in the order of their rows.
pub open spec fn provider_names() -> Seq<Seq<char>> {
    seq![
        "100TB"@,
        "31173"@,
        "Blix"@,
        "Creanova"@,
        "DataPacket"@,
        "HostRoyale"@,
        "hostuniversal"@,
        "iRegister"@,
        "m247"@,
        "PrivateLayer"@,
        "techfutures"@,
        "Tzulo"@,
        "Veloxserv"@,
        "xtom"@,
        "Zenlayer"@,
    ]
}

/// The providers, in the order of their rows.
pub fn providers() -> (r: Vec<&'static str>)
    ensures
        r@.map_values(|p: &str| p@) == provider_names(),
{
    let r: Vec<&'static str> = vec![
        "100TB",
        "31173",
        "Blix",
        "Creanova",
        "DataPacket",
        "HostRoyale",
        "hostuniversal",
        "iRegister",
        "m247",
        "PrivateLayer",
        "techfutures",
        "Tzulo",
        "Veloxserv",
        "xtom",
        "Zenlayer",
    ];
    assert(r@.map_values(|p: &str| p@) =~= provider_names());
    r
}

/// The provider of row `index`.
pub fn provider_at(index: usize) -> (r: Option<&'static str>)
    ensures
        match r {
            Some(p) => index < provider_names().len() && p@ == provider_names()[index as int],
            None => index >= provider_names().len(),
        },
{
    let all = providers();
    assert(all@.map_values(|p: &str| p@).len() == provider_names().len());
    if index < all.len() {
        assert(all@.map_values(|p: &str| p@)[index as int] == all@[index as int]@);
        Some(all[index])
    } else {
        None
    }
}

// ---- Activation ----

/// The page's state after `widget` was activated.
pub open spec fn after_activation(state: PageStateView, widget: WidgetId) -> PageStateView {
    match index_in(widget, PROVIDER_RADIO_BASE, PROVIDER_MAX) {
        Some(i) => if i < provider_names().len() {
            state.toggle(provider_names()[i as int])
        } else {
            state
        },
        None => if widget.0 == widgets::OWNERSHIP_ANY {
            PageStateView { ownership: Ownership::Any, ..state }
        } else if widget.0 == widgets::OWNERSHIP_MULLVAD_OWNED {
            PageStateView { ownership: Ownership::MullvadOwned, ..state }
        } else if widget.0 == widgets::OWNERSHIP_RENTED {
            PageStateView { ownership: Ownership::Rented, ..state }
        } else if widget.0 == widgets::PROVIDERS_ALL {
            state.toggle_all(provider_names().to_set())
        } else {
            state
        },
    }
}

/// Run the action bound to a widget of the page.
pub fn activate(app: &mut App, widget: WidgetId)
    ensures
        final(app).filter_state@ == after_activation(old(app).filter_state@, widget),
        *final(app) == (App { filter_state: final(app).filter_state, ..*old(app) }),
{
    if let Some(idx) = provider_index(widget) {
        if let Some(provider) = provider_at(idx) {
            app.filter_state.toggle_provider(provider);
        }
        return;
    }
    if widget.0 == widgets::OWNERSHIP_ANY {
        app.filter_state.set_ownership(Ownership::Any);
    } else if widget.0 == widgets::OWNERSHIP_MULLVAD_OWNED {
        app.filter_state.set_ownership(Ownership::MullvadOwned);
    } else if widget.0 == widgets::OWNERSHIP_RENTED {
        app.filter_state.set_ownership(Ownership::Rented);
    } else if widget.0 == widgets::PROVIDERS_ALL {
        let all = providers();
        app.filter_state.toggle_all_providers(all.as_slice());
    }
}

// ---- Drawing ----

/// A row `<label>     <glyph>`.
pub struct GlyphRow {
    pub area: Rect,
    pub label: String,
    pub glyph: String,
    pub id: Option<WidgetId>,
    pub kind: FocusKind,
}

/// A row `<label>     <glyph>`, over texts.
#[verifier::ext_equal]
pub struct GlyphRowView {
    pub area: Rect,
    pub label: Seq<char>,
    pub glyph: Seq<char>,
    pub id: Option<WidgetId>,
    pub kind: FocusKind,
}

impl View for GlyphRow {
    type V = GlyphRowView;

    open spec fn view(&self) -> GlyphRowView {
        GlyphRowView {
            area: self.area,
            label: self.label@,
            glyph: self.glyph@,
            id: self.id,
            kind: self.kind,
        }
    }
}

/// The rows in `rows`, over texts.
pub open spec fn glyph_row_views(rows: Seq<GlyphRow>) -> Seq<GlyphRowView> {
    rows.map_values(|r: GlyphRow| r@)
}

/// The columns of a row: its label, a gap, and its glyph.
pub open spec fn glyph_columns(glyph: Seq<char>) -> Seq<Constraint> {
    seq![Constraint::Min(0), Constraint::Length(1), Constraint::Length(glyph.len() as u16)]
}

/// `ops` draws the row, and registers all of it as one widget. A row without an
/// id is only drawn.
pub open spec fn draws_glyph_row(
    ops: Seq<OpView>,
    row: GlyphRowView,
    focused: Option<WidgetId>,
) -> bool {
    match row.id {
        Some(id) => exists|columns: Seq<Rect>|
            #[trigger] divides_into_columns(row.area, glyph_columns(row.glyph), columns) && ops
                == seq![
                styled_op(columns[0], row.label, focus_style(focused == Some(id))),
                styled_op(columns[2], row.glyph, focus_style(focused == Some(id))),
                OpView::Register { id, area: row.area, kind: row.kind },
                OpView::EndRow,
            ],
        None => ops == seq![label_op(row.area, row.label + "     "@ + row.glyph)],
    }
}

/// Whether `pieces` draw `rows`, one piece for each.
pub open spec fn draw_glyph_rows(
    pieces: Seq<Seq<OpView>>,
    rows: Seq<GlyphRowView>,
    focused: Option<WidgetId>,
) -> bool {
    forall|i: int| 0 <= i < pieces.len() ==> draws_glyph_row(#[trigger] pieces[i], rows[i], focused)
}

/// `ops` draws `rows`, one after the other.
pub open spec fn draws_glyph_rows(
    ops: Seq<OpView>,
    rows: Seq<GlyphRowView>,
    focused: Option<WidgetId>,
) -> bool {
    exists|pieces: Seq<Seq<OpView>>|
        pieces.len() == rows.len() && draw_glyph_rows(pieces, rows, focused) && ops
            == #[trigger] joined(pieces)
}

fn render_glyph_row(row: &GlyphRow, focused: Option<WidgetId>) -> (scene: Scene)
    requires
        row.glyph@.len() <= u16::MAX,
    ensures
        draws_glyph_row(scene@, row@, focused),
{
    let mut scene = Scene::new();
    match row.id {
        Some(id) => {
            let width: usize = row.glyph.as_str().unicode_len();
            let constraints: Vec<Constraint> = vec![
                Constraint::Min(0),
                Constraint::Length(1),
                Constraint::Length(width as u16),
            ];
            assert(constraints@ =~= glyph_columns(row.glyph@));
            let columns = split_columns(row.area, &constraints);
            let style = Style::focus(is_focused(focused, id));
            scene.styled(columns[0], row.label.as_str(), style);
            scene.styled(columns[2], row.glyph.as_str(), style);
            scene.register(id, row.area, row.kind);
            scene.end_row();
            assert(scene@ =~= seq![
                styled_op(columns@[0], row.label@, style),
                styled_op(columns@[2], row.glyph@, style),
                OpView::Register { id, area: row.area, kind: row.kind },
                OpView::EndRow,
            ]);
        },
        None => {
            let mut text = row.label.clone();
            text.append("     ");
            text.append(row.glyph.as_str());
            scene.label(row.area, text.as_str());
            assert(scene@ =~= seq![label_op(row.area, row.label@ + "     "@ + row.glyph@)]);
        },
    }
    scene
}

fn render_glyph_rows(rows: &Vec<GlyphRow>, focused: Option<WidgetId>) -> (scene: Scene)
    requires
        forall|i: int| 0 <= i < rows@.len() ==> (#[trigger] rows@[i]).glyph@.len() <= u16::MAX,
    ensures
        draws_glyph_rows(scene@, glyph_row_views(rows@), focused),
{
    let mut scene = Scene::new();
    let ghost v = glyph_row_views(rows@);
    let ghost mut pieces: Seq<Seq<OpView>> = Seq::empty();
    let mut i: usize = 0;
    while i < rows.len()
        invariant
            i <= rows.len(),
            v == glyph_row_views(rows@),
            forall|i: int| 0 <= i < rows@.len() ==> (#[trigger] rows@[i]).glyph@.len() <= u16::MAX,
            pieces.len() == i,
            draw_glyph_rows(pieces, v, focused),
            scene@ == joined(pieces),
        decreases rows.len() - i,
    {
        let piece = render_glyph_row(&rows[i], focused);
        assert(draws_glyph_row(piece@, v[i as int], focused));
        proof {
            joined_push(pieces, piece@);
            pieces = pieces.push(piece@);
        }
        scene.append(piece);
        i = i + 1;
    }
    assert(scene@ == joined(pieces));
    scene
}

/// A row of the Ownership group.
pub open spec fn ownership_row(area: Rect, label: Seq<char>, selected: bool, id: u32) -> GlyphRowView {
    GlyphRowView {
        area,
        label,
        glyph: radio(selected),
        id: Some(WidgetId(id)),
        kind: FocusKind::SelectOption,
    }
}

/// The rows of the Ownership group.
pub open spec fn ownership_rows(parts: Seq<Rect>, state: PageStateView) -> Seq<GlyphRowView> {
    seq![
        ownership_row(
            parts[1],
            "Any"@,
            state.ownership == Ownership::Any,
            widgets::OWNERSHIP_ANY,
        ),
        ownership_row(
            parts[2],
            "Mullvad owned only"@,
            state.ownership == Ownership::MullvadOwned,
            widgets::OWNERSHIP_MULLVAD_OWNED,
        ),
        ownership_row(
            parts[3],
            "Rented only"@,
            state.ownership == Ownership::Rented,
            widgets::OWNERSHIP_RENTED,
        ),
    ]
}

/// The row that stands for all providers.
pub open spec fn all_providers_row(area: Rect, state: PageStateView) -> GlyphRowView {
    GlyphRowView {
        area,
        label: "All providers"@,
        glyph: checkbox(state.all_selected()),
        id: Some(WidgetId(widgets::PROVIDERS_ALL)),
        kind: FocusKind::Toggle,
    }
}

/// The row of provider `i`.
pub open spec fn provider_row(area: Rect, i: int, state: PageStateView) -> GlyphRowView {
    GlyphRowView {
        area,
        label: provider_names()[i],
        glyph: checkbox(!state.excluded.contains(provider_names()[i])),
        id: id_in(i, PROVIDER_RADIO_BASE, PROVIDER_MAX),
        kind: FocusKind::Toggle,
    }
}

/// The rows of the Providers group.
pub open spec fn provider_rows(
    all_area: Rect,
    areas: Seq<Rect>,
    state: PageStateView,
) -> Seq<GlyphRowView> {
    seq![all_providers_row(all_area, state)] + Seq::new(
        provider_names().len(),
        |i: int| provider_row(areas[i], i, state),
    )
}

/// The rows of the page: the Ownership group, a gap, the Providers group.
pub open spec fn page_rows() -> Seq<Constraint> {
    seq![
        Constraint::Length(1),
        Constraint::Length(1),
        Constraint::Length(1),
        Constraint::Length(1),
        Constraint::Length(1),
        Constraint::Length(1),
        Constraint::Length(1),
        Constraint::Length(15),
        Constraint::Min(0),
    ]
}

/// `ops` draws the page in `area`, one row of widgets for each row shown.
pub open spec fn draws_page(
    ops: Seq<OpView>,
    area: Rect,
    state: PageStateView,
    focused: Option<WidgetId>,
) -> bool {
    exists|parts: Seq<Rect>, areas: Seq<Rect>, owners: Seq<OpView>, hosts: Seq<OpView>|
        #[trigger] divides_into_rows(area, page_rows(), parts) && #[trigger] divides_into_rows(
            parts[7],
            single_rows(15),
            areas,
        ) && #[trigger] draws_glyph_rows(owners, ownership_rows(parts, state), focused)
            && #[trigger] draws_glyph_rows(hosts, provider_rows(parts[6], areas, state), focused)
            && ops == seq![label_op(parts[0], "Ownership"@)] + owners + seq![
            label_op(parts[5], "Providers"@),
        ] + hosts
}

fn glyph_row(area: Rect, label: &str, glyph: &str, id: Option<WidgetId>, kind: FocusKind) -> (r:
    GlyphRow)
    ensures
        r@ == (GlyphRowView { area, label: label@, glyph: glyph@, id, kind }),
{
    GlyphRow { area, label: owned(label), glyph: owned(glyph), id, kind }
}

proof fn glyphs_are_short()
    ensures
        forall|b: bool| (#[trigger] radio(b)).len() == 3,
        forall|b: bool| (#[trigger] checkbox(b)).len() == 3,
{
    reveal_strlit("(•)");
    reveal_strlit("( )");
    reveal_strlit("[x]");
    reveal_strlit("[ ]");
}

fn list_providers(all_area: Rect, areas: &Vec<Rect>, state: &PageState) -> (rows: Vec<GlyphRow>)
    requires
        areas@.len() == 15,
    ensures
        glyph_row_views(rows@) == provider_rows(all_area, areas@, state@),
        forall|i: int| 0 <= i < rows@.len() ==> (#[trigger] rows@[i]).glyph@.len() <= u16::MAX,
{
    let ghost all = provider_rows(all_area, areas@, state@);
    let names = providers();
    assert(names@.map_values(|p: &str| p@).len() == 15);
    let mut rows: Vec<GlyphRow> = Vec::new();
    rows.push(
        glyph_row(
            all_area,
            "All providers",
            checkbox_glyph(state.all_providers_selected()),
            Some(WidgetId(widgets::PROVIDERS_ALL)),
            FocusKind::Toggle,
        ),
    );
    proof {
        glyphs_are_short();
    }
    assert(glyph_row_views(rows@) =~= all.take(1));
    let mut i: usize = 0;
    while i < names.len()
        invariant
            i <= names.len(),
            names@.len() == 15,
            areas@.len() == 15,
            names@.map_values(|p: &str| p@) == provider_names(),
            all == provider_rows(all_area, areas@, state@),
            glyph_row_views(rows@) == all.take(i + 1),
            forall|i: int| 0 <= i < rows@.len() ==> (#[trigger] rows@[i]).glyph@.len() <= u16::MAX,
        decreases names.len() - i,
    {
        let name: &str = names[i];
        assert(names@.map_values(|p: &str| p@)[i as int] == name@);
        let row = glyph_row(
            areas[i],
            name,
            checkbox_glyph(state.is_provider_selected(name)),
            row_id_or_none(i, PROVIDER_MAX, PROVIDER_RADIO_BASE),
            FocusKind::Toggle,
        );
        proof {
            glyphs_are_short();
            assert(all[i + 1] == row@);
            assert(all.take(i + 2) =~= all.take(i + 1).push(all[i + 1]));
        }
        let ghost rows0 = rows@;
        rows.push(row);
        assert(glyph_row_views(rows@) =~= glyph_row_views(rows0).push(row@));
        i = i + 1;
    }
    assert(all.take(i + 1) =~= all);
    rows
}

/// Draw the page in `area`.
///
/// `area` is the page's column, as [`crate::pages::page_area`] gives it.
pub fn render(area: Rect, app: &App) -> (scene: Scene)
    ensures
        draws_page(scene@, area, app.filter_state@, app.focused),
{
    let focused = app.focused;
    let state = &app.filter_state;
    let constraints: Vec<Constraint> = vec![
        Constraint::Length(1),
        Constraint::Length(1),
        Constraint::Length(1),
        Constraint::Length(1),
        Constraint::Length(1),
        Constraint::Length(1),
        Constraint::Length(1),
        Constraint::Length(15),
        Constraint::Min(0),
    ];
    assert(constraints@ =~= page_rows());
    let parts = split_rows(area, &constraints);
    let areas = split_rows(parts[7], &one_cell_each(15));
    proof {
        glyphs_are_short();
    }
    let mut owner_rows: Vec<GlyphRow> = Vec::new();
    owner_rows.push(
        glyph_row(
            parts[1],
            "Any",
            radio_glyph(state.ownership == Ownership::Any),
            Some(WidgetId(widgets::OWNERSHIP_ANY)),
            FocusKind::SelectOption,
        ),
    );
    owner_rows.push(
        glyph_row(
            parts[2],
            "Mullvad owned only",
            radio_glyph(state.ownership == Ownership::MullvadOwned),
            Some(WidgetId(widgets::OWNERSHIP_MULLVAD_OWNED)),
            FocusKind::SelectOption,
        ),
    );
    owner_rows.push(
        glyph_row(
            parts[3],
            "Rented only",
            radio_glyph(state.ownership == Ownership::Rented),
            Some(WidgetId(widgets::OWNERSHIP_RENTED)),
            FocusKind::SelectOption,
        ),
    );
    assert(glyph_row_views(owner_rows@) =~= ownership_rows(parts@, state@));
    let owners = render_glyph_rows(&owner_rows, focused);
    let hosts = render_glyph_rows(&list_providers(parts[6], &areas, state), focused);
    let ghost o = owners@;
    let ghost h = hosts@;
    let mut scene = Scene::new();
    scene.label(parts[0], "Ownership");
    scene.append(owners);
    scene.label(parts[5], "Providers");
    scene.append(hosts);
    assert(scene@ =~= seq![label_op(parts@[0], "Ownership"@)] + o + seq![
        label_op(parts@[5], "Providers"@),
    ] + h);
    assert(draws_glyph_rows(o, ownership_rows(parts@, state@), focused));
    assert(draws_glyph_rows(h, provider_rows(parts@[6], areas@, state@), focused));
    scene
}

/// Each widget of the page stands for one thing: the fixed rows and the
/// provider rows share no id.
pub proof fn fixed_rows_are_no_provider_rows(widget: WidgetId)
    requires
        widgets::OWNERSHIP_ANY <= widget.0 <= widgets::PROVIDERS_ALL,
    ensures
        index_in(widget, PROVIDER_RADIO_BASE, PROVIDER_MAX) is None,
{
}

/// Every provider has a row with an id, and that id leads back to the provider.
pub proof fn every_provider_can_be_toggled(state: PageStateView, i: int)
    requires
        0 <= i < provider_names().len(),
    ensures
        id_in(i, PROVIDER_RADIO_BASE, PROVIDER_MAX) is Some,
        after_activation(state, id_in(i, PROVIDER_RADIO_BASE, PROVIDER_MAX)->0) == state.toggle(
            provider_names()[i],
        ),
{
}

} // verus!

//! What a row of the tree picks, said of the settings and the row itself.

use crate::app::select_location::{NodeKind, PageStateView};
use crate::app::{App, RequestView, SelectionView};
use crate::daemon::{LocationConstraint, RelaySettings};
use crate::focus::{index_in, WidgetId};
use crate::pages::select_location::laws::{
    every_country_has_a_row, every_shown_city_has_a_row, is_radio, numbers_have_radios,
};
use crate::pages::select_location::rows::{
    chevron_of, city_row, country_row, owns, radio_of, rows_agree_with_their_numbers, shown_cities,
    visible_rows, RowKindView, RowView,
};
use crate::pages::select_location::tree::{
    filter, filtering, project, relays_of, tree_in, CountryView,
};
use crate::pages::select_location::widgets::{
    CITY_CHEVRON_BASE, CITY_MAX, COUNTRY_CHEVRON_BASE, COUNTRY_MAX,
};
use crate::pages::select_location::{activation, effective, widgets};
use vstd::prelude::*;

verus! {

/// Whether the settings have two ends.
pub open spec fn has_two_ends(app: App) -> bool {
    match app.settings {
        Some(s) => s.use_multihop,
        None => false,
    }
}

/// The end that the page edits: the one whose tab is active, if there are two
/// ends, and else the exit.
pub open spec fn edited_end(app: App) -> NodeKind {
    if has_two_ends(app) {
        app.select_location_state@.node_mode
    } else {
        NodeKind::Exit
    }
}

/// What `node` is set to, where the settings are known and say so.
pub open spec fn set_to(app: App, node: NodeKind) -> Option<LocationConstraint> {
    match app.settings {
        Some(s) => match s.relay_settings {
            RelaySettings::Normal { exit, entry } => Some(
                if node == NodeKind::Exit {
                    exit
                } else {
                    entry
                },
            ),
            RelaySettings::CustomTunnel => None,
        },
        None => None,
    }
}

/// Whether a constraint is the very place that a row shows.
pub open spec fn is_place_of(c: LocationConstraint, row: RowView) -> bool {
    match row.kind {
        RowKindView::Country { code, .. } => match c {
            LocationConstraint::Country(set) => set@ == code,
            _ => false,
        },
        RowKindView::City { country, code, .. } => match c {
            LocationConstraint::City { country: a, city: b } => a@ == country && b@ == code,
            _ => false,
        },
        RowKindView::Relay { hostname } => match c {
            LocationConstraint::Hostname(set) => set@ == hostname,
            _ => false,
        },
    }
}

/// Whether the row's place is what the end that is not edited is set to.
pub open spec fn is_the_other_end(app: App, row: RowView) -> bool {
    let end = if edited_end(app) == NodeKind::Exit {
        NodeKind::Entry
    } else {
        NodeKind::Exit
    };
    has_two_ends(app) && match set_to(app, end) {
        Some(c) => is_place_of(c, row),
        None => false,
    }
}

/// The request that sets `node` to the place of a row.
pub open spec fn sets_to_place_of(row: RowView, node: NodeKind) -> RequestView {
    match row.kind {
        RowKindView::Country { code, .. } => RequestView::SelectCountry { node, country: code },
        RowKindView::City { country, code, .. } => RequestView::SelectCity {
            node,
            country,
            city: code,
        },
        RowKindView::Relay { hostname } => RequestView::SelectRelay { node, hostname },
    }
}

/// The rows that the page shows for the end that it edits.
pub open spec fn page_rows_of(app: App) -> Seq<RowView> {
    let state = PageStateView { node_mode: edited_end(app), ..app.select_location_state@ };
    visible_rows(page_tree(app), state.tree(), state.query.len() > 0)
}

/// The tree that the page shows: the relay list, pruned to the query.
pub open spec fn page_tree(app: App) -> Seq<CountryView> {
    filter(project(relays_of(app)), app.select_location_state@.query)
}

proof fn the_same_end(app: App)
    ensures
        effective(app) == edited_end(app),
        app.multihop() == has_two_ends(app),
        app.select_location_state@.with_mode(effective(app)) == (PageStateView {
            node_mode: edited_end(app),
            ..app.select_location_state@
        }),
{
}

/// A row picks the place that it shows, for the end that is edited. It is refused
/// exactly where there are two ends and the other is set to that very place.
/// Picking moves neither the focus nor anything in the tree.
pub proof fn a_row_picks_its_place(app: App, k: int, widget: WidgetId)
    requires
        is_radio(page_rows_of(app), k, widget),
    ensures
        ({
            let row = page_rows_of(app)[k];
            let a = activation(app, widget);
            &&& a.refused <==> is_the_other_end(app, row)
            &&& a.request == if is_the_other_end(app, row) {
                None
            } else {
                Some(sets_to_place_of(row, edited_end(app)))
            }
            &&& a.focused == app.focused
            &&& a.state == (PageStateView {
                node_mode: edited_end(app),
                ..app.select_location_state@
            })
        }),
{
    the_same_end(app);
    let state = app.select_location_state@.with_mode(effective(app));
    let tree = page_tree(app);
    let force = state.query.len() > 0;
    rows_agree_with_their_numbers(tree, state.tree(), force, k);
}

/// What is not the radio of a row that is shown picks nothing, and is refused
/// nothing.
pub proof fn only_radios_pick(app: App, widget: WidgetId)
    requires
        forall|k: int| !(#[trigger] is_radio(page_rows_of(app), k, widget)),
    ensures
        activation(app, widget).request is None,
        !activation(app, widget).refused,
{
    the_same_end(app);
    let state = app.select_location_state@.with_mode(effective(app));
    let tree = page_tree(app);
    let force = state.query.len() > 0;
    assert(visible_rows(tree, state.tree(), force) == page_rows_of(app));
    assert forall|k: int| !(#[trigger] is_radio(
        visible_rows(tree, state.tree(), force),
        k,
        widget,
    )) by {
        assert(!is_radio(page_rows_of(app), k, widget));
    }
    numbers_have_radios(tree, state.tree(), force, widget);
    assert(tree_in(app, state) == tree);
    assert(filtering(state) == force);
    let n = tree.len() as int;
    assert(!(exists|k: int| #[trigger]
        is_radio(visible_rows(tree, state.tree(), force), k, widget)));
}

/// The tree state with the place of a row opened if it was closed, and closed if
/// it was open; relays have nothing to open.
pub open spec fn turned_over(state: PageStateView, row: RowView) -> PageStateView {
    match row.kind {
        RowKindView::Country { code, .. } => if state.tree().countries.contains(code) {
            state.collapse_country(code)
        } else {
            state.expand_country(code)
        },
        RowKindView::City { country, code, .. } => if state.tree().cities.contains((country, code)) {
            state.collapse_city(country, code)
        } else {
            state.expand_city(country, code)
        },
        RowKindView::Relay { .. } => state,
    }
}

/// Whether the query holds the row open.
pub open spec fn held_open(app: App, row: RowView) -> bool {
    match row.kind {
        RowKindView::Country { .. } => app.select_location_state@.query.len() > 0,
        RowKindView::City { force_expand_under_filter, .. } => force_expand_under_filter,
        RowKindView::Relay { .. } => true,
    }
}

/// A chevron turns its own row over, unless the query holds it open, and gives
/// the focus to the row's radio. It picks nothing.
pub proof fn a_chevron_turns_its_row_over(app: App, k: int, widget: WidgetId)
    requires
        0 <= k < page_rows_of(app).len(),
        chevron_of(page_rows_of(app)[k]) == Some(widget),
    ensures
        ({
            let row = page_rows_of(app)[k];
            let a = activation(app, widget);
            let state = PageStateView {
                node_mode: edited_end(app),
                ..app.select_location_state@
            };
            &&& a.request is None
            &&& !a.refused
            &&& a.focused == radio_of(row)
            &&& a.state == if held_open(app, row) {
                state
            } else {
                turned_over(state, row)
            }
        }),
{
    the_same_end(app);
    let state = app.select_location_state@.with_mode(effective(app));
    rows_agree_with_their_numbers(page_tree(app), state.tree(), state.query.len() > 0, k);
}

/// Whether `selection` is how the pages speak of the constraint `c`.
pub open spec fn speaks_of(selection: SelectionView, c: LocationConstraint) -> bool {
    match c {
        LocationConstraint::Any => selection is Any,
        LocationConstraint::Country(code) => selection is Country && selection->Country_0
            == code@,
        LocationConstraint::City { country, city } => selection is City && selection->country
            == country@ && selection->city == city@,
        LocationConstraint::Hostname(h) => selection is Hostname && selection->Hostname_0 == h@,
        LocationConstraint::CustomList => selection is CustomList,
    }
}

/// The selection of an end is what the settings hold for that end, and not for
/// the other.
pub proof fn selections_come_from_the_settings(app: App, node: NodeKind)
    ensures
        match set_to(app, node) {
            Some(c) => speaks_of(app.selection(node), c),
            None => app.selection(node) is CustomTunnel || app.selection(node) is Unknown,
        },
        app.selection(node) is Unknown <==> app.settings is None,
{
}

/// A widget that is neither the radio nor the chevron of a row that is shown, nor
/// one of those above the rows, changes nothing.
pub proof fn widgets_of_no_row_change_nothing(app: App, widget: WidgetId)
    requires
        forall|k: int|
            0 <= k < page_rows_of(app).len() ==> !owns(#[trigger] page_rows_of(app)[k], widget),
        widget != WidgetId(widgets::ENTRY_TAB),
        widget != WidgetId(widgets::EXIT_TAB),
        widget != WidgetId(widgets::SEARCH_ANCHOR),
        widget != WidgetId(widgets::FILTER_BUTTON),
    ensures
        ({
            let a = activation(app, widget);
            &&& a.request is None
            &&& !a.refused
            &&& a.focused == app.focused
            &&& a.state == (PageStateView {
                node_mode: edited_end(app),
                ..app.select_location_state@
            })
        }),
{
    the_same_end(app);
    let state = app.select_location_state@.with_mode(effective(app));
    let tree = tree_in(app, state);
    let n = tree.len() as int;
    let rows = visible_rows(tree, state.tree(), filtering(state));
    assert(rows == page_rows_of(app));
    let country = index_in(widget, COUNTRY_CHEVRON_BASE, COUNTRY_MAX);
    let city = index_in(widget, CITY_CHEVRON_BASE, CITY_MAX);
    assert forall|k: int| !(#[trigger] is_radio(rows, k, widget)) by {
        if is_radio(rows, k, widget) {
            assert(owns(page_rows_of(app)[k], widget));
        }
    }
    numbers_have_radios(tree, state.tree(), filtering(state), widget);
    only_radios_pick(app, widget);
    if country is Some && country->0 < n {
        every_country_has_a_row(tree, state.tree(), filtering(state), country->0 as int);
        let row = country_row(tree[country->0 as int], state.tree(), filtering(state), country->0 as int);
        let k = rows.index_of(row);
        assert(owns(page_rows_of(app)[k], widget));
    }
    let cities = shown_cities(tree, n, state.tree(), filtering(state));
    if city is Some && city->0 < cities.len() {
        every_shown_city_has_a_row(tree, state.tree(), filtering(state), city->0 as int);
        let place = cities[city->0 as int];
        let row = city_row(place.country.code, place.city, state.tree(), city->0 as int);
        let k = rows.index_of(row);
        assert(owns(page_rows_of(app)[k], widget));
    }
}

} // verus!

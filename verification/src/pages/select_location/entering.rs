//! Where the focus goes when the page is entered, a tab is turned to or a pick
//! has ended, and how the relays are grouped.

use crate::app::select_location::{NodeKind, PageStateView, TreeStateView};
use crate::app::{Answer, App, NotificationView, PageId, RequestView};
use crate::daemon::{LocationConstraint, RelayView};
use crate::focus::WidgetId;
use crate::pages::select_location::laws::{
    first_showing, is_radio, shows, the_focused_selection_is_a_row,
};
use crate::pages::select_location::picking::set_to;
use crate::pages::select_location::rows::{radio_of, visible_rows, RowView};
use crate::pages::select_location::tree::{
    code_at, codes_are_sorted_and_complete, codes_of, group, project, relays_of, tree_in, Tier,
};
use crate::pages::select_location::{
    activation, completed, entered, focus_outcome, opened_page, relay_from, target_of, widgets,
    FocusTargetView,
};
use vstd::prelude::*;

verus! {

// ---- The place that is set ----

/// The place that `node` is set to, if it is set to one.
pub open spec fn place_set(app: App, node: NodeKind) -> Option<FocusTargetView> {
    match set_to(app, node) {
        Some(LocationConstraint::Country(code)) => Some(FocusTargetView::Country(code@)),
        Some(LocationConstraint::City { country, city }) => Some(
            FocusTargetView::City { country: country@, city: city@ },
        ),
        Some(LocationConstraint::Hostname(name)) => Some(FocusTargetView::Hostname(name@)),
        _ => None,
    }
}

/// Whether the relay `m` is the first with the given hostname.
pub open spec fn is_first_named(relays: Seq<RelayView>, hostname: Seq<char>, m: int) -> bool {
    &&& 0 <= m < relays.len()
    &&& relays[m].hostname == hostname
    &&& forall|q: int| 0 <= q < m ==> (#[trigger] relays[q]).hostname != hostname
}

proof fn relay_from_is_first(relays: Seq<RelayView>, hostname: Seq<char>, from: int)
    requires
        0 <= from <= relays.len(),
        forall|q: int| 0 <= q < from ==> (#[trigger] relays[q]).hostname != hostname,
    ensures
        match relay_from(relays, hostname, from) {
            Some(r) => exists|m: int| #[trigger]
                is_first_named(relays, hostname, m) && relays[m] == r,
            None => forall|q: int|
                0 <= q < relays.len() ==> (#[trigger] relays[q]).hostname != hostname,
        },
    decreases relays.len() - from,
{
    if from < relays.len() {
        if relays[from].hostname == hostname {
            assert(is_first_named(relays, hostname, from));
        } else {
            relay_from_is_first(relays, hostname, from + 1);
        }
    }
}

/// The tree of the end whose tab is active.
pub open spec fn active_tree(state: PageStateView) -> TreeStateView {
    match state.node_mode {
        NodeKind::Exit => state.exit,
        NodeKind::Entry => state.entry,
    }
}

/// The state with another tree for the end whose tab is active.
pub open spec fn with_active_tree(state: PageStateView, tree: TreeStateView) -> PageStateView {
    match state.node_mode {
        NodeKind::Exit => PageStateView { exit: tree, ..state },
        NodeKind::Entry => PageStateView { entry: tree, ..state },
    }
}

/// Whether the way to a place was opened, and nothing else: to a city its
/// country, to a relay its country and its city.
pub open spec fn way_is_opened(
    before: TreeStateView,
    after: TreeStateView,
    relays: Seq<RelayView>,
    target: FocusTargetView,
) -> bool {
    match target {
        FocusTargetView::Country(_) => after == before,
        FocusTargetView::City { country, .. } => after == (TreeStateView {
            countries: before.countries.insert(country),
            ..before
        }),
        FocusTargetView::Hostname(name) => {
            ||| exists|m: int| #[trigger]
                is_first_named(relays, name, m) && after == (TreeStateView {
                    countries: before.countries.insert(relays[m].country_code),
                    cities: before.cities.insert((relays[m].country_code, relays[m].city_code)),
                    ..before
                })
            ||| after == before && forall|q: int|
                0 <= q < relays.len() ==> (#[trigger] relays[q]).hostname != name
        },
    }
}

/// Focusing what an end is set to opens the way to it, focuses the first row that
/// shows it, and centres it; where no row does, or where the end is set to no
/// place, the focus stays.
pub proof fn what_is_set_is_focused(app: App, state: PageStateView, mode: NodeKind)
    ensures
        ({
            let outcome = focus_outcome(app, state, mode);
            match place_set(app, mode) {
                None => outcome.state == state && outcome.focused == app.focused && !outcome.found,
                Some(target) => {
                    let tree = active_tree(outcome.state);
                    let rows = visible_rows(tree_in(app, state), tree, state.query.len() > 0);
                    &&& way_is_opened(active_tree(state), tree, relays_of(app), target)
                    &&& outcome.state == (PageStateView {
                        center_focused: outcome.found || state.center_focused,
                        ..with_active_tree(state, tree)
                    })
                    &&& outcome.found ==> exists|k: int|
                        outcome.focused is Some && #[trigger] is_radio(
                            rows,
                            k,
                            outcome.focused->0,
                        ) && shows(rows[k], target) && forall|q: int|
                            0 <= q < k ==> !shows(#[trigger] rows[q], target)
                    &&& !outcome.found ==> outcome.focused == app.focused && forall|k: int|
                        0 <= k < rows.len() && shows(#[trigger] rows[k], target) ==> exists|q: int|
                            0 <= q <= k && shows(#[trigger] rows[q], target) && radio_of(
                                rows[q],
                            ) is None
                },
            }
        }),
{
    let outcome = focus_outcome(app, state, mode);
    if let Some(target) = place_set(app, mode) {
        assert(target_of(app.selection(mode)) == Some(target));
        let tree = active_tree(outcome.state);
        let rows = visible_rows(tree_in(app, state), tree, state.query.len() > 0);
        if let FocusTargetView::Hostname(name) = target {
            relay_from_is_first(relays_of(app), name, 0);
        }
        assert(way_is_opened(active_tree(state), tree, relays_of(app), target));
        the_focused_selection_is_a_row(tree_in(app, state), tree, state.query.len() > 0, target);
        first_showing_is_first(rows, target, 0);
        assert(outcome.state == (PageStateView {
            center_focused: outcome.found || state.center_focused,
            ..with_active_tree(state, tree)
        }));
        if outcome.found {
            let k = first_showing(rows, target, 0)->0;
            assert(is_radio(rows, k, outcome.focused->0));
        } else {
            assert forall|k: int| 0 <= k < rows.len() && shows(#[trigger] rows[k], target) implies
                exists|q: int|
                0 <= q <= k && shows(#[trigger] rows[q], target) && radio_of(rows[q]) is None by {
                let q = first_showing(rows, target, 0)->0;
                assert(shows(rows[q], target));
            }
        }
    } else {
        assert(target_of(app.selection(mode)) is None);
    }
}

proof fn first_showing_is_first(rows: Seq<RowView>, target: FocusTargetView, from: int)
    requires
        0 <= from <= rows.len(),
        forall|q: int| 0 <= q < from ==> !shows(#[trigger] rows[q], target),
    ensures
        match first_showing(rows, target, from) {
            Some(k) => from <= k < rows.len() && shows(rows[k], target) && forall|q: int|
                0 <= q < k ==> !shows(#[trigger] rows[q], target),
            None => forall|q: int| 0 <= q < rows.len() ==> !shows(#[trigger] rows[q], target),
        },
    decreases rows.len() - from,
{
    if from < rows.len() && !shows(rows[from], target) {
        first_showing_is_first(rows, target, from + 1);
    }
}

/// A tab turns to its own end and focuses what that is set to, or itself where
/// there is nothing to focus. Where the daemon picks the entry by itself, the
/// Entry tab only turns to it. A tab picks nothing.
pub proof fn tabs_turn_to_their_end(app: App, entry: bool)
    ensures
        ({
            let tab = WidgetId(
                if entry {
                    widgets::ENTRY_TAB
                } else {
                    widgets::EXIT_TAB
                },
            );
            let end = if entry {
                NodeKind::Entry
            } else {
                NodeKind::Exit
            };
            let turned = PageStateView { node_mode: end, ..app.select_location_state@ };
            let picked_by_daemon = match app.settings {
                Some(s) => s.daita.enabled && s.daita.use_multihop_if_necessary,
                None => false,
            };
            let outcome = focus_outcome(app, turned, end);
            let a = activation(app, tab);
            &&& a.request is None
            &&& !a.refused
            &&& if entry && picked_by_daemon {
                a.state == turned && a.focused == Some(tab)
            } else {
                &&& a.state == outcome.state
                &&& outcome.found ==> a.focused == outcome.focused
                &&& !outcome.found ==> a.focused == Some(tab)
            }
        }),
{
}

/// The search line and the filter button change nothing in the tree.
pub proof fn search_and_filter_pick_nothing(app: App)
    ensures
        ({
            let search = activation(app, WidgetId(widgets::SEARCH_ANCHOR));
            let filter = activation(app, WidgetId(widgets::FILTER_BUTTON));
            &&& search.state == app.select_location_state@
            &&& search.focused == app.focused
            &&& search.request is None
            &&& !search.refused
            &&& filter == search
        }),
{
}

/// A pick that the daemon refused is reported and changes nothing. One for the
/// exit closes the page. One for the entry turns to the exit and focuses what
/// that is set to, or its tab.
pub proof fn picks_end_where_they_should(app: App, request: RequestView, answer: Answer)
    ensures
        ({
            let end = completed(app, request, answer);
            let node = match request {
                RequestView::SelectCountry { node, .. } => Some(node),
                RequestView::SelectCity { node, .. } => Some(node),
                RequestView::SelectRelay { node, .. } => Some(node),
                _ => None,
            };
            let turned = PageStateView {
                node_mode: NodeKind::Exit,
                ..app.select_location_state@
            };
            let outcome = focus_outcome(app, turned, NodeKind::Exit);
            &&& end.leaves <==> answer is Ok && node == Some(NodeKind::Exit)
            &&& end.notice is Some <==> answer is Err && node is Some
            &&& end.notice is Some ==> end.notice->0 == NotificationView::ActionFailed {
                action: if request is SelectCountry {
                    "select country"@
                } else if request is SelectCity {
                    "select city"@
                } else {
                    "select relay"@
                },
                error: answer->Err_0@,
            }
            &&& if answer is Ok && node == Some(NodeKind::Entry) {
                &&& end.state == outcome.state
                &&& outcome.found ==> end.focused == outcome.focused
                &&& !outcome.found ==> end.focused == Some(WidgetId(widgets::EXIT_TAB))
            } else {
                end.state == app.select_location_state@ && end.focused == app.focused
            }
        }),
{
}

// ---- Grouping ----

proof fn filtered_twice(relays: Seq<RelayView>, p: spec_fn(RelayView) -> bool, q: spec_fn(
    RelayView,
) -> bool)
    ensures
        relays.filter(p).filter(q) == relays.filter(|r: RelayView| p(r) && q(r)),
    decreases relays.len(),
{
    reveal(Seq::filter);
    if relays.len() > 0 {
        filtered_twice(relays.drop_last(), p, q);
        let before = relays.drop_last().filter(p);
        if p(relays.last()) {
            assert(before.push(relays.last()).drop_last() =~= before);
        }
    }
}

/// Whether `m` is the first of `relays` for which `p` holds.
pub open spec fn is_first_with(
    relays: Seq<RelayView>,
    p: spec_fn(RelayView) -> bool,
    m: int,
) -> bool {
    &&& 0 <= m < relays.len()
    &&& p(relays[m])
    &&& forall|q: int| 0 <= q < m ==> !p(#[trigger] relays[q])
}

proof fn filters_start_with_the_first(relays: Seq<RelayView>, p: spec_fn(RelayView) -> bool)
    ensures
        relays.filter(p).len() > 0 ==> exists|m: int| #[trigger]
            is_first_with(relays, p, m) && relays.filter(p)[0] == relays[m],
        relays.filter(p).len() == 0 ==> forall|q: int|
            0 <= q < relays.len() ==> !p(#[trigger] relays[q]),
    decreases relays.len(),
{
    reveal(Seq::filter);
    if relays.len() > 0 {
        let less = relays.drop_last();
        filters_start_with_the_first(less, p);
        if less.filter(p).len() > 0 {
            let m = choose|m: int| #[trigger]
                is_first_with(less, p, m) && less.filter(p)[0] == less[m];
            assert(is_first_with(less, p, m));
            assert forall|q: int| 0 <= q < m implies !p(#[trigger] relays[q]) by {
                assert(less[q] == relays[q]);
            }
            assert(is_first_with(relays, p, m));
            assert(relays.filter(p)[0] == relays[m]);
        } else {
            assert forall|q: int| 0 <= q < relays.len() - 1 implies !p(#[trigger] relays[q]) by {
                assert(less[q] == relays[q]);
            }
            if p(relays.last()) {
                assert(is_first_with(relays, p, relays.len() - 1));
            }
        }
    }
}

/// A city of the tree holds the relays of the list with its country's and its own
/// code, in the order of the list; a place is named as its first relay names it.
pub proof fn relays_are_grouped_by_their_codes(relays: Seq<RelayView>, i: int, j: int)
    requires
        0 <= i < project(relays).len(),
        0 <= j < project(relays)[i].cities.len(),
    ensures
        ({
            let country = project(relays)[i];
            let city = country.cities[j];
            let in_country = |r: RelayView| r.country_code == country.code;
            let in_city = |r: RelayView|
                r.country_code == country.code && r.city_code == city.code;
            &&& city.relays == relays.filter(in_city)
            &&& exists|m: int| #[trigger]
                is_first_with(relays, in_country, m) && country.name == relays[m].country_name
            &&& exists|m: int| #[trigger]
                is_first_with(relays, in_city, m) && city.name == relays[m].city_name
        }),
{
    let country = project(relays)[i];
    let city = country.cities[j];
    let in_country = |r: RelayView| r.country_code == country.code;
    let of_city = |r: RelayView| r.city_code == city.code;
    let in_city = |r: RelayView| r.country_code == country.code && r.city_code == city.code;
    let there = group(Tier::Country, relays, country.code);
    assert((|r: RelayView| code_at(Tier::Country, r) == country.code) =~= in_country);
    assert((|r: RelayView| code_at(Tier::City, r) == city.code) =~= of_city);
    assert((|r: RelayView| in_country(r) && of_city(r)) =~= in_city);
    filtered_twice(relays, in_country, of_city);
    codes_are_sorted_and_complete(Tier::Country, relays);
    codes_are_sorted_and_complete(Tier::City, there);
    assert(codes_of(Tier::Country, relays).contains(country.code));
    assert(codes_of(Tier::City, there).contains(city.code));
    filters_start_with_the_first(relays, in_country);
    filters_start_with_the_first(relays, in_city);
    filters_start_with_the_first(there, of_city);
    let m = choose|m: int|
        0 <= m < relays.len() && code_at(Tier::Country, #[trigger] relays[m]) == country.code;
    assert(in_country(relays[m]));
    let c = choose|c: int|
        0 <= c < there.len() && code_at(Tier::City, #[trigger] there[c]) == city.code;
    assert(of_city(there[c]));
}

/// The page is entered on the exit, with what that is set to focused, and only the
/// filter button leads on to another page.
pub proof fn the_page_is_entered_on_the_exit(app: App, widget: WidgetId)
    ensures
        entered(app) == focus_outcome(
            app,
            PageStateView { node_mode: NodeKind::Exit, ..app.select_location_state@ },
            NodeKind::Exit,
        ),
        entered(app).state.node_mode == NodeKind::Exit,
        entered(app).state.query == app.select_location_state@.query,
        opened_page(widget) is Some <==> widget == WidgetId(widgets::FILTER_BUTTON),
        opened_page(widget) is Some ==> opened_page(widget) == Some(PageId::SelectLocationFilter),
{
}

} // verus!

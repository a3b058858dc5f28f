//! Which rows the page shows, what the arrows do to them, and what stands open,
//! said of the relays and of the places that the page holds open.

use crate::app::select_location::{NodeKind, PageStateView, TreeStateView};
use crate::app::App;
use crate::daemon::RelayView;
use crate::focus::{ArrowDir, WidgetId};
use crate::pages::select_location::laws::{
    first_children_stand_right_below, is_radio, only_countries_have_no_parent,
    the_row_above_a_city_is_its_country, widgets_lead_back_to_their_rows,
};
use crate::pages::select_location::rows::{
    centered_offset, city_row, city_rows, country_row, country_rows, is_parent_kind, open_relays,
    parent_before, radio_of, relay_rows, shown_cities, shown_relays, sliding_offset, visible_rows,
    RowKindView, RowView,
};
use crate::pages::select_location::tree::{filter, project, relays_of, CityView, CountryView};
use crate::pages::select_location::{
    after_arrow, arrow_action, focus_after, is_used_up, rows_in, toggle_city, toggle_country,
    ArrowActionView,
};
use vstd::prelude::*;

verus! {

// ---- Which rows there are ----

/// Whether the page holds a country open: a query opens all.
pub open spec fn country_is_open(code: Seq<char>, state: TreeStateView, force: bool) -> bool {
    force || state.countries.contains(code)
}

/// Whether the page holds a city open: a query opens those that only a relay
/// stays for.
pub open spec fn city_is_open(country: Seq<char>, city: CityView, state: TreeStateView) -> bool {
    city.force_expand_under_filter || state.cities.contains((country, city.code))
}

/// Whether a row shows a country as it stands.
pub open spec fn shows_country(
    row: RowView,
    country: CountryView,
    state: TreeStateView,
    force: bool,
) -> bool {
    row.kind == RowKindView::Country {
        name: country.name,
        code: country.code,
        expanded: country_is_open(country.code, state, force),
    }
}

/// Whether a row shows a city as it stands.
pub open spec fn shows_city(
    row: RowView,
    country: CountryView,
    city: CityView,
    state: TreeStateView,
) -> bool {
    row.kind == RowKindView::City {
        country: country.code,
        name: city.name,
        code: city.code,
        expanded: city_is_open(country.code, city, state),
        force_expand_under_filter: city.force_expand_under_filter,
    }
}

/// Whether a row shows a relay.
pub open spec fn shows_relay(row: RowView, relay: RelayView) -> bool {
    row.kind == RowKindView::Relay { hostname: relay.hostname }
}

/// Whether a row of `country`'s cities shows what it should.
spec fn city_row_is_due(row: RowView, country: CountryView, n: int, state: TreeStateView) -> bool {
    ||| exists|j: int|
        0 <= j < n && shows_city(row, country, #[trigger] country.cities[j], state)
    ||| exists|j: int, r: int|
        0 <= j < n && 0 <= r < country.cities[j].relays.len() && city_is_open(
            country.code,
            country.cities[j],
            state,
        ) && shows_relay(row, #[trigger] country.cities[j].relays[r])
}

proof fn city_rows_are_due(
    country: CountryView,
    n: int,
    state: TreeStateView,
    city_base: int,
    relay_base: int,
    k: int,
)
    requires
        0 <= n <= country.cities.len(),
        0 <= k < city_rows(country, n, state, city_base, relay_base).len(),
    ensures
        city_row_is_due(
            city_rows(country, n, state, city_base, relay_base)[k],
            country,
            n,
            state,
        ),
    decreases n,
{
    if n > 0 {
        let rows = city_rows(country, n, state, city_base, relay_base);
        let before = city_rows(country, n - 1, state, city_base, relay_base);
        let city = country.cities[n - 1];
        if k < before.len() {
            city_rows_are_due(country, n - 1, state, city_base, relay_base, k);
            assert(rows[k] == before[k]);
            assert(city_row_is_due(rows[k], country, n - 1, state));
        } else if k == before.len() {
            assert(shows_city(rows[k], country, country.cities[n - 1], state));
        } else {
            let r = k - before.len() - 1;
            assert(shows_relay(rows[k], country.cities[n - 1].relays[r]));
        }
    }
}

/// Whether a row of the page shows what it should.
pub open spec fn row_is_due(
    row: RowView,
    tree: Seq<CountryView>,
    n: int,
    state: TreeStateView,
    force: bool,
) -> bool {
    ||| exists|i: int| 0 <= i < n && shows_country(row, #[trigger] tree[i], state, force)
    ||| exists|i: int, j: int|
        0 <= i < n && 0 <= j < tree[i].cities.len() && country_is_open(tree[i].code, state, force)
            && shows_city(row, tree[i], #[trigger] tree[i].cities[j], state)
    ||| exists|i: int, j: int, r: int|
        0 <= i < n && 0 <= j < tree[i].cities.len() && 0 <= r < tree[i].cities[j].relays.len()
            && country_is_open(tree[i].code, state, force) && city_is_open(
            tree[i].code,
            tree[i].cities[j],
            state,
        ) && shows_relay(row, #[trigger] tree[i].cities[j].relays[r])
}

proof fn country_rows_are_due(
    tree: Seq<CountryView>,
    n: int,
    state: TreeStateView,
    force: bool,
    k: int,
)
    requires
        0 <= n <= tree.len(),
        0 <= k < country_rows(tree, n, state, force).len(),
    ensures
        row_is_due(country_rows(tree, n, state, force)[k], tree, n, state, force),
    decreases n,
{
    if n > 0 {
        let rows = country_rows(tree, n, state, force);
        let before = country_rows(tree, n - 1, state, force);
        let country = tree[n - 1];
        if k < before.len() {
            country_rows_are_due(tree, n - 1, state, force, k);
            assert(rows[k] == before[k]);
            assert(row_is_due(rows[k], tree, n - 1, state, force));
        } else if k == before.len() {
            assert(shows_country(rows[k], tree[n - 1], state, force));
        } else {
            let cities = shown_cities(tree, n - 1, state, force).len() as int;
            let relays = shown_relays(tree, n - 1, state, force).len() as int;
            let m = country.cities.len() as int;
            let at = k - before.len() - 1;
            assert(rows[k] == city_rows(country, m, state, cities, relays)[at]);
            city_rows_are_due(country, m, state, cities, relays, at);
            if exists|j: int|
                0 <= j < m && shows_city(rows[k], country, #[trigger] country.cities[j], state) {
                let j = choose|j: int|
                    0 <= j < m && shows_city(rows[k], country, #[trigger] country.cities[j], state);
                assert(shows_city(rows[k], tree[n - 1], tree[n - 1].cities[j], state));
            } else {
                let (j, r) = choose|j: int, r: int|
                    0 <= j < m && 0 <= r < country.cities[j].relays.len() && city_is_open(
                        country.code,
                        country.cities[j],
                        state,
                    ) && shows_relay(rows[k], #[trigger] country.cities[j].relays[r]);
                assert(shows_relay(rows[k], tree[n - 1].cities[j].relays[r]));
            }
        }
    }
}

/// Every row shows a country, a city of a country that is open, or a relay of a
/// city that is open in a country that is open, and says rightly whether it is
/// open itself.
pub proof fn every_row_shows_what_is_open(
    tree: Seq<CountryView>,
    state: TreeStateView,
    force: bool,
    k: int,
)
    requires
        0 <= k < visible_rows(tree, state, force).len(),
    ensures
        row_is_due(
            visible_rows(tree, state, force)[k],
            tree,
            tree.len() as int,
            state,
            force,
        ),
{
    country_rows_are_due(tree, tree.len() as int, state, force, k);
}

/// Where the rows of the country `i` begin: how many rows stand above it.
pub open spec fn rows_above(
    tree: Seq<CountryView>,
    i: int,
    state: TreeStateView,
    force: bool,
) -> int
    decreases i,
{
    if i <= 0 {
        0
    } else {
        let country = tree[i - 1];
        rows_above(tree, i - 1, state, force) + 1 + if country_is_open(country.code, state, force) {
            rows_above_city(country, country.cities.len() as int, state)
        } else {
            0
        }
    }
}

/// How many rows of a country that is open stand above its city `j`, the country
/// itself not counted.
pub open spec fn rows_above_city(country: CountryView, j: int, state: TreeStateView) -> int
    decreases j,
{
    if j <= 0 {
        0
    } else {
        let city = country.cities[j - 1];
        rows_above_city(country, j - 1, state) + 1 + if city_is_open(country.code, city, state) {
            city.relays.len() as int
        } else {
            0
        }
    }
}

proof fn city_rows_are_counted(
    country: CountryView,
    n: int,
    state: TreeStateView,
    city_base: int,
    relay_base: int,
)
    requires
        0 <= n <= country.cities.len(),
    ensures
        city_rows(country, n, state, city_base, relay_base).len() == rows_above_city(
            country,
            n,
            state,
        ),
    decreases n,
{
    if n > 0 {
        city_rows_are_counted(country, n - 1, state, city_base, relay_base);
    }
}

proof fn country_rows_are_counted(tree: Seq<CountryView>, n: int, state: TreeStateView, force: bool)
    requires
        0 <= n <= tree.len(),
    ensures
        country_rows(tree, n, state, force).len() == rows_above(tree, n, state, force),
    decreases n,
{
    if n > 0 {
        country_rows_are_counted(tree, n - 1, state, force);
        city_rows_are_counted(
            tree[n - 1],
            tree[n - 1].cities.len() as int,
            state,
            shown_cities(tree, n - 1, state, force).len() as int,
            shown_relays(tree, n - 1, state, force).len() as int,
        );
    }
}

proof fn city_stands_in_more_rows(
    rows: Seq<RowView>,
    more: Seq<RowView>,
    shift: int,
    country: CountryView,
    city: CityView,
    state: TreeStateView,
    at: int,
)
    requires
        city_stands_at(rows, country, city, state, at),
        0 <= shift,
        shift + rows.len() <= more.len(),
        forall|q: int| 0 <= q < rows.len() ==> #[trigger] rows[q] == more[shift + q],
    ensures
        city_stands_at(more, country, city, state, shift + at),
{
    assert(rows[at] == more[shift + at]);
    if city_is_open(country.code, city, state) {
        assert forall|r: int| 0 <= r < city.relays.len() implies shows_relay(
            more[shift + at + 1 + r],
            #[trigger] city.relays[r],
        ) by {
            assert(rows[at + 1 + r] == more[shift + (at + 1 + r)]);
        }
    }
}

proof fn city_stands(
    country: CountryView,
    n: int,
    state: TreeStateView,
    city_base: int,
    relay_base: int,
    j: int,
)
    requires
        0 <= j < n <= country.cities.len(),
    ensures
        city_stands_at(
            city_rows(country, n, state, city_base, relay_base),
            country,
            country.cities[j],
            state,
            rows_above_city(country, j, state),
        ),
    decreases n,
{
    let rows = city_rows(country, n, state, city_base, relay_base);
    let before = city_rows(country, n - 1, state, city_base, relay_base);
    let at = rows_above_city(country, j, state);
    city_rows_are_counted(country, n - 1, state, city_base, relay_base);
    if j < n - 1 {
        city_stands(country, n - 1, state, city_base, relay_base, j);
        city_stands_in_more_rows(before, rows, 0, country, country.cities[j], state, at);
    } else {
        assert(rows[at] == city_row(country.code, country.cities[j], state, city_base + j));
        if city_is_open(country.code, country.cities[j], state) {
            let base = relay_base + open_relays(country, n - 1, state).len();
            assert forall|r: int| 0 <= r < country.cities[j].relays.len() implies shows_relay(
                rows[at + 1 + r],
                #[trigger] country.cities[j].relays[r],
            ) by {
                assert(rows[at + 1 + r] == relay_rows(country.cities[j].relays, base)[r]);
            }
        }
    }
}

proof fn country_stands(
    tree: Seq<CountryView>,
    n: int,
    state: TreeStateView,
    force: bool,
    i: int,
)
    requires
        0 <= i < n <= tree.len(),
    ensures
        stands_at(
            country_rows(tree, n, state, force),
            tree[i],
            state,
            force,
            rows_above(tree, i, state, force),
        ),
    decreases n,
{
    let rows = country_rows(tree, n, state, force);
    let before = country_rows(tree, n - 1, state, force);
    let at = rows_above(tree, i, state, force);
    let country = tree[i];
    country_rows_are_counted(tree, n - 1, state, force);
    if i < n - 1 {
        country_stands(tree, n - 1, state, force, i);
        assert(rows[at] == before[at]);
        if country_is_open(country.code, state, force) {
            assert forall|j: int| 0 <= j < country.cities.len() implies city_stands_at(
                rows,
                country,
                #[trigger] country.cities[j],
                state,
                at + 1 + rows_above_city(country, j, state),
            ) by {
                city_stands_in_more_rows(
                    before,
                    rows,
                    0,
                    country,
                    country.cities[j],
                    state,
                    at + 1 + rows_above_city(country, j, state),
                );
            }
        }
    } else {
        assert(rows[at] == country_row(country, state, force, n - 1));
        if country_is_open(country.code, state, force) {
            let m = country.cities.len() as int;
            let cities = shown_cities(tree, n - 1, state, force).len() as int;
            let relays = shown_relays(tree, n - 1, state, force).len() as int;
            let inner = city_rows(country, m, state, cities, relays);
            assert forall|j: int| 0 <= j < country.cities.len() implies city_stands_at(
                rows,
                country,
                #[trigger] country.cities[j],
                state,
                at + 1 + rows_above_city(country, j, state),
            ) by {
                city_stands(country, m, state, cities, relays, j);
                city_stands_in_more_rows(
                    inner,
                    rows,
                    at + 1,
                    country,
                    country.cities[j],
                    state,
                    rows_above_city(country, j, state),
                );
            }
        }
    }
}

/// Whether a city stands at row `at`, with its relays below it if it is open.
pub open spec fn city_stands_at(
    rows: Seq<RowView>,
    country: CountryView,
    city: CityView,
    state: TreeStateView,
    at: int,
) -> bool {
    &&& 0 <= at < rows.len()
    &&& shows_city(rows[at], country, city, state)
    &&& city_is_open(country.code, city, state) ==> at + city.relays.len() < rows.len() && forall|
        r: int,
    |
        0 <= r < city.relays.len() ==> shows_relay(rows[at + 1 + r], #[trigger] city.relays[r])
}

/// Whether a country stands at row `at`, with its cities below it if it is open.
pub open spec fn stands_at(
    rows: Seq<RowView>,
    country: CountryView,
    state: TreeStateView,
    force: bool,
    at: int,
) -> bool {
    &&& 0 <= at < rows.len()
    &&& shows_country(rows[at], country, state, force)
    &&& country_is_open(country.code, state, force) ==> forall|j: int|
        0 <= j < country.cities.len() ==> city_stands_at(
            rows,
            country,
            #[trigger] country.cities[j],
            state,
            at + 1 + rows_above_city(country, j, state),
        )
}

/// Every country has its row, one after the other in the order of the tree, each
/// with the rows of its cities below it while it is open, and each city with
/// the rows of its relays below it while it is open; and there are no more rows
/// than these.
pub proof fn everything_open_is_shown_in_order(
    tree: Seq<CountryView>,
    state: TreeStateView,
    force: bool,
)
    ensures
        visible_rows(tree, state, force).len() == rows_above(tree, tree.len() as int, state, force),
        forall|i: int|
            0 <= i < tree.len() ==> stands_at(
                visible_rows(tree, state, force),
                #[trigger] tree[i],
                state,
                force,
                rows_above(tree, i, state, force),
            ),
{
    country_rows_are_counted(tree, tree.len() as int, state, force);
    assert forall|i: int| 0 <= i < tree.len() implies stands_at(
        visible_rows(tree, state, force),
        #[trigger] tree[i],
        state,
        force,
        rows_above(tree, i, state, force),
    ) by {
        country_stands(tree, tree.len() as int, state, force, i);
    }
}

// ---- Arrows ----

/// The focus moves to a row, if the row can have it.
pub open spec fn focuses(row: RowView) -> ArrowActionView {
    match radio_of(row) {
        Some(id) => ArrowActionView::SetFocus(id),
        None => ArrowActionView::Noop,
    }
}

/// Whether `p` is the nearest row above `k` that is a country, or a city if not
/// `country`.
pub open spec fn is_nearest_above(rows: Seq<RowView>, p: int, k: int, country: bool) -> bool {
    &&& 0 <= p < k
    &&& if country {
        rows[p].kind is Country
    } else {
        rows[p].kind is City
    }
    &&& forall|q: int|
        p < q < k ==> if country {
            !((#[trigger] rows[q]).kind is Country)
        } else {
            !(rows[q].kind is City)
        }
}

proof fn the_parent_is_nearest(rows: Seq<RowView>, child: RowView, i: int)
    requires
        0 <= i <= rows.len(),
        !(child.kind is Country),
        parent_before(rows, child, i) is Some,
    ensures
        is_nearest_above(rows, parent_before(rows, child, i)->0, i, child.kind is City),
    decreases i,
{
    if i > 0 && !is_parent_kind(rows[i - 1], child) {
        the_parent_is_nearest(rows, child, i - 1);
    }
}

/// What Left and Right do on a country: Right opens it, or goes to its first city
/// once it is open; Left closes it, where no query holds it open.
pub proof fn arrows_on_a_country(
    tree: Seq<CountryView>,
    state: TreeStateView,
    force: bool,
    k: int,
    widget: WidgetId,
)
    requires
        is_radio(visible_rows(tree, state, force), k, widget),
        visible_rows(tree, state, force)[k].kind is Country,
    ensures
        ({
            let rows = visible_rows(tree, state, force);
            let row = rows[k].kind;
            let open = row->Country_expanded;
            let right = arrow_action(rows, widget, ArrowDir::Right, force);
            let left = arrow_action(rows, widget, ArrowDir::Left, force);
            &&& right == if !open {
                ArrowActionView::ExpandCountry(row->Country_code)
            } else if tree[rows[k].index].cities.len() > 0 {
                focuses(rows[k + 1])
            } else {
                ArrowActionView::Noop
            }
            &&& left == if open && !force {
                ArrowActionView::CollapseCountry(row->Country_code)
            } else {
                ArrowActionView::Noop
            }
        }),
{
    widgets_lead_back_to_their_rows(tree, state, force, k, widget);
    first_children_stand_right_below(tree, state, force, k);
}

/// What Left and Right do on a city: Right opens it, or goes to its first relay
/// once it is open; Left closes it, where no query holds it open, and else goes
/// to its country.
pub proof fn arrows_on_a_city(
    tree: Seq<CountryView>,
    state: TreeStateView,
    force: bool,
    k: int,
    widget: WidgetId,
)
    requires
        is_radio(visible_rows(tree, state, force), k, widget),
        visible_rows(tree, state, force)[k].kind is City,
    ensures
        ({
            let rows = visible_rows(tree, state, force);
            let row = rows[k].kind;
            let open = row->City_expanded;
            let right = arrow_action(rows, widget, ArrowDir::Right, force);
            let left = arrow_action(rows, widget, ArrowDir::Left, force);
            &&& !open ==> right == ArrowActionView::ExpandCity(row->country, row->City_code)
            &&& open && k + 1 < rows.len() && rows[k + 1].kind is Relay ==> right == focuses(
                rows[k + 1],
            )
            &&& open && !(k + 1 < rows.len() && rows[k + 1].kind is Relay) ==> right
                == ArrowActionView::Noop
            &&& open && !row->force_expand_under_filter ==> left == ArrowActionView::CollapseCity(
                row->country,
                row->City_code,
            )
            &&& !open || row->force_expand_under_filter ==> exists|p: int| #[trigger]
                is_nearest_above(rows, p, k, true) && left == focuses(rows[p])
        }),
{
    let rows = visible_rows(tree, state, force);
    widgets_lead_back_to_their_rows(tree, state, force, k, widget);
    the_row_above_a_city_is_its_country(tree, state, force, k);
    only_countries_have_no_parent(tree, state, force, k);
    the_parent_is_nearest(rows, rows[k], k);
}

/// What Left and Right do on a relay: Left goes to its city, and Right is not for
/// the tree.
pub proof fn arrows_on_a_relay(
    tree: Seq<CountryView>,
    state: TreeStateView,
    force: bool,
    k: int,
    widget: WidgetId,
)
    requires
        is_radio(visible_rows(tree, state, force), k, widget),
        visible_rows(tree, state, force)[k].kind is Relay,
    ensures
        ({
            let rows = visible_rows(tree, state, force);
            &&& arrow_action(rows, widget, ArrowDir::Right, force) == ArrowActionView::PassThrough
            &&& exists|p: int| #[trigger]
                is_nearest_above(rows, p, k, false) && arrow_action(
                    rows,
                    widget,
                    ArrowDir::Left,
                    force,
                ) == focuses(rows[p])
        }),
{
    let rows = visible_rows(tree, state, force);
    widgets_lead_back_to_their_rows(tree, state, force, k, widget);
    only_countries_have_no_parent(tree, state, force, k);
    the_parent_is_nearest(rows, rows[k], k);
}

/// What an arrow opens or closes is that place, at the end whose tab is active,
/// and nothing else changes.
pub proof fn arrows_open_and_close_one_place(
    state: PageStateView,
    country: Seq<char>,
    city: Seq<char>,
)
    ensures
        ({
            let exit = state.node_mode == NodeKind::Exit;
            let before = if exit {
                state.exit
            } else {
                state.entry
            };
            let with = |t: TreeStateView|
                if exit {
                    PageStateView { exit: t, ..state }
                } else {
                    PageStateView { entry: t, ..state }
                };
            &&& after_arrow(state, ArrowActionView::ExpandCountry(country)) == with(
                TreeStateView { countries: before.countries.insert(country), ..before },
            )
            &&& after_arrow(state, ArrowActionView::CollapseCountry(country)) == with(
                TreeStateView { countries: before.countries.remove(country), ..before },
            )
            &&& after_arrow(state, ArrowActionView::ExpandCity(country, city)) == with(
                TreeStateView { cities: before.cities.insert((country, city)), ..before },
            )
            &&& after_arrow(state, ArrowActionView::CollapseCity(country, city)) == with(
                TreeStateView { cities: before.cities.remove((country, city)), ..before },
            )
            &&& after_arrow(state, ArrowActionView::Noop) == state
            &&& after_arrow(state, ArrowActionView::PassThrough) == state
            &&& forall|id: WidgetId| #[trigger]
                after_arrow(state, ArrowActionView::SetFocus(id)) == state
        }),
{
}

/// What a place is turned over into by its chevron: closed if it was open, and
/// open if it was closed, at the end whose tab is active.
pub proof fn turning_over_opens_and_closes(
    state: PageStateView,
    country: Seq<char>,
    city: Seq<char>,
)
    ensures
        ({
            let before = if state.node_mode == NodeKind::Exit {
                state.exit
            } else {
                state.entry
            };
            let one = toggle_country(state, country);
            let two = toggle_city(state, country, city);
            let exit = state.node_mode == NodeKind::Exit;
            let after = |s: PageStateView|
                if exit {
                    s.exit
                } else {
                    s.entry
                };
            &&& after(one).countries == if before.countries.contains(country) {
                before.countries.remove(country)
            } else {
                before.countries.insert(country)
            }
            &&& after(one).cities == before.cities
            &&& after(two).cities == if before.cities.contains((country, city)) {
                before.cities.remove((country, city))
            } else {
                before.cities.insert((country, city))
            }
            &&& after(two).countries == before.countries
            &&& one == if exit {
                PageStateView { exit: after(one), ..state }
            } else {
                PageStateView { entry: after(one), ..state }
            }
            &&& two == if exit {
                PageStateView { exit: after(two), ..state }
            } else {
                PageStateView { entry: after(two), ..state }
            }
            &&& after(one).scroll_offset == before.scroll_offset
            &&& after(two).scroll_offset == before.scroll_offset
        }),
{
}

// ---- Scrolling ----

/// A window moves no further than it has to: where the focused row is above it,
/// that row becomes the first, and where it is below, the last.
pub proof fn windows_move_as_little_as_they_can(
    current: int,
    focused: int,
    rows: int,
    capacity: int,
)
    requires
        0 < capacity < rows,
        0 <= current <= rows - capacity,
        0 <= focused < rows,
    ensures
        focused < current ==> sliding_offset(current, Some(focused), rows, capacity) == focused,
        current <= focused < current + capacity ==> sliding_offset(
            current,
            Some(focused),
            rows,
            capacity,
        ) == current,
        focused >= current + capacity ==> sliding_offset(current, Some(focused), rows, capacity)
            + capacity == focused + 1,
        sliding_offset(current, None, rows, capacity) == current,
{
}

/// A window that is centred has the focused row in its middle, unless the list
/// ends before.
pub proof fn centred_windows_have_the_focus_in_the_middle(focused: int, rows: int, capacity: int)
    requires
        0 < capacity,
        0 <= focused < rows,
    ensures
        ({
            let offset = centered_offset(Some(focused), rows, capacity);
            ||| offset == focused - capacity / 2
            ||| offset == 0 && focused < capacity / 2
            ||| offset == 0 && rows <= capacity
            ||| offset + capacity == rows && focused - capacity / 2 > offset
        }),
{
}

/// A list that fits needs no scrolling, and one that does not is never scrolled
/// past its end.
pub proof fn lists_that_fit_do_not_scroll(
    current: int,
    focused: Option<int>,
    rows: int,
    capacity: int,
)
    requires
        0 <= rows,
        0 < capacity,
        0 <= current,
        focused is Some ==> 0 <= focused->0 < rows,
    ensures
        rows <= capacity ==> sliding_offset(current, focused, rows, capacity) == 0
            && centered_offset(focused, rows, capacity) == 0,
        rows > capacity ==> sliding_offset(current, focused, rows, capacity) + capacity <= rows
            && centered_offset(focused, rows, capacity) + capacity <= rows,
        rows > capacity && focused is None && current >= rows - capacity ==> sliding_offset(
            current,
            focused,
            rows,
            capacity,
        ) == rows - capacity,
{
}

/// The focus moves only where an arrow moves it, and a key that is not for the tree
/// is left to others.
pub proof fn arrows_move_the_focus_where_they_say(
    focused: Option<WidgetId>,
    action: ArrowActionView,
)
    ensures
        action is SetFocus ==> focus_after(focused, action) == Some(action->SetFocus_0),
        !(action is SetFocus) ==> focus_after(focused, action) == focused,
        is_used_up(action) <==> action != ArrowActionView::PassThrough,
{
}

/// The arrows act on the rows that the page shows: those of the relay list, pruned
/// to the query, as far as the end whose tab is active has them open.
pub proof fn arrows_see_the_rows_that_are_shown(app: App)
    ensures
        ({
            let state = app.select_location_state@;
            rows_in(app) == visible_rows(
                filter(project(relays_of(app)), state.query),
                match state.node_mode {
                    NodeKind::Exit => state.exit,
                    NodeKind::Entry => state.entry,
                },
                state.query.len() > 0,
            )
        }),
{
}

} // verus!

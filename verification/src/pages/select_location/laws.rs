//! What holds of the Select-location page as a whole.

use crate::app::select_location::{NodeKind, PageStateView, TreeStateView};
use crate::app::{App, RequestView};
use crate::daemon::RelayView;
use crate::focus::{index_in, ArrowDir, WidgetId};
use crate::pages::select_location::rows::{
    chevron_of, city_open, city_row, city_rows, country_open, country_row, country_rows,
    first_child_of, is_parent_kind, open_relays, owns, parent_before, parent_of, places, radio_of, relay_rows,
    row_fits, row_from, row_of, rows_agree_with_their_numbers, shown_cities, shown_relays,
    visible_rows, PlaceView, RowKindView, RowView,
};
use crate::pages::select_location::tree::CountryView;
use crate::pages::select_location::widgets::{
    CITY_MAX, CITY_RADIO_BASE, COUNTRY_MAX, COUNTRY_RADIO_BASE, RELAY_MAX, RELAY_RADIO_BASE,
};
use crate::pages::select_location::{
    activation, after_arrow, arrow_action, country_above, country_from, effective, id_of_row,
    is_city, is_country, is_relay, other, place_from, radio_row, relay_index_from, toggle_city,
    toggle_country, widget_of_target, ArrowActionView, FocusTargetView,
};
use vstd::prelude::*;

verus! {

// ---- Numbers of rows ----

/// The level of a row: 0 for a country, 1 for a city, 2 for a relay.
pub open spec fn level(row: RowView) -> int {
    match row.kind {
        RowKindView::Country { .. } => 0,
        RowKindView::City { .. } => 1,
        RowKindView::Relay { .. } => 2,
    }
}

/// Whether the numbers of each level ascend through `rows`.
pub open spec fn numbers_ascend(rows: Seq<RowView>) -> bool {
    forall|i: int, j: int|
        0 <= i < j < rows.len() && level(rows[i]) == level(rows[j]) ==> (#[trigger] rows[i]).index
            < (#[trigger] rows[j]).index
}

/// Whether each level's numbers lie in the given ranges.
pub open spec fn numbers_within(
    rows: Seq<RowView>,
    country_from: int,
    country_to: int,
    city_from: int,
    city_to: int,
    relay_from: int,
    relay_to: int,
) -> bool {
    forall|i: int|
        0 <= i < rows.len() ==> match (#[trigger] rows[i]).kind {
            RowKindView::Country { .. } => country_from <= rows[i].index < country_to,
            RowKindView::City { .. } => city_from <= rows[i].index < city_to,
            RowKindView::Relay { .. } => relay_from <= rows[i].index < relay_to,
        }
}

proof fn city_rows_ascend(
    country: CountryView,
    n: int,
    state: TreeStateView,
    city_base: int,
    relay_base: int,
)
    requires
        0 <= n <= country.cities.len(),
    ensures
        numbers_ascend(city_rows(country, n, state, city_base, relay_base)),
        numbers_within(
            city_rows(country, n, state, city_base, relay_base),
            0,
            0,
            city_base,
            city_base + n,
            relay_base,
            relay_base + open_relays(country, n, state).len(),
        ),
    decreases n,
{
    if n > 0 {
        city_rows_ascend(country, n - 1, state, city_base, relay_base);
        let above = city_rows(country, n - 1, state, city_base, relay_base);
        let all = city_rows(country, n, state, city_base, relay_base);
        let less = open_relays(country, n - 1, state);
        assert forall|i: int| 0 <= i < all.len() implies match (#[trigger] all[i]).kind {
            RowKindView::Country { .. } => false,
            RowKindView::City { .. } => city_base <= all[i].index < city_base + n && (i
                < above.len() ==> all[i].index < city_base + n - 1),
            RowKindView::Relay { .. } => relay_base <= all[i].index < relay_base + open_relays(
                country,
                n,
                state,
            ).len() && (i < above.len() ==> all[i].index < relay_base + less.len()) && (i
                > above.len() ==> all[i].index == relay_base + less.len() + i - above.len() - 1),
        } by {
            if i < above.len() {
                assert(all[i] == above[i]);
            } else if i > above.len() {
                assert(all[i] == relay_rows(
                    country.cities[n - 1].relays,
                    relay_base + less.len(),
                )[i - above.len() - 1]);
            }
        }
        assert forall|i: int, j: int|
            0 <= i < j < all.len() && level(all[i]) == level(all[j]) implies (#[trigger] all[i]).index
            < (#[trigger] all[j]).index by {
            if j < above.len() {
                assert(all[i] == above[i] && all[j] == above[j]);
            }
        }
    }
}

proof fn country_rows_ascend(tree: Seq<CountryView>, n: int, state: TreeStateView, force: bool)
    requires
        0 <= n <= tree.len(),
    ensures
        numbers_ascend(country_rows(tree, n, state, force)),
        numbers_within(
            country_rows(tree, n, state, force),
            0,
            n,
            0,
            shown_cities(tree, n, state, force).len() as int,
            0,
            shown_relays(tree, n, state, force).len() as int,
        ),
    decreases n,
{
    if n > 0 {
        country_rows_ascend(tree, n - 1, state, force);
        let above = country_rows(tree, n - 1, state, force);
        let all = country_rows(tree, n, state, force);
        let cities = shown_cities(tree, n - 1, state, force).len() as int;
        let relays = shown_relays(tree, n - 1, state, force).len() as int;
        let country = tree[n - 1];
        let count = country.cities.len() as int;
        let block = city_rows(country, count, state, cities, relays);
        city_rows_ascend(country, count, state, cities, relays);
        assert forall|i: int| 0 <= i < all.len() implies match (#[trigger] all[i]).kind {
            RowKindView::Country { .. } => 0 <= all[i].index < n && (i < above.len()
                ==> all[i].index < n - 1) && i <= above.len(),
            RowKindView::City { .. } => 0 <= all[i].index < shown_cities(
                tree,
                n,
                state,
                force,
            ).len() && (i < above.len() <==> all[i].index < cities),
            RowKindView::Relay { .. } => 0 <= all[i].index < shown_relays(
                tree,
                n,
                state,
                force,
            ).len() && (i < above.len() <==> all[i].index < relays),
        } by {
            if i < above.len() {
                assert(all[i] == above[i]);
            } else if i > above.len() {
                assert(all[i] == block[i - above.len() - 1]);
            }
        }
        assert forall|i: int, j: int|
            0 <= i < j < all.len() && level(all[i]) == level(all[j]) implies (#[trigger] all[i]).index
            < (#[trigger] all[j]).index by {
            if j < above.len() {
                assert(all[i] == above[i] && all[j] == above[j]);
            } else if i > above.len() {
                assert(all[i] == block[i - above.len() - 1]);
                assert(all[j] == block[j - above.len() - 1]);
            }
        }
    }
}

/// No two rows share a widget: the row that a widget leads to is the row that
/// the widget was made for.
pub proof fn widgets_lead_back_to_their_rows(
    tree: Seq<CountryView>,
    state: TreeStateView,
    force: bool,
    k: int,
    widget: WidgetId,
)
    requires
        0 <= k < visible_rows(tree, state, force).len(),
        owns(visible_rows(tree, state, force)[k], widget),
    ensures
        row_of(visible_rows(tree, state, force), widget) == Some(k),
{
    let rows = visible_rows(tree, state, force);
    country_rows_ascend(tree, tree.len() as int, state, force);
    assert forall|i: int| 0 <= i < rows.len() && #[trigger] owns(rows[i], widget) implies i
        == k by {
        assert(level(rows[i]) == level(rows[k]));
        assert(rows[i].index == rows[k].index);
    }
    row_from_finds(rows, widget, 0, k);
}

proof fn row_from_finds(rows: Seq<RowView>, widget: WidgetId, from: int, k: int)
    requires
        0 <= from <= k < rows.len(),
        owns(rows[k], widget),
        forall|i: int| 0 <= i < rows.len() && #[trigger] owns(rows[i], widget) ==> i == k,
    ensures
        row_from(rows, widget, from) == Some(k),
    decreases k - from,
{
    if from < k {
        row_from_finds(rows, widget, from + 1, k);
    }
}

// ---- Every place has its row ----

proof fn city_has_a_row(
    country: CountryView,
    n: int,
    state: TreeStateView,
    city_base: int,
    relay_base: int,
    j: int,
) -> (k: int)
    requires
        0 <= j < n <= country.cities.len(),
    ensures
        0 <= k < city_rows(country, n, state, city_base, relay_base).len(),
        city_rows(country, n, state, city_base, relay_base)[k] == city_row(
            country.code,
            country.cities[j],
            state,
            city_base + j,
        ),
    decreases n,
{
    let above = city_rows(country, n - 1, state, city_base, relay_base);
    let all = city_rows(country, n, state, city_base, relay_base);
    if j == n - 1 {
        above.len() as int
    } else {
        let k = city_has_a_row(country, n - 1, state, city_base, relay_base, j);
        assert(all[k] == above[k]);
        k
    }
}

proof fn relay_has_a_row(
    country: CountryView,
    n: int,
    state: TreeStateView,
    city_base: int,
    relay_base: int,
    j: int,
) -> (k: int)
    requires
        0 <= n <= country.cities.len(),
        0 <= j < open_relays(country, n, state).len(),
    ensures
        0 <= k < city_rows(country, n, state, city_base, relay_base).len(),
        city_rows(country, n, state, city_base, relay_base)[k] == (RowView {
            kind: RowKindView::Relay { hostname: open_relays(country, n, state)[j].hostname },
            index: relay_base + j,
        }),
    decreases n,
{
    if n <= 0 {
        0
    } else {
        let above = city_rows(country, n - 1, state, city_base, relay_base);
        let all = city_rows(country, n, state, city_base, relay_base);
        let less = open_relays(country, n - 1, state);
        if j < less.len() {
            let k = relay_has_a_row(country, n - 1, state, city_base, relay_base, j);
            assert(all[k] == above[k]);
            k
        } else {
            let k = above.len() + 1 + (j - less.len());
            assert(all[k] == relay_rows(
                country.cities[n - 1].relays,
                relay_base + less.len(),
            )[j - less.len()]);
            k
        }
    }
}

/// Every country has a row.
pub proof fn every_country_has_a_row(
    tree: Seq<CountryView>,
    state: TreeStateView,
    force: bool,
    i: int,
)
    requires
        0 <= i < tree.len(),
    ensures
        visible_rows(tree, state, force).contains(country_row(tree[i], state, force, i)),
{
    let k = country_row_at(tree, tree.len() as int, state, force, i);
    assert(visible_rows(tree, state, force)[k] == country_row(tree[i], state, force, i));
}

proof fn country_row_at(
    tree: Seq<CountryView>,
    n: int,
    state: TreeStateView,
    force: bool,
    i: int,
) -> (k: int)
    requires
        0 <= i < n <= tree.len(),
    ensures
        0 <= k < country_rows(tree, n, state, force).len(),
        country_rows(tree, n, state, force)[k] == country_row(tree[i], state, force, i),
    decreases n,
{
    let above = country_rows(tree, n - 1, state, force);
    let all = country_rows(tree, n, state, force);
    if i == n - 1 {
        above.len() as int
    } else {
        let k = country_row_at(tree, n - 1, state, force, i);
        assert(all[k] == above[k]);
        k
    }
}

proof fn city_row_at(
    tree: Seq<CountryView>,
    n: int,
    state: TreeStateView,
    force: bool,
    i: int,
) -> (k: int)
    requires
        0 <= n <= tree.len(),
        0 <= i < shown_cities(tree, n, state, force).len(),
    ensures
        0 <= k < country_rows(tree, n, state, force).len(),
        country_rows(tree, n, state, force)[k] == ({
            let place = shown_cities(tree, n, state, force)[i];
            city_row(place.country.code, place.city, state, i)
        }),
    decreases n,
{
    if n <= 0 {
        0
    } else {
        let above = country_rows(tree, n - 1, state, force);
        let all = country_rows(tree, n, state, force);
        let cities = shown_cities(tree, n - 1, state, force);
        let relays = shown_relays(tree, n - 1, state, force);
        let country = tree[n - 1];
        if i < cities.len() {
            let k = city_row_at(tree, n - 1, state, force, i);
            assert(all[k] == above[k]);
            k
        } else {
            let j = i - cities.len();
            let k = city_has_a_row(
                country,
                country.cities.len() as int,
                state,
                cities.len() as int,
                relays.len() as int,
                j,
            );
            assert(shown_cities(tree, n, state, force)[i] == places(country)[j]);
            above.len() + 1 + k
        }
    }
}

proof fn relay_row_at(
    tree: Seq<CountryView>,
    n: int,
    state: TreeStateView,
    force: bool,
    i: int,
) -> (k: int)
    requires
        0 <= n <= tree.len(),
        0 <= i < shown_relays(tree, n, state, force).len(),
    ensures
        0 <= k < country_rows(tree, n, state, force).len(),
        country_rows(tree, n, state, force)[k] == (RowView {
            kind: RowKindView::Relay { hostname: shown_relays(tree, n, state, force)[i].hostname },
            index: i,
        }),
    decreases n,
{
    if n <= 0 {
        0
    } else {
        let above = country_rows(tree, n - 1, state, force);
        let all = country_rows(tree, n, state, force);
        let cities = shown_cities(tree, n - 1, state, force);
        let relays = shown_relays(tree, n - 1, state, force);
        let country = tree[n - 1];
        if i < relays.len() {
            let k = relay_row_at(tree, n - 1, state, force, i);
            assert(all[k] == above[k]);
            k
        } else {
            let k = relay_has_a_row(
                country,
                country.cities.len() as int,
                state,
                cities.len() as int,
                relays.len() as int,
                i - relays.len(),
            );
            above.len() + 1 + k
        }
    }
}

/// Every city that is shown has a row.
pub proof fn every_shown_city_has_a_row(
    tree: Seq<CountryView>,
    state: TreeStateView,
    force: bool,
    i: int,
)
    requires
        0 <= i < shown_cities(tree, tree.len() as int, state, force).len(),
    ensures
        visible_rows(tree, state, force).contains(
            {
                let place = shown_cities(tree, tree.len() as int, state, force)[i];
                city_row(place.country.code, place.city, state, i)
            },
        ),
{
    let k = city_row_at(tree, tree.len() as int, state, force, i);
    let place = shown_cities(tree, tree.len() as int, state, force)[i];
    assert(visible_rows(tree, state, force)[k] == city_row(
        place.country.code,
        place.city,
        state,
        i,
    ));
}

/// Every relay that is shown has a row.
pub proof fn every_shown_relay_has_a_row(
    tree: Seq<CountryView>,
    state: TreeStateView,
    force: bool,
    i: int,
)
    requires
        0 <= i < shown_relays(tree, tree.len() as int, state, force).len(),
    ensures
        visible_rows(tree, state, force).contains(
            RowView {
                kind: RowKindView::Relay {
                    hostname: shown_relays(tree, tree.len() as int, state, force)[i].hostname,
                },
                index: i,
            },
        ),
{
    let k = relay_row_at(tree, tree.len() as int, state, force, i);
    assert(visible_rows(tree, state, force)[k].index == i);
}

/// Whether a row shows the target.
pub open spec fn shows(row: RowView, target: FocusTargetView) -> bool {
    match target {
        FocusTargetView::Country(c) => row.kind is Country && row.kind->Country_code == c,
        FocusTargetView::City { country, city } => row.kind is City && row.kind->country == country
            && row.kind->City_code == city,
        FocusTargetView::Hostname(h) => row.kind is Relay && row.kind->hostname == h,
    }
}

/// The first of the rows from `from` on that shows the target.
pub open spec fn first_showing(rows: Seq<RowView>, target: FocusTargetView, from: int) -> Option<
    int,
>
    decreases rows.len() - from,
{
    if from < 0 || from >= rows.len() {
        None
    } else if shows(rows[from], target) {
        Some(from)
    } else {
        first_showing(rows, target, from + 1)
    }
}

proof fn first_showing_is(rows: Seq<RowView>, target: FocusTargetView, from: int, k: int)
    requires
        0 <= from <= k < rows.len(),
        shows(rows[k], target),
        forall|q: int| from <= q < k ==> !shows(#[trigger] rows[q], target),
    ensures
        first_showing(rows, target, from) == Some(k),
    decreases k - from,
{
    if from < k {
        assert(!shows(rows[from], target));
        first_showing_is(rows, target, from + 1, k);
    }
}

proof fn none_showing(rows: Seq<RowView>, target: FocusTargetView, from: int)
    requires
        0 <= from,
        forall|q: int| from <= q < rows.len() ==> !shows(#[trigger] rows[q], target),
    ensures
        first_showing(rows, target, from) is None,
    decreases rows.len() - from,
{
    if from < rows.len() {
        assert(!shows(rows[from], target));
        none_showing(rows, target, from + 1);
    }
}

proof fn country_from_is_the_first(tree: Seq<CountryView>, code: Seq<char>, from: int)
    requires
        0 <= from,
    ensures
        match country_from(tree, code, from) {
            Some(i) => from <= i < tree.len() && tree[i].code == code && forall|j: int|
                from <= j < i ==> (#[trigger] tree[j]).code != code,
            None => forall|j: int| from <= j < tree.len() ==> (#[trigger] tree[j]).code != code,
        },
    decreases tree.len() - from,
{
    if from < tree.len() && tree[from].code != code {
        country_from_is_the_first(tree, code, from + 1);
    }
}

/// Whether `place` is the city with these codes.
spec fn place_is(place: PlaceView, country: Seq<char>, city: Seq<char>) -> bool {
    place.country.code == country && place.city.code == city
}

proof fn place_from_is_the_first(
    cities: Seq<PlaceView>,
    country: Seq<char>,
    city: Seq<char>,
    from: int,
)
    requires
        0 <= from,
    ensures
        match place_from(cities, country, city, from) {
            Some(i) => from <= i < cities.len() && place_is(cities[i], country, city) && forall|
                j: int,
            |
                from <= j < i ==> !place_is(#[trigger] cities[j], country, city),
            None => forall|j: int|
                from <= j < cities.len() ==> !place_is(#[trigger] cities[j], country, city),
        },
    decreases cities.len() - from,
{
    if from < cities.len() && !place_is(cities[from], country, city) {
        place_from_is_the_first(cities, country, city, from + 1);
    }
}

proof fn relay_index_from_is_the_first(relays: Seq<RelayView>, hostname: Seq<char>, from: int)
    requires
        0 <= from,
    ensures
        match relay_index_from(relays, hostname, from) {
            Some(i) => from <= i < relays.len() && relays[i].hostname == hostname && forall|j: int|
                from <= j < i ==> (#[trigger] relays[j]).hostname != hostname,
            None => forall|j: int|
                from <= j < relays.len() ==> (#[trigger] relays[j]).hostname != hostname,
        },
    decreases relays.len() - from,
{
    if from < relays.len() && relays[from].hostname != hostname {
        relay_index_from_is_the_first(relays, hostname, from + 1);
    }
}

/// The widget that the page focuses when it opens is the radio of the first row
/// that shows the selection. There is none where no row shows it, or where that
/// row has no radio.
pub proof fn the_focused_selection_is_a_row(
    tree: Seq<CountryView>,
    state: TreeStateView,
    force: bool,
    target: FocusTargetView,
)
    ensures
        widget_of_target(tree, state, force, target) == match first_showing(
            visible_rows(tree, state, force),
            target,
            0,
        ) {
            Some(k) => radio_of(visible_rows(tree, state, force)[k]),
            None => None,
        },
{
    let n = tree.len() as int;
    let rows = visible_rows(tree, state, force);
    let cities = shown_cities(tree, n, state, force);
    let relays = shown_relays(tree, n, state, force);
    country_rows_ascend(tree, n, state, force);
    assert forall|q: int| 0 <= q < rows.len() implies row_fits(
        #[trigger] rows[q],
        tree,
        cities,
        relays,
    ) by {
        rows_agree_with_their_numbers(tree, state, force, q);
    }
    let found = match target {
        FocusTargetView::Country(code) => {
            country_from_is_the_first(tree, code, 0);
            country_from(tree, code, 0)
        },
        FocusTargetView::City { country, city } => {
            place_from_is_the_first(cities, country, city, 0);
            place_from(cities, country, city, 0)
        },
        FocusTargetView::Hostname(h) => {
            relay_index_from_is_the_first(relays, h, 0);
            relay_index_from(relays, h, 0)
        },
    };
    match found {
        Some(i) => {
            let k = match target {
                FocusTargetView::Country(_) => country_row_at(tree, n, state, force, i),
                FocusTargetView::City { .. } => city_row_at(tree, n, state, force, i),
                FocusTargetView::Hostname(_) => relay_row_at(tree, n, state, force, i),
            };
            assert(shows(rows[k], target));
            assert forall|q: int| 0 <= q < k implies !shows(#[trigger] rows[q], target) by {
                if shows(rows[q], target) {
                    assert(level(rows[q]) == level(rows[k]));
                    assert(rows[q].index < rows[k].index);
                    assert(row_fits(rows[q], tree, cities, relays));
                    if let FocusTargetView::City { country, city } = target {
                        assert(!place_is(cities[rows[q].index], country, city));
                    }
                }
            }
            first_showing_is(rows, target, 0, k);
        },
        None => {
            assert forall|q: int| 0 <= q < rows.len() implies !shows(#[trigger] rows[q], target) by {
                assert(row_fits(rows[q], tree, cities, relays));
                if let FocusTargetView::City { country, city } = target {
                    if rows[q].kind is City {
                        assert(!place_is(cities[rows[q].index], country, city));
                    }
                }
            }
            none_showing(rows, target, 0);
        },
    }
}

// ---- Parents ----

proof fn parent_is(rows: Seq<RowView>, child: RowView, p: int, k: int)
    requires
        0 <= p < k <= rows.len(),
        is_parent_kind(rows[p], child),
        forall|q: int| p < q < k ==> !is_parent_kind(#[trigger] rows[q], child),
    ensures
        parent_before(rows, child, k) == Some(p),
    decreases k - p,
{
    if k - 1 > p {
        assert(!is_parent_kind(rows[k - 1], child));
        parent_is(rows, child, p, k - 1);
    }
}

proof fn parent_in_a_longer_list(rows: Seq<RowView>, more: Seq<RowView>, child: RowView, k: int)
    requires
        0 <= k <= rows.len() <= more.len(),
        forall|q: int| 0 <= q < k ==> rows[q] == more[q],
    ensures
        parent_before(rows, child, k) == parent_before(more, child, k),
    decreases k,
{
    if k > 0 {
        assert(rows[k - 1] == more[k - 1]);
        parent_in_a_longer_list(rows, more, child, k - 1);
    }
}

proof fn city_rows_hold_no_country(
    country: CountryView,
    n: int,
    state: TreeStateView,
    city_base: int,
    relay_base: int,
)
    requires
        0 <= n <= country.cities.len(),
    ensures
        forall|k: int|
            0 <= k < city_rows(country, n, state, city_base, relay_base).len() ==> {
                let row = #[trigger] city_rows(country, n, state, city_base, relay_base)[k];
                &&& !(row.kind is Country)
                &&& row.kind is City ==> city_base <= row.index < city_base + n
            },
    decreases n,
{
    if n > 0 {
        city_rows_hold_no_country(country, n - 1, state, city_base, relay_base);
        let above = city_rows(country, n - 1, state, city_base, relay_base);
        let all = city_rows(country, n, state, city_base, relay_base);
        assert forall|k: int| 0 <= k < all.len() implies {
            let row = #[trigger] all[k];
            &&& !(row.kind is Country)
            &&& row.kind is City ==> city_base <= row.index < city_base + n
        } by {
            if k < above.len() {
                assert(all[k] == above[k]);
            }
        }
    }
}

proof fn city_parent(
    tree: Seq<CountryView>,
    n: int,
    state: TreeStateView,
    force: bool,
    k: int,
)
    requires
        0 <= n <= tree.len(),
        0 <= k < country_rows(tree, n, state, force).len(),
        country_rows(tree, n, state, force)[k].kind is City,
    ensures
        ({
            let rows = country_rows(tree, n, state, force);
            let cities = shown_cities(tree, n, state, force);
            &&& 0 <= rows[k].index < cities.len()
            &&& country_above(rows, k) == Some(cities[rows[k].index].country.code)
        }),
    decreases n,
{
    if n > 0 {
        let above = country_rows(tree, n - 1, state, force);
        let all = country_rows(tree, n, state, force);
        let cities = shown_cities(tree, n - 1, state, force);
        let relays = shown_relays(tree, n - 1, state, force);
        let country = tree[n - 1];
        let count = country.cities.len() as int;
        if k < above.len() {
            city_parent(tree, n - 1, state, force, k);
            assert(all[k] == above[k]);
            assert forall|q: int| 0 <= q < k implies above[q] == all[q] by {}
            parent_in_a_longer_list(above, all, above[k], k);
            let p = parent_of(above, k)->0;
            parent_is_before(above, above[k], k);
            assert(all[p] == above[p]);
        } else {
            let block = city_rows(
                country,
                count,
                state,
                cities.len() as int,
                relays.len() as int,
            );
            city_rows_hold_no_country(
                country,
                count,
                state,
                cities.len() as int,
                relays.len() as int,
            );
            let p = above.len() as int;
            assert(all[k] == block[k - p - 1]);
            assert forall|q: int| p < q < k implies !is_parent_kind(#[trigger] all[q], all[k]) by {
                assert(all[q] == block[q - p - 1]);
            }
            parent_is(all, all[k], p, k);
            let i = all[k].index;
            assert(shown_cities(tree, n, state, force)[i] == places(country)[i - cities.len()]);
        }
    }
}

proof fn parent_is_before(rows: Seq<RowView>, child: RowView, k: int)
    requires
        0 <= k <= rows.len(),
        parent_before(rows, child, k) is Some,
    ensures
        0 <= parent_before(rows, child, k)->0 < k,
        is_parent_kind(rows[parent_before(rows, child, k)->0], child),
    decreases k,
{
    if k > 0 && !is_parent_kind(rows[k - 1], child) {
        parent_is_before(rows, child, k - 1);
    }
}

/// The country row above a city row is the row of the city's own country, so
/// the arrow keys open and close the city that has the focus and no other.
pub proof fn the_row_above_a_city_is_its_country(
    tree: Seq<CountryView>,
    state: TreeStateView,
    force: bool,
    k: int,
)
    requires
        0 <= k < visible_rows(tree, state, force).len(),
        visible_rows(tree, state, force)[k].kind is City,
    ensures
        ({
            let rows = visible_rows(tree, state, force);
            let cities = shown_cities(tree, tree.len() as int, state, force);
            &&& 0 <= rows[k].index < cities.len()
            &&& country_above(rows, k) == Some(cities[rows[k].index].country.code)
            &&& rows[k].kind->country == cities[rows[k].index].country.code
        }),
{
    rows_agree_with_their_numbers(tree, state, force, k);
    city_parent(tree, tree.len() as int, state, force, k);
}

proof fn relay_in_city_rows(
    country: CountryView,
    n: int,
    state: TreeStateView,
    city_base: int,
    relay_base: int,
    k: int,
) -> (at: (int, int))
    requires
        0 <= n <= country.cities.len(),
        0 <= k < city_rows(country, n, state, city_base, relay_base).len(),
        city_rows(country, n, state, city_base, relay_base)[k].kind is Relay,
    ensures
        ({
            let rows = city_rows(country, n, state, city_base, relay_base);
            let (j, p) = at;
            &&& 0 <= j < n
            &&& 0 <= p < k
            &&& rows[p] == city_row(country.code, country.cities[j], state, city_base + j)
            &&& city_open(country.code, country.cities[j], state)
            &&& k - p - 1 < country.cities[j].relays.len()
            &&& rows[k].kind->hostname == country.cities[j].relays[k - p - 1].hostname
            &&& forall|q: int| p < q < k ==> (#[trigger] rows[q]).kind is Relay
        }),
    decreases n,
{
    if n <= 0 {
        (0, 0)
    } else {
        let above = city_rows(country, n - 1, state, city_base, relay_base);
        let all = city_rows(country, n, state, city_base, relay_base);
        if k < above.len() {
            assert(all[k] == above[k]);
            let at = relay_in_city_rows(country, n - 1, state, city_base, relay_base, k);
            assert forall|q: int| at.1 <= q < k implies all[q] == above[q] by {}
            assert forall|q: int| at.1 < q < k implies (#[trigger] all[q]).kind is Relay by {
                assert(all[q] == above[q]);
            }
            at
        } else {
            let p = above.len() as int;
            let below = relay_rows(
                country.cities[n - 1].relays,
                relay_base + open_relays(country, n - 1, state).len(),
            );
            assert(all[p] == city_row(
                country.code,
                country.cities[n - 1],
                state,
                city_base + n - 1,
            ));
            assert forall|q: int| p < q <= k implies (#[trigger] all[q]) == below[q - p - 1] by {}
            (n - 1, p)
        }
    }
}

proof fn relay_parent(
    tree: Seq<CountryView>,
    n: int,
    state: TreeStateView,
    force: bool,
    k: int,
)
    requires
        0 <= n <= tree.len(),
        0 <= k < country_rows(tree, n, state, force).len(),
        country_rows(tree, n, state, force)[k].kind is Relay,
    ensures
        relay_stands_under_its_city(
            country_rows(tree, n, state, force),
            shown_cities(tree, n, state, force),
            k,
        ),
    decreases n,
{
    if n > 0 {
        let above = country_rows(tree, n - 1, state, force);
        let all = country_rows(tree, n, state, force);
        let cities = shown_cities(tree, n - 1, state, force);
        let relays = shown_relays(tree, n - 1, state, force);
        let more = shown_cities(tree, n, state, force);
        let country = tree[n - 1];
        let count = country.cities.len() as int;
        if k < above.len() {
            assert(all[k] == above[k]);
            relay_parent(tree, n - 1, state, force, k);
            assert forall|q: int| 0 <= q < k implies above[q] == all[q] by {}
            parent_in_a_longer_list(above, all, above[k], k);
            parent_is_before(above, above[k], k);
            let p = parent_of(above, k)->0;
            assert(all[p] == above[p]);
            assert(more[all[p].index] == cities[above[p].index]);
        } else {
            let start = above.len() + 1;
            let city_base = cities.len() as int;
            let relay_base = relays.len() as int;
            let block = city_rows(country, count, state, city_base, relay_base);
            assert(all[k] == block[k - start]);
            let (j, b) = relay_in_city_rows(
                country,
                count,
                state,
                city_base,
                relay_base,
                k - start,
            );
            let p = start + b;
            assert(all[p] == block[b]);
            assert forall|q: int| p < q < k implies !is_parent_kind(#[trigger] all[q], all[k]) by {
                assert(all[q] == block[q - start]);
            }
            parent_is(all, all[k], p, k);
            assert(more[all[p].index] == places(country)[j]);
        }
    }
}

/// Whether the relay of row `k` stands under its city: the row above it that can
/// be its parent is that of an open city, `cities` holds that city under the
/// row's number, and the rows in between are the city's relays up to this one.
pub open spec fn relay_stands_under_its_city(
    rows: Seq<RowView>,
    cities: Seq<PlaceView>,
    k: int,
) -> bool {
    match parent_of(rows, k) {
        Some(p) => {
            &&& 0 <= p < k
            &&& rows[p].kind is City
            &&& rows[p].kind->City_expanded
            &&& 0 <= rows[p].index < cities.len()
            &&& rows[p].kind->country == cities[rows[p].index].country.code
            &&& rows[p].kind->City_code == cities[rows[p].index].city.code
            &&& k - p - 1 < cities[rows[p].index].city.relays.len()
            &&& rows[k].kind->hostname == cities[rows[p].index].city.relays[k - p - 1].hostname
        },
        None => false,
    }
}

/// The city row above a relay row is the row of the relay's own city.
pub proof fn the_row_above_a_relay_is_its_city(
    tree: Seq<CountryView>,
    state: TreeStateView,
    force: bool,
    k: int,
)
    requires
        0 <= k < visible_rows(tree, state, force).len(),
        visible_rows(tree, state, force)[k].kind is Relay,
    ensures
        relay_stands_under_its_city(
            visible_rows(tree, state, force),
            shown_cities(tree, tree.len() as int, state, force),
            k,
        ),
{
    relay_parent(tree, tree.len() as int, state, force, k);
}

proof fn no_parent_before(rows: Seq<RowView>, child: RowView, i: int)
    requires
        child.kind is Country,
    ensures
        parent_before(rows, child, i) is None,
    decreases i,
{
    if 0 < i <= rows.len() {
        no_parent_before(rows, child, i - 1);
    }
}

/// A country row has no parent, nor has a row that is not there; every other row
/// has one.
pub proof fn only_countries_have_no_parent(
    tree: Seq<CountryView>,
    state: TreeStateView,
    force: bool,
    k: int,
)
    ensures
        parent_of(visible_rows(tree, state, force), k) is None <==> !(0 <= k < visible_rows(
            tree,
            state,
            force,
        ).len()) || visible_rows(tree, state, force)[k].kind is Country,
{
    let rows = visible_rows(tree, state, force);
    if 0 <= k < rows.len() {
        match rows[k].kind {
            RowKindView::Country { .. } => no_parent_before(rows, rows[k], k),
            RowKindView::City { .. } => the_row_above_a_city_is_its_country(tree, state, force, k),
            RowKindView::Relay { .. } => the_row_above_a_relay_is_its_city(tree, state, force, k),
        }
    }
}

// ---- First children ----

/// Whether a row is open and has children to show.
pub open spec fn has_children(
    row: RowView,
    tree: Seq<CountryView>,
    cities: Seq<PlaceView>,
) -> bool {
    match row.kind {
        RowKindView::Country { expanded, .. } => expanded && tree[row.index].cities.len() > 0,
        RowKindView::City { expanded, .. } => expanded && cities[row.index].city.relays.len() > 0,
        RowKindView::Relay { .. } => false,
    }
}

/// Whether the row after `k` is one of the next level.
spec fn child_follows(rows: Seq<RowView>, k: int) -> bool {
    k + 1 < rows.len() && is_parent_kind(rows[k], rows[k + 1])
}

proof fn city_rows_start_with_a_city(
    country: CountryView,
    n: int,
    state: TreeStateView,
    city_base: int,
    relay_base: int,
)
    requires
        0 < n <= country.cities.len(),
    ensures
        city_rows(country, n, state, city_base, relay_base).len() > 0,
        city_rows(country, n, state, city_base, relay_base)[0].kind is City,
    decreases n,
{
    let above = city_rows(country, n - 1, state, city_base, relay_base);
    let all = city_rows(country, n, state, city_base, relay_base);
    if n > 1 {
        city_rows_start_with_a_city(country, n - 1, state, city_base, relay_base);
        assert(all[0] == above[0]);
    } else {
        assert(above.len() == 0);
    }
}

proof fn relays_follow_their_city(
    country: CountryView,
    n: int,
    state: TreeStateView,
    city_base: int,
    relay_base: int,
    k: int,
)
    requires
        0 <= n <= country.cities.len(),
        0 <= k < city_rows(country, n, state, city_base, relay_base).len(),
        city_rows(country, n, state, city_base, relay_base)[k].kind is City,
    ensures
        ({
            let rows = city_rows(country, n, state, city_base, relay_base);
            let j = rows[k].index - city_base;
            &&& 0 <= j < n
            &&& child_follows(rows, k) <==> rows[k].kind->City_expanded
                && country.cities[j].relays.len() > 0
        }),
    decreases n,
{
    if n > 0 {
        let above = city_rows(country, n - 1, state, city_base, relay_base);
        let all = city_rows(country, n, state, city_base, relay_base);
        if k < above.len() {
            assert(all[k] == above[k]);
            relays_follow_their_city(country, n - 1, state, city_base, relay_base, k);
            if k + 1 < above.len() {
                assert(all[k + 1] == above[k + 1]);
            } else {
                assert(all[k + 1].kind is City);
            }
        } else if k == above.len() {
            let below = relay_rows(
                country.cities[n - 1].relays,
                relay_base + open_relays(country, n - 1, state).len(),
            );
            if k + 1 < all.len() {
                assert(all[k + 1] == below[0]);
            }
        } else {
            let below = relay_rows(
                country.cities[n - 1].relays,
                relay_base + open_relays(country, n - 1, state).len(),
            );
            assert(all[k] == below[k - above.len() - 1]);
        }
    }
}

proof fn children_follow(
    tree: Seq<CountryView>,
    n: int,
    state: TreeStateView,
    force: bool,
    k: int,
)
    requires
        0 <= n <= tree.len(),
        0 <= k < country_rows(tree, n, state, force).len(),
    ensures
        ({
            let rows = country_rows(tree, n, state, force);
            let cities = shown_cities(tree, n, state, force);
            &&& rows[k].kind is Country ==> 0 <= rows[k].index < n
            &&& rows[k].kind is City ==> 0 <= rows[k].index < cities.len()
            &&& child_follows(rows, k) <==> has_children(rows[k], tree, cities)
        }),
    decreases n,
{
    if n > 0 {
        let above = country_rows(tree, n - 1, state, force);
        let all = country_rows(tree, n, state, force);
        let cities = shown_cities(tree, n - 1, state, force);
        let relays = shown_relays(tree, n - 1, state, force);
        let more = shown_cities(tree, n, state, force);
        let country = tree[n - 1];
        let count = country.cities.len() as int;
        let city_base = cities.len() as int;
        let relay_base = relays.len() as int;
        let block = city_rows(country, count, state, city_base, relay_base);
        let start = above.len() + 1;
        assert(all[above.len() as int] == country_row(country, state, force, n - 1));
        if k < above.len() {
            assert(all[k] == above[k]);
            children_follow(tree, n - 1, state, force, k);
            if k + 1 < above.len() {
                assert(all[k + 1] == above[k + 1]);
            }
            if above[k].kind is City {
                assert(more[above[k].index] == cities[above[k].index]);
            }
        } else if k == above.len() {
            if country_open(country, state, force) {
                if count > 0 {
                    city_rows_start_with_a_city(country, count, state, city_base, relay_base);
                    assert(all[k + 1] == block[0]);
                } else {
                    assert(block.len() == 0);
                }
            }
        } else {
            let b = k - start;
            assert(all[k] == block[b]);
            city_rows_hold_no_country(country, count, state, city_base, relay_base);
            if b + 1 < block.len() {
                assert(all[k + 1] == block[b + 1]);
            }
            if block[b].kind is City {
                relays_follow_their_city(country, count, state, city_base, relay_base, b);
                assert(more[all[k].index] == places(country)[all[k].index - city_base]);
            }
        }
    }
}

/// A row has a first child exactly if it is an open country or city with
/// children. That child is the next row, and the row is its parent.
pub proof fn first_children_stand_right_below(
    tree: Seq<CountryView>,
    state: TreeStateView,
    force: bool,
    k: int,
)
    requires
        0 <= k < visible_rows(tree, state, force).len(),
    ensures
        ({
            let rows = visible_rows(tree, state, force);
            let cities = shown_cities(tree, tree.len() as int, state, force);
            if has_children(rows[k], tree, cities) {
                first_child_of(rows, k) == Some(k + 1) && parent_of(rows, k + 1) == Some(k)
            } else {
                first_child_of(rows, k) is None
            }
        }),
{
    children_follow(tree, tree.len() as int, state, force, k);
}

// ---- Opening and closing ----

/// Turning a country over twice changes nothing, and neither does turning a
/// city over twice.
pub proof fn toggling_twice_changes_nothing(
    state: PageStateView,
    country: Seq<char>,
    city: Seq<char>,
)
    ensures
        toggle_country(toggle_country(state, country), country) == state,
        toggle_city(toggle_city(state, country, city), country, city) == state,
{
    let a = toggle_country(toggle_country(state, country), country);
    assert(a.tree().countries =~= state.tree().countries);
    assert(a =~= state);
    let b = toggle_city(toggle_city(state, country, city), country, city);
    assert(b.tree().cities =~= state.tree().cities);
    assert(b =~= state);
}

proof fn countries_are_open_under_a_query(
    tree: Seq<CountryView>,
    n: int,
    state: TreeStateView,
    k: int,
)
    requires
        0 <= n <= tree.len(),
        0 <= k < country_rows(tree, n, state, true).len(),
        country_rows(tree, n, state, true)[k].kind is Country,
    ensures
        country_rows(tree, n, state, true)[k].kind->Country_expanded,
    decreases n,
{
    if n > 0 {
        let above = country_rows(tree, n - 1, state, true);
        let all = country_rows(tree, n, state, true);
        let country = tree[n - 1];
        if k < above.len() {
            countries_are_open_under_a_query(tree, n - 1, state, k);
            assert(all[k] == above[k]);
        } else if k > above.len() {
            let cities = shown_cities(tree, n - 1, state, true).len() as int;
            let relays = shown_relays(tree, n - 1, state, true).len() as int;
            city_rows_hold_no_country(
                country,
                country.cities.len() as int,
                state,
                cities,
                relays,
            );
            assert(all[k] == city_rows(
                country,
                country.cities.len() as int,
                state,
                cities,
                relays,
            )[k - above.len() - 1]);
        }
    }
}

/// While a query is in effect, no arrow key changes which countries are open,
/// so clearing the query brings back the countries as they were.
pub proof fn a_query_leaves_the_open_countries_alone(
    tree: Seq<CountryView>,
    state: PageStateView,
    focused: WidgetId,
    dir: ArrowDir,
)
    ensures
        after_arrow(
            state,
            arrow_action(visible_rows(tree, state.tree(), true), focused, dir, true),
        ).tree().countries == state.tree().countries,
{
    let rows = visible_rows(tree, state.tree(), true);
    if row_of(rows, focused) is Some {
        let i = row_of(rows, focused)->0;
        row_from_is_in_range(rows, focused, 0);
        if rows[i].kind is Country {
            countries_are_open_under_a_query(tree, tree.len() as int, state.tree(), i);
        }
    }
}

proof fn row_from_is_in_range(rows: Seq<RowView>, widget: WidgetId, from: int)
    requires
        0 <= from,
    ensures
        row_from(rows, widget, from) is Some ==> from <= row_from(rows, widget, from)->0
            < rows.len(),
    decreases rows.len() - from,
{
    if from < rows.len() && !owns(rows[from], widget) {
        row_from_is_in_range(rows, widget, from + 1);
    }
}

/// Every number of a country, city or relay that is shown and has an id belongs
/// to a row, whose radio that id is.
pub proof fn numbers_have_radios(
    tree: Seq<CountryView>,
    state: TreeStateView,
    force: bool,
    widget: WidgetId,
)
    ensures
        ({
            let n = tree.len() as int;
            let country = index_in(widget, COUNTRY_RADIO_BASE, COUNTRY_MAX);
            let city = index_in(widget, CITY_RADIO_BASE, CITY_MAX);
            let relay = index_in(widget, RELAY_RADIO_BASE, RELAY_MAX);
            ({
                ||| country is Some && country->0 < n
                ||| city is Some && city->0 < shown_cities(tree, n, state, force).len()
                ||| relay is Some && relay->0 < shown_relays(tree, n, state, force).len()
            }) ==> exists|k: int| #[trigger]
                is_radio(visible_rows(tree, state, force), k, widget)
        }),
{
    let n = tree.len() as int;
    let rows = visible_rows(tree, state, force);
    let country = index_in(widget, COUNTRY_RADIO_BASE, COUNTRY_MAX);
    let city = index_in(widget, CITY_RADIO_BASE, CITY_MAX);
    let relay = index_in(widget, RELAY_RADIO_BASE, RELAY_MAX);
    if country is Some && country->0 < n {
        let k = country_row_at(tree, n, state, force, country->0 as int);
        assert(is_radio(rows, k, widget));
    }
    if city is Some && city->0 < shown_cities(tree, n, state, force).len() {
        let k = city_row_at(tree, n, state, force, city->0 as int);
        assert(is_radio(rows, k, widget));
    }
    if relay is Some && relay->0 < shown_relays(tree, n, state, force).len() {
        let k = relay_row_at(tree, n, state, force, relay->0 as int);
        assert(is_radio(rows, k, widget));
    }
}

// ---- Left and Right ----

/// Whether `widget` is the radio of row `k`.
pub open spec fn is_radio(rows: Seq<RowView>, k: int, widget: WidgetId) -> bool {
    0 <= k < rows.len() && radio_of(rows[k]) == Some(widget)
}

proof fn a_radio_leads_to_its_row(
    tree: Seq<CountryView>,
    state: TreeStateView,
    force: bool,
    k: int,
    widget: WidgetId,
)
    requires
        is_radio(visible_rows(tree, state, force), k, widget),
    ensures
        radio_row(visible_rows(tree, state, force), widget) == Some(k),
{
    widgets_lead_back_to_their_rows(tree, state, force, k, widget);
}

/// The arrow keys act on radios alone: a key is left to the general navigation
/// if it is Up or Down, if the focus is not on the radio of a row that is shown,
/// and if it is Right on a relay; and in no other case.
pub proof fn arrows_act_on_radios_alone(
    tree: Seq<CountryView>,
    state: TreeStateView,
    force: bool,
    focused: WidgetId,
    dir: ArrowDir,
)
    ensures
        ({
            let rows = visible_rows(tree, state, force);
            arrow_action(rows, focused, dir, force) is PassThrough <==> {
                ||| dir != ArrowDir::Left && dir != ArrowDir::Right
                ||| forall|k: int| !(#[trigger] is_radio(rows, k, focused))
                ||| dir == ArrowDir::Right && exists|k: int| #[trigger]
                    is_radio(rows, k, focused) && rows[k].kind is Relay
            }
        }),
{
    let rows = visible_rows(tree, state, force);
    assert forall|k: int| #[trigger] is_radio(rows, k, focused) implies radio_row(rows, focused)
        == Some(k) by {
        a_radio_leads_to_its_row(tree, state, force, k, focused);
    }
    row_from_is_in_range(rows, focused, 0);
    if radio_row(rows, focused) is Some {
        assert(is_radio(rows, radio_row(rows, focused)->0, focused));
    }
}

/// The page's state after a key.
pub open spec fn state_after_key(
    tree: Seq<CountryView>,
    state: PageStateView,
    force: bool,
    focused: WidgetId,
    dir: ArrowDir,
) -> PageStateView {
    after_arrow(
        state,
        arrow_action(visible_rows(tree, state.tree(), force), focused, dir, force),
    )
}

/// On a closed country, Right opens it and Left closes it again.
pub proof fn left_undoes_right_on_a_country(tree: Seq<CountryView>, state: PageStateView, i: int)
    requires
        0 <= i < tree.len(),
        i < COUNTRY_MAX,
        !state.tree().countries.contains(tree[i].code),
    ensures
        ({
            let radio = WidgetId((COUNTRY_RADIO_BASE + i) as u32);
            let opened = state_after_key(tree, state, false, radio, ArrowDir::Right);
            &&& opened == state.expand_country(tree[i].code)
            &&& state_after_key(tree, opened, false, radio, ArrowDir::Left) == state
        }),
{
    let n = tree.len() as int;
    let radio = WidgetId((COUNTRY_RADIO_BASE + i) as u32);
    let k = country_row_at(tree, n, state.tree(), false, i);
    a_radio_leads_to_its_row(tree, state.tree(), false, k, radio);
    let opened = state_after_key(tree, state, false, radio, ArrowDir::Right);
    assert(opened == state.expand_country(tree[i].code));
    let q = country_row_at(tree, n, opened.tree(), false, i);
    a_radio_leads_to_its_row(tree, opened.tree(), false, q, radio);
    let closed = state_after_key(tree, opened, false, radio, ArrowDir::Left);
    assert(closed.tree().countries =~= state.tree().countries);
    assert(closed =~= state);
}

proof fn shown_cities_go_by_countries(
    tree: Seq<CountryView>,
    n: int,
    a: TreeStateView,
    b: TreeStateView,
    force: bool,
)
    requires
        a.countries == b.countries,
    ensures
        shown_cities(tree, n, a, force) == shown_cities(tree, n, b, force),
    decreases n,
{
    if n > 0 {
        shown_cities_go_by_countries(tree, n - 1, a, b, force);
    }
}

/// On a closed city, Right opens it and Left closes it again, with or without a
/// query.
pub proof fn left_undoes_right_on_a_city(
    tree: Seq<CountryView>,
    state: PageStateView,
    force: bool,
    i: int,
)
    requires
        0 <= i < shown_cities(tree, tree.len() as int, state.tree(), force).len(),
        i < CITY_MAX,
        ({
            let place = shown_cities(tree, tree.len() as int, state.tree(), force)[i];
            !city_open(place.country.code, place.city, state.tree())
        }),
    ensures
        ({
            let place = shown_cities(tree, tree.len() as int, state.tree(), force)[i];
            let radio = WidgetId((CITY_RADIO_BASE + i) as u32);
            let opened = state_after_key(tree, state, force, radio, ArrowDir::Right);
            &&& opened == state.expand_city(place.country.code, place.city.code)
            &&& state_after_key(tree, opened, force, radio, ArrowDir::Left) == state
        }),
{
    let n = tree.len() as int;
    let radio = WidgetId((CITY_RADIO_BASE + i) as u32);
    let place = shown_cities(tree, n, state.tree(), force)[i];
    let k = city_row_at(tree, n, state.tree(), force, i);
    a_radio_leads_to_its_row(tree, state.tree(), force, k, radio);
    city_parent(tree, n, state.tree(), force, k);
    let opened = state_after_key(tree, state, force, radio, ArrowDir::Right);
    assert(opened == state.expand_city(place.country.code, place.city.code));
    shown_cities_go_by_countries(tree, n, state.tree(), opened.tree(), force);
    let q = city_row_at(tree, n, opened.tree(), force, i);
    a_radio_leads_to_its_row(tree, opened.tree(), force, q, radio);
    city_parent(tree, n, opened.tree(), force, q);
    let closed = state_after_key(tree, opened, force, radio, ArrowDir::Left);
    assert(closed.tree().cities =~= state.tree().cities);
    assert(closed =~= state);
}

/// Whether Left closes the row instead of moving the focus.
pub open spec fn closes_on_left(row: RowView) -> bool {
    row.kind is City && row.kind->City_expanded && !row.kind->force_expand_under_filter
}

/// Where Right moves the focus from a row to its first child, Left moves it back,
/// unless the child is one that Left closes.
pub proof fn left_leads_back_to_the_parent(
    tree: Seq<CountryView>,
    state: TreeStateView,
    force: bool,
    k: int,
    parent: WidgetId,
    child: WidgetId,
)
    requires
        is_radio(visible_rows(tree, state, force), k, parent),
        arrow_action(visible_rows(tree, state, force), parent, ArrowDir::Right, force)
            == ArrowActionView::SetFocus(child),
        !closes_on_left(visible_rows(tree, state, force)[k + 1]),
    ensures
        arrow_action(visible_rows(tree, state, force), child, ArrowDir::Left, force)
            == ArrowActionView::SetFocus(parent),
{
    let rows = visible_rows(tree, state, force);
    a_radio_leads_to_its_row(tree, state, force, k, parent);
    assert(is_radio(rows, k + 1, child));
    a_radio_leads_to_its_row(tree, state, force, k + 1, child);
    assert(parent_of(rows, k + 1) == Some(k));
}

// ---- Picking ----

/// With multihop on, the page never asks for the same location at both ends;
/// with it off, it only ever asks for an exit.
pub proof fn both_ends_never_share_a_location(app: App, widget: WidgetId)
    ensures
        match activation(app, widget).request {
            Some(RequestView::SelectCountry { node, country }) => (app.multihop() ==> !is_country(
                app.selection(other(node)),
                country,
            )) && (!app.multihop() ==> node == NodeKind::Exit),
            Some(RequestView::SelectCity { node, country, city }) => (app.multihop() ==> !is_city(
                app.selection(other(node)),
                country,
                city,
            )) && (!app.multihop() ==> node == NodeKind::Exit),
            Some(RequestView::SelectRelay { node, hostname }) => (app.multihop() ==> !is_relay(
                app.selection(other(node)),
                hostname,
            )) && (!app.multihop() ==> node == NodeKind::Exit),
            Some(_) => false,
            None => true,
        },
{
}

} // verus!

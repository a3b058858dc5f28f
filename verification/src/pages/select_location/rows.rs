//! The rows in which the location tree is shown.
//!
//! Which rows there are depends on what is open. Rows of one level are numbered
//! through the whole tree, and their widget ids come from those numbers.

use crate::app::select_location::{TreeState, TreeStateView};
use crate::daemon::{RelayLocation, RelayView};
use crate::focus::{id_in, row_id_or_none, WidgetId};
use crate::pages::select_location::tree::{
    city_views, relay_views, tree_view, CityNode, CityView, CountryNode, CountryView,
};
use crate::pages::select_location::widgets::{
    CITY_CHEVRON_BASE, CITY_MAX, CITY_RADIO_BASE, COUNTRY_CHEVRON_BASE, COUNTRY_MAX,
    COUNTRY_RADIO_BASE, RELAY_MAX, RELAY_RADIO_BASE,
};
use crate::text::text_eq;
use vstd::prelude::*;

verus! {

/// A row of the tree. `index` numbers the rows of its level.
pub struct TreeRow<'a> {
    pub kind: TreeRowKind<'a>,
    pub index: usize,
}

/// What a row of the tree shows.
#[derive(Clone, Copy)]
pub enum TreeRowKind<'a> {
    Country { name: &'a str, code: &'a str, expanded: bool },
    /// `country` is the code of the country that the city is in.
    City {
        country: &'a str,
        name: &'a str,
        code: &'a str,
        expanded: bool,
        force_expand_under_filter: bool,
    },
    Relay { hostname: &'a str },
}

/// A row of the tree, over texts.
#[verifier::ext_equal]
pub struct RowView {
    pub kind: RowKindView,
    pub index: int,
}

/// What a row of the tree shows, over texts.
#[verifier::ext_equal]
pub enum RowKindView {
    Country { name: Seq<char>, code: Seq<char>, expanded: bool },
    City {
        country: Seq<char>,
        name: Seq<char>,
        code: Seq<char>,
        expanded: bool,
        force_expand_under_filter: bool,
    },
    Relay { hostname: Seq<char> },
}

impl<'a> View for TreeRowKind<'a> {
    type V = RowKindView;

    open spec fn view(&self) -> RowKindView {
        match self {
            TreeRowKind::Country { name, code, expanded } => RowKindView::Country {
                name: name@,
                code: code@,
                expanded: *expanded,
            },
            TreeRowKind::City { country, name, code, expanded, force_expand_under_filter } => {
                RowKindView::City {
                    country: country@,
                    name: name@,
                    code: code@,
                    expanded: *expanded,
                    force_expand_under_filter: *force_expand_under_filter,
                }
            },
            TreeRowKind::Relay { hostname } => RowKindView::Relay { hostname: hostname@ },
        }
    }
}

impl<'a> View for TreeRow<'a> {
    type V = RowView;

    open spec fn view(&self) -> RowView {
        RowView { kind: self.kind@, index: self.index as int }
    }
}

/// The rows in `rows`, over texts.
pub open spec fn row_views(rows: Seq<TreeRow<'_>>) -> Seq<RowView> {
    rows.map_values(|r: TreeRow<'_>| r@)
}

// ---- What is open ----

/// Whether the cities of a country are shown. While a query is in effect
/// (`force`) they always are.
pub open spec fn country_open(country: CountryView, state: TreeStateView, force: bool) -> bool {
    force || state.countries.contains(country.code)
}

/// Whether the relays of a city are shown.
pub open spec fn city_open(country: Seq<char>, city: CityView, state: TreeStateView) -> bool {
    city.force_expand_under_filter || state.cities.contains((country, city.code))
}

/// The relays shown of the first `n` cities of a country.
pub open spec fn open_relays(country: CountryView, n: int, state: TreeStateView) -> Seq<RelayView>
    decreases n,
{
    if n <= 0 {
        Seq::empty()
    } else {
        open_relays(country, n - 1, state) + if city_open(
            country.code,
            country.cities[n - 1],
            state,
        ) {
            country.cities[n - 1].relays
        } else {
            Seq::empty()
        }
    }
}

/// A city, and the country it is in.
#[verifier::ext_equal]
pub struct PlaceView {
    pub country: CountryView,
    pub city: CityView,
}

/// The cities of `country`, each with it.
pub open spec fn places(country: CountryView) -> Seq<PlaceView> {
    country.cities.map_values(|city: CityView| PlaceView { country, city })
}

/// The cities shown of the first `n` countries, in the order of their rows.
pub open spec fn shown_cities(
    tree: Seq<CountryView>,
    n: int,
    state: TreeStateView,
    force: bool,
) -> Seq<PlaceView>
    decreases n,
{
    if n <= 0 {
        Seq::empty()
    } else {
        shown_cities(tree, n - 1, state, force) + if country_open(tree[n - 1], state, force) {
            places(tree[n - 1])
        } else {
            Seq::empty()
        }
    }
}

/// The relays shown of the first `n` countries, in the order of their rows.
pub open spec fn shown_relays(
    tree: Seq<CountryView>,
    n: int,
    state: TreeStateView,
    force: bool,
) -> Seq<RelayView>
    decreases n,
{
    if n <= 0 {
        Seq::empty()
    } else {
        shown_relays(tree, n - 1, state, force) + if country_open(tree[n - 1], state, force) {
            open_relays(tree[n - 1], tree[n - 1].cities.len() as int, state)
        } else {
            Seq::empty()
        }
    }
}

// ---- The rows ----

/// One row for each of `relays`, numbered from `base`.
pub open spec fn relay_rows(relays: Seq<RelayView>, base: int) -> Seq<RowView> {
    Seq::new(
        relays.len(),
        |i: int|
            RowView {
                kind: RowKindView::Relay { hostname: relays[i].hostname },
                index: base + i,
            },
    )
}

/// The row of a city.
pub open spec fn city_row(
    country: Seq<char>,
    city: CityView,
    state: TreeStateView,
    index: int,
) -> RowView {
    RowView {
        kind: RowKindView::City {
            country,
            name: city.name,
            code: city.code,
            expanded: city_open(country, city, state),
            force_expand_under_filter: city.force_expand_under_filter,
        },
        index,
    }
}

/// The rows of the first `n` cities of a country, with the relays of those that
/// are open.
pub open spec fn city_rows(
    country: CountryView,
    n: int,
    state: TreeStateView,
    city_base: int,
    relay_base: int,
) -> Seq<RowView>
    decreases n,
{
    if n <= 0 {
        Seq::empty()
    } else {
        let city = country.cities[n - 1];
        let above = open_relays(country, n - 1, state).len();
        city_rows(country, n - 1, state, city_base, relay_base).push(
            city_row(country.code, city, state, city_base + n - 1),
        ) + if city_open(country.code, city, state) {
            relay_rows(city.relays, relay_base + above)
        } else {
            Seq::empty()
        }
    }
}

/// The row of a country.
pub open spec fn country_row(
    country: CountryView,
    state: TreeStateView,
    force: bool,
    index: int,
) -> RowView {
    RowView {
        kind: RowKindView::Country {
            name: country.name,
            code: country.code,
            expanded: country_open(country, state, force),
        },
        index,
    }
}

/// The rows of the first `n` countries, with the cities of those that are open.
pub open spec fn country_rows(
    tree: Seq<CountryView>,
    n: int,
    state: TreeStateView,
    force: bool,
) -> Seq<RowView>
    decreases n,
{
    if n <= 0 {
        Seq::empty()
    } else {
        let country = tree[n - 1];
        country_rows(tree, n - 1, state, force).push(country_row(country, state, force, n - 1))
            + if country_open(country, state, force) {
            city_rows(
                country,
                country.cities.len() as int,
                state,
                shown_cities(tree, n - 1, state, force).len() as int,
                shown_relays(tree, n - 1, state, force).len() as int,
            )
        } else {
            Seq::empty()
        }
    }
}

/// All rows of the tree.
pub open spec fn visible_rows(
    tree: Seq<CountryView>,
    state: TreeStateView,
    force: bool,
) -> Seq<RowView> {
    country_rows(tree, tree.len() as int, state, force)
}

proof fn row_views_push(rows: Seq<TreeRow<'_>>, row: TreeRow<'_>)
    ensures
        row_views(rows.push(row)) == row_views(rows).push(row@),
{
    assert(row_views(rows.push(row)) =~= row_views(rows).push(row@));
}

fn push_relay_rows<'a>(rows: &mut Vec<TreeRow<'a>>, relays: &Vec<&'a RelayLocation>, base: usize)
    requires
        base <= old(rows)@.len(),
    ensures
        row_views(final(rows)@) == row_views(old(rows)@) + relay_rows(
            relay_views(relays@),
            base as int,
        ),
        final(rows)@.len() == old(rows)@.len() + relays@.len(),
{
    let ghost before = row_views(rows@);
    let ghost all = relay_rows(relay_views(relays@), base as int);
    let ghost count = rows@.len();
    let mut i: usize = 0;
    assert(before + all.take(0) =~= before);
    while i < relays.len()
        invariant
            i <= relays.len(),
            base <= count,
            rows@.len() == count + i,
            all == relay_rows(relay_views(relays@), base as int),
            row_views(rows@) == before + all.take(i as int),
        decreases relays.len() - i,
    {
        let ghost rows0 = rows@;
        assert(rows@.len() == rows.len());
        let row = TreeRow {
            kind: TreeRowKind::Relay { hostname: relays[i].hostname.as_str() },
            index: base + i,
        };
        proof {
            row_views_push(rows0, row);
            assert(all[i as int] == row@);
            assert(before + all.take(i + 1) =~= (before + all.take(i as int)).push(all[i as int]));
        }
        rows.push(row);
        i = i + 1;
    }
    assert(all.take(i as int) =~= all);
}

/// All rows of the tree, in the order in which they are shown.
pub fn collect_visible_rows<'a>(
    tree: &Vec<CountryNode<'a>>,
    state: &TreeState,
    force_expand: bool,
) -> (r: Vec<TreeRow<'a>>)
    ensures
        row_views(r@) == visible_rows(tree_view(tree@), state@, force_expand),
{
    let ghost t = tree_view(tree@);
    let ghost st = state@;
    let mut rows: Vec<TreeRow<'a>> = Vec::new();
    let mut city_idx: usize = 0;
    let mut relay_idx: usize = 0;
    let mut i: usize = 0;
    assert(row_views(rows@) =~= country_rows(t, 0, st, force_expand));
    while i < tree.len()
        invariant
            i <= tree.len(),
            t == tree_view(tree@),
            st == state@,
            city_idx == shown_cities(t, i as int, st, force_expand).len(),
            relay_idx == shown_relays(t, i as int, st, force_expand).len(),
            city_idx + relay_idx <= rows@.len(),
            row_views(rows@) == country_rows(t, i as int, st, force_expand),
        decreases tree.len() - i,
    {
        let country: &CountryNode<'a> = &tree[i];
        let ghost c = t[i as int];
        assert(c == country@);
        let expanded = force_expand || state.countries.contains(country.code);
        let row = TreeRow {
            kind: TreeRowKind::Country { name: country.name, code: country.code, expanded },
            index: i,
        };
        proof {
            row_views_push(rows@, row);
        }
        rows.push(row);
        let ghost above = row_views(rows@);
        let ghost city_base = city_idx as int;
        let ghost relay_base = relay_idx as int;
        if expanded {
            let mut j: usize = 0;
            assert(above + city_rows(c, 0, st, city_base, relay_base) =~= above);
            while j < country.cities.len()
                invariant
                    j <= country.cities.len(),
                    c == country@,
                    st == state@,
                    city_idx == city_base + j,
                    relay_idx == relay_base + open_relays(c, j as int, st).len(),
                    city_idx + relay_idx <= rows@.len(),
                    row_views(rows@) == above + city_rows(
                        c,
                        j as int,
                        st,
                        city_base,
                        relay_base,
                    ),
                decreases country.cities.len() - j,
            {
                let city: &CityNode<'a> = &country.cities[j];
                let ghost ct = c.cities[j as int];
                assert(ct == city@);
                let city_expanded = city.force_expand_under_filter || state.cities.contains(
                    country.code,
                    city.code,
                );
                let city_row = TreeRow {
                    kind: TreeRowKind::City {
                        country: country.code,
                        name: city.name,
                        code: city.code,
                        expanded: city_expanded,
                        force_expand_under_filter: city.force_expand_under_filter,
                    },
                    index: city_idx,
                };
                proof {
                    row_views_push(rows@, city_row);
                }
                rows.push(city_row);
                assert(rows@.len() == rows.len());
                city_idx = city_idx + 1;
                let ghost done = city_rows(c, j as int, st, city_base, relay_base).push(
                    city_row@,
                );
                assert(row_views(rows@) =~= above + done);
                if city_expanded {
                    push_relay_rows(&mut rows, &city.relays, relay_idx);
                    assert(rows@.len() == rows.len());
                    relay_idx = relay_idx + city.relays.len();
                    assert(row_views(rows@) =~= above + (done + relay_rows(
                        ct.relays,
                        relay_base + open_relays(c, j as int, st).len(),
                    )));
                } else {
                    assert(done + Seq::empty() =~= done);
                }
                j = j + 1;
            }
        } else {
            assert(above + Seq::empty() =~= above);
        }
        i = i + 1;
    }
    rows
}

// ---- Flat lists ----

/// A city, and the country it is in.
#[derive(Clone, Copy)]
pub struct Place<'a> {
    pub country_code: &'a str,
    pub city_code: &'a str,
    pub force_expand: bool,
}

/// Whether `place` names the city of `view`.
pub open spec fn is_place(place: Place<'_>, view: PlaceView) -> bool {
    place.country_code@ == view.country.code && place.city_code@ == view.city.code
        && place.force_expand == view.city.force_expand_under_filter
}

/// Whether `list` names the cities of `views`, one by one.
pub open spec fn are_places(list: Seq<Place<'_>>, views: Seq<PlaceView>) -> bool {
    list.len() == views.len() && forall|i: int|
        0 <= i < list.len() ==> is_place(#[trigger] list[i], views[i])
}

/// The cities that are shown, in the order of their rows.
pub fn flatten_cities<'a>(
    tree: &Vec<CountryNode<'a>>,
    state: &TreeState,
    force_expand: bool,
) -> (r: Vec<Place<'a>>)
    ensures
        are_places(
            r@,
            shown_cities(tree_view(tree@), tree@.len() as int, state@, force_expand),
        ),
{
    let ghost t = tree_view(tree@);
    let mut list: Vec<Place<'a>> = Vec::new();
    let mut i: usize = 0;
    while i < tree.len()
        invariant
            i <= tree.len(),
            t == tree_view(tree@),
            are_places(list@, shown_cities(t, i as int, state@, force_expand)),
        decreases tree.len() - i,
    {
        let country: &CountryNode<'a> = &tree[i];
        let ghost c = t[i as int];
        assert(c == country@);
        let ghost above = shown_cities(t, i as int, state@, force_expand);
        if force_expand || state.countries.contains(country.code) {
            let mut j: usize = 0;
            assert(above + places(c).take(0) =~= above);
            while j < country.cities.len()
                invariant
                    j <= country.cities.len(),
                    c == country@,
                    are_places(list@, above + places(c).take(j as int)),
                decreases country.cities.len() - j,
            {
                assert(c.cities[j as int] == country.cities@[j as int]@);
                let ghost before = above + places(c).take(j as int);
                let ghost after = above + places(c).take(j + 1);
                assert(after =~= before.push(places(c)[j as int]));
                list.push(
                    Place {
                        country_code: country.code,
                        city_code: country.cities[j].code,
                        force_expand: country.cities[j].force_expand_under_filter,
                    },
                );
                j = j + 1;
            }
            assert(places(c).take(j as int) =~= places(c));
        } else {
            assert(above + Seq::empty() =~= above);
        }
        i = i + 1;
    }
    list
}

/// Whether `list` holds the hostnames of `relays`, one by one.
pub open spec fn are_hostnames(list: Seq<&str>, relays: Seq<RelayView>) -> bool {
    list.len() == relays.len() && forall|i: int|
        0 <= i < list.len() ==> (#[trigger] list[i])@ == relays[i].hostname
}

/// The hostnames of the relays that are shown, in the order of their rows.
pub fn flatten_relays<'a>(
    tree: &Vec<CountryNode<'a>>,
    state: &TreeState,
    force_expand: bool,
) -> (r: Vec<&'a str>)
    ensures
        are_hostnames(
            r@,
            shown_relays(tree_view(tree@), tree@.len() as int, state@, force_expand),
        ),
{
    let ghost t = tree_view(tree@);
    let mut list: Vec<&'a str> = Vec::new();
    let mut i: usize = 0;
    while i < tree.len()
        invariant
            i <= tree.len(),
            t == tree_view(tree@),
            are_hostnames(list@, shown_relays(t, i as int, state@, force_expand)),
        decreases tree.len() - i,
    {
        let country: &CountryNode<'a> = &tree[i];
        let ghost c = t[i as int];
        assert(c == country@);
        let ghost above = shown_relays(t, i as int, state@, force_expand);
        if force_expand || state.countries.contains(country.code) {
            let mut j: usize = 0;
            assert(above + open_relays(c, 0, state@) =~= above);
            while j < country.cities.len()
                invariant
                    j <= country.cities.len(),
                    c == country@,
                    are_hostnames(list@, above + open_relays(c, j as int, state@)),
                decreases country.cities.len() - j,
            {
                let city: &CityNode<'a> = &country.cities[j];
                let ghost ct = c.cities[j as int];
                assert(ct == city@);
                let ghost done = above + open_relays(c, j as int, state@);
                if city.force_expand_under_filter || state.cities.contains(
                    country.code,
                    city.code,
                ) {
                    let mut k: usize = 0;
                    assert(done + ct.relays.take(0) =~= done);
                    while k < city.relays.len()
                        invariant
                            k <= city.relays.len(),
                            ct == city@,
                            are_hostnames(list@, done + ct.relays.take(k as int)),
                        decreases city.relays.len() - k,
                    {
                        assert(done + ct.relays.take(k + 1) =~= (done + ct.relays.take(
                            k as int,
                        )).push(ct.relays[k as int]));
                        list.push(city.relays[k].hostname.as_str());
                        k = k + 1;
                    }
                    assert(ct.relays.take(k as int) =~= ct.relays);
                    assert(done + ct.relays =~= above + open_relays(c, j + 1, state@));
                } else {
                    assert(done =~= above + open_relays(c, j + 1, state@));
                }
                j = j + 1;
            }
        } else {
            assert(above + Seq::empty() =~= above);
        }
        i = i + 1;
    }
    list
}

// ---- Rows and widgets ----

/// The id of the row's radio.
pub open spec fn radio_of(row: RowView) -> Option<WidgetId> {
    match row.kind {
        RowKindView::Country { .. } => id_in(row.index, COUNTRY_RADIO_BASE, COUNTRY_MAX),
        RowKindView::City { .. } => id_in(row.index, CITY_RADIO_BASE, CITY_MAX),
        RowKindView::Relay { .. } => id_in(row.index, RELAY_RADIO_BASE, RELAY_MAX),
    }
}

/// The id of the row's chevron. Relays have none.
pub open spec fn chevron_of(row: RowView) -> Option<WidgetId> {
    match row.kind {
        RowKindView::Country { .. } => id_in(row.index, COUNTRY_CHEVRON_BASE, COUNTRY_MAX),
        RowKindView::City { .. } => id_in(row.index, CITY_CHEVRON_BASE, CITY_MAX),
        RowKindView::Relay { .. } => None,
    }
}

/// The id of the row's radio, which is what the keyboard reaches of the row.
pub fn widget_for_row(row: &TreeRow<'_>) -> (r: Option<WidgetId>)
    ensures
        r == radio_of(row@),
{
    match row.kind {
        TreeRowKind::Country { .. } => row_id_or_none(row.index, COUNTRY_MAX, COUNTRY_RADIO_BASE),
        TreeRowKind::City { .. } => row_id_or_none(row.index, CITY_MAX, CITY_RADIO_BASE),
        TreeRowKind::Relay { .. } => row_id_or_none(row.index, RELAY_MAX, RELAY_RADIO_BASE),
    }
}

/// The id of the row's chevron. Relays have none.
pub fn chevron_for_row(row: &TreeRow<'_>) -> (r: Option<WidgetId>)
    ensures
        r == chevron_of(row@),
{
    match row.kind {
        TreeRowKind::Country { .. } => row_id_or_none(row.index, COUNTRY_MAX, COUNTRY_CHEVRON_BASE),
        TreeRowKind::City { .. } => row_id_or_none(row.index, CITY_MAX, CITY_CHEVRON_BASE),
        TreeRowKind::Relay { .. } => None,
    }
}

/// Whether the row registers `widget`, as its radio or as its chevron.
pub open spec fn owns(row: RowView, widget: WidgetId) -> bool {
    radio_of(row) == Some(widget) || chevron_of(row) == Some(widget)
}

/// Whether the row registers `widget`, as its radio or as its chevron.
pub fn row_owns_widget(row: &TreeRow<'_>, widget: WidgetId) -> (r: bool)
    ensures
        r == owns(row@, widget),
{
    let radio = match widget_for_row(row) {
        Some(id) => id == widget,
        None => false,
    };
    let chevron = match chevron_for_row(row) {
        Some(id) => id == widget,
        None => false,
    };
    radio || chevron
}

/// The first of the rows from `from` on that registers `widget`.
pub open spec fn row_from(rows: Seq<RowView>, widget: WidgetId, from: int) -> Option<int>
    decreases rows.len() - from,
{
    if from < 0 || from >= rows.len() {
        None
    } else if owns(rows[from], widget) {
        Some(from)
    } else {
        row_from(rows, widget, from + 1)
    }
}

/// The row that registers `widget`.
pub open spec fn row_of(rows: Seq<RowView>, widget: WidgetId) -> Option<int> {
    row_from(rows, widget, 0)
}

/// The row that registers `widget`, as its radio or as its chevron. There is
/// none for the page's other widgets, nor for ids past the last row.
pub fn row_index_for_widget(rows: &Vec<TreeRow<'_>>, widget: WidgetId) -> (r: Option<usize>)
    ensures
        match r {
            Some(i) => i < rows@.len() && row_of(row_views(rows@), widget) == Some(i as int),
            None => row_of(row_views(rows@), widget) is None,
        },
{
    let mut i: usize = 0;
    while i < rows.len()
        invariant
            i <= rows.len(),
            row_of(row_views(rows@), widget) == row_from(row_views(rows@), widget, i as int),
        decreases rows.len() - i,
    {
        assert(row_views(rows@)[i as int] == rows@[i as int]@);
        if row_owns_widget(&rows[i], widget) {
            return Some(i);
        }
        i = i + 1;
    }
    None
}

/// Whether a row is the kind of row that can be the parent of `child`.
pub open spec fn is_parent_kind(row: RowView, child: RowView) -> bool {
    match child.kind {
        RowKindView::Country { .. } => false,
        RowKindView::City { .. } => row.kind is Country,
        RowKindView::Relay { .. } => row.kind is City,
    }
}

/// The last of the rows before `i` that can be the parent of `child`.
pub open spec fn parent_before(rows: Seq<RowView>, child: RowView, i: int) -> Option<int>
    decreases i,
{
    if i <= 0 || i > rows.len() {
        None
    } else if is_parent_kind(rows[i - 1], child) {
        Some(i - 1)
    } else {
        parent_before(rows, child, i - 1)
    }
}

/// The country row above a city row, or the city row above a relay row.
pub open spec fn parent_of(rows: Seq<RowView>, i: int) -> Option<int> {
    if 0 <= i < rows.len() {
        parent_before(rows, rows[i], i)
    } else {
        None
    }
}

/// The country row above a city row, or the city row above a relay row. A
/// country row has no parent.
pub fn parent_row_index(rows: &Vec<TreeRow<'_>>, child_idx: usize) -> (r: Option<usize>)
    ensures
        match r {
            Some(p) => p < child_idx && parent_of(row_views(rows@), child_idx as int) == Some(
                p as int,
            ),
            None => parent_of(row_views(rows@), child_idx as int) is None,
        },
{
    if child_idx >= rows.len() {
        return None;
    }
    let ghost v = row_views(rows@);
    let ghost child = v[child_idx as int];
    assert(child == rows@[child_idx as int]@);
    let wants_country = match rows[child_idx].kind {
        TreeRowKind::City { .. } => true,
        TreeRowKind::Relay { .. } => false,
        TreeRowKind::Country { .. } => {
            proof {
                no_parent_before(v, child, child_idx as int);
            }
            return None;
        },
    };
    let mut i: usize = child_idx;
    while i > 0
        invariant
            i <= child_idx < rows@.len(),
            v == row_views(rows@),
            parent_of(v, child_idx as int) == parent_before(v, child, i as int),
            wants_country == child.kind is City,
            !(child.kind is Country),
        decreases i,
    {
        assert(v[i - 1] == rows@[i - 1]@);
        let fits = match rows[i - 1].kind {
            TreeRowKind::Country { .. } => wants_country,
            TreeRowKind::City { .. } => !wants_country,
            TreeRowKind::Relay { .. } => false,
        };
        if fits {
            return Some(i - 1);
        }
        i = i - 1;
    }
    None
}

proof fn no_parent_before(rows: Seq<RowView>, child: RowView, i: int)
    requires
        child.kind is Country,
    ensures
        parent_before(rows, child, i) is None,
    decreases i,
{
    if 0 < i <= rows.len() {
        no_parent_before(rows, child, i - 1);
    }
}

/// The row after `i`, if it is a child of row `i`.
pub open spec fn first_child_of(rows: Seq<RowView>, i: int) -> Option<int> {
    if 0 <= i && i + 1 < rows.len() && is_parent_kind(rows[i], rows[i + 1]) {
        Some(i + 1)
    } else {
        None
    }
}

/// The first child of a row. Children stand right below their parent, so that
/// is the next row, if it is a child at all.
pub fn first_child_row_index(rows: &Vec<TreeRow<'_>>, parent_idx: usize) -> (r: Option<usize>)
    ensures
        match r {
            Some(c) => c < rows@.len() && first_child_of(row_views(rows@), parent_idx as int)
                == Some(c as int),
            None => first_child_of(row_views(rows@), parent_idx as int) is None,
        },
{
    if parent_idx >= rows.len() || parent_idx + 1 >= rows.len() {
        return None;
    }
    assert(row_views(rows@)[parent_idx as int] == rows@[parent_idx as int]@);
    assert(row_views(rows@)[parent_idx + 1] == rows@[parent_idx + 1]@);
    let fits = match (rows[parent_idx].kind, rows[parent_idx + 1].kind) {
        (TreeRowKind::Country { .. }, TreeRowKind::City { .. }) => true,
        (TreeRowKind::City { .. }, TreeRowKind::Relay { .. }) => true,
        _ => false,
    };
    if fits {
        Some(parent_idx + 1)
    } else {
        None
    }
}

// ---- The window into the rows ----

/// The largest offset of a window of `capacity` rows into `rows` rows.
pub open spec fn last_offset(rows: int, capacity: int) -> int {
    if rows > capacity {
        rows - capacity
    } else {
        0
    }
}

/// `n` held to `0..=max`.
pub open spec fn clamp(n: int, max: int) -> int {
    if n < 0 {
        0
    } else if n > max {
        max
    } else {
        n
    }
}

/// The offset that puts the focused row in the middle of the window, as far as
/// the ends of the list allow; 0 when nothing has to scroll.
pub open spec fn centered_offset(focused: Option<int>, rows: int, capacity: int) -> int {
    if rows <= capacity || capacity == 0 || focused is None {
        0
    } else {
        clamp(focused->0 - capacity / 2, last_offset(rows, capacity))
    }
}

/// The offset nearest to `current` that has the focused row in the window; 0
/// when nothing has to scroll.
pub open spec fn sliding_offset(
    current: int,
    focused: Option<int>,
    rows: int,
    capacity: int,
) -> int {
    if rows <= capacity || capacity == 0 {
        0
    } else {
        let offset = clamp(current, last_offset(rows, capacity));
        match focused {
            Some(i) => if i < offset {
                i
            } else if i >= offset + capacity {
                clamp(i + 1 - capacity, last_offset(rows, capacity))
            } else {
                offset
            },
            None => offset,
        }
    }
}

/// A row index, as a number.
pub open spec fn index_view(index: Option<usize>) -> Option<int> {
    match index {
        Some(i) => Some(i as int),
        None => None,
    }
}

/// The offset with which the page opens: the focused row comes to stand near
/// the middle of the window.
pub fn centered_scroll_offset(
    focused_idx: Option<usize>,
    rows_len: usize,
    capacity: usize,
) -> (r: usize)
    ensures
        r == centered_offset(index_view(focused_idx), rows_len as int, capacity as int),
{
    if rows_len <= capacity || capacity == 0 {
        return 0;
    }
    match focused_idx {
        None => 0,
        Some(idx) => {
            let max_offset: usize = rows_len - capacity;
            let half: usize = capacity / 2;
            if idx < half {
                0
            } else if idx - half > max_offset {
                max_offset
            } else {
                idx - half
            }
        },
    }
}

/// `current`, moved no further than it takes to have the focused row in the
/// window and the window in the list.
pub fn clamp_scroll_offset(
    current: usize,
    focused_idx: Option<usize>,
    rows_len: usize,
    capacity: usize,
) -> (r: usize)
    ensures
        r == sliding_offset(
            current as int,
            index_view(focused_idx),
            rows_len as int,
            capacity as int,
        ),
{
    if rows_len <= capacity || capacity == 0 {
        return 0;
    }
    let max_offset: usize = rows_len - capacity;
    let offset: usize = if current < max_offset {
        current
    } else {
        max_offset
    };
    match focused_idx {
        Some(idx) => if idx < offset {
            idx
        } else if idx >= offset + capacity {
            if idx - (capacity - 1) > max_offset {
                max_offset
            } else {
                idx - (capacity - 1)
            }
        } else {
            offset
        },
        None => offset,
    }
}

/// Both ways to scroll keep the window inside the list, and keep the focused
/// row, if it is in the list, inside the window.
pub proof fn the_focused_row_is_in_the_window(
    current: int,
    focused: Option<int>,
    rows: int,
    capacity: int,
)
    requires
        0 <= rows,
        0 <= current,
        0 < capacity,
        focused is Some ==> 0 <= focused->0 < rows,
    ensures
        0 <= sliding_offset(current, focused, rows, capacity) <= last_offset(rows, capacity),
        0 <= centered_offset(focused, rows, capacity) <= last_offset(rows, capacity),
        focused is Some ==> {
            &&& sliding_offset(current, focused, rows, capacity) <= focused->0
            &&& focused->0 < sliding_offset(current, focused, rows, capacity) + capacity
            &&& centered_offset(focused, rows, capacity) <= focused->0
            &&& focused->0 < centered_offset(focused, rows, capacity) + capacity
        },
{
}

/// A window that has the focused row already does not move.
pub proof fn a_window_with_the_focus_stays(current: int, focused: int, rows: int, capacity: int)
    requires
        0 < capacity,
        0 <= current <= last_offset(rows, capacity),
        current <= focused < current + capacity,
        0 <= focused < rows,
    ensures
        sliding_offset(current, Some(focused), rows, capacity) == current,
{
}

// ---- What holds of the rows ----

/// Whether a row shows what the flat lists hold at its index.
pub open spec fn row_fits(
    row: RowView,
    tree: Seq<CountryView>,
    cities: Seq<PlaceView>,
    relays: Seq<RelayView>,
) -> bool {
    match row.kind {
        RowKindView::Country { name, code, .. } => 0 <= row.index < tree.len()
            && tree[row.index].name == name && tree[row.index].code == code,
        RowKindView::City { country, name, code, force_expand_under_filter, .. } => 0 <= row.index
            < cities.len() && cities[row.index].country.code == country
            && cities[row.index].city.name == name && cities[row.index].city.code == code && cities[row.index].city.force_expand_under_filter
            == force_expand_under_filter,
        RowKindView::Relay { hostname } => 0 <= row.index < relays.len()
            && relays[row.index].hostname == hostname,
    }
}

proof fn city_rows_fit(
    country: CountryView,
    n: int,
    state: TreeStateView,
    tree: Seq<CountryView>,
    cities: Seq<PlaceView>,
    relays: Seq<RelayView>,
    k: int,
)
    requires
        0 <= n <= country.cities.len(),
        0 <= k < city_rows(country, n, state, cities.len() as int, relays.len() as int).len(),
    ensures
        row_fits(
            city_rows(country, n, state, cities.len() as int, relays.len() as int)[k],
            tree,
            cities + places(country),
            relays + open_relays(country, n, state),
        ),
        !(city_rows(country, n, state, cities.len() as int, relays.len() as int)[k].kind is Country),
    decreases n,
{
    if n > 0 {
        let city_base = cities.len() as int;
        let relay_base = relays.len() as int;
        let above = city_rows(country, n - 1, state, city_base, relay_base);
        let all = city_rows(country, n, state, city_base, relay_base);
        let more = open_relays(country, n, state);
        let less = open_relays(country, n - 1, state);
        if k < above.len() {
            city_rows_fit(country, n - 1, state, tree, cities, relays, k);
            assert(all[k] == above[k]);
            assert forall|i: int| 0 <= i < (relays + less).len() implies (relays + less)[i] == (
            relays + more)[i] by {}
        } else if k == above.len() {
            assert((cities + places(country))[city_base + n - 1] == places(country)[n - 1]);
        } else {
            let city = country.cities[n - 1];
            let j = k - above.len() - 1;
            assert(all[k] == relay_rows(city.relays, relay_base + less.len())[j]);
            assert(more[less.len() + j] == city.relays[j]);
            assert((relays + more)[relay_base + less.len() + j] == city.relays[j]);
        }
    }
}

proof fn country_rows_fit(
    tree: Seq<CountryView>,
    n: int,
    state: TreeStateView,
    force: bool,
    k: int,
)
    requires
        0 <= n <= tree.len(),
        0 <= k < country_rows(tree, n, state, force).len(),
    ensures
        row_fits(
            country_rows(tree, n, state, force)[k],
            tree,
            shown_cities(tree, n, state, force),
            shown_relays(tree, n, state, force),
        ),
    decreases n,
{
    if n > 0 {
        let above = country_rows(tree, n - 1, state, force);
        let all = country_rows(tree, n, state, force);
        let cities = shown_cities(tree, n - 1, state, force);
        let relays = shown_relays(tree, n - 1, state, force);
        let country = tree[n - 1];
        if k < above.len() {
            country_rows_fit(tree, n - 1, state, force, k);
            assert(all[k] == above[k]);
            let more_cities = shown_cities(tree, n, state, force);
            let more_relays = shown_relays(tree, n, state, force);
            assert forall|i: int| 0 <= i < cities.len() implies cities[i] == more_cities[i] by {}
            assert forall|i: int| 0 <= i < relays.len() implies relays[i] == more_relays[i] by {}
        } else if k == above.len() {
        } else {
            city_rows_fit(
                country,
                country.cities.len() as int,
                state,
                tree,
                cities,
                relays,
                k - above.len() - 1,
            );
        }
    }
}

/// A row and its number agree: the country, city or relay that a row shows is
/// the one that the page finds under the row's number when it is activated.
pub proof fn rows_agree_with_their_numbers(
    tree: Seq<CountryView>,
    state: TreeStateView,
    force: bool,
    k: int,
)
    requires
        0 <= k < visible_rows(tree, state, force).len(),
    ensures
        row_fits(
            visible_rows(tree, state, force)[k],
            tree,
            shown_cities(tree, tree.len() as int, state, force),
            shown_relays(tree, tree.len() as int, state, force),
        ),
{
    country_rows_fit(tree, tree.len() as int, state, force, k);
}

} // verus!

//! The Select-location page: a search field over a tree of countries, cities
//! and relays.
//!
//! Activating a row selects its country, city or relay for the end of the
//! tunnel that is being edited. The arrow keys open and close rows and move
//! between parents and children; a click on a chevron opens or closes its row.

use crate::app::select_location::{NodeKind, PageStateView, TreeStateView};
use crate::app::{
    leads_back, left, notification_view, request_view, Answer, App, CurrentRelaySelection,
    NotificationView, PageId, Request, RequestView, SelectionView,
};
use crate::daemon::{RelayLocation, RelayView};
use crate::focus::{decode, id_in, index_in, row_id_or_none, ArrowDir, WidgetId};
use crate::text::{owned, text_eq};
use vstd::prelude::*;

use self::rows::{
    are_hostnames, are_places, collect_visible_rows, first_child_of, first_child_row_index,
    flatten_cities, flatten_relays, index_view, is_place, parent_of, parent_row_index, radio_of, row_of,
    row_index_for_widget, row_views, shown_cities, shown_relays, visible_rows, widget_for_row, Place,
    PlaceView, RowKindView, RowView, TreeRow, TreeRowKind,
};
use self::tree::{filtered_tree, filtering, relays_of, tree_in, tree_view, CountryView};
use self::widgets::{
    CITY_CHEVRON_BASE, CITY_MAX, CITY_RADIO_BASE, COUNTRY_CHEVRON_BASE, COUNTRY_MAX,
    COUNTRY_RADIO_BASE, RELAY_MAX, RELAY_RADIO_BASE,
};

pub mod entering;
pub mod laws;
pub mod opening;
pub mod picking;
pub mod rows;
pub mod search;
pub mod shown;
pub mod tree;
pub mod view;
pub mod widgets;

pub use self::tree::{filter_active, project_filtered_tree, CityNode, CountryNode};
pub use self::view::render;

verus! {

/// Shown when the location of one end is picked for the other end too.
pub open spec fn same_location_message() -> Seq<char> {
    "Can't use the same location for entry and exit"@
}

// ---- Widget ids ----

/// The row of a country radio.
pub fn country_radio_index(widget: WidgetId) -> (r: Option<usize>)
    ensures
        r == index_in(widget, COUNTRY_RADIO_BASE, COUNTRY_MAX),
{
    decode(widget, COUNTRY_RADIO_BASE, COUNTRY_MAX)
}

/// The row of a city radio.
pub fn city_radio_index(widget: WidgetId) -> (r: Option<usize>)
    ensures
        r == index_in(widget, CITY_RADIO_BASE, CITY_MAX),
{
    decode(widget, CITY_RADIO_BASE, CITY_MAX)
}

/// The row of a relay radio.
pub fn relay_radio_index(widget: WidgetId) -> (r: Option<usize>)
    ensures
        r == index_in(widget, RELAY_RADIO_BASE, RELAY_MAX),
{
    decode(widget, RELAY_RADIO_BASE, RELAY_MAX)
}

/// The row of a country chevron, which is the row of the matching radio.
pub fn country_chevron_index(widget: WidgetId) -> (r: Option<usize>)
    ensures
        r == index_in(widget, COUNTRY_CHEVRON_BASE, COUNTRY_MAX),
{
    decode(widget, COUNTRY_CHEVRON_BASE, COUNTRY_MAX)
}

/// The row of a city chevron, which is the row of the matching radio.
pub fn city_chevron_index(widget: WidgetId) -> (r: Option<usize>)
    ensures
        r == index_in(widget, CITY_CHEVRON_BASE, CITY_MAX),
{
    decode(widget, CITY_CHEVRON_BASE, CITY_MAX)
}

/// Whether `widget` is the radio of a row.
pub open spec fn is_tree_row(widget: WidgetId) -> bool {
    index_in(widget, COUNTRY_RADIO_BASE, COUNTRY_MAX) is Some || index_in(
        widget,
        CITY_RADIO_BASE,
        CITY_MAX,
    ) is Some || index_in(widget, RELAY_RADIO_BASE, RELAY_MAX) is Some
}

/// Whether `widget` is the chevron of a row.
pub open spec fn is_chevron(widget: WidgetId) -> bool {
    index_in(widget, COUNTRY_CHEVRON_BASE, COUNTRY_MAX) is Some || index_in(
        widget,
        CITY_CHEVRON_BASE,
        CITY_MAX,
    ) is Some
}

/// Whether `widget` is the radio of a row: what the arrow keys act on.
pub fn owns_tree_row(widget: WidgetId) -> (r: bool)
    ensures
        r == is_tree_row(widget),
{
    country_radio_index(widget).is_some() || city_radio_index(widget).is_some()
        || relay_radio_index(widget).is_some()
}

/// Whether `widget` is one of the page's widgets.
pub open spec fn is_own(widget: WidgetId) -> bool {
    widget == WidgetId(widgets::SEARCH_ANCHOR) || widget == WidgetId(widgets::FILTER_BUTTON)
        || widget == WidgetId(widgets::ENTRY_TAB) || widget == WidgetId(widgets::EXIT_TAB)
        || is_tree_row(widget) || is_chevron(widget)
}

/// Whether `widget` is one of the page's widgets.
pub fn owns_widget(widget: WidgetId) -> (r: bool)
    ensures
        r == is_own(widget),
{
    widget == WidgetId(widgets::SEARCH_ANCHOR) || widget == WidgetId(widgets::FILTER_BUTTON)
        || widget == WidgetId(widgets::ENTRY_TAB) || widget == WidgetId(widgets::EXIT_TAB)
        || owns_tree_row(widget) || country_chevron_index(widget).is_some()
        || city_chevron_index(widget).is_some()
}

/// A widget is at most one of: one of the four fixed widgets, a country, city
/// or relay radio, a country or city chevron.
pub proof fn widget_kinds_are_disjoint(widget: WidgetId)
    ensures
        ({
            let fixed = widget.0 == widgets::SEARCH_ANCHOR || widget.0 == widgets::FILTER_BUTTON
                || widget.0 == widgets::ENTRY_TAB || widget.0 == widgets::EXIT_TAB;
            let country = index_in(widget, COUNTRY_RADIO_BASE, COUNTRY_MAX) is Some;
            let city = index_in(widget, CITY_RADIO_BASE, CITY_MAX) is Some;
            let relay = index_in(widget, RELAY_RADIO_BASE, RELAY_MAX) is Some;
            let country_chevron = index_in(widget, COUNTRY_CHEVRON_BASE, COUNTRY_MAX) is Some;
            let city_chevron = index_in(widget, CITY_CHEVRON_BASE, CITY_MAX) is Some;
            &&& fixed ==> !(country || city || relay || country_chevron || city_chevron)
            &&& country ==> !(city || relay || country_chevron || city_chevron)
            &&& city ==> !(relay || country_chevron || city_chevron)
            &&& relay ==> !(country_chevron || city_chevron)
            &&& country_chevron ==> !city_chevron
        }),
{
}

// ---- The end that is edited ----

/// The end that the page edits: with multihop off, always the exit.
pub open spec fn effective(app: App) -> NodeKind {
    if app.multihop() {
        app.select_location_state@.node_mode
    } else {
        NodeKind::Exit
    }
}

/// The end that the page edits. With multihop off there is no entry to edit,
/// whatever tab was left active.
fn effective_mode(app: &App) -> (r: NodeKind)
    ensures
        r == effective(*app),
{
    if app.is_multihop_enabled() {
        app.select_location_state.node_mode
    } else {
        NodeKind::Exit
    }
}

/// Point the page's state at the end that it edits.
pub fn sync_effective_mode(app: &mut App) -> (r: NodeKind)
    ensures
        r == effective(*old(app)),
        final(app).select_location_state@ == old(app).select_location_state@.with_mode(r),
        *final(app) == (App {
            select_location_state: final(app).select_location_state,
            ..*old(app)
        }),
{
    let mode = effective_mode(app);
    app.select_location_state.set_node_mode(mode);
    mode
}

/// The other end.
pub open spec fn other(mode: NodeKind) -> NodeKind {
    match mode {
        NodeKind::Entry => NodeKind::Exit,
        NodeKind::Exit => NodeKind::Entry,
    }
}

/// The location selected for `mode`.
pub fn current_selection_for_mode(app: &App, mode: NodeKind) -> (r: CurrentRelaySelection<'_>)
    ensures
        r@ == app.selection(mode),
{
    match mode {
        NodeKind::Entry => app.current_entry_relay_selection(),
        NodeKind::Exit => app.current_relay_selection(),
    }
}

/// The location selected for the other end, which `mode` may not have too.
pub fn other_node_selection(app: &App, mode: NodeKind) -> (r: CurrentRelaySelection<'_>)
    ensures
        r@ == app.selection(other(mode)),
{
    match mode {
        NodeKind::Entry => app.current_relay_selection(),
        NodeKind::Exit => app.current_entry_relay_selection(),
    }
}

/// Whether `selection` is the country `code`.
pub open spec fn is_country(selection: SelectionView, code: Seq<char>) -> bool {
    selection == SelectionView::Country(code)
}

/// Whether `selection` is the city `city` of the country `country`.
pub open spec fn is_city(selection: SelectionView, country: Seq<char>, city: Seq<char>) -> bool {
    selection == SelectionView::City { country, city }
}

/// Whether `selection` is the relay `hostname`.
pub open spec fn is_relay(selection: SelectionView, hostname: Seq<char>) -> bool {
    selection == SelectionView::Hostname(hostname)
}

/// Whether `selection` is the country `code`.
pub fn selects_country(selection: &CurrentRelaySelection<'_>, code: &str) -> (r: bool)
    ensures
        r == is_country(selection@, code@),
{
    match selection {
        CurrentRelaySelection::Country(c) => text_eq(c, code),
        _ => false,
    }
}

/// Whether `selection` is the city `city` of the country `country`.
pub fn selects_city(selection: &CurrentRelaySelection<'_>, country: &str, city: &str) -> (r: bool)
    ensures
        r == is_city(selection@, country@, city@),
{
    match selection {
        CurrentRelaySelection::City { country: c, city: t } => text_eq(c, country) && text_eq(
            t,
            city,
        ),
        _ => false,
    }
}

/// Whether `selection` is the relay `hostname`.
pub fn selects_relay(selection: &CurrentRelaySelection<'_>, hostname: &str) -> (r: bool)
    ensures
        r == is_relay(selection@, hostname@),
{
    match selection {
        CurrentRelaySelection::Hostname(h) => text_eq(h, hostname),
        _ => false,
    }
}

// ---- Focusing the current selection ----

/// The row that the page should focus when it opens.
#[derive(Debug)]
pub enum FocusTarget {
    Country(String),
    City { country: String, city: String },
    Hostname(String),
}

/// The row that the page should focus, over texts.
#[verifier::ext_equal]
pub enum FocusTargetView {
    Country(Seq<char>),
    City { country: Seq<char>, city: Seq<char> },
    Hostname(Seq<char>),
}

impl View for FocusTarget {
    type V = FocusTargetView;

    open spec fn view(&self) -> FocusTargetView {
        match self {
            FocusTarget::Country(c) => FocusTargetView::Country(c@),
            FocusTarget::City { country, city } => FocusTargetView::City {
                country: country@,
                city: city@,
            },
            FocusTarget::Hostname(h) => FocusTargetView::Hostname(h@),
        }
    }
}

/// The row of a selection. A selection that names no single place has none.
pub open spec fn target_of(selection: SelectionView) -> Option<FocusTargetView> {
    match selection {
        SelectionView::Country(c) => Some(FocusTargetView::Country(c)),
        SelectionView::City { country, city } => Some(FocusTargetView::City { country, city }),
        SelectionView::Hostname(h) => Some(FocusTargetView::Hostname(h)),
        _ => None,
    }
}

/// The first relay called `hostname` among those from `from` on.
pub open spec fn relay_from(relays: Seq<RelayView>, hostname: Seq<char>, from: int) -> Option<
    RelayView,
>
    decreases relays.len() - from,
{
    if from < 0 || from >= relays.len() {
        None
    } else if relays[from].hostname == hostname {
        Some(relays[from])
    } else {
        relay_from(relays, hostname, from + 1)
    }
}

/// The page's state with everything open that the target lies in.
pub open spec fn opened_for(
    state: PageStateView,
    relays: Seq<RelayView>,
    target: FocusTargetView,
) -> PageStateView {
    match target {
        FocusTargetView::Country(_) => state,
        FocusTargetView::City { country, .. } => state.expand_country(country),
        FocusTargetView::Hostname(h) => match relay_from(relays, h, 0) {
            Some(r) => state.expand_country(r.country_code).expand_city(
                r.country_code,
                r.city_code,
            ),
            None => state,
        },
    }
}

/// The first country from `from` on with the code `code`.
pub open spec fn country_from(tree: Seq<CountryView>, code: Seq<char>, from: int) -> Option<int>
    decreases tree.len() - from,
{
    if from < 0 || from >= tree.len() {
        None
    } else if tree[from].code == code {
        Some(from)
    } else {
        country_from(tree, code, from + 1)
    }
}

/// The first of the places from `from` on with these codes.
pub open spec fn place_from(
    places: Seq<PlaceView>,
    country: Seq<char>,
    city: Seq<char>,
    from: int,
) -> Option<int>
    decreases places.len() - from,
{
    if from < 0 || from >= places.len() {
        None
    } else if places[from].country.code == country && places[from].city.code == city {
        Some(from)
    } else {
        place_from(places, country, city, from + 1)
    }
}

/// The first of the relays from `from` on that is called `hostname`.
pub open spec fn relay_index_from(
    relays: Seq<RelayView>,
    hostname: Seq<char>,
    from: int,
) -> Option<int>
    decreases relays.len() - from,
{
    if from < 0 || from >= relays.len() {
        None
    } else if relays[from].hostname == hostname {
        Some(from)
    } else {
        relay_index_from(relays, hostname, from + 1)
    }
}

/// The widget id of row `index`, if there is such a row and the range of ids
/// reaches it.
pub open spec fn id_of_row(index: Option<int>, base: u32, max: u32) -> Option<WidgetId> {
    match index {
        Some(i) => id_in(i, base, max),
        None => None,
    }
}

/// The radio of the target's row, if that row is shown and has an id.
pub open spec fn widget_of_target(
    tree: Seq<CountryView>,
    state: TreeStateView,
    force: bool,
    target: FocusTargetView,
) -> Option<WidgetId> {
    let n = tree.len() as int;
    match target {
        FocusTargetView::Country(code) => id_of_row(
            country_from(tree, code, 0),
            COUNTRY_RADIO_BASE,
            COUNTRY_MAX,
        ),
        FocusTargetView::City { country, city } => id_of_row(
            place_from(shown_cities(tree, n, state, force), country, city, 0),
            CITY_RADIO_BASE,
            CITY_MAX,
        ),
        FocusTargetView::Hostname(h) => id_of_row(
            relay_index_from(shown_relays(tree, n, state, force), h, 0),
            RELAY_RADIO_BASE,
            RELAY_MAX,
        ),
    }
}

fn find_country(tree: &Vec<CountryNode<'_>>, code: &str) -> (r: Option<usize>)
    ensures
        index_view(r) == country_from(tree_view(tree@), code@, 0),
{
    let ghost t = tree_view(tree@);
    let mut i: usize = 0;
    while i < tree.len()
        invariant
            i <= tree.len(),
            t == tree_view(tree@),
            country_from(t, code@, 0) == country_from(t, code@, i as int),
        decreases tree.len() - i,
    {
        assert(t[i as int] == tree@[i as int]@);
        if text_eq(tree[i].code, code) {
            return Some(i);
        }
        i = i + 1;
    }
    None
}

fn find_place(
    list: &Vec<Place<'_>>,
    country: &str,
    city: &str,
    Ghost(all): Ghost<Seq<PlaceView>>,
) -> (r: Option<usize>)
    requires
        are_places(list@, all),
    ensures
        index_view(r) == place_from(all, country@, city@, 0),
{
    let mut i: usize = 0;
    while i < list.len()
        invariant
            i <= list.len(),
            are_places(list@, all),
            place_from(all, country@, city@, 0) == place_from(all, country@, city@, i as int),
        decreases list.len() - i,
    {
        assert(is_place(list@[i as int], all[i as int]));
        if text_eq(list[i].country_code, country) && text_eq(list[i].city_code, city) {
            return Some(i);
        }
        i = i + 1;
    }
    None
}

fn find_hostname(
    list: &Vec<&str>,
    hostname: &str,
    Ghost(all): Ghost<Seq<RelayView>>,
) -> (r: Option<usize>)
    requires
        are_hostnames(list@, all),
    ensures
        index_view(r) == relay_index_from(all, hostname@, 0),
{
    let mut i: usize = 0;
    while i < list.len()
        invariant
            i <= list.len(),
            are_hostnames(list@, all),
            relay_index_from(all, hostname@, 0) == relay_index_from(all, hostname@, i as int),
        decreases list.len() - i,
    {
        assert(list@[i as int]@ == all[i as int].hostname);
        if text_eq(list[i], hostname) {
            return Some(i);
        }
        i = i + 1;
    }
    None
}

fn optional_row_id(index: Option<usize>, max: u32, base: u32) -> (r: Option<WidgetId>)
    requires
        base + max <= u32::MAX,
    ensures
        r == id_of_row(index_view(index), base, max),
{
    match index {
        Some(i) => row_id_or_none(i, max, base),
        None => None,
    }
}

/// The radio of the target's row, numbered as the rows of the tree are. There
/// is none if the tree does not show the target.
pub fn focus_widget_for_target(app: &App, target: &FocusTarget) -> (r: Option<WidgetId>)
    ensures
        r == widget_of_target(
            filtered_tree(*app),
            app.select_location_state@.tree(),
            filtering(app.select_location_state@),
            target@,
        ),
{
    let tree = project_filtered_tree(app);
    let state = app.select_location_state.tree();
    let force_expand = filter_active(app);
    let ghost t = tree_view(tree@);
    let ghost n = t.len() as int;
    match target {
        FocusTarget::Country(code) => optional_row_id(
            find_country(&tree, code.as_str()),
            COUNTRY_MAX,
            COUNTRY_RADIO_BASE,
        ),
        FocusTarget::City { country, city } => {
            let cities = flatten_cities(&tree, state, force_expand);
            let found = find_place(
                &cities,
                country.as_str(),
                city.as_str(),
                Ghost(shown_cities(t, n, state@, force_expand)),
            );
            optional_row_id(found, CITY_MAX, CITY_RADIO_BASE)
        },
        FocusTarget::Hostname(host) => {
            let relays = flatten_relays(&tree, state, force_expand);
            let found = find_hostname(
                &relays,
                host.as_str(),
                Ghost(shown_relays(t, n, state@, force_expand)),
            );
            optional_row_id(found, RELAY_MAX, RELAY_RADIO_BASE)
        },
    }
}

/// What focusing a selection leaves behind.
#[verifier::ext_equal]
pub struct FocusOutcome {
    pub state: PageStateView,
    pub focused: Option<WidgetId>,
    pub found: bool,
}

/// What focusing the selection of `mode` leaves behind, with the page in the
/// state `state`. All that the selection lies in is opened; its row is focused
/// and centred if the tree shows it.
pub open spec fn focus_outcome(app: App, state: PageStateView, mode: NodeKind) -> FocusOutcome {
    match target_of(app.selection(mode)) {
        None => FocusOutcome { state, focused: app.focused, found: false },
        Some(target) => {
            let opened = opened_for(state, relays_of(app), target);
            match widget_of_target(tree_in(app, state), opened.tree(), filtering(state), target) {
                Some(id) => FocusOutcome {
                    state: PageStateView { center_focused: true, ..opened },
                    focused: Some(id),
                    found: true,
                },
                None => FocusOutcome { state: opened, focused: app.focused, found: false },
            }
        },
    }
}

fn find_relay<'a>(relays: &'a Vec<RelayLocation>, hostname: &str) -> (r: Option<&'a RelayLocation>)
    ensures
        match r {
            Some(x) => relay_from(
                relays@.map_values(|r: RelayLocation| r@),
                hostname@,
                0,
            ) == Some(x@),
            None => relay_from(relays@.map_values(|r: RelayLocation| r@), hostname@, 0) is None,
        },
{
    let ghost all = relays@.map_values(|r: RelayLocation| r@);
    let mut i: usize = 0;
    while i < relays.len()
        invariant
            i <= relays.len(),
            all == relays@.map_values(|r: RelayLocation| r@),
            relay_from(all, hostname@, 0) == relay_from(all, hostname@, i as int),
        decreases relays.len() - i,
    {
        assert(all[i as int] == relays@[i as int]@);
        if text_eq(relays[i].hostname.as_str(), hostname) {
            return Some(&relays[i]);
        }
        i = i + 1;
    }
    None
}

/// Open the tree down to the selection of `mode`, and focus its row. The page's
/// state has to be set to `mode` already. Returns whether there was a row to
/// focus: there is none for a selection that names no single place, and none
/// for a place that the tree does not show.
pub fn focus_current_selection(app: &mut App, mode: NodeKind) -> (found: bool)
    ensures
        found == focus_outcome(*old(app), old(app).select_location_state@, mode).found,
        final(app).select_location_state@ == focus_outcome(*old(app), old(app).select_location_state@, mode).state,
        final(app).focused == focus_outcome(*old(app), old(app).select_location_state@, mode).focused,
        *final(app) == (App {
            select_location_state: final(app).select_location_state,
            focused: final(app).focused,
            ..*old(app)
        }),
{
    let target: FocusTarget = match current_selection_for_mode(app, mode) {
        CurrentRelaySelection::Country(c) => FocusTarget::Country(owned(c)),
        CurrentRelaySelection::City { country, city } => FocusTarget::City {
            country: owned(country),
            city: owned(city),
        },
        CurrentRelaySelection::Hostname(h) => FocusTarget::Hostname(owned(h)),
        _ => {
            return false;
        },
    };
    match &target {
        FocusTarget::Country(_) => {},
        FocusTarget::City { country, .. } => {
            app.select_location_state.expand_country(country.as_str());
        },
        FocusTarget::Hostname(host) => {
            let parents: Option<(String, String)> = match find_relay(
                &app.relay_locations,
                host.as_str(),
            ) {
                Some(r) => Some((r.country_code.clone(), r.city_code.clone())),
                None => None,
            };
            match parents {
                Some((country, city)) => {
                    app.select_location_state.expand_country(country.as_str());
                    app.select_location_state.expand_city(country.as_str(), city.as_str());
                },
                None => {},
            }
        },
    }
    match focus_widget_for_target(app, &target) {
        Some(id) => {
            app.focused = Some(id);
            app.select_location_state.request_center_focused();
            true
        },
        None => false,
    }
}

/// What opening the page leaves behind.
pub open spec fn entered(app: App) -> FocusOutcome {
    focus_outcome(
        app,
        app.select_location_state@.with_mode(NodeKind::Exit),
        NodeKind::Exit,
    )
}

/// Open the page on the exit's current selection. The page it is opened from,
/// and the focus there, are remembered before the focus moves, so that closing
/// the page leads back to them.
pub fn enter_with_current_selection_focused(app: &mut App)
    ensures
        final(app).select_location_state@ == entered(*old(app)).state,
        final(app).focused == entered(*old(app)).focused,
        ({
            let state = old(app).select_location_state@.with_mode(NodeKind::Exit);
            let outcome = focus_outcome(*old(app), state, NodeKind::Exit);
            &&& final(app).select_location_state@ == outcome.state
            &&& final(app).focused == outcome.focused
            &&& final(app).page == PageId::SelectLocation
            &&& leads_back(*old(app), *final(app))
            &&& *final(app) == (App {
                select_location_state: final(app).select_location_state,
                focused: final(app).focused,
                page: final(app).page,
                returns: final(app).returns,
                ..*old(app)
            })
        }),
{
    app.select_location_state.set_node_mode(NodeKind::Exit);
    app.enter_sub_page(PageId::SelectLocation);
    focus_current_selection(app, NodeKind::Exit);
}

// ---- Activation ----

/// What activating a widget leaves behind.
#[verifier::ext_equal]
pub struct Activation {
    pub state: PageStateView,
    pub focused: Option<WidgetId>,
    pub request: Option<RequestView>,
    /// The location belongs to the other end; the user is told so.
    pub refused: bool,
}

/// The state with a country row opened if it was closed, and closed if open.
pub open spec fn toggle_country(state: PageStateView, code: Seq<char>) -> PageStateView {
    if state.tree().countries.contains(code) {
        state.collapse_country(code)
    } else {
        state.expand_country(code)
    }
}

/// The state with a city row opened if it was closed, and closed if open.
pub open spec fn toggle_city(
    state: PageStateView,
    country: Seq<char>,
    city: Seq<char>,
) -> PageStateView {
    if state.tree().cities.contains((country, city)) {
        state.collapse_city(country, city)
    } else {
        state.expand_city(country, city)
    }
}

/// What activating an Entry or Exit tab leaves behind: that end is edited, and
/// its selection focused; or else the tab, where there is no row to focus.
pub open spec fn tab_activation(app: App, widget: WidgetId, mode: NodeKind) -> Activation {
    let state = app.select_location_state@.with_mode(mode);
    if mode == NodeKind::Entry && app.daita_picks_entry() {
        Activation { state, focused: Some(widget), request: None, refused: false }
    } else {
        let outcome = focus_outcome(app, state, mode);
        Activation {
            state: outcome.state,
            focused: if outcome.found {
                outcome.focused
            } else {
                Some(widget)
            },
            request: None,
            refused: false,
        }
    }
}

/// What picking a location leaves behind: a request, unless `taken`.
pub open spec fn pick(app: App, state: PageStateView, taken: bool, request: RequestView) -> Activation {
    Activation {
        state,
        focused: app.focused,
        request: if taken {
            None
        } else {
            Some(request)
        },
        refused: taken,
    }
}

/// What activating a row or a chevron leaves behind.
pub open spec fn row_activation(app: App, widget: WidgetId) -> Activation {
    let mode = effective(app);
    let state = app.select_location_state@.with_mode(mode);
    let tree = tree_in(app, state);
    let n = tree.len() as int;
    let force = filtering(state);
    let cities = shown_cities(tree, n, state.tree(), force);
    let relays = shown_relays(tree, n, state.tree(), force);
    let taken_by = app.selection(other(mode));
    let nothing = Activation { state, focused: app.focused, request: None, refused: false };
    if index_in(widget, COUNTRY_RADIO_BASE, COUNTRY_MAX) is Some {
        let i = index_in(widget, COUNTRY_RADIO_BASE, COUNTRY_MAX)->0 as int;
        if i < n {
            pick(
                app,
                state,
                app.multihop() && is_country(taken_by, tree[i].code),
                RequestView::SelectCountry { node: mode, country: tree[i].code },
            )
        } else {
            nothing
        }
    } else if index_in(widget, COUNTRY_CHEVRON_BASE, COUNTRY_MAX) is Some {
        let i = index_in(widget, COUNTRY_CHEVRON_BASE, COUNTRY_MAX)->0 as int;
        if i < n {
            Activation {
                state: if force {
                    state
                } else {
                    toggle_country(state, tree[i].code)
                },
                focused: id_in(i, COUNTRY_RADIO_BASE, COUNTRY_MAX),
                ..nothing
            }
        } else {
            nothing
        }
    } else if index_in(widget, CITY_RADIO_BASE, CITY_MAX) is Some {
        let i = index_in(widget, CITY_RADIO_BASE, CITY_MAX)->0 as int;
        if i < cities.len() {
            pick(
                app,
                state,
                app.multihop() && is_city(
                    taken_by,
                    cities[i].country.code,
                    cities[i].city.code,
                ),
                RequestView::SelectCity {
                    node: mode,
                    country: cities[i].country.code,
                    city: cities[i].city.code,
                },
            )
        } else {
            nothing
        }
    } else if index_in(widget, CITY_CHEVRON_BASE, CITY_MAX) is Some {
        let i = index_in(widget, CITY_CHEVRON_BASE, CITY_MAX)->0 as int;
        if i < cities.len() {
            Activation {
                state: if cities[i].city.force_expand_under_filter {
                    state
                } else {
                    toggle_city(state, cities[i].country.code, cities[i].city.code)
                },
                focused: id_in(i, CITY_RADIO_BASE, CITY_MAX),
                ..nothing
            }
        } else {
            nothing
        }
    } else if index_in(widget, RELAY_RADIO_BASE, RELAY_MAX) is Some {
        let i = index_in(widget, RELAY_RADIO_BASE, RELAY_MAX)->0 as int;
        if i < relays.len() {
            pick(
                app,
                state,
                app.multihop() && is_relay(taken_by, relays[i].hostname),
                RequestView::SelectRelay { node: mode, hostname: relays[i].hostname },
            )
        } else {
            nothing
        }
    } else {
        nothing
    }
}

/// What activating `widget` leaves behind of the page. The search anchor and
/// the `[Filter]` button leave the page as it is.
pub open spec fn activation(app: App, widget: WidgetId) -> Activation {
    if widget == WidgetId(widgets::SEARCH_ANCHOR) || widget == WidgetId(widgets::FILTER_BUTTON) {
        Activation {
            state: app.select_location_state@,
            focused: app.focused,
            request: None,
            refused: false,
        }
    } else if widget == WidgetId(widgets::ENTRY_TAB) {
        tab_activation(app, widget, NodeKind::Entry)
    } else if widget == WidgetId(widgets::EXIT_TAB) {
        tab_activation(app, widget, NodeKind::Exit)
    } else {
        row_activation(app, widget)
    }
}

/// The page that activating a widget opens, if any.
pub open spec fn opened_page(widget: WidgetId) -> Option<PageId> {
    if widget == WidgetId(widgets::FILTER_BUTTON) {
        Some(PageId::SelectLocationFilter)
    } else {
        None
    }
}

/// Run the action bound to a widget of the page. What only the daemon can do
/// comes back as a request; [`complete`] takes in how it ended.
pub fn activate(app: &mut App, widget: WidgetId) -> (r: Option<Request>)
    ensures
        match opened_page(widget) {
            Some(page) => final(app).page == page && leads_back(*old(app), *final(app)),
            None => final(app).page == old(app).page && final(app).returns == old(app).returns,
        },
        ({
            let a = activation(*old(app), widget);
            &&& request_view(r) == a.request
            &&& final(app).select_location_state@ == a.state
            &&& final(app).focused == a.focused
            &&& a.refused ==> notification_view(final(app).notification) == Some(
                NotificationView::Message(same_location_message()),
            )
            &&& !a.refused ==> final(app).notification == old(app).notification
            &&& widget == WidgetId(widgets::FILTER_BUTTON) ==> final(app).page
                == PageId::SelectLocationFilter && leads_back(*old(app), *final(app))
            &&& widget != WidgetId(widgets::FILTER_BUTTON) ==> final(app).page == old(app).page
                && final(app).returns == old(app).returns
            &&& *final(app) == (App {
                select_location_state: final(app).select_location_state,
                focused: final(app).focused,
                notification: final(app).notification,
                page: final(app).page,
                returns: final(app).returns,
                ..*old(app)
            })
        }),
{
    if widget == WidgetId(widgets::SEARCH_ANCHOR) {
        return None;
    }
    if widget == WidgetId(widgets::FILTER_BUTTON) {
        app.enter_sub_page(PageId::SelectLocationFilter);
        return None;
    }
    if widget == WidgetId(widgets::ENTRY_TAB) || widget == WidgetId(widgets::EXIT_TAB) {
        let mode = if widget == WidgetId(widgets::ENTRY_TAB) {
            NodeKind::Entry
        } else {
            NodeKind::Exit
        };
        app.select_location_state.set_node_mode(mode);
        let hidden_entry = mode == NodeKind::Entry && app.daita_overrides_entry();
        if hidden_entry || !focus_current_selection(app, mode) {
            app.focused = Some(widget);
        }
        return None;
    }
    activate_row(app, widget)
}

fn activate_row(app: &mut App, widget: WidgetId) -> (r: Option<Request>)
    requires
        widget != WidgetId(widgets::SEARCH_ANCHOR),
        widget != WidgetId(widgets::FILTER_BUTTON),
        widget != WidgetId(widgets::ENTRY_TAB),
        widget != WidgetId(widgets::EXIT_TAB),
    ensures
        ({
            let a = row_activation(*old(app), widget);
            &&& request_view(r) == a.request
            &&& final(app).select_location_state@ == a.state
            &&& final(app).focused == a.focused
            &&& a.refused ==> notification_view(final(app).notification) == Some(
                NotificationView::Message(same_location_message()),
            )
            &&& !a.refused ==> final(app).notification == old(app).notification
            &&& *final(app) == (App {
                select_location_state: final(app).select_location_state,
                focused: final(app).focused,
                notification: final(app).notification,
                ..*old(app)
            })
        }),
{
    let mode = sync_effective_mode(app);
    let ghost state = app.select_location_state@;
    let ghost t = tree_in(*old(app), state);
    let ghost n = t.len() as int;
    let multihop = app.is_multihop_enabled();
    let force_expand = filter_active(app);
    if let Some(idx) = country_radio_index(widget) {
        let tree = project_filtered_tree(app);
        assert(tree_view(tree@) == t);
        if idx >= tree.len() {
            return None;
        }
        assert(t[idx as int] == tree@[idx as int]@);
        let country = owned(tree[idx].code);
        if multihop && selects_country(&other_node_selection(app, mode), country.as_str()) {
            app.show_notification("Can't use the same location for entry and exit");
            return None;
        }
        return Some(Request::SelectCountry { node: mode, country });
    }
    if let Some(idx) = country_chevron_index(widget) {
        let tree = project_filtered_tree(app);
        assert(tree_view(tree@) == t);
        if idx >= tree.len() {
            return None;
        }
        assert(t[idx as int] == tree@[idx as int]@);
        let code = owned(tree[idx].code);
        if !force_expand {
            if app.select_location_state.is_country_expanded(code.as_str()) {
                app.select_location_state.collapse_country(code.as_str());
            } else {
                app.select_location_state.expand_country(code.as_str());
            }
        }
        app.focused = row_id_or_none(idx, COUNTRY_MAX, COUNTRY_RADIO_BASE);
        return None;
    }
    if let Some(idx) = city_radio_index(widget) {
        let tree = project_filtered_tree(app);
        assert(tree_view(tree@) == t);
        let cities = flatten_cities(&tree, app.select_location_state.tree(), force_expand);
        if idx >= cities.len() {
            return None;
        }
        let ghost place = shown_cities(t, n, state.tree(), force_expand)[idx as int];
        assert(is_place(cities@[idx as int], place));
        let country = owned(cities[idx].country_code);
        let city = owned(cities[idx].city_code);
        let taken = selects_city(
            &other_node_selection(app, mode),
            country.as_str(),
            city.as_str(),
        );
        if multihop && taken {
            app.show_notification("Can't use the same location for entry and exit");
            return None;
        }
        return Some(Request::SelectCity { node: mode, country, city });
    }
    if let Some(idx) = city_chevron_index(widget) {
        let tree = project_filtered_tree(app);
        assert(tree_view(tree@) == t);
        let cities = flatten_cities(&tree, app.select_location_state.tree(), force_expand);
        if idx >= cities.len() {
            return None;
        }
        let ghost place = shown_cities(t, n, state.tree(), force_expand)[idx as int];
        assert(is_place(cities@[idx as int], place));
        let country = owned(cities[idx].country_code);
        let city = owned(cities[idx].city_code);
        let forced = cities[idx].force_expand;
        if !forced {
            if app.select_location_state.is_city_expanded(country.as_str(), city.as_str()) {
                app.select_location_state.collapse_city(country.as_str(), city.as_str());
            } else {
                app.select_location_state.expand_city(country.as_str(), city.as_str());
            }
        }
        app.focused = row_id_or_none(idx, CITY_MAX, CITY_RADIO_BASE);
        return None;
    }
    if let Some(idx) = relay_radio_index(widget) {
        let tree = project_filtered_tree(app);
        assert(tree_view(tree@) == t);
        let relays = flatten_relays(&tree, app.select_location_state.tree(), force_expand);
        if idx >= relays.len() {
            return None;
        }
        let ghost relay = shown_relays(t, n, state.tree(), force_expand)[idx as int];
        assert(relays@[idx as int]@ == relay.hostname);
        let hostname = owned(relays[idx]);
        if multihop && selects_relay(&other_node_selection(app, mode), hostname.as_str()) {
            app.show_notification("Can't use the same location for entry and exit");
            return None;
        }
        return Some(Request::SelectRelay { node: mode, hostname });
    }
    None
}

/// The end that a request picks a location for. Only this page's requests pick
/// one.
pub open spec fn picked_end(request: RequestView) -> Option<NodeKind> {
    match request {
        RequestView::SelectCountry { node, .. } => Some(node),
        RequestView::SelectCity { node, .. } => Some(node),
        RequestView::SelectRelay { node, .. } => Some(node),
        _ => None,
    }
}

/// What a request of this page is called when it fails.
pub open spec fn pick_name(request: RequestView) -> Seq<char> {
    match request {
        RequestView::SelectCountry { .. } => "select country"@,
        RequestView::SelectCity { .. } => "select city"@,
        _ => "select relay"@,
    }
}

/// What the end of a request of this page leaves behind.
#[verifier::ext_equal]
pub struct PickEnd {
    pub state: PageStateView,
    pub focused: Option<WidgetId>,
    pub notice: Option<NotificationView>,
    /// The page is left, for where it was entered from.
    pub leaves: bool,
}

/// What the end of a request of this page leaves behind.
pub open spec fn completed(app: App, request: RequestView, answer: Answer) -> PickEnd {
    let nothing = PickEnd {
        state: app.select_location_state@,
        focused: app.focused,
        notice: None,
        leaves: false,
    };
    match (picked_end(request), answer) {
        (None, _) => nothing,
        (Some(_), Err(error)) => PickEnd {
            notice: Some(
                NotificationView::ActionFailed { action: pick_name(request), error: error@ },
            ),
            ..nothing
        },
        (Some(NodeKind::Exit), Ok(_)) => PickEnd { leaves: true, ..nothing },
        (Some(NodeKind::Entry), Ok(_)) => {
            let state = app.select_location_state@.with_mode(NodeKind::Exit);
            let outcome = focus_outcome(app, state, NodeKind::Exit);
            PickEnd {
                state: outcome.state,
                focused: if outcome.found {
                    outcome.focused
                } else {
                    Some(WidgetId(widgets::EXIT_TAB))
                },
                ..nothing
            }
        },
    }
}

/// Take in how a request of this page ended. A refused request is reported. A
/// location picked for the exit closes the page; one picked for the entry turns
/// to the exit, with its selection focused, or the Exit tab where there is no
/// row to focus.
pub fn complete(app: &mut App, request: &Request, answer: Answer)
    ensures
        ({
            let end = completed(*old(app), request@, answer);
            if end.leaves {
                left(*old(app), *final(app))
            } else {
                &&& final(app).select_location_state@ == end.state
                &&& final(app).focused == end.focused
                &&& end.notice is Some ==> notification_view(final(app).notification) == end.notice
                &&& end.notice is None ==> final(app).notification == old(app).notification
                &&& *final(app) == (App {
                    select_location_state: final(app).select_location_state,
                    focused: final(app).focused,
                    notification: final(app).notification,
                    ..*old(app)
                })
            }
        }),
        picked_end(request@) is None ==> *final(app) == *old(app),
        picked_end(request@) is Some ==> match answer {
            Err(error) => {
                &&& notification_view(final(app).notification) == Some(
                    NotificationView::ActionFailed {
                        action: pick_name(request@),
                        error: error@,
                    },
                )
                &&& *final(app) == (App { notification: final(app).notification, ..*old(app) })
            },
            Ok(_) => match picked_end(request@)->0 {
                NodeKind::Exit => left(*old(app), *final(app)),
                NodeKind::Entry => {
                    let state = old(app).select_location_state@.with_mode(NodeKind::Exit);
                    let outcome = focus_outcome(*old(app), state, NodeKind::Exit);
                    &&& final(app).select_location_state@ == outcome.state
                    &&& final(app).focused == if outcome.found {
                        outcome.focused
                    } else {
                        Some(WidgetId(widgets::EXIT_TAB))
                    }
                    &&& *final(app) == (App {
                        select_location_state: final(app).select_location_state,
                        focused: final(app).focused,
                        ..*old(app)
                    })
                },
            },
        },
{
    let (node, action) = match request {
        Request::SelectCountry { node, .. } => (*node, "select country"),
        Request::SelectCity { node, .. } => (*node, "select city"),
        Request::SelectRelay { node, .. } => (*node, "select relay"),
        _ => {
            return;
        },
    };
    match answer {
        Ok(_) => after_select_success(app, node),
        Err(error) => app.show_failure(action, error),
    }
}

/// What follows a location picked for `mode`.
fn after_select_success(app: &mut App, mode: NodeKind)
    ensures
        match mode {
            NodeKind::Exit => left(*old(app), *final(app)),
            NodeKind::Entry => {
                let state = old(app).select_location_state@.with_mode(NodeKind::Exit);
                let outcome = focus_outcome(*old(app), state, NodeKind::Exit);
                &&& final(app).select_location_state@ == outcome.state
                &&& final(app).focused == if outcome.found {
                    outcome.focused
                } else {
                    Some(WidgetId(widgets::EXIT_TAB))
                }
                &&& *final(app) == (App {
                    select_location_state: final(app).select_location_state,
                    focused: final(app).focused,
                    ..*old(app)
                })
            },
        },
{
    match mode {
        NodeKind::Exit => app.leave_sub_page(),
        NodeKind::Entry => {
            app.select_location_state.set_node_mode(NodeKind::Exit);
            if !focus_current_selection(app, NodeKind::Exit) {
                app.focused = Some(WidgetId(widgets::EXIT_TAB));
            }
        },
    }
}

// ---- Arrow keys ----

/// What an arrow key does to a row of the tree.
#[derive(Debug)]
pub enum TreeArrowAction {
    ExpandCountry(String),
    CollapseCountry(String),
    ExpandCity(String, String),
    CollapseCity(String, String),
    SetFocus(WidgetId),
    /// The key is used up and changes nothing.
    Noop,
    /// The key is left to the general navigation.
    PassThrough,
}

/// What an arrow key does to a row of the tree, over texts.
#[verifier::ext_equal]
pub enum ArrowActionView {
    ExpandCountry(Seq<char>),
    CollapseCountry(Seq<char>),
    ExpandCity(Seq<char>, Seq<char>),
    CollapseCity(Seq<char>, Seq<char>),
    SetFocus(WidgetId),
    Noop,
    PassThrough,
}

impl View for TreeArrowAction {
    type V = ArrowActionView;

    open spec fn view(&self) -> ArrowActionView {
        match self {
            TreeArrowAction::ExpandCountry(c) => ArrowActionView::ExpandCountry(c@),
            TreeArrowAction::CollapseCountry(c) => ArrowActionView::CollapseCountry(c@),
            TreeArrowAction::ExpandCity(c, t) => ArrowActionView::ExpandCity(c@, t@),
            TreeArrowAction::CollapseCity(c, t) => ArrowActionView::CollapseCity(c@, t@),
            TreeArrowAction::SetFocus(w) => ArrowActionView::SetFocus(*w),
            TreeArrowAction::Noop => ArrowActionView::Noop,
            TreeArrowAction::PassThrough => ArrowActionView::PassThrough,
        }
    }
}

/// Focus row `index`, if there is one and it has a widget.
pub open spec fn focus_row(rows: Seq<RowView>, index: Option<int>) -> ArrowActionView {
    match index {
        Some(i) => match radio_of(rows[i]) {
            Some(id) => ArrowActionView::SetFocus(id),
            None => ArrowActionView::Noop,
        },
        None => ArrowActionView::Noop,
    }
}

/// The code of the country above row `i`.
pub open spec fn country_above(rows: Seq<RowView>, i: int) -> Option<Seq<char>> {
    match parent_of(rows, i) {
        Some(p) => match rows[p].kind {
            RowKindView::Country { code, .. } => Some(code),
            _ => None,
        },
        None => None,
    }
}

/// What the key does on row `i`. A closed country or city opens on Right, and
/// an open one gives the focus to its first child; an open one closes on Left,
/// and a closed one gives the focus to its parent. A relay leaves Right to the
/// general navigation. What a query (`force`) holds open does not close.
pub open spec fn arrow_on_row(
    rows: Seq<RowView>,
    i: int,
    right: bool,
    force: bool,
) -> ArrowActionView {
    match rows[i].kind {
        RowKindView::Country { code, expanded, .. } => if right {
            if expanded {
                focus_row(rows, first_child_of(rows, i))
            } else {
                ArrowActionView::ExpandCountry(code)
            }
        } else if expanded && !force {
            ArrowActionView::CollapseCountry(code)
        } else {
            ArrowActionView::Noop
        },
        RowKindView::City { code, expanded, force_expand_under_filter, .. } => if right {
            if expanded {
                focus_row(rows, first_child_of(rows, i))
            } else {
                match country_above(rows, i) {
                    Some(country) => ArrowActionView::ExpandCity(country, code),
                    None => ArrowActionView::Noop,
                }
            }
        } else if expanded && !force_expand_under_filter {
            match country_above(rows, i) {
                Some(country) => ArrowActionView::CollapseCity(country, code),
                None => ArrowActionView::Noop,
            }
        } else {
            focus_row(rows, parent_of(rows, i))
        },
        RowKindView::Relay { .. } => if right {
            ArrowActionView::PassThrough
        } else {
            focus_row(rows, parent_of(rows, i))
        },
    }
}

/// The row whose radio `widget` is. A chevron is for the mouse, and leads to no
/// row here.
pub open spec fn radio_row(rows: Seq<RowView>, widget: WidgetId) -> Option<int> {
    match row_of(rows, widget) {
        Some(i) => if radio_of(rows[i]) == Some(widget) {
            Some(i)
        } else {
            None
        },
        None => None,
    }
}

/// What the key does while `focused` has the focus. Up and Down, and every key
/// on a widget that is no row's radio, are left to the general navigation.
pub open spec fn arrow_action(
    rows: Seq<RowView>,
    focused: WidgetId,
    dir: ArrowDir,
    force: bool,
) -> ArrowActionView {
    if dir == ArrowDir::Left || dir == ArrowDir::Right {
        match radio_row(rows, focused) {
            Some(i) => arrow_on_row(rows, i, dir == ArrowDir::Right, force),
            None => ArrowActionView::PassThrough,
        }
    } else {
        ArrowActionView::PassThrough
    }
}

/// Whether the tree used up an arrow key.
pub open spec fn is_used_up(action: ArrowActionView) -> bool {
    !(action is PassThrough)
}

/// The focus after an arrow key.
pub open spec fn focus_after(focused: Option<WidgetId>, action: ArrowActionView) -> Option<WidgetId> {
    match action {
        ArrowActionView::SetFocus(id) => Some(id),
        _ => focused,
    }
}

/// The page's state after `action`.
pub open spec fn after_arrow(state: PageStateView, action: ArrowActionView) -> PageStateView {
    match action {
        ArrowActionView::ExpandCountry(c) => state.expand_country(c),
        ArrowActionView::CollapseCountry(c) => state.collapse_country(c),
        ArrowActionView::ExpandCity(c, t) => state.expand_city(c, t),
        ArrowActionView::CollapseCity(c, t) => state.collapse_city(c, t),
        _ => state,
    }
}

/// The rows that the page shows.
pub open spec fn rows_in(app: App) -> Seq<RowView> {
    let state = app.select_location_state@;
    visible_rows(filtered_tree(app), state.tree(), filtering(state))
}

fn set_focus_to(rows: &Vec<TreeRow<'_>>, index: Option<usize>) -> (r: TreeArrowAction)
    requires
        index is Some ==> index->0 < rows@.len(),
    ensures
        r@ == focus_row(row_views(rows@), index_view(index)),
{
    match index {
        Some(i) => {
            assert(row_views(rows@)[i as int] == rows@[i as int]@);
            match widget_for_row(&rows[i]) {
                Some(id) => TreeArrowAction::SetFocus(id),
                None => TreeArrowAction::Noop,
            }
        },
        None => TreeArrowAction::Noop,
    }
}

fn find_country_above(rows: &Vec<TreeRow<'_>>, index: usize) -> (r: Option<String>)
    requires
        index < rows@.len(),
    ensures
        match r {
            Some(c) => country_above(row_views(rows@), index as int) == Some(c@),
            None => country_above(row_views(rows@), index as int) is None,
        },
{
    match parent_row_index(rows, index) {
        Some(p) => {
            assert(row_views(rows@)[p as int] == rows@[p as int]@);
            match rows[p].kind {
                TreeRowKind::Country { code, .. } => Some(owned(code)),
                _ => None,
            }
        },
        None => None,
    }
}

fn decide_tree_arrow(
    rows: &Vec<TreeRow<'_>>,
    focused: WidgetId,
    right: bool,
    force_expand: bool,
) -> (r: TreeArrowAction)
    ensures
        r@ == match radio_row(row_views(rows@), focused) {
            Some(i) => arrow_on_row(row_views(rows@), i, right, force_expand),
            None => ArrowActionView::PassThrough,
        },
{
    let i: usize = match row_index_for_widget(rows, focused) {
        Some(i) => i,
        None => {
            return TreeArrowAction::PassThrough;
        },
    };
    assert(row_views(rows@)[i as int] == rows@[i as int]@);
    match widget_for_row(&rows[i]) {
        Some(id) => if id != focused {
            return TreeArrowAction::PassThrough;
        },
        None => {
            return TreeArrowAction::PassThrough;
        },
    }
    match rows[i].kind {
        TreeRowKind::Country { code, expanded, .. } => if right {
            if expanded {
                set_focus_to(rows, first_child_row_index(rows, i))
            } else {
                TreeArrowAction::ExpandCountry(owned(code))
            }
        } else if expanded && !force_expand {
            TreeArrowAction::CollapseCountry(owned(code))
        } else {
            TreeArrowAction::Noop
        },
        TreeRowKind::City { code, expanded, force_expand_under_filter, .. } => if right {
            if expanded {
                set_focus_to(rows, first_child_row_index(rows, i))
            } else {
                match find_country_above(rows, i) {
                    Some(country) => TreeArrowAction::ExpandCity(country, owned(code)),
                    None => TreeArrowAction::Noop,
                }
            }
        } else if expanded && !force_expand_under_filter {
            match find_country_above(rows, i) {
                Some(country) => TreeArrowAction::CollapseCity(country, owned(code)),
                None => TreeArrowAction::Noop,
            }
        } else {
            set_focus_to(rows, parent_row_index(rows, i))
        },
        TreeRowKind::Relay { .. } => if right {
            TreeArrowAction::PassThrough
        } else {
            set_focus_to(rows, parent_row_index(rows, i))
        },
    }
}

/// Left and Right on a row of the tree. Returns whether the key was used up.
///
/// | Row                | Right             | Left          |
/// |--------------------|-------------------|---------------|
/// | country, closed    | open              | nothing       |
/// | country, open      | focus first city  | close         |
/// | city, closed       | open              | focus country |
/// | city, open         | focus first relay | close         |
/// | relay              | not used up       | focus city    |
///
/// The keys act on the radio of a row that is shown, and on no other widget.
/// While a query is in effect no country closes, and no city that the query
/// itself holds open.
pub fn handle_tree_arrow(app: &mut App, focused: WidgetId, dir: ArrowDir) -> (consumed: bool)
    ensures
        ({
            let state = old(app).select_location_state@;
            let action = arrow_action(rows_in(*old(app)), focused, dir, filtering(state));
            &&& consumed == is_used_up(action)
            &&& final(app).focused == focus_after(old(app).focused, action)
            &&& consumed == !(action is PassThrough)
            &&& final(app).select_location_state@ == after_arrow(state, action)
            &&& final(app).focused == match action {
                ArrowActionView::SetFocus(id) => Some(id),
                _ => old(app).focused,
            }
            &&& *final(app) == (App {
                select_location_state: final(app).select_location_state,
                focused: final(app).focused,
                ..*old(app)
            })
        }),
{
    let right = match dir {
        ArrowDir::Left => false,
        ArrowDir::Right => true,
        _ => {
            return false;
        },
    };
    let action: TreeArrowAction = {
        let tree = project_filtered_tree(app);
        let force_expand = filter_active(app);
        let rows = collect_visible_rows(&tree, app.select_location_state.tree(), force_expand);
        decide_tree_arrow(&rows, focused, right, force_expand)
    };
    match action {
        TreeArrowAction::ExpandCountry(country) => {
            app.select_location_state.expand_country(country.as_str());
            true
        },
        TreeArrowAction::CollapseCountry(country) => {
            app.select_location_state.collapse_country(country.as_str());
            true
        },
        TreeArrowAction::ExpandCity(country, city) => {
            app.select_location_state.expand_city(country.as_str(), city.as_str());
            true
        },
        TreeArrowAction::CollapseCity(country, city) => {
            app.select_location_state.collapse_city(country.as_str(), city.as_str());
            true
        },
        TreeArrowAction::SetFocus(id) => {
            app.focused = Some(id);
            true
        },
        TreeArrowAction::Noop => true,
        TreeArrowAction::PassThrough => false,
    }
}

} // verus!

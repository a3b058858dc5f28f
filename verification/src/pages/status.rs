//! The Status page: where the tunnel stands, on a globe and in words.
//!
//! What the page shows goes by the [`StatusKind`] of the tunnel's state.

use crate::app::select_location::NodeKind;
use crate::app::{
    confirm, leads_back, notification_view, request_view, Answer, App, ConfirmAction, ConfirmActionView,
    CurrentRelaySelection, NotificationView, OverlayMode, OverlayView, PageId, Request, RequestView,
    SelectionView, StatusState,
};
use crate::daemon::{
    Degrees, DeviceState, Endpoint, ErrorState, FeatureIndicators, GeoIpLocation,
    ObfuscationEndpoint, ObfuscationInfo, Timestamp, TunnelEndpoint, TunnelState,
};
use crate::focus::WidgetId;
use crate::pages::select_location::{
    enter_with_current_selection_focused, focus_outcome,
};
use crate::scene::{Color, Marker};
use crate::text::{cat, decimal, decimal_digits, owned};
use crate::time::{days_between, is_not_after, not_after, seconds_between, valid};
use vstd::prelude::*;

pub mod details;
pub mod features;
pub mod laws;
pub mod shown;
pub mod view;
pub mod widgets;

pub use self::details::{connection_details, obfuscation_lines};
pub use self::features::{collect_features, format_features_lines, format_indicators};
pub use self::view::render;

verus! {

// ---- Kinds of states ----

/// What the page makes of a tunnel state.
#[derive(Clone, Copy, Debug, PartialEq, Eq, Structural)]
pub enum StatusKind {
    Connected,
    Connecting,
    Disconnecting,
    Disconnected,
    Blocked,
}

impl StatusKind {
    /// Whether there are connection details to show or hide.
    pub fn shows_details_toggle(self) -> (r: bool)
        ensures
            r == has_details(self),
            r == (self == StatusKind::Connected),
    {
        match self {
            StatusKind::Connected => true,
            _ => false,
        }
    }
}

/// Whether there are connection details to show or hide.
pub open spec fn has_details(kind: StatusKind) -> bool {
    kind == StatusKind::Connected
}

/// An optional state behind a reference.
pub open spec fn state_of(state: Option<&TunnelState>) -> Option<TunnelState> {
    match state {
        Some(s) => Some(*s),
        None => None,
    }
}

/// The kind of a tunnel state. No state yet is a disconnected one.
pub open spec fn kind_of(state: Option<TunnelState>) -> StatusKind {
    match state {
        None => StatusKind::Disconnected,
        Some(s) => match s {
            TunnelState::Disconnected { .. } => StatusKind::Disconnected,
            TunnelState::Connecting { .. } => StatusKind::Connecting,
            TunnelState::Connected { .. } => StatusKind::Connected,
            TunnelState::Disconnecting(_) => StatusKind::Disconnecting,
            TunnelState::Error(_) => StatusKind::Blocked,
        },
    }
}

/// The kind of a tunnel state. No state yet is a disconnected one.
pub fn classify(state: Option<&TunnelState>) -> (r: StatusKind)
    ensures
        r == kind_of(state_of(state)),
{
    match state {
        None => StatusKind::Disconnected,
        Some(TunnelState::Disconnected { .. }) => StatusKind::Disconnected,
        Some(TunnelState::Connecting { .. }) => StatusKind::Connecting,
        Some(TunnelState::Connected { .. }) => StatusKind::Connected,
        Some(TunnelState::Disconnecting(_)) => StatusKind::Disconnecting,
        Some(TunnelState::Error(_)) => StatusKind::Blocked,
    }
}

/// The colour of the status.
pub open spec fn kind_color(kind: StatusKind) -> Color {
    match kind {
        StatusKind::Connected => Color::LightGreen,
        StatusKind::Connecting => Color::Yellow,
        StatusKind::Disconnecting => Color::Yellow,
        StatusKind::Disconnected => Color::LightRed,
        StatusKind::Blocked => Color::Indexed(202),
    }
}

/// The colour of the status.
pub fn status_color(kind: StatusKind) -> (r: Color)
    ensures
        r == kind_color(kind),
{
    match kind {
        StatusKind::Connected => Color::LightGreen,
        StatusKind::Connecting => Color::Yellow,
        StatusKind::Disconnecting => Color::Yellow,
        StatusKind::Disconnected => Color::LightRed,
        StatusKind::Blocked => Color::Indexed(202),
    }
}

/// The status in words.
pub open spec fn kind_text(kind: StatusKind) -> Seq<char> {
    match kind {
        StatusKind::Connected => "CONNECTED"@,
        StatusKind::Connecting => "CONNECTING…"@,
        StatusKind::Disconnecting => "DISCONNECTING…"@,
        StatusKind::Disconnected => "DISCONNECTED"@,
        StatusKind::Blocked => "BLOCKED"@,
    }
}

/// The status in words.
pub fn status_label_text(kind: StatusKind) -> (r: &'static str)
    ensures
        r@ == kind_text(kind),
{
    match kind {
        StatusKind::Connected => "CONNECTED",
        StatusKind::Connecting => "CONNECTING…",
        StatusKind::Disconnecting => "DISCONNECTING…",
        StatusKind::Disconnected => "DISCONNECTED",
        StatusKind::Blocked => "BLOCKED",
    }
}

/// Label of the last button.
pub open spec fn connect_text(kind: StatusKind) -> Seq<char> {
    match kind {
        StatusKind::Connected => "Disconnect"@,
        StatusKind::Blocked => "Disconnect"@,
        StatusKind::Connecting => "Cancel"@,
        StatusKind::Disconnecting => "Connect"@,
        StatusKind::Disconnected => "Connect"@,
    }
}

/// Label of the last button.
pub fn connect_button_label(kind: StatusKind) -> (r: &'static str)
    ensures
        r@ == connect_text(kind),
{
    match kind {
        StatusKind::Connected => "Disconnect",
        StatusKind::Blocked => "Disconnect",
        StatusKind::Connecting => "Cancel",
        StatusKind::Disconnecting => "Connect",
        StatusKind::Disconnected => "Connect",
    }
}

/// Whether the last button takes the tunnel down. A connection that is coming up
/// is cancelled, and a blocked one released, in the same way.
pub open spec fn is_disconnect(kind: StatusKind) -> bool {
    kind == StatusKind::Connected || kind == StatusKind::Connecting || kind == StatusKind::Blocked
}

/// Whether the last button takes the tunnel down.
pub fn connect_button_is_disconnect(connection: Option<&TunnelState>) -> (r: bool)
    ensures
        r == is_disconnect(kind_of(state_of(connection))),
{
    match classify(connection) {
        StatusKind::Connected => true,
        StatusKind::Connecting => true,
        StatusKind::Blocked => true,
        _ => false,
    }
}

/// The last button does what it says: it reads `Connect` exactly where it does
/// not take the tunnel down.
pub proof fn the_button_does_what_it_says(state: Option<TunnelState>)
    ensures
        connect_text(kind_of(state)) == "Connect"@ <==> !is_disconnect(kind_of(state)),
{
    reveal_strlit("Connect");
    reveal_strlit("Disconnect");
    reveal_strlit("Cancel");
    assert("Disconnect"@.len() != "Connect"@.len());
    assert("Cancel"@.len() != "Connect"@.len());
}

// ---- Widgets ----

/// A widget of the page.
#[derive(Clone, Copy, Debug, PartialEq, Eq, Structural)]
pub enum StatusWidget {
    DetailsToggle,
    SwitchLocation,
    RefreshConnection,
    ConnectDisconnect,
}

impl StatusWidget {
    /// The id of the widget.
    pub open spec fn id(self) -> u32 {
        match self {
            StatusWidget::DetailsToggle => widgets::DETAILS_TOGGLE,
            StatusWidget::SwitchLocation => widgets::SWITCH_LOCATION,
            StatusWidget::RefreshConnection => widgets::REFRESH_CONNECTION,
            StatusWidget::ConnectDisconnect => widgets::CONNECT_DISCONNECT,
        }
    }

    /// The widget with the id `widget`, if it is one of these.
    pub fn from_widget_id(widget: WidgetId) -> (r: Option<StatusWidget>)
        ensures
            r == widget_of(widget),
    {
        if widget.0 == widgets::DETAILS_TOGGLE {
            Some(StatusWidget::DetailsToggle)
        } else if widget.0 == widgets::SWITCH_LOCATION {
            Some(StatusWidget::SwitchLocation)
        } else if widget.0 == widgets::REFRESH_CONNECTION {
            Some(StatusWidget::RefreshConnection)
        } else if widget.0 == widgets::CONNECT_DISCONNECT {
            Some(StatusWidget::ConnectDisconnect)
        } else {
            None
        }
    }
}

/// The widget with the id `widget`, if it is one of the page's.
pub open spec fn widget_of(widget: WidgetId) -> Option<StatusWidget> {
    if widget.0 == widgets::DETAILS_TOGGLE {
        Some(StatusWidget::DetailsToggle)
    } else if widget.0 == widgets::SWITCH_LOCATION {
        Some(StatusWidget::SwitchLocation)
    } else if widget.0 == widgets::REFRESH_CONNECTION {
        Some(StatusWidget::RefreshConnection)
    } else if widget.0 == widgets::CONNECT_DISCONNECT {
        Some(StatusWidget::ConnectDisconnect)
    } else {
        None
    }
}

/// Whether `widget` is one of the page's widgets.
pub open spec fn is_own(widget: WidgetId) -> bool {
    widget_of(widget) is Some
}

/// Whether `widget` is one of the page's widgets.
pub fn owns_widget(widget: WidgetId) -> (r: bool)
    ensures
        r == is_own(widget),
{
    StatusWidget::from_widget_id(widget).is_some()
}

/// Ids and widgets go together one to one.
pub proof fn ids_and_widgets_go_together(widget: StatusWidget, id: WidgetId)
    ensures
        widget_of(id) == Some(widget) <==> id == WidgetId(widget.id()),
{
}

// ---- Activation ----

/// What activating a widget asks of the daemon while the tunnel is in `state`.
pub open spec fn asked(state: Option<TunnelState>, widget: WidgetId) -> Option<RequestView> {
    match widget_of(widget) {
        Some(StatusWidget::RefreshConnection) => Some(RequestView::Reconnect),
        Some(StatusWidget::ConnectDisconnect) => if is_disconnect(kind_of(state)) {
            None
        } else {
            Some(RequestView::Connect)
        },
        _ => None,
    }
}

/// Whether the details are shown once a widget was activated.
pub open spec fn details_after(app: App, widget: WidgetId) -> bool {
    if widget_of(widget) == Some(StatusWidget::DetailsToggle) {
        !app.status_state.connection_details_expanded
    } else {
        app.status_state.connection_details_expanded
    }
}

/// The page that is shown once a widget was activated.
pub open spec fn page_after(app: App, widget: WidgetId) -> PageId {
    if widget_of(widget) == Some(StatusWidget::SwitchLocation) {
        PageId::SelectLocation
    } else {
        app.page
    }
}

/// What the user is asked before the tunnel is taken down.
pub open spec fn disconnect_question(app: App) -> OverlayView {
    OverlayView::Confirm {
        title: "Confirm disconnect"@,
        message: "Disconnect the current tunnel session?"@,
        action: ConfirmActionView::Disconnect,
        return_focus: app.focused,
    }
}

/// Whether activating a widget asks the user first.
pub open spec fn questions(state: Option<TunnelState>, widget: WidgetId) -> bool {
    widget_of(widget) == Some(StatusWidget::ConnectDisconnect) && is_disconnect(kind_of(state))
}

/// Run the action bound to a widget of the page. What only the daemon can do
/// comes back as a request; [`complete`] takes in how it ended.
pub fn activate(app: &mut App, overlay: &mut OverlayMode, widget: WidgetId) -> (r: Option<Request>)
    ensures
        request_view(r) == asked(old(app).connection, widget),
        if questions(old(app).connection, widget) {
            final(overlay)@ == disconnect_question(*old(app))
        } else {
            *final(overlay) == *old(overlay)
        },
        final(app).status_state.connection_details_expanded == details_after(*old(app), widget),
        final(app).page == page_after(*old(app), widget),
        match widget_of(widget) {
            Some(StatusWidget::DetailsToggle) => {
                &&& r is None
                &&& *final(app) == (App {
                    status_state: StatusState {
                        connection_details_expanded:
                            !old(app).status_state.connection_details_expanded,
                    },
                    ..*old(app)
                })
                &&& *final(overlay) == *old(overlay)
            },
            Some(StatusWidget::SwitchLocation) => {
                let state = old(app).select_location_state@.with_mode(NodeKind::Exit);
                let outcome = focus_outcome(*old(app), state, NodeKind::Exit);
                &&& r is None
                &&& final(app).select_location_state@ == outcome.state
                &&& leads_back(*old(app), *final(app))
                &&& *final(app) == (App {
                    select_location_state: final(app).select_location_state,
                    focused: outcome.focused,
                    page: PageId::SelectLocation,
                    returns: final(app).returns,
                    ..*old(app)
                })
                &&& *final(overlay) == *old(overlay)
            },
            Some(StatusWidget::RefreshConnection) => {
                &&& request_view(r) == Some(RequestView::Reconnect)
                &&& *final(app) == *old(app)
                &&& *final(overlay) == *old(overlay)
            },
            Some(StatusWidget::ConnectDisconnect) => {
                &&& *final(app) == *old(app)
                &&& if is_disconnect(kind_of(old(app).connection)) {
                    &&& r is None
                    &&& final(overlay)@ == OverlayView::Confirm {
                        title: "Confirm disconnect"@,
                        message: "Disconnect the current tunnel session?"@,
                        action: ConfirmActionView::Disconnect,
                        return_focus: old(app).focused,
                    }
                } else {
                    &&& request_view(r) == Some(RequestView::Connect)
                    &&& *final(overlay) == *old(overlay)
                }
            },
            None => r is None && *final(app) == *old(app) && *final(overlay) == *old(overlay),
        },
{
    match StatusWidget::from_widget_id(widget) {
        Some(StatusWidget::DetailsToggle) => {
            let expanded = app.status_state.connection_details_expanded;
            app.status_state = StatusState { connection_details_expanded: !expanded };
            None
        },
        Some(StatusWidget::SwitchLocation) => {
            enter_with_current_selection_focused(app);
            None
        },
        Some(StatusWidget::RefreshConnection) => Some(Request::Reconnect),
        Some(StatusWidget::ConnectDisconnect) => {
            let connection = match &app.connection {
                Some(c) => Some(c),
                None => None,
            };
            if connect_button_is_disconnect(connection) {
                *overlay = confirm(
                    "Confirm disconnect",
                    "Disconnect the current tunnel session?",
                    ConfirmAction::Disconnect,
                    app.focused,
                );
                None
            } else {
                Some(Request::Connect)
            }
        },
        None => None,
    }
}

/// What the user is told when a request of the page ended, if anything.
pub open spec fn answer_notice(request: RequestView, answer: Answer) -> Option<NotificationView> {
    match request {
        RequestView::Reconnect => match answer {
            Ok(true) => None,
            Ok(false) => Some(
                NotificationView::Message("Reconnect not initiated - already disconnected"@),
            ),
            Err(error) => Some(
                NotificationView::ActionFailed { action: "reconnect"@, error: error@ },
            ),
        },
        RequestView::Connect => match answer {
            Ok(true) => None,
            Ok(false) => Some(NotificationView::Message("Already connected - no action taken"@)),
            Err(error) => Some(
                NotificationView::ActionFailed { action: "connect"@, error: error@ },
            ),
        },
        _ => None,
    }
}

/// Take in how a request of the page ended. The user is told where nothing was
/// started, and where the daemon refused.
pub fn complete(app: &mut App, request: &Request, answer: Answer)
    ensures
        match answer_notice(request@, answer) {
            Some(notice) => {
                &&& notification_view(final(app).notification) == Some(notice)
                &&& *final(app) == (App { notification: final(app).notification, ..*old(app) })
            },
            None => *final(app) == *old(app),
        },
{
    match request {
        Request::Reconnect => match answer {
            Ok(started) => if !started {
                app.show_notification("Reconnect not initiated - already disconnected");
            },
            Err(error) => app.show_failure("reconnect", error),
        },
        Request::Connect => match answer {
            Ok(started) => if !started {
                app.show_notification("Already connected - no action taken");
            },
            Err(error) => app.show_failure("connect", error),
        },
        _ => {},
    }
}

// ---- Lines of text ----

/// The line that names the device.
pub open spec fn device_text(app: App) -> Seq<char> {
    match app.device() {
        Some(d) => "Device name: "@ + d.pretty_name@,
        None => "Device name: not logged in"@,
    }
}

/// The line that names the device.
pub fn account_device_line(app: &App) -> (r: String)
    ensures
        r@ == device_text(*app),
{
    match app.current_device() {
        Some(d) => cat("Device name: ", d.pretty_name.as_str()),
        None => owned("Device name: not logged in"),
    }
}

/// When the account runs out, where that is known.
pub open spec fn expiry_of(app: App) -> Option<Timestamp> {
    match app.account {
        Some(info) => match info.data {
            Some(data) => Some(data.expiry),
            None => None,
        },
        None => None,
    }
}

/// The line that says how long the account lasts, at the moment `now`.
pub open spec fn time_left_text(app: App, now: Timestamp) -> Seq<char> {
    match expiry_of(app) {
        None => "Time left: unknown"@,
        Some(expiry) => if not_after(expiry, now) {
            "Time left: expired"@
        } else {
            "Time left: "@ + decimal_digits((seconds_between(expiry, now) / 86_400) as nat)
                + " days"@
        },
    }
}

/// The line that says how long the account lasts, at the moment `now`.
pub fn time_left_line(app: &App, now: Timestamp) -> (r: String)
    requires
        valid(now),
        expiry_of(*app) is Some ==> valid(expiry_of(*app)->0),
    ensures
        r@ == time_left_text(*app, now),
{
    let expiry: Timestamp = match &app.account {
        Some(info) => match info.data {
            Some(data) => data.expiry,
            None => {
                return owned("Time left: unknown");
            },
        },
        None => {
            return owned("Time left: unknown");
        },
    };
    if is_not_after(expiry, now) {
        return owned("Time left: expired");
    }
    let days: i64 = days_between(expiry, now);
    let mut text = cat("Time left: ", decimal(days as u64).as_str());
    text.append(" days");
    text
}

/// An error state in one line: its cause, and whether traffic is blocked.
pub open spec fn error_text(err: ErrorState) -> Seq<char> {
    err.cause@ + if err.blocking {
        " (traffic blocked)"@
    } else {
        " (NOT BLOCKING)"@
    }
}

/// An error state in one line: its cause, and whether traffic is blocked.
pub fn error_state_summary(err: &ErrorState) -> (r: String)
    ensures
        r@ == error_text(*err),
{
    cat(
        err.cause.as_str(),
        if err.blocking {
            " (traffic blocked)"
        } else {
            " (NOT BLOCKING)"
        },
    )
}

/// The location of a state that may be missing.
pub open spec fn location_in(state: Option<TunnelState>) -> Option<GeoIpLocation> {
    match state {
        Some(s) => s.location(),
        None => None,
    }
}

/// The location of a state that may be missing.
pub fn find_location<'a>(state: Option<&'a TunnelState>) -> (r: Option<&'a GeoIpLocation>)
    ensures
        match r {
            Some(l) => location_in(state_of(state)) == Some(*l),
            None => location_in(state_of(state)) is None,
        },
{
    match state {
        Some(s) => s.get_location(),
        None => None,
    }
}

/// The line that names the place.
pub open spec fn place_text(state: Option<TunnelState>) -> Seq<char> {
    match location_in(state) {
        Some(loc) => match loc.city {
            Some(city) => city@ + ", "@ + loc.country@,
            None => loc.country@,
        },
        None => "(location unknown)"@,
    }
}

/// The line that names the place.
pub fn location_line(state: Option<&TunnelState>) -> (r: String)
    ensures
        r@ == place_text(state_of(state)),
{
    match find_location(state) {
        Some(loc) => match &loc.city {
            Some(city) => {
                let mut text = cat(city.as_str(), ", ");
                text.append(loc.country.as_str());
                text
            },
            None => loc.country.clone(),
        },
        None => owned("(location unknown)"),
    }
}

/// What the exit is set to, in words.
pub open spec fn selection_text(selection: SelectionView) -> Seq<char> {
    match selection {
        SelectionView::Hostname(name) => name,
        SelectionView::City { country, city } => "any in "@ + city + ", "@ + country,
        SelectionView::Country(code) => "any in "@ + code,
        SelectionView::Any => "any (daemon picks)"@,
        SelectionView::Unknown => "unknown"@,
        SelectionView::CustomList => "custom list"@,
        SelectionView::CustomTunnel => "custom tunnel"@,
    }
}

/// What the exit is set to, in words.
pub fn relay_selection_label(app: &App) -> (r: String)
    ensures
        r@ == selection_text(app.selection(NodeKind::Exit)),
{
    match app.current_relay_selection() {
        CurrentRelaySelection::Hostname(name) => owned(name),
        CurrentRelaySelection::City { country, city } => {
            let mut text = cat("any in ", city);
            text.append(", ");
            text.append(country);
            text
        },
        CurrentRelaySelection::Country(code) => cat("any in ", code),
        CurrentRelaySelection::Any => owned("any (daemon picks)"),
        CurrentRelaySelection::Unknown => owned("unknown"),
        CurrentRelaySelection::CustomList => owned("custom list"),
        CurrentRelaySelection::CustomTunnel => owned("custom tunnel"),
    }
}

/// The relay line: the exit that the daemon reports, or else the selection; and
/// the entry, where the daemon reports one.
pub open spec fn relay_text(
    exit: Option<Seq<char>>,
    entry: Option<Seq<char>>,
    fallback: Seq<char>,
) -> Seq<char> {
    let shown = match exit {
        Some(e) => e,
        None => fallback,
    };
    match entry {
        Some(e) => shown + " via "@ + e,
        None => shown,
    }
}

/// An optional text behind a reference.
pub open spec fn opt_view(s: Option<&str>) -> Option<Seq<char>> {
    match s {
        Some(s) => Some(s@),
        None => None,
    }
}

/// The relay line, from what the daemon reports and the words for the selection.
pub fn format_relay_line(
    exit_hostname: Option<&str>,
    entry_hostname: Option<&str>,
    selection_fallback: String,
) -> (r: String)
    ensures
        r@ == relay_text(opt_view(exit_hostname), opt_view(entry_hostname), selection_fallback@),
{
    let mut text: String = match exit_hostname {
        Some(e) => owned(e),
        None => selection_fallback,
    };
    if let Some(entry) = entry_hostname {
        text.append(" via ");
        text.append(entry);
    }
    text
}

/// The relay line of a state.
pub open spec fn relay_line_text(app: App, state: Option<TunnelState>) -> Seq<char> {
    let (exit, entry) = match location_in(state) {
        Some(loc) => (
            crate::ansi::text_view(loc.hostname),
            crate::ansi::text_view(loc.entry_hostname),
        ),
        None => (None, None),
    };
    relay_text(exit, entry, selection_text(app.selection(NodeKind::Exit)))
}

fn borrowed(s: &Option<String>) -> (r: Option<&str>)
    ensures
        opt_view(r) == crate::ansi::text_view(*s),
{
    match s {
        Some(s) => Some(s.as_str()),
        None => None,
    }
}

/// The relay line of a state.
pub fn relay_line(app: &App, state: Option<&TunnelState>) -> (r: String)
    ensures
        r@ == relay_line_text(*app, state_of(state)),
{
    let fallback = relay_selection_label(app);
    match find_location(state) {
        Some(loc) => format_relay_line(
            borrowed(&loc.hostname),
            borrowed(&loc.entry_hostname),
            fallback,
        ),
        None => format_relay_line(None, None, fallback),
    }
}

// ---- The globe ----

/// Where the globe is marked, and how. While the tunnel is up, at its exit; while
/// it is down and nothing is blocked, at home, unless the location is still the
/// exit's; else nowhere.
pub open spec fn marker_of(state: Option<TunnelState>) -> Option<Marker> {
    match state {
        Some(TunnelState::Connected { location: Some(loc), .. }) => Some(
            Marker { color: Color::Green, latitude: loc.latitude, longitude: loc.longitude },
        ),
        Some(TunnelState::Disconnected { location: Some(loc), locked_down }) => {
            if !locked_down && !loc.mullvad_exit_ip {
                Some(
                    Marker {
                        color: Color::LightRed,
                        latitude: loc.latitude,
                        longitude: loc.longitude,
                    },
                )
            } else {
                None
            }
        },
        _ => None,
    }
}

/// Where the globe is marked, and how.
pub fn location_marker(state: Option<&TunnelState>) -> (r: Option<Marker>)
    ensures
        r == marker_of(state_of(state)),
{
    match state {
        Some(TunnelState::Connected { location: Some(loc), .. }) => Some(
            Marker { color: Color::Green, latitude: loc.latitude, longitude: loc.longitude },
        ),
        Some(TunnelState::Disconnected { location: Some(loc), locked_down }) => {
            if !*locked_down && !loc.mullvad_exit_ip {
                Some(
                    Marker {
                        color: Color::LightRed,
                        latitude: loc.latitude,
                        longitude: loc.longitude,
                    },
                )
            } else {
                None
            }
        },
        _ => None,
    }
}

/// Where the camera of the globe looks, and how closely.
#[derive(Clone, Copy, Debug, PartialEq, Eq, Structural)]
pub enum CameraTarget {
    /// The whole globe, from its natural side.
    Wide,
    /// The given place.
    Place { latitude: Degrees, longitude: Degrees, zoom: u16 },
}

/// How closely the camera looks: the more exact the selection, the closer.
pub open spec fn zoom_of(selection: SelectionView) -> u16 {
    match selection {
        SelectionView::Hostname(_) => 35,
        SelectionView::City { .. } => 30,
        _ => 25,
    }
}

/// How closely the camera looks: the more exact the selection, the closer.
pub fn zoom_for_selection(selection: CurrentRelaySelection<'_>) -> (r: u16)
    ensures
        r == zoom_of(selection@),
{
    match selection {
        CurrentRelaySelection::Hostname(_) => 35,
        CurrentRelaySelection::City { .. } => 30,
        _ => 25,
    }
}

/// Where the camera looks: at the location of the state, if it has one.
pub open spec fn camera_of(state: Option<TunnelState>, selection: SelectionView) -> CameraTarget {
    match location_in(state) {
        Some(loc) => CameraTarget::Place {
            latitude: loc.latitude,
            longitude: loc.longitude,
            zoom: zoom_of(selection),
        },
        None => CameraTarget::Wide,
    }
}

/// Where the camera looks: at the location of the state, if it has one.
pub fn camera_target_for(state: Option<&TunnelState>, selection: CurrentRelaySelection<'_>) -> (r:
    CameraTarget)
    ensures
        r == camera_of(state_of(state), selection@),
{
    match find_location(state) {
        Some(loc) => CameraTarget::Place {
            latitude: loc.latitude,
            longitude: loc.longitude,
            zoom: zoom_for_selection(selection),
        },
        None => CameraTarget::Wide,
    }
}

/// The globe is marked only at the location that the camera looks at.
pub proof fn the_marker_is_in_view(state: Option<TunnelState>, selection: SelectionView)
    requires
        marker_of(state) is Some,
    ensures
        camera_of(state, selection) == (CameraTarget::Place {
            latitude: marker_of(state)->0.latitude,
            longitude: marker_of(state)->0.longitude,
            zoom: zoom_of(selection),
        }),
{
}

} // verus!

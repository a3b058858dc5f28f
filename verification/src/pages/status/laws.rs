//! What the Status page says and does, said of the tunnel's state and of the
//! settings themselves.

use crate::app::select_location::NodeKind;
use crate::app::{
    Answer, App, ConfirmActionView, NotificationView, PageId, RequestView, SelectionView,
};
use crate::daemon::{
    ErrorState, GeoIpLocation, ObfuscationInfo, Settings, Timestamp, TunnelEndpoint,
    TunnelState,
};
use crate::focus::WidgetId;
use crate::pages::status::details::{details_text, obfuscation_text};
use crate::pages::status::features::{
    features_of, indicators_in, sorting_sorts, starred, text_le,
};
use crate::pages::status::{
    answer_notice, asked, camera_of, connect_text, details_after, device_text,
    disconnect_question, error_text, expiry_of, has_details, is_disconnect, kind_color, kind_of,
    kind_text, marker_of, page_after, place_text, questions,
    relay_line_text, selection_text, time_left_text, widgets, CameraTarget,
};
use crate::scene::Color;
use crate::text::{decimal_digits, text_lt};
use crate::time::valid;
use vstd::prelude::*;

verus! {

// ---- States ----

/// Whether a tunnel is up or coming up.
pub open spec fn has_tunnel(state: Option<TunnelState>) -> bool {
    state is Some && (state->0 is Connected || state->0 is Connecting)
}

/// What each state reads, in which colour, and what the last button reads then.
pub proof fn each_state_reads_its_own(state: Option<TunnelState>)
    ensures
        ({
            let text = kind_text(kind_of(state));
            let color = kind_color(kind_of(state));
            let button = connect_text(kind_of(state));
            if state is None || state->0 is Disconnected {
                text == "DISCONNECTED"@ && color == Color::LightRed && button == "Connect"@
            } else if state->0 is Connected {
                text == "CONNECTED"@ && color == Color::LightGreen && button == "Disconnect"@
            } else if state->0 is Connecting {
                text == "CONNECTING…"@ && color == Color::Yellow && button == "Cancel"@
            } else if state->0 is Disconnecting {
                text == "DISCONNECTING…"@ && color == Color::Yellow && button == "Connect"@
            } else {
                text == "BLOCKED"@ && color == Color::Indexed(202) && button == "Disconnect"@
            }
        }),
{
}

/// The last button takes down what is up, coming up or blocked, and nothing else.
pub proof fn only_what_is_up_is_taken_down(state: Option<TunnelState>)
    ensures
        is_disconnect(kind_of(state)) <==> has_tunnel(state) || state is Some && state->0 is Error,
{
}

// ---- Activation ----

/// Each request comes from its own widget: a reconnect from that button alone,
/// and a connect from the last button alone, where there is nothing to take
/// down. Where there is, that button asks before anything is taken down.
pub proof fn each_request_has_its_own_widget(state: Option<TunnelState>, widget: WidgetId)
    ensures
        ({
            let up = has_tunnel(state) || state is Some && state->0 is Error;
            let last = widget == WidgetId(widgets::CONNECT_DISCONNECT);
            let r = asked(state, widget);
            &&& r == Some(RequestView::Reconnect) <==> widget == WidgetId(
                widgets::REFRESH_CONNECTION,
            )
            &&& r == Some(RequestView::Connect) <==> last && !up
            &&& r is Some ==> r == Some(RequestView::Reconnect) || r == Some(RequestView::Connect)
            &&& questions(state, widget) <==> last && up
        }),
{
}

/// The user is told of every request that started nothing and of every failure,
/// in the daemon's own words, and of nothing else.
pub proof fn the_user_is_told_of_what_did_not_happen(request: RequestView, answer: Answer)
    requires
        request == RequestView::Reconnect || request == RequestView::Connect,
    ensures
        ({
            let notice = answer_notice(request, answer);
            &&& notice is None <==> answer == Answer::Ok(true)
            &&& answer == Answer::Ok(false) <==> notice is Some && notice->0 is Message
            &&& answer is Err <==> notice is Some && notice->0 is ActionFailed
            &&& answer is Err ==> notice->0->error == answer->Err_0@ && notice->0->action == (
            if request == RequestView::Connect {
                "connect"@
            } else {
                "reconnect"@
            })
            &&& answer == Answer::Ok(false) ==> notice->0 == NotificationView::Message(
                if request == RequestView::Connect {
                    "Already connected - no action taken"@
                } else {
                    "Reconnect not initiated - already disconnected"@
                },
            )
        }),
{
}

// ---- Features ----

/// Without a tunnel the page lists three settings, each exactly if it is on, each
/// at most once, in this order, and nothing else.
pub proof fn features_without_a_tunnel_are_settings(app: App, s: Settings)
    requires
        !has_tunnel(app.connection),
        app.settings == Some(s),
    ensures
        features_of(app).contains("*Quantum resistance"@) <==> s.quantum_resistant,
        features_of(app).contains("*Lockdown mode"@) <==> s.lockdown_mode,
        features_of(app).contains("*Local network sharing"@) <==> s.allow_lan,
        features_of(app).no_duplicates(),
        forall|i: int|
            0 <= i < features_of(app).len() ==> {
                let f = #[trigger] features_of(app)[i];
                f == "*Quantum resistance"@ || f == "*Lockdown mode"@ || f
                    == "*Local network sharing"@
            },
        forall|i: int, j: int|
            0 <= i < j < features_of(app).len() ==> {
                let f = #[trigger] features_of(app)[i];
                let g = #[trigger] features_of(app)[j];
                f != "*Local network sharing"@ && g != "*Quantum resistance"@
            },
{
    reveal_strlit("*Quantum resistance");
    reveal_strlit("*Lockdown mode");
    reveal_strlit("*Local network sharing");
    let f = features_of(app);
    assert("*Quantum resistance"@.len() != "*Lockdown mode"@.len());
    assert("*Quantum resistance"@.len() != "*Local network sharing"@.len());
    assert("*Local network sharing"@.len() != "*Lockdown mode"@.len());
    assert(indicators_in(app.connection) is None);
    let q: int = if s.quantum_resistant {
        1
    } else {
        0
    };
    let l: int = if s.lockdown_mode {
        1
    } else {
        0
    };
    assert(s.quantum_resistant ==> f[0] == "*Quantum resistance"@);
    assert(s.lockdown_mode ==> f[q] == "*Lockdown mode"@);
    assert(s.allow_lan ==> f[q + l] == "*Local network sharing"@);
}

/// Without a tunnel and without settings there is nothing to list; and of two
/// applications without a tunnel whose three settings agree, the page lists the
/// same.
pub proof fn other_settings_are_no_features(a: App, b: App)
    requires
        !has_tunnel(a.connection),
        !has_tunnel(b.connection),
    ensures
        a.settings is None ==> features_of(a).len() == 0,
        a.settings is Some && b.settings is Some && a.settings->0.quantum_resistant
            == b.settings->0.quantum_resistant && a.settings->0.lockdown_mode
            == b.settings->0.lockdown_mode && a.settings->0.allow_lan == b.settings->0.allow_lan
            ==> features_of(a) == features_of(b),
{
}

/// With a tunnel the page lists what the daemon reports as active, each feature
/// as often as reported and with an asterisk before it, in ascending order;
/// the settings make no difference.
pub proof fn features_of_a_tunnel_are_reported(app: App)
    requires
        has_tunnel(app.connection),
    ensures
        ({
            let reported = match app.connection->0 {
                TunnelState::Connected { feature_indicators, .. } => feature_indicators.active@,
                TunnelState::Connecting { feature_indicators, .. } => feature_indicators.active@,
                _ => Seq::empty(),
            };
            &&& features_of(app).to_multiset() == Seq::new(
                reported.len(),
                |i: int| "*"@ + reported[i]@,
            ).to_multiset()
            &&& forall|i: int, j: int|
                0 <= i < j < features_of(app).len() ==> !text_lt(
                    #[trigger] features_of(app)[j],
                    #[trigger] features_of(app)[i],
                )
        }),
{
    let reported = indicators_in(app.connection)->0.active@;
    sorting_sorts(starred(reported));
    assert(starred(reported) =~= Seq::new(reported.len(), |i: int| "*"@ + reported[i]@));
    let f = features_of(app);
    let le = |a: Seq<char>, b: Seq<char>| text_le(a, b);
    assert forall|i: int, j: int| 0 <= i < j < f.len() implies !text_lt(
        #[trigger] f[j],
        #[trigger] f[i],
    ) by {
        assert(le(f[i], f[j]));
    }
}

// ---- Time left ----

/// A moment in nanoseconds.
pub open spec fn in_nanos(t: Timestamp) -> int {
    t.seconds * 1_000_000_000 + t.nanos
}

/// The days that are left are the whole days until the account runs out; it has
/// run out once that moment is reached.
pub proof fn days_left_are_whole_days(app: App, now: Timestamp)
    requires
        valid(now),
        expiry_of(app) is Some ==> valid(expiry_of(app)->0),
    ensures
        app.account is None || app.account->0.data is None ==> time_left_text(app, now)
            == "Time left: unknown"@,
        app.account is Some && app.account->0.data is Some ==> {
            let left = in_nanos(app.account->0.data->0.expiry) - in_nanos(now);
            if left <= 0 {
                time_left_text(app, now) == "Time left: expired"@
            } else {
                exists|days: nat|
                    days * 86_400_000_000_000 <= left < (days + 1) * 86_400_000_000_000
                        && time_left_text(app, now) == "Time left: "@ + #[trigger] decimal_digits(
                        days,
                    ) + " days"@
            }
        },
{
    if app.account is Some && app.account->0.data is Some {
        let expiry = app.account->0.data->0.expiry;
        let left = in_nanos(expiry) - in_nanos(now);
        if left > 0 {
            let seconds = crate::time::seconds_between(expiry, now);
            assert(seconds * 1_000_000_000 <= left < (seconds + 1) * 1_000_000_000);
            let days = (seconds / 86_400) as nat;
            assert(days * 86_400 <= seconds < (days + 1) * 86_400);
            assert(time_left_text(app, now) == "Time left: "@ + decimal_digits(days) + " days"@);
        }
    }
}

/// The device line names the device that is logged in, if one is.
pub proof fn the_device_line_names_the_device(app: App)
    ensures
        device_text(app) == match app.account {
            Some(info) => match info.device {
                crate::daemon::DeviceState::LoggedIn(who) => "Device name: "@
                    + who.device.pretty_name@,
                _ => "Device name: not logged in"@,
            },
            None => "Device name: not logged in"@,
        },
{
}

/// An error line tells blocked traffic from traffic that is not.
pub proof fn errors_tell_whether_traffic_is_blocked(a: ErrorState, b: ErrorState)
    requires
        a.cause@ == b.cause@,
    ensures
        error_text(a) == error_text(b) <==> a.blocking == b.blocking,
        error_text(a) == a.cause@ + if a.blocking {
            " (traffic blocked)"@
        } else {
            " (NOT BLOCKING)"@
        },
{
    reveal_strlit(" (traffic blocked)");
    reveal_strlit(" (NOT BLOCKING)");
    assert(error_text(a).len() == a.cause@.len() + if a.blocking {
        18int
    } else {
        15int
    });
}

// ---- Place ----

/// The location that a state comes with.
pub open spec fn reported_location(state: Option<TunnelState>) -> Option<GeoIpLocation> {
    match state {
        Some(TunnelState::Connected { location, .. }) => location,
        Some(TunnelState::Connecting { location, .. }) => location,
        Some(TunnelState::Disconnected { location, .. }) => location,
        _ => None,
    }
}

/// The globe is marked in green at the exit of a tunnel that is up, in red at
/// home where nothing is up and nothing is blocked, and nowhere else.
pub proof fn the_marker_tells_where_one_is(state: Option<TunnelState>)
    ensures
        ({
            let marker = marker_of(state);
            let place = reported_location(state);
            let up = state is Some && state->0 is Connected;
            let home = state is Some && state->0 is Disconnected && !state->0->locked_down
                && place is Some && !place->0.mullvad_exit_ip;
            &&& marker is Some <==> place is Some && (up || home)
            &&& marker is Some ==> marker->0.latitude == place->0.latitude
                && marker->0.longitude == place->0.longitude
            &&& marker is Some ==> marker->0.color == if up {
                Color::Green
            } else {
                Color::LightRed
            }
        }),
{
}

/// The camera looks at the location that the state comes with, the closer the
/// more exact the selection.
pub proof fn the_camera_follows_the_location(
    state: Option<TunnelState>,
    selection: SelectionView,
    other: SelectionView,
)
    ensures
        reported_location(state) is None <==> camera_of(state, selection) == CameraTarget::Wide,
        reported_location(state) is Some ==> {
            let near = camera_of(state, selection);
            let far = camera_of(state, other);
            &&& near is Place
            &&& near->latitude == reported_location(state)->0.latitude
            &&& near->longitude == reported_location(state)->0.longitude
            &&& near->zoom == 25 || near->zoom == 30 || near->zoom == 35
            &&& selection is Hostname && !(other is Hostname) ==> near->zoom > far->zoom
            &&& selection is City && !(other is Hostname) && !(other is City) ==> near->zoom
                > far->zoom
        },
{
}

/// The place line names the city, where known, and the country.
pub proof fn the_place_line_names_the_location(state: Option<TunnelState>)
    ensures
        place_text(state) == match reported_location(state) {
            None => "(location unknown)"@,
            Some(place) => (match place.city {
                Some(city) => city@ + ", "@,
                None => ""@,
            }) + place.country@,
        },
{
    reveal_strlit("");
    if reported_location(state) is Some {
        let country = reported_location(state)->0.country@;
        assert(""@ + country =~= country);
    }
}

/// The relay line begins with the exit that the daemon reports, and only without
/// one with what the exit is set to; it goes on with the entry, where reported.
pub proof fn the_relay_line_names_both_ends(app: App, state: Option<TunnelState>)
    ensures
        ({
            let place = reported_location(state);
            let exit = if place is Some && place->0.hostname is Some {
                place->0.hostname->0@
            } else {
                selection_text(app.selection(NodeKind::Exit))
            };
            relay_line_text(app, state) == if place is Some && place->0.entry_hostname is Some {
                exit + " via "@ + place->0.entry_hostname->0@
            } else {
                exit
            }
        }),
{
}

/// What the exit is set to is named by what it names, the city before the country.
pub proof fn selections_read_as_what_they_name(selection: SelectionView)
    ensures
        match selection {
            SelectionView::Hostname(name) => selection_text(selection) == name,
            SelectionView::City { country, city } => selection_text(selection) == "any in "@ + city
                + ", "@ + country,
            SelectionView::Country(code) => selection_text(selection) == "any in "@ + code,
            SelectionView::Any => selection_text(selection) == "any (daemon picks)"@,
            SelectionView::Unknown => selection_text(selection) == "unknown"@,
            SelectionView::CustomList => selection_text(selection) == "custom list"@,
            SelectionView::CustomTunnel => selection_text(selection) == "custom tunnel"@,
        },
{
}

// ---- Details ----

/// The endpoint of a tunnel that is up or coming up.
pub open spec fn reported_endpoint(state: Option<TunnelState>) -> TunnelEndpoint {
    match state {
        Some(TunnelState::Connected { endpoint, .. }) => endpoint,
        Some(TunnelState::Connecting { endpoint, .. }) => endpoint,
        _ => arbitrary(),
    }
}

/// One line if `there`, else none.
pub open spec fn one_if(there: bool) -> int {
    if there {
        1
    } else {
        0
    }
}

/// How many lines an obfuscation takes.
pub open spec fn obfuscation_count(info: Option<ObfuscationInfo>) -> int {
    match info {
        None => 0,
        Some(ObfuscationInfo::Single(_)) => 1,
        Some(ObfuscationInfo::Multiplexer { direct, obfuscators }) => 1 + one_if(direct is Some)
            + obfuscators@.len(),
    }
}

/// The details hold a line for everything that the daemon reports of the
/// connection, in one order, and no other line.
pub proof fn details_hold_what_is_reported(state: Option<TunnelState>)
    ensures
        !has_tunnel(state) ==> details_text(state) == seq!["    (no active endpoint)"@],
        has_tunnel(state) ==> {
            let lines = details_text(state);
            let e = reported_endpoint(state);
            let place = reported_location(state);
            let first = one_if(e.tunnel_interface is Some);
            let second = first + 1 + one_if(e.entry_endpoint is Some);
            let third = second + obfuscation_count(e.obfuscation);
            let v4 = place is Some && place->0.ipv4 is Some;
            let v6 = place is Some && place->0.ipv6 is Some;
            &&& lines.len() == third + one_if(v4) + one_if(v6)
            &&& e.tunnel_interface is Some ==> lines[0] == "    WireGuard interface: "@
                + e.tunnel_interface->0@
            &&& lines[first] == "In        "@ + e.endpoint.address@ + " "@ + e.endpoint.protocol@
            &&& e.entry_endpoint is Some ==> lines[first + 1] == "In        "@
                + e.entry_endpoint->0.address@
            &&& e.obfuscation is Some ==> lines.subrange(second, third) == obfuscation_text(
                e.obfuscation->0,
            )
            &&& v4 ==> lines[third] == "Out IPv4  "@ + place->0.ipv4->0@
            &&& v6 ==> lines[third + one_if(v4)] == "Out IPv6  "@ + place->0.ipv6->0@
        },
{
    if has_tunnel(state) {
        let lines = details_text(state);
        let e = reported_endpoint(state);
        let first = one_if(e.tunnel_interface is Some);
        let second = first + 1 + one_if(e.entry_endpoint is Some);
        if e.obfuscation is Some {
            let text = obfuscation_text(e.obfuscation->0);
            assert(text.len() == obfuscation_count(e.obfuscation));
            assert(lines.subrange(second, second + text.len()) =~= text);
        }
    }
}

/// The lines of an obfuscation name its kind and address, for each way through it.
pub proof fn obfuscations_are_listed(info: ObfuscationInfo)
    ensures
        match info {
            ObfuscationInfo::Single(ep) => obfuscation_text(info) == seq![
                "    Obfuscation: "@ + ep.obfuscation_type@ + " via "@ + ep.endpoint.address@,
            ],
            ObfuscationInfo::Multiplexer { direct, obfuscators } => {
                let lines = obfuscation_text(info);
                let above = 1 + one_if(direct is Some);
                &&& lines.len() == above + obfuscators@.len()
                &&& lines[0] == "    Obfuscation: multiplexer"@
                &&& direct is Some ==> lines[1] == "      direct  "@ + direct->0.address@
                &&& forall|i: int|
                    0 <= i < obfuscators@.len() ==> lines[above + i] == "      "@ + (
                    #[trigger] obfuscators@[i]).obfuscation_type@ + "  "@
                        + obfuscators@[i].endpoint.address@
            },
        },
{
}

/// The details are shown or hidden by their own button alone, the location is
/// switched by its own, and details there are only of a tunnel that is up.
pub proof fn each_view_has_its_own_widget(app: App, widget: WidgetId)
    ensures
        details_after(app, widget) != app.status_state.connection_details_expanded <==> widget
            == WidgetId(widgets::DETAILS_TOGGLE),
        page_after(app, widget) == if widget == WidgetId(widgets::SWITCH_LOCATION) {
            PageId::SelectLocation
        } else {
            app.page
        },
        has_details(kind_of(app.connection)) <==> app.connection is Some
            && app.connection->0 is Connected,
{
}

/// Before the tunnel is taken down the user is asked, in so many words, and the
/// focus goes back to where it was.
pub proof fn the_user_is_asked_before_disconnecting(app: App)
    ensures
        disconnect_question(app) is Confirm,
        disconnect_question(app)->action == ConfirmActionView::Disconnect,
        disconnect_question(app)->return_focus == app.focused,
        disconnect_question(app)->title == "Confirm disconnect"@,
        disconnect_question(app)->message == "Disconnect the current tunnel session?"@,
{
}

} // verus!

//! The Status page: what it says, and what its buttons do.

use mullvad_tui::app::{
    App, ConfirmAction, CurrentRelaySelection, Notification, Operation, OperationStatus,
    OverlayMode, PageId, Request,
};
use mullvad_tui::daemon::{
    AccountAndDevice, AccountData, AccountInfo, ActionAfterDisconnect, DaitaSettings, Degrees,
    Device, DeviceState, DnsBlockers, DnsSettings, Endpoint, ErrorState, FeatureIndicators,
    GeoIpLocation, LocationConstraint, ObfuscationEndpoint, ObfuscationInfo, ObfuscationSettings,
    RelaySettings, SelectedObfuscation, Settings, SplitTunnelSettings, Timestamp, TunnelEndpoint,
    TunnelState,
};
use mullvad_tui::focus::WidgetId;
use mullvad_tui::geometry::Rect;
use mullvad_tui::pages::status::details::{connection_details, obfuscation_lines};
use mullvad_tui::pages::status::features::{
    collect_features, format_features_lines, format_indicators,
};
use mullvad_tui::pages::status::view::{
    lockdown_banner, render, status_block_below_status_row,
};
use mullvad_tui::pages::status::widgets::{
    CONNECT_DISCONNECT, DETAILS_TOGGLE, REFRESH_CONNECTION, SWITCH_LOCATION,
};
use mullvad_tui::pages::status::{
    account_device_line, activate, camera_target_for, classify, complete, connect_button_label,
    connect_button_is_disconnect, error_state_summary, format_relay_line, location_line,
    location_marker, owns_widget, relay_line, relay_selection_label, status_color,
    status_label_text, time_left_line, zoom_for_selection, CameraTarget, StatusKind, StatusWidget,
};
use mullvad_tui::scene::{Color, Op, TextBlock, TextLine, TextSpan};

fn endpoint(address: &str) -> Endpoint {
    Endpoint { address: address.to_string(), protocol: "UDP".to_string() }
}

fn tunnel_endpoint() -> TunnelEndpoint {
    TunnelEndpoint {
        endpoint: endpoint("192.0.2.1:51820"),
        entry_endpoint: None,
        obfuscation: None,
        tunnel_interface: None,
    }
}

fn features(names: &[&str]) -> FeatureIndicators {
    FeatureIndicators { active: names.iter().map(|n| n.to_string()).collect() }
}

fn connected(location: Option<GeoIpLocation>) -> TunnelState {
    TunnelState::Connected {
        endpoint: tunnel_endpoint(),
        location,
        feature_indicators: features(&[]),
    }
}

fn connecting() -> TunnelState {
    TunnelState::Connecting {
        endpoint: tunnel_endpoint(),
        location: None,
        feature_indicators: features(&["Multihop"]),
    }
}

fn disconnected(location: Option<GeoIpLocation>) -> TunnelState {
    TunnelState::Disconnected { location, locked_down: false }
}

fn failed(blocking: bool) -> TunnelState {
    TunnelState::Error(ErrorState { cause: "Device is offline".to_string(), blocking })
}

fn degrees(value: f64) -> Degrees {
    Degrees { bits: value.to_bits() }
}

fn geo_loc(lat: f64, lon: f64, mullvad_exit_ip: bool) -> GeoIpLocation {
    GeoIpLocation {
        ipv4: None,
        ipv6: None,
        country: String::new(),
        city: None,
        latitude: degrees(lat),
        longitude: degrees(lon),
        mullvad_exit_ip,
        hostname: None,
        entry_hostname: None,
    }
}

fn settings() -> Settings {
    Settings {
        relay_settings: RelaySettings::Normal {
            exit: LocationConstraint::Country("se".to_string()),
            entry: LocationConstraint::Any,
        },
        use_multihop: false,
        ip_version: None,
        allow_lan: false,
        lockdown_mode: false,
        auto_connect: false,
        enable_ipv6: true,
        quantum_resistant: false,
        mtu: None,
        daita: DaitaSettings { enabled: false, use_multihop_if_necessary: true },
        obfuscation_settings: ObfuscationSettings {
            selected_obfuscation: SelectedObfuscation::Auto,
            udp2tcp_port: None,
            shadowsocks_port: None,
            wireguard_port: None,
        },
        dns: DnsSettings {
            custom: false,
            addresses: Vec::new(),
            blockers: DnsBlockers {
                ads: false,
                trackers: false,
                malware: false,
                adult_content: false,
                gambling: false,
                social_media: false,
            },
        },
        split_tunnel: SplitTunnelSettings { enabled: false, apps: Vec::new() },
        api_access_methods: Vec::new(),
        relay_overrides: Vec::new(),
    }
}

fn at(seconds: i64) -> Timestamp {
    Timestamp { seconds, nanos: 0 }
}

fn account(expiry: Option<i64>) -> AccountInfo {
    AccountInfo {
        device: DeviceState::LoggedIn(AccountAndDevice {
            account_number: "1234567890123456".to_string(),
            device: Device {
                id: "d-1".to_string(),
                pretty_name: "Happy Seagull".to_string(),
                created: at(0),
            },
        }),
        data: expiry.map(|seconds| AccountData { expiry: at(seconds) }),
    }
}

fn text_of(line: &TextLine) -> String {
    line.spans
        .iter()
        .map(|span| match span {
            TextSpan::Styled { content, .. } => content.as_str(),
            TextSpan::Ansi { content, .. } => content.as_str(),
            TextSpan::Cursor { .. } => "█",
            TextSpan::Spinner { .. } => "~",
        })
        .collect()
}

fn texts_of(block: &TextBlock) -> Vec<String> {
    block.lines.iter().map(text_of).collect()
}

// ---- Kinds ----

#[test]
fn classify_handles_no_daemon_state() {
    assert_eq!(classify(None), StatusKind::Disconnected);
}

#[test]
fn classify_tells_the_states_apart() {
    assert_eq!(classify(Some(&connected(None))), StatusKind::Connected);
    assert_eq!(classify(Some(&connecting())), StatusKind::Connecting);
    assert_eq!(
        classify(Some(&TunnelState::Disconnecting(ActionAfterDisconnect::Nothing))),
        StatusKind::Disconnecting,
    );
    assert_eq!(classify(Some(&disconnected(None))), StatusKind::Disconnected);
    assert_eq!(classify(Some(&failed(true))), StatusKind::Blocked);
}

#[test]
fn status_kind_layout_predicates() {
    assert!(StatusKind::Connected.shows_details_toggle());
    assert!(!StatusKind::Connecting.shows_details_toggle());
    assert!(!StatusKind::Disconnecting.shows_details_toggle());
    assert!(!StatusKind::Disconnected.shows_details_toggle());
    assert!(!StatusKind::Blocked.shows_details_toggle());
}

#[test]
fn status_label_text_per_kind() {
    assert_eq!(status_label_text(StatusKind::Connected), "CONNECTED");
    assert_eq!(status_label_text(StatusKind::Connecting), "CONNECTING…");
    assert_eq!(
        status_label_text(StatusKind::Disconnecting),
        "DISCONNECTING…"
    );
    assert_eq!(status_label_text(StatusKind::Disconnected), "DISCONNECTED");
    assert_eq!(status_label_text(StatusKind::Blocked), "BLOCKED");
}

#[test]
fn connect_button_label_per_kind() {
    assert_eq!(connect_button_label(StatusKind::Connected), "Disconnect");
    assert_eq!(connect_button_label(StatusKind::Connecting), "Cancel");
    assert_eq!(connect_button_label(StatusKind::Disconnecting), "Connect");
    assert_eq!(connect_button_label(StatusKind::Disconnected), "Connect");
    assert_eq!(connect_button_label(StatusKind::Blocked), "Disconnect");
}

#[test]
fn status_colors_per_kind() {
    assert_eq!(status_color(StatusKind::Connected), Color::LightGreen);
    assert_eq!(status_color(StatusKind::Connecting), Color::Yellow);
    assert_eq!(status_color(StatusKind::Disconnecting), Color::Yellow);
    assert_eq!(status_color(StatusKind::Disconnected), Color::LightRed);
    assert_eq!(status_color(StatusKind::Blocked), Color::Indexed(202));
}

// ---- Features ----

#[test]
fn features_lines_show_first_two_plus_n_more_when_collapsed() {
    let flags = vec![
        "*Quantum resistance".to_string(),
        "*Lockdown mode".to_string(),
        "*Local network sharing".to_string(),
    ];
    let lines = format_features_lines(&flags, false, 80);
    let combined = texts_of(&lines).join("\n");
    assert!(combined.contains("*Quantum resistance"));
    assert!(combined.contains("*Lockdown mode"));
    assert!(
        combined.contains("*1 more…"),
        "collapsed line should advertise overflow ({combined:?})",
    );
    assert!(
        !combined.contains("Local"),
        "the third flag is hidden behind 'N more…' when collapsed ({combined:?})",
    );
}

#[test]
fn features_lines_expanded_shows_all_flags() {
    let flags = vec![
        "*Quantum resistance".to_string(),
        "*Lockdown mode".to_string(),
        "*Local network sharing".to_string(),
    ];
    let lines = format_features_lines(&flags, true, 80);
    let combined = texts_of(&lines).join("\n");
    assert!(combined.contains("*Quantum resistance"));
    assert!(combined.contains("*Lockdown mode"));
    assert!(combined.contains("*Local network sharing"));
    assert!(
        !combined.contains("more"),
        "expanded shows everything, no overflow suffix ({combined:?})",
    );
}

#[test]
fn features_lines_two_or_fewer_flags_render_on_one_line_when_wide_enough() {
    let flags = vec![
        "*Quantum resistance".to_string(),
        "*Lockdown mode".to_string(),
    ];
    let lines = format_features_lines(&flags, false, 80);
    assert_eq!(lines.lines.len(), 1);
    let rendered = texts_of(&lines);
    assert_eq!(rendered[0], "*Quantum resistance *Lockdown mode");
}

#[test]
fn features_lines_wrap_at_feature_boundary_when_too_narrow_for_one_line() {
    let flags = vec![
        "*Quantum resistance".to_string(),
        "*Lockdown mode".to_string(),
    ];
    let lines = format_features_lines(&flags, false, 25);
    assert_eq!(
        texts_of(&lines),
        vec![
            "*Quantum resistance".to_string(),
            "*Lockdown mode".to_string(),
        ],
    );
}

#[test]
fn features_lines_never_break_within_a_label() {
    let flags = vec![
        "*Quantum resistance".to_string(),
        "*Lockdown mode".to_string(),
        "*Local network sharing".to_string(),
    ];
    for width in [10u16, 15, 20, 25, 30, 40, 80] {
        let lines = format_features_lines(&flags, true, width);
        for rendered in texts_of(&lines) {
            let parts: Vec<&str> = rendered.split('*').filter(|s| !s.is_empty()).collect();
            for part in parts {
                let label = format!("*{}", part.trim_end());
                assert!(
                    flags.contains(&label),
                    "line {rendered:?} contains label fragment {label:?} \
                     that isn't a complete feature label (width={width})",
                );
            }
        }
    }
}

#[test]
fn features_lines_empty_renders_blank() {
    let lines = format_features_lines(&Vec::new(), false, 80);
    assert_eq!(lines.lines.len(), 1);
    let rendered = texts_of(&lines);
    assert!(
        rendered[0].is_empty(),
        "no flags -> blank line ({rendered:?})",
    );
}

#[test]
fn indicators_are_sorted_whatever_their_order() {
    let expected = vec!["*DAITA", "*Multihop", "*Quantum resistance"];
    assert_eq!(format_indicators(&features(&["Multihop", "Quantum resistance", "DAITA"])), expected);
    assert_eq!(format_indicators(&features(&["Quantum resistance", "DAITA", "Multihop"])), expected);
}

#[test]
fn features_come_from_the_tunnel_or_else_from_the_settings() {
    let mut app = App::new();
    assert_eq!(collect_features(&app), Vec::<String>::new());
    let mut s = settings();
    s.quantum_resistant = true;
    s.allow_lan = true;
    app.settings = Some(s);
    assert_eq!(collect_features(&app), vec!["*Quantum resistance", "*Local network sharing"]);
    app.connection = Some(connecting());
    assert_eq!(collect_features(&app), vec!["*Multihop"]);
}

// ---- The relay line ----

#[test]
fn relay_line_prefers_daemon_hostname_over_country_selection() {
    let line = format_relay_line(Some("de-ber-wg-001"), None, "any in DE".to_string());
    assert_eq!(line, "de-ber-wg-001");
}

#[test]
fn relay_line_prefers_daemon_hostname_over_city_selection() {
    let line = format_relay_line(Some("es-bcn-wg-001"), None, "any in Barcelona, ES".to_string());
    assert_eq!(line, "es-bcn-wg-001");
}

#[test]
fn relay_line_multihop_uses_both_hostnames() {
    let line = format_relay_line(
        Some("de-ber-wg-001"),
        Some("es-bcn-wg-001"),
        "any in DE".to_string(),
    );
    assert_eq!(line, "de-ber-wg-001 via es-bcn-wg-001");
}

#[test]
fn relay_line_falls_back_to_selection_when_disconnected() {
    let line = format_relay_line(None, None, "any in DE".to_string());
    assert_eq!(line, "any in DE");
}

#[test]
fn relay_line_multihop_falls_back_when_exit_hostname_missing() {
    let line = format_relay_line(None, Some("es-bcn-wg-001"), "any in DE".to_string());
    assert_eq!(line, "any in DE via es-bcn-wg-001");
}

#[test]
fn relay_line_reads_the_state_and_the_selection() {
    let mut app = App::new();
    assert_eq!(relay_selection_label(&app), "unknown");
    for (exit, label) in [
        (LocationConstraint::Any, "any (daemon picks)"),
        (LocationConstraint::Country("se".to_string()), "any in se"),
        (
            LocationConstraint::City { country: "se".to_string(), city: "got".to_string() },
            "any in got, se",
        ),
        (LocationConstraint::Hostname("se-got-wg-001".to_string()), "se-got-wg-001"),
        (LocationConstraint::CustomList, "custom list"),
    ] {
        let mut s = settings();
        s.relay_settings = RelaySettings::Normal { exit, entry: LocationConstraint::Any };
        app.settings = Some(s);
        assert_eq!(relay_selection_label(&app), label);
        assert_eq!(relay_line(&app, None), label);
    }
    let mut s = settings();
    s.relay_settings = RelaySettings::CustomTunnel;
    app.settings = Some(s);
    assert_eq!(relay_selection_label(&app), "custom tunnel");
    let mut place = geo_loc(1.0, 2.0, true);
    place.hostname = Some("de-ber-wg-001".to_string());
    place.entry_hostname = Some("es-bcn-wg-001".to_string());
    assert_eq!(
        relay_line(&app, Some(&connected(Some(place)))),
        "de-ber-wg-001 via es-bcn-wg-001",
    );
}

// ---- Other lines ----

#[test]
fn location_line_names_city_and_country() {
    let mut place = geo_loc(1.0, 2.0, true);
    place.country = "Sweden".to_string();
    assert_eq!(location_line(Some(&connected(Some(place)))), "Sweden");
    let mut place = geo_loc(1.0, 2.0, true);
    place.country = "Sweden".to_string();
    place.city = Some("Gothenburg".to_string());
    assert_eq!(location_line(Some(&disconnected(Some(place)))), "Gothenburg, Sweden");
    assert_eq!(location_line(Some(&failed(true))), "(location unknown)");
    assert_eq!(location_line(None), "(location unknown)");
}

#[test]
fn device_line_names_the_device() {
    let mut app = App::new();
    assert_eq!(account_device_line(&app), "Device name: not logged in");
    app.account = Some(account(None));
    assert_eq!(account_device_line(&app), "Device name: Happy Seagull");
    app.account = Some(AccountInfo { device: DeviceState::Revoked, data: None });
    assert_eq!(account_device_line(&app), "Device name: not logged in");
}

#[test]
fn time_left_counts_whole_days() {
    let now = at(1_700_000_000);
    let mut app = App::new();
    assert_eq!(time_left_line(&app, now), "Time left: unknown");
    app.account = Some(account(None));
    assert_eq!(time_left_line(&app, now), "Time left: unknown");
    app.account = Some(account(Some(1_700_000_000)));
    assert_eq!(time_left_line(&app, now), "Time left: expired");
    app.account = Some(account(Some(1_700_000_001)));
    assert_eq!(time_left_line(&app, now), "Time left: 0 days");
    app.account = Some(account(Some(1_700_000_000 + 3 * 86_400 - 1)));
    assert_eq!(time_left_line(&app, now), "Time left: 2 days");
    app.account = Some(account(Some(1_700_000_000 + 3 * 86_400)));
    assert_eq!(time_left_line(&app, now), "Time left: 3 days");
    let later = Timestamp { seconds: 1_700_000_000, nanos: 1 };
    assert_eq!(time_left_line(&app, later), "Time left: 2 days");
}

#[test]
fn error_summary_says_whether_traffic_is_blocked() {
    let error = |blocking| ErrorState { cause: "Device is offline".to_string(), blocking };
    assert_eq!(error_state_summary(&error(true)), "Device is offline (traffic blocked)");
    assert_eq!(error_state_summary(&error(false)), "Device is offline (NOT BLOCKING)");
}

#[test]
fn details_list_addresses_and_obfuscation() {
    assert_eq!(connection_details(None), vec!["    (no active endpoint)"]);
    assert_eq!(
        connection_details(Some(&connected(None))),
        vec!["In        192.0.2.1:51820 UDP"],
    );
    let mut place = geo_loc(1.0, 2.0, true);
    place.ipv4 = Some("198.51.100.7".to_string());
    place.ipv6 = Some("2001:db8::7".to_string());
    let state = TunnelState::Connected {
        endpoint: TunnelEndpoint {
            entry_endpoint: Some(endpoint("192.0.2.9:443")),
            obfuscation: Some(ObfuscationInfo::Single(ObfuscationEndpoint {
                obfuscation_type: "Shadowsocks".to_string(),
                endpoint: endpoint("192.0.2.9:1443"),
            })),
            tunnel_interface: Some("wg0-mullvad".to_string()),
            ..tunnel_endpoint()
        },
        location: Some(place),
        feature_indicators: features(&[]),
    };
    assert_eq!(
        connection_details(Some(&state)),
        vec![
            "    WireGuard interface: wg0-mullvad",
            "In        192.0.2.1:51820 UDP",
            "In        192.0.2.9:443",
            "    Obfuscation: Shadowsocks via 192.0.2.9:1443",
            "Out IPv4  198.51.100.7",
            "Out IPv6  2001:db8::7",
        ],
    );
}

#[test]
fn multiplexer_lists_every_way_through() {
    let info = ObfuscationInfo::Multiplexer {
        direct: Some(endpoint("192.0.2.1:51820")),
        obfuscators: vec![ObfuscationEndpoint {
            obfuscation_type: "QUIC".to_string(),
            endpoint: endpoint("192.0.2.2:443"),
        }],
    };
    assert_eq!(
        obfuscation_lines(&info),
        vec![
            "    Obfuscation: multiplexer",
            "      direct  192.0.2.1:51820",
            "      QUIC  192.0.2.2:443",
        ],
    );
    let none = ObfuscationInfo::Multiplexer { direct: None, obfuscators: Vec::new() };
    assert_eq!(obfuscation_lines(&none), vec!["    Obfuscation: multiplexer"]);
}

#[test]
fn block_below_the_status_per_kind() {
    let mut app = App::new();
    assert_eq!(texts_of(&status_block_below_status_row(&app, 40)), Vec::<String>::new());
    app.connection = Some(TunnelState::Disconnecting(ActionAfterDisconnect::Block));
    assert_eq!(texts_of(&status_block_below_status_row(&app, 40)), vec!["Tearing down…"]);
    app.connection = Some(connecting());
    assert_eq!(
        texts_of(&status_block_below_status_row(&app, 40)),
        vec!["(location unknown)", "unknown"],
    );
    app.connection = Some(failed(true));
    assert_eq!(
        texts_of(&status_block_below_status_row(&app, 40)),
        vec![
            "Device is offline (traffic blocked)",
            "All tunnel traffic is currently blocked.",
        ],
    );
    let mut s = settings();
    s.lockdown_mode = true;
    app.settings = Some(s);
    assert_eq!(
        texts_of(&status_block_below_status_row(&app, 40))[1],
        "Lockdown mode is keeping all traffic blocked.",
    );
    app.connection = Some(connected(None));
    assert_eq!(
        texts_of(&status_block_below_status_row(&app, 40)),
        vec!["(location unknown)", "any in se", ""],
    );
    app.status_state.connection_details_expanded = true;
    assert_eq!(
        texts_of(&status_block_below_status_row(&app, 40)),
        vec!["(location unknown)", "any in se", "", "", "In        192.0.2.1:51820 UDP"],
    );
}

#[test]
fn banner_only_while_disconnected_in_lockdown() {
    let mut app = App::new();
    assert!(lockdown_banner(StatusKind::Disconnected, &app).is_none());
    let mut s = settings();
    s.lockdown_mode = true;
    app.settings = Some(s);
    assert!(lockdown_banner(StatusKind::Connected, &app).is_none());
    let banner = lockdown_banner(StatusKind::Disconnected, &app).expect("a banner");
    assert_eq!(
        texts_of(&banner),
        vec![
            "● BLOCKING INTERNET",
            "Lockdown mode is enabled. Press \"Connect\" or disable lockdown mode to unblock internet.",
        ],
    );
}

// ---- The globe ----

#[test]
fn marker_is_green_at_relay_when_connected() {
    let state = connected(Some(geo_loc(59.0, 18.0, true)));
    let marker = location_marker(Some(&state)).expect("marker on Connected with location");
    assert_eq!(marker.color, Color::Green);
    assert!((f64::from_bits(marker.latitude.bits) as f32 - 59.0).abs() < f32::EPSILON);
    assert!((f64::from_bits(marker.longitude.bits) as f32 - 18.0).abs() < f32::EPSILON);
}

#[test]
fn marker_is_red_at_home_when_disconnected_lockdown_off_and_home_ip() {
    let state = TunnelState::Disconnected {
        location: Some(geo_loc(40.7, -74.0, false)),
        locked_down: false,
    };
    let marker = location_marker(Some(&state)).expect("home marker on Disconnected");
    assert_eq!(marker.color, Color::LightRed);
    assert!((f64::from_bits(marker.latitude.bits) as f32 - 40.7).abs() < f32::EPSILON);
    assert!((f64::from_bits(marker.longitude.bits) as f32 - -74.0).abs() < f32::EPSILON);
}

#[test]
fn no_marker_when_disconnected_but_location_is_stale_tunnel_ip() {
    let state = TunnelState::Disconnected {
        location: Some(geo_loc(59.0, 18.0, true)),
        locked_down: false,
    };
    assert!(location_marker(Some(&state)).is_none());
}

#[test]
fn no_marker_when_disconnected_with_lockdown_on() {
    let state = TunnelState::Disconnected {
        location: Some(geo_loc(40.7, -74.0, false)),
        locked_down: true,
    };
    assert!(location_marker(Some(&state)).is_none());
}

#[test]
fn no_marker_when_no_location_or_no_state() {
    let state = TunnelState::Disconnected { location: None, locked_down: false };
    assert!(location_marker(Some(&state)).is_none());
    assert!(location_marker(None).is_none());
}

#[test]
fn camera_looks_closer_at_a_closer_selection() {
    assert_eq!(zoom_for_selection(CurrentRelaySelection::Hostname("se-got-wg-001")), 35);
    assert_eq!(
        zoom_for_selection(CurrentRelaySelection::City { country: "se", city: "got" }),
        30,
    );
    assert_eq!(zoom_for_selection(CurrentRelaySelection::Country("se")), 25);
    assert_eq!(zoom_for_selection(CurrentRelaySelection::Any), 25);
    let state = connected(Some(geo_loc(59.0, 18.0, true)));
    assert_eq!(
        camera_target_for(Some(&state), CurrentRelaySelection::Country("se")),
        CameraTarget::Place { latitude: degrees(59.0), longitude: degrees(18.0), zoom: 25 },
    );
    assert_eq!(camera_target_for(None, CurrentRelaySelection::Any), CameraTarget::Wide);
}

// ---- Widgets ----

#[test]
fn the_page_owns_its_four_widgets() {
    for id in [DETAILS_TOGGLE, SWITCH_LOCATION, REFRESH_CONNECTION, CONNECT_DISCONNECT] {
        assert!(owns_widget(WidgetId(id)));
    }
    assert!(!owns_widget(WidgetId(0x0f)));
    assert!(!owns_widget(WidgetId(0x14)));
    assert_eq!(
        StatusWidget::from_widget_id(WidgetId(REFRESH_CONNECTION)),
        Some(StatusWidget::RefreshConnection),
    );
}

#[test]
fn button_disconnects_wherever_a_tunnel_is_up_or_blocked() {
    assert!(connect_button_is_disconnect(Some(&connected(None))));
    assert!(connect_button_is_disconnect(Some(&connecting())));
    assert!(connect_button_is_disconnect(Some(&failed(false))));
    assert!(!connect_button_is_disconnect(Some(&disconnected(None))));
    assert!(!connect_button_is_disconnect(Some(&TunnelState::Disconnecting(
        ActionAfterDisconnect::Reconnect,
    ))));
    assert!(!connect_button_is_disconnect(None));
}

#[test]
fn details_toggle_flips_and_flips_back() {
    let mut app = App::new();
    let mut overlay = OverlayMode::Hidden;
    assert!(activate(&mut app, &mut overlay, WidgetId(DETAILS_TOGGLE)).is_none());
    assert!(app.status_state.connection_details_expanded);
    assert!(activate(&mut app, &mut overlay, WidgetId(DETAILS_TOGGLE)).is_none());
    assert!(!app.status_state.connection_details_expanded);
}

#[test]
fn connect_button_connects_or_asks() {
    let mut app = App::new();
    app.focused = Some(WidgetId(CONNECT_DISCONNECT));
    let mut overlay = OverlayMode::Hidden;
    let request = activate(&mut app, &mut overlay, WidgetId(CONNECT_DISCONNECT));
    assert!(matches!(request, Some(Request::Connect)));
    assert!(matches!(overlay, OverlayMode::Hidden));
    app.connection = Some(connected(None));
    let request = activate(&mut app, &mut overlay, WidgetId(CONNECT_DISCONNECT));
    assert!(request.is_none());
    match overlay {
        OverlayMode::Confirm { title, message, action, return_focus } => {
            assert_eq!(title, "Confirm disconnect");
            assert_eq!(message, "Disconnect the current tunnel session?");
            assert!(matches!(action, ConfirmAction::Disconnect));
            assert_eq!(return_focus, Some(WidgetId(CONNECT_DISCONNECT)));
        }
        OverlayMode::Hidden => panic!("a question is expected"),
    }
}

#[test]
fn switching_location_opens_the_page() {
    let mut app = App::new();
    let mut overlay = OverlayMode::Hidden;
    app.focused = Some(WidgetId(SWITCH_LOCATION));
    assert!(activate(&mut app, &mut overlay, WidgetId(SWITCH_LOCATION)).is_none());
    assert_eq!(app.page, PageId::SelectLocation);
    app.leave_sub_page();
    assert_eq!(app.page, PageId::Status);
    assert_eq!(app.focused, Some(WidgetId(SWITCH_LOCATION)));
}

fn notice(app: &App) -> String {
    match &app.notification {
        None => String::new(),
        Some(Notification::Message(m)) => m.clone(),
        Some(Notification::ActionFailed { action, error }) => format!("{action}: {error}"),
    }
}

#[test]
fn answers_are_reported_where_nothing_was_started() {
    let mut app = App::new();
    complete(&mut app, &Request::Connect, Ok(true));
    assert_eq!(notice(&app), "");
    complete(&mut app, &Request::Connect, Ok(false));
    assert_eq!(notice(&app), "Already connected - no action taken");
    complete(&mut app, &Request::Connect, Err("gone".to_string()));
    assert_eq!(notice(&app), "connect: gone");
    complete(&mut app, &Request::Reconnect, Ok(false));
    assert_eq!(notice(&app), "Reconnect not initiated - already disconnected");
    complete(&mut app, &Request::Reconnect, Err("gone".to_string()));
    assert_eq!(notice(&app), "reconnect: gone");
}

// ---- The page as a whole ----

fn labels(app: &App) -> Vec<String> {
    let area = Rect::new(1, 0, 48, 24);
    let full = Rect::new(0, 0, 50, 24);
    render(area, full, app, at(1_700_000_000), 7)
        .ops
        .iter()
        .filter_map(|op| match op {
            Op::Button { label, .. } => Some(label.clone()),
            Op::RunningButton { label, running, .. } => {
                Some(if *running { format!("~ {label}") } else { label.clone() })
            }
            _ => None,
        })
        .collect()
}

#[test]
fn buttons_per_state() {
    let mut app = App::new();
    assert_eq!(labels(&app), vec!["Select location", "Connect"]);
    app.connection = Some(connecting());
    assert_eq!(labels(&app), vec!["Switch location", "Cancel"]);
    app.operation = OperationStatus::Running(Operation::Reconnect);
    assert_eq!(labels(&app), vec!["Switch location", "~ Reconnect", "~ Cancel"]);
    app.operation = OperationStatus::Idle;
    app.connection = Some(connected(None));
    assert_eq!(labels(&app), vec!["Show detail", "Switch location", "Reconnect", "Disconnect"]);
    app.status_state.connection_details_expanded = true;
    assert_eq!(labels(&app), vec!["Hide detail", "Switch location", "Reconnect", "Disconnect"]);
    app.connection = Some(failed(true));
    assert_eq!(labels(&app), vec!["Switch location", "Reconnect", "Disconnect"]);
}

#[test]
fn rows_of_the_page_stand_where_they_should() {
    let mut app = App::new();
    app.connection = Some(disconnected(Some(geo_loc(40.7, -74.0, false))));
    let area = Rect::new(1, 0, 48, 24);
    let full = Rect::new(0, 0, 50, 24);
    let scene = render(area, full, &app, at(1_700_000_000), 7);
    let globe = scene.ops.iter().find_map(|op| match op {
        Op::Globe { area, marker } => Some((*area, *marker)),
        _ => None,
    });
    let (globe_area, marker) = globe.expect("a globe");
    assert_eq!(globe_area, Rect::new(0, 3, 50, 16));
    assert_eq!(marker.map(|m| m.color), Some(Color::LightRed));
    let buttons: Vec<Rect> = scene
        .ops
        .iter()
        .filter_map(|op| match op {
            Op::Button { area, .. } | Op::RunningButton { area, .. } => Some(*area),
            _ => None,
        })
        .collect();
    assert_eq!(buttons, vec![Rect::new(16, 22, 17, 1), Rect::new(20, 23, 9, 1)]);
}

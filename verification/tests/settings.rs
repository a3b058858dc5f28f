//! The Settings pages: widget ids, activation and texts.

use mullvad_tui::app::{
    App, ConfirmAction, DnsBlocker, InputMode, Notification, OverlayMode, PageId, Request,
};
use mullvad_tui::daemon::{
    AccessMethodSetting, ActionAfterDisconnect, DaitaSettings, DnsBlockers, DnsSettings, Endpoint,
    ErrorState, FeatureIndicators, IpVersion, LocationConstraint, ObfuscationSettings,
    RelayOverride, RelaySettings, SelectedObfuscation, Settings, SplitTunnelSettings,
    TunnelEndpoint, TunnelState,
};
use mullvad_tui::focus::WidgetId;
use mullvad_tui::geometry::Rect;
use mullvad_tui::pages::settings::texts::{KILL_SWITCH_INFO, LOCKDOWN_QUESTION};
use mullvad_tui::pages::settings::{
    activate, anti_censorship, api_access, api_access_toggle_index, api_access_use_index, complete,
    custom_dns, custom_dns_edit_index, custom_dns_remove_index, disconnect_and_quit_label,
    dns_blockers, owns_widget, parse_mtu_input, relay_override_remove_index, relay_overrides,
    render_daita, render_multihop, render_split_tunnel, render_vpn_settings, split_tunnel_app_at,
    split_tunnel_pid_at, split_tunnel_remove_app_index, split_tunnel_remove_pid_index, widgets,
    SettingsWidget,
};
use mullvad_tui::scene::{Op, Scene, TextSpan};

fn connected_state() -> TunnelState {
    TunnelState::Connected {
        endpoint: TunnelEndpoint {
            endpoint: Endpoint {
                address: "192.0.2.1:51820".to_string(),
                protocol: "UDP".to_string(),
            },
            entry_endpoint: None,
            obfuscation: None,
            tunnel_interface: None,
        },
        location: None,
        feature_indicators: FeatureIndicators { active: Vec::new() },
    }
}

fn disconnected_state() -> TunnelState {
    TunnelState::Disconnected { location: None, locked_down: false }
}

fn error_state() -> TunnelState {
    TunnelState::Error(ErrorState { cause: "Device is offline".to_string(), blocking: true })
}

fn settings() -> Settings {
    Settings {
        relay_settings: RelaySettings::Normal {
            exit: LocationConstraint::Any,
            entry: LocationConstraint::Any,
        },
        use_multihop: false,
        ip_version: None,
        allow_lan: true,
        lockdown_mode: false,
        auto_connect: false,
        enable_ipv6: false,
        quantum_resistant: false,
        mtu: Some(1380),
        daita: DaitaSettings { enabled: true, use_multihop_if_necessary: false },
        obfuscation_settings: ObfuscationSettings {
            selected_obfuscation: SelectedObfuscation::Udp2Tcp,
            udp2tcp_port: Some(443),
            shadowsocks_port: None,
            wireguard_port: Some(53),
        },
        dns: DnsSettings {
            custom: true,
            addresses: vec!["9.9.9.9".to_string(), "1.1.1.1".to_string()],
            blockers: DnsBlockers {
                ads: true,
                trackers: false,
                malware: false,
                adult_content: false,
                gambling: false,
                social_media: false,
            },
        },
        split_tunnel: SplitTunnelSettings {
            enabled: true,
            apps: vec!["/usr/bin/firefox".to_string()],
        },
        api_access_methods: vec![
            AccessMethodSetting {
                id: "m-direct".to_string(),
                name: "Direct".to_string(),
                enabled: true,
            },
            AccessMethodSetting {
                id: "m-bridge".to_string(),
                name: "Mullvad Bridges".to_string(),
                enabled: false,
            },
        ],
        relay_overrides: vec![RelayOverride {
            hostname: "se-got-wg-001".to_string(),
            ipv4_addr_in: Some("192.0.2.77".to_string()),
            ipv6_addr_in: None,
        }],
    }
}

fn app() -> App {
    let mut app = App::new();
    app.settings = Some(settings());
    app.split_tunnel_pids = Some(vec![4242, 17]);
    app.page = PageId::Settings;
    app
}

struct Outcome {
    app: App,
    input: InputMode,
    overlay: OverlayMode,
    request: Option<Request>,
}

fn press(mut app: App, id: u32) -> Outcome {
    let mut input = InputMode::Normal;
    let mut overlay = OverlayMode::Hidden;
    let request = activate(&mut app, &mut input, &mut overlay, WidgetId(id), true);
    Outcome { app, input, overlay, request }
}

fn notice(app: &App) -> String {
    match &app.notification {
        None => String::new(),
        Some(Notification::Message(m)) => m.clone(),
        Some(Notification::ActionFailed { action, error }) => format!("{action}: {error}"),
    }
}

// ---- Widget ids ----

#[test]
fn custom_dns_edit_index_decodes_in_range() {
    let base = widgets::CUSTOM_DNS_EDIT_BASE;
    assert_eq!(custom_dns_edit_index(WidgetId(base)), Some(0));
    assert_eq!(custom_dns_edit_index(WidgetId(base + 5)), Some(5));
    assert_eq!(
        custom_dns_edit_index(WidgetId(base + widgets::CUSTOM_DNS_EDIT_MAX - 1)),
        Some((widgets::CUSTOM_DNS_EDIT_MAX - 1) as usize),
    );
}

#[test]
fn custom_dns_edit_index_returns_none_out_of_range() {
    let base = widgets::CUSTOM_DNS_EDIT_BASE;
    assert_eq!(
        custom_dns_edit_index(WidgetId(base + widgets::CUSTOM_DNS_EDIT_MAX)),
        None,
    );
    let remove_base = widgets::CUSTOM_DNS_REMOVE_BASE;
    assert_eq!(custom_dns_edit_index(WidgetId(remove_base)), None);
}

#[test]
fn custom_dns_edit_and_remove_ranges_are_disjoint() {
    for i in 0..widgets::CUSTOM_DNS_REMOVE_MAX {
        let remove_id = WidgetId(widgets::CUSTOM_DNS_REMOVE_BASE + i);
        assert_eq!(custom_dns_remove_index(remove_id), Some(i as usize));
        assert_eq!(custom_dns_edit_index(remove_id), None);
    }
    for i in 0..widgets::CUSTOM_DNS_EDIT_MAX {
        let edit_id = WidgetId(widgets::CUSTOM_DNS_EDIT_BASE + i);
        assert_eq!(custom_dns_edit_index(edit_id), Some(i as usize));
        assert_eq!(custom_dns_remove_index(edit_id), None);
    }
}

#[test]
fn settings_root_widget_ids_resolve() {
    assert_eq!(
        SettingsWidget::from_widget_id(WidgetId(widgets::DAITA)),
        Some(SettingsWidget::Daita),
    );
    assert_eq!(
        SettingsWidget::from_widget_id(WidgetId(widgets::DISCONNECT_AND_QUIT)),
        Some(SettingsWidget::DisconnectAndQuit),
    );
    assert_eq!(
        SettingsWidget::from_widget_id(WidgetId(widgets::VPN_DEVICE_IP_AUTO)),
        Some(SettingsWidget::VpnDeviceIpAuto),
    );
    assert_eq!(
        SettingsWidget::from_widget_id(WidgetId(widgets::VPN_KILL_SWITCH_TOGGLE)),
        Some(SettingsWidget::VpnKillSwitchToggle),
    );
}

#[test]
fn list_rows_decode_their_own_ids_only() {
    assert_eq!(api_access_toggle_index(WidgetId(widgets::API_ACCESS_TOGGLE_BASE + 3)), Some(3));
    assert_eq!(api_access_use_index(WidgetId(widgets::API_ACCESS_USE_BASE + 3)), Some(3));
    assert_eq!(api_access_use_index(WidgetId(widgets::API_ACCESS_TOGGLE_BASE + 3)), None);
    assert_eq!(
        split_tunnel_remove_app_index(WidgetId(widgets::SPLIT_TUNNEL_REMOVE_APP_BASE + 31)),
        Some(31),
    );
    assert_eq!(
        split_tunnel_remove_app_index(WidgetId(widgets::SPLIT_TUNNEL_REMOVE_APP_BASE + 32)),
        None,
    );
    assert_eq!(
        split_tunnel_remove_pid_index(WidgetId(widgets::SPLIT_TUNNEL_REMOVE_PID_BASE)),
        Some(0),
    );
    assert_eq!(
        relay_override_remove_index(WidgetId(widgets::RELAY_OVERRIDE_REMOVE_BASE + 31)),
        Some(31),
    );
    assert!(owns_widget(WidgetId(widgets::RELAY_OVERRIDE_REMOVE_BASE + 31)));
    assert!(!owns_widget(WidgetId(widgets::RELAY_OVERRIDE_REMOVE_BASE + 32)));
    assert!(!owns_widget(WidgetId(0x3f)));
    assert!(owns_widget(WidgetId(widgets::DAITA)));
}

#[test]
fn modes_and_blockers_have_one_widget_each() {
    assert_eq!(
        SettingsWidget::AntiCensorshipModeQuic.anti_censorship_mode(),
        Some(SelectedObfuscation::Quic),
    );
    assert_eq!(SettingsWidget::Daita.anti_censorship_mode(), None);
    assert_eq!(SettingsWidget::DnsBlockGambling.dns_blocker(), Some(DnsBlocker::Gambling));
    assert_eq!(SettingsWidget::Daita.dns_blocker(), None);
    assert_eq!(
        anti_censorship::widget_id(SelectedObfuscation::Lwo),
        WidgetId(widgets::ANTI_CENSORSHIP_MODE_LWO),
    );
    assert_eq!(
        dns_blockers::widget_id(DnsBlocker::Malware),
        WidgetId(widgets::DNS_BLOCK_MALWARE),
    );
}

// ---- Labels ----

#[test]
fn disconnect_and_quit_label_collapses_when_no_tunnel_to_drop() {
    assert_eq!(disconnect_and_quit_label(None), "Quit");
    assert_eq!(
        disconnect_and_quit_label(Some(&disconnected_state())),
        "Quit"
    );
    assert_eq!(
        disconnect_and_quit_label(Some(&connected_state())),
        "Disconnect & quit",
    );
    assert_eq!(
        disconnect_and_quit_label(Some(&error_state())),
        "Disconnect & quit",
    );
    assert_eq!(
        disconnect_and_quit_label(Some(&TunnelState::Disconnecting(
            ActionAfterDisconnect::Nothing
        ))),
        "Disconnect & quit",
    );
}

#[test]
fn mtu_input_is_empty_or_a_number() {
    assert_eq!(parse_mtu_input(""), Ok(None));
    assert_eq!(parse_mtu_input("1380"), Ok(Some(1380)));
    assert_eq!(parse_mtu_input("0"), Ok(Some(0)));
    assert_eq!(parse_mtu_input("+65535"), Ok(Some(65535)));
    assert_eq!(parse_mtu_input("00012"), Ok(Some(12)));
    let refused = Err("MTU must be a number between 0 and 65535".to_string());
    for text in ["65536", "-1", "+", "1 380", "12a", "１２", "999999999999999999999"] {
        assert_eq!(parse_mtu_input(text), refused, "{text:?}");
    }
}

#[test]
fn mtu_input_reads_numbers_as_the_standard_library_does() {
    for text in ["7", "007", "+7", "++7", "-0", "65535", "65536", "70000", " 7", "7 ", "x"] {
        assert_eq!(parse_mtu_input(text).ok().flatten(), text.parse::<u16>().ok(), "{text:?}");
    }
}

// ---- Activation ----

#[test]
fn root_entries_open_their_pages() {
    for (id, page) in [
        (widgets::DAITA, PageId::SettingsDaita),
        (widgets::MULTIHOP, PageId::SettingsMultihop),
        (widgets::VPN_SETTINGS, PageId::SettingsVpn),
        (widgets::VPN_ANTI_CENSORSHIP_EDIT, PageId::SettingsAntiCensorship),
        (widgets::VPN_DNS_BLOCKERS_INFO, PageId::SettingsDnsBlockers),
        (widgets::VPN_CUSTOM_DNS_INFO, PageId::SettingsCustomDns),
        (widgets::VPN_SERVER_IP_INFO, PageId::SettingsRelayOverrides),
    ] {
        let mut outcome = press(app(), id);
        assert!(outcome.request.is_none());
        assert_eq!(outcome.app.page, page);
        outcome.app.leave_sub_page();
        assert_eq!(outcome.app.page, PageId::Settings);
    }
}

#[test]
fn pages_with_lists_are_refreshed_on_entry() {
    let outcome = press(app(), widgets::API_ACCESS);
    assert_eq!(outcome.app.page, PageId::SettingsApiAccess);
    assert!(matches!(outcome.request, Some(Request::RefreshCurrentAccessMethod)));
    let outcome = press(app(), widgets::SPLIT_TUNNELING);
    assert_eq!(outcome.app.page, PageId::SettingsSplitTunnel);
    assert!(matches!(outcome.request, Some(Request::RefreshSplitTunnelPids)));
    let mut elsewhere = app();
    let request = activate(
        &mut elsewhere,
        &mut InputMode::Normal,
        &mut OverlayMode::Hidden,
        WidgetId(widgets::SPLIT_TUNNELING),
        false,
    );
    assert!(request.is_none());
    assert_eq!(elsewhere.page, PageId::SettingsSplitTunnel);
}

#[test]
fn quitting_drops_a_tunnel_first() {
    let outcome = press(app(), widgets::DISCONNECT_AND_QUIT);
    assert!(outcome.request.is_none());
    assert!(outcome.app.quit);
    let mut up = app();
    up.connection = Some(connected_state());
    let mut outcome = press(up, widgets::DISCONNECT_AND_QUIT);
    assert!(matches!(outcome.request, Some(Request::DisconnectAndQuit)));
    assert!(!outcome.app.quit);
    complete(&mut outcome.app, &Request::DisconnectAndQuit, Err("gone".to_string()));
    assert!(outcome.app.quit);
    assert_eq!(notice(&outcome.app), "");
}

#[test]
fn toggles_ask_the_daemon() {
    assert!(matches!(press(app(), widgets::MULTIHOP_TOGGLE).request, Some(Request::ToggleMultihop)));
    assert!(matches!(press(app(), widgets::DAITA_TOGGLE).request, Some(Request::ToggleDaita)));
    assert!(matches!(
        press(app(), widgets::DAITA_DIRECT_ONLY_TOGGLE).request,
        Some(Request::ToggleDaitaDirectOnly)
    ));
    assert!(matches!(press(app(), widgets::VPN_LAN_TOGGLE).request, Some(Request::ToggleLan)));
    assert!(matches!(
        press(app(), widgets::VPN_DEVICE_IP_V6).request,
        Some(Request::SetIpVersion { version: Some(IpVersion::V6) })
    ));
    assert!(matches!(
        press(app(), widgets::DNS_BLOCK_ADS).request,
        Some(Request::SetDnsBlocker { blocker: DnsBlocker::Ads, enabled: false })
    ));
    assert!(matches!(
        press(app(), widgets::DNS_BLOCK_TRACKERS).request,
        Some(Request::SetDnsBlocker { blocker: DnsBlocker::Trackers, enabled: true })
    ));
    assert!(matches!(
        press(app(), widgets::ANTI_CENSORSHIP_MODE_QUIC).request,
        Some(Request::SetAntiCensorshipMode { mode: SelectedObfuscation::Quic })
    ));
    assert!(press(app(), widgets::VPN_MTU_EDIT).request.is_none());
}

#[test]
fn lockdown_is_asked_about() {
    let mut before = app();
    before.focused = Some(WidgetId(widgets::VPN_LOCKDOWN_TOGGLE));
    let outcome = press(before, widgets::VPN_LOCKDOWN_TOGGLE);
    assert!(outcome.request.is_none());
    match outcome.overlay {
        OverlayMode::Confirm { title, message, action, return_focus } => {
            assert_eq!(title, "Confirm lockdown mode update");
            assert_eq!(message, LOCKDOWN_QUESTION);
            assert!(matches!(action, ConfirmAction::ToggleLockdown));
            assert_eq!(return_focus, Some(WidgetId(widgets::VPN_LOCKDOWN_TOGGLE)));
        }
        OverlayMode::Hidden => panic!("a question is expected"),
    }
}

#[test]
fn information_is_shown() {
    assert_eq!(notice(&press(app(), widgets::VPN_KILL_SWITCH_INFO).app), KILL_SWITCH_INFO);
    assert_eq!(notice(&press(app(), widgets::VPN_KILL_SWITCH_TOGGLE).app), KILL_SWITCH_INFO);
    assert!(notice(&press(app(), widgets::VPN_LAN_INFO).app).ends_with("- fc00::/7\n"));
}

#[test]
fn blurb_pager_stops_at_both_ends() {
    let first = press(app(), widgets::DAITA_BLURB_PREV).app;
    assert_eq!(first.settings_state.daita_blurb_page, 0);
    let second = press(first, widgets::DAITA_BLURB_NEXT).app;
    assert_eq!(second.settings_state.daita_blurb_page, 1);
    let still = press(second, widgets::DAITA_BLURB_NEXT).app;
    assert_eq!(still.settings_state.daita_blurb_page, 1);
    let back = press(still, widgets::DAITA_BLURB_PREV).app;
    assert_eq!(back.settings_state.daita_blurb_page, 0);
}

#[test]
fn inputs_open() {
    match press(app(), widgets::CUSTOM_DNS_EDIT_BASE + 1).input {
        InputMode::CustomDnsInput { buffer, edit_index } => {
            assert_eq!(buffer, "1.1.1.1");
            assert_eq!(edit_index, Some(1));
        }
        other => panic!("unexpected input {other:?}"),
    }
    match press(app(), widgets::CUSTOM_DNS_EDIT_BASE + 2).input {
        InputMode::CustomDnsInput { buffer, edit_index } => {
            assert_eq!(buffer, "");
            assert_eq!(edit_index, Some(2));
        }
        other => panic!("unexpected input {other:?}"),
    }
    assert!(matches!(
        press(app(), widgets::CUSTOM_DNS_ADD_ADDRESS).input,
        InputMode::CustomDnsInput { edit_index: None, .. }
    ));
    assert!(matches!(
        press(app(), widgets::ANTI_CENSORSHIP_PORT_EDIT).input,
        InputMode::PortInput { mode: SelectedObfuscation::Udp2Tcp }
    ));
    assert!(matches!(
        press(App::new(), widgets::ANTI_CENSORSHIP_PORT_EDIT).input,
        InputMode::Normal
    ));
    assert!(matches!(press(app(), widgets::SPLIT_TUNNEL_ADD_PID).input, InputMode::SplitTunnelPidInput));
    assert!(matches!(press(app(), widgets::SPLIT_TUNNEL_ADD_APP).input, InputMode::SplitTunnelPathInput));
    assert!(matches!(press(app(), widgets::RELAY_OVERRIDE_ADD).input, InputMode::RelayOverrideInput));
}

#[test]
fn list_rows_act_on_what_they_show() {
    assert!(matches!(
        press(app(), widgets::CUSTOM_DNS_REMOVE_BASE + 1).request,
        Some(Request::RemoveCustomDns { index: 1 })
    ));
    match press(app(), widgets::API_ACCESS_TOGGLE_BASE + 1).request {
        Some(Request::ToggleAccessMethod { id }) => assert_eq!(id, "m-bridge"),
        other => panic!("unexpected request {other:?}"),
    }
    match press(app(), widgets::API_ACCESS_USE_BASE).request {
        Some(Request::SetActiveAccessMethod { id }) => assert_eq!(id, "m-direct"),
        other => panic!("unexpected request {other:?}"),
    }
    assert!(press(app(), widgets::API_ACCESS_USE_BASE + 2).request.is_none());
    match press(app(), widgets::SPLIT_TUNNEL_REMOVE_APP_BASE).request {
        Some(Request::RemoveSplitTunnelApp { path }) => assert_eq!(path, "/usr/bin/firefox"),
        other => panic!("unexpected request {other:?}"),
    }
    assert!(press(app(), widgets::SPLIT_TUNNEL_REMOVE_APP_BASE + 1).request.is_none());
    assert!(matches!(
        press(app(), widgets::SPLIT_TUNNEL_REMOVE_PID_BASE + 1).request,
        Some(Request::RemoveSplitTunnelProcess { pid: 17 })
    ));
    assert!(press(App::new(), widgets::SPLIT_TUNNEL_REMOVE_PID_BASE).request.is_none());
    match press(app(), widgets::RELAY_OVERRIDE_REMOVE_BASE).overlay {
        OverlayMode::Confirm { title, message, action, .. } => {
            assert_eq!(title, "Remove server IP override");
            assert_eq!(
                message,
                "Remove the IPv4/IPv6 in-address override for `se-got-wg-001`? The daemon will fall back to the upstream-published address.",
            );
            match action {
                ConfirmAction::RemoveRelayOverride { hostname } => {
                    assert_eq!(hostname, "se-got-wg-001")
                }
                other => panic!("unexpected action {other:?}"),
            }
        }
        OverlayMode::Hidden => panic!("a question is expected"),
    }
    assert!(matches!(
        press(app(), widgets::RELAY_OVERRIDE_REMOVE_BASE + 1).overlay,
        OverlayMode::Hidden
    ));
    assert!(matches!(
        press(app(), widgets::RELAY_OVERRIDE_CLEAR_ALL).overlay,
        OverlayMode::Confirm { action: ConfirmAction::ClearRelayOverrides, .. }
    ));
}

#[test]
fn failures_carry_the_name_of_the_action() {
    for (request, action) in [
        (Request::ToggleMultihop, "multihop toggle"),
        (Request::ToggleDaita, "DAITA toggle"),
        (Request::ToggleDaitaDirectOnly, "DAITA Direct only toggle"),
        (Request::ToggleAutoConnect, "auto-connect toggle"),
        (Request::ToggleLan, "LAN toggle"),
        (Request::ToggleIpv6, "IPv6 toggle"),
        (Request::ToggleQuantumResistant, "quantum-resistant toggle"),
        (Request::SetIpVersion { version: None }, "device IP version"),
        (Request::ToggleCustomDns, "custom DNS toggle"),
        (Request::RemoveCustomDns { index: 0 }, "remove custom DNS server"),
        (Request::ToggleSplitTunnel, "split-tunnel toggle"),
        (Request::RemoveSplitTunnelProcess { pid: 1 }, "remove split-tunnel PID"),
        (Request::ToggleAccessMethod { id: "m".to_string() }, "toggle API access method"),
        (Request::SetActiveAccessMethod { id: "m".to_string() }, "set active API access method"),
    ] {
        let mut a = app();
        complete(&mut a, &request, Err("gone".to_string()));
        assert_eq!(notice(&a), format!("{action}: gone"));
        let mut a = app();
        complete(&mut a, &request, Ok(true));
        assert_eq!(notice(&a), "");
    }
    let mut a = app();
    complete(&mut a, &Request::RefreshSplitTunnelPids, Err("gone".to_string()));
    assert_eq!(notice(&a), "");
}

#[test]
fn lookups_stop_at_the_end_of_their_list() {
    let a = app();
    assert_eq!(split_tunnel_app_at(&a, 0).as_deref(), Some("/usr/bin/firefox"));
    assert_eq!(split_tunnel_app_at(&a, 1), None);
    assert_eq!(split_tunnel_pid_at(&a, 1), Some(17));
    assert_eq!(split_tunnel_pid_at(&a, 2), None);
    assert_eq!(api_access::method_id_at(&a, 1).as_deref(), Some("m-bridge"));
    assert_eq!(api_access::method_id_at(&a, 2), None);
    assert_eq!(api_access::method_id_at(&App::new(), 0), None);
}

#[test]
fn ports_of_the_modes() {
    let s = settings();
    let port = |mode| anti_censorship::current_port_for_mode(&s.obfuscation_settings, mode);
    assert_eq!(port(SelectedObfuscation::Udp2Tcp), Some(443));
    assert_eq!(port(SelectedObfuscation::Shadowsocks), None);
    assert_eq!(port(SelectedObfuscation::WireguardPort), Some(53));
    assert_eq!(port(SelectedObfuscation::Quic), None);
}

// ---- What the pages show ----

fn whole() -> Rect {
    Rect::new(0, 0, 60, 30)
}

fn shown(scene: &Scene) -> Vec<(u16, String)> {
    let mut rows: Vec<(u16, String)> = Vec::new();
    for op in &scene.ops {
        match op {
            Op::Text { area, text, .. } => {
                for line in &text.lines {
                    let content: String = line
                        .spans
                        .iter()
                        .map(|span| match span {
                            TextSpan::Styled { content, .. } => content.as_str(),
                            TextSpan::Ansi { content, .. } => content.as_str(),
                            TextSpan::Cursor { .. } | TextSpan::Spinner { .. } => "█",
                        })
                        .collect();
                    rows.push((area.y, content));
                }
            }
            Op::Button { area, label, .. } => rows.push((area.y, format!("[{label}]"))),
            Op::CenteredButton { area, label, .. } => rows.push((area.y, format!("[{label}]"))),
            Op::LabelButtonRow { area, label, button, .. } => {
                rows.push((area.y, format!("{label} [{button}]")))
            }
            _ => {}
        }
    }
    rows
}

fn texts(scene: &Scene) -> Vec<String> {
    shown(scene).into_iter().map(|row| row.1).collect()
}

#[test]
fn multihop_page_shows_its_state() {
    let scene = render_multihop(whole(), &app());
    let rows = texts(&scene);
    assert_eq!(rows[0], "Multihop");
    assert_eq!(&rows[2..], ["Status: Off", "[ ]"]);
}

#[test]
fn daita_page_offers_only_pages_that_are_there() {
    let mut a = app();
    let rows = texts(&render_daita(whole(), &a));
    assert!(!rows.contains(&"[<]".to_string()));
    assert!(rows.contains(&"Page 1/2".to_string()));
    assert!(rows.contains(&"[>]".to_string()));
    assert!(rows.contains(&"Status: On".to_string()));
    assert!(rows.contains(&"Direct only: On [x]".to_string()));
    let toggles = shown(&render_daita(whole(), &a)).into_iter().find(|r| r.1 == "Status: On");
    a.settings_state.daita_blurb_page = 1;
    let scene = render_daita(whole(), &a);
    let rows = texts(&scene);
    assert!(rows.contains(&"[<]".to_string()));
    assert!(rows.contains(&"Page 2/2".to_string()));
    assert!(!rows.contains(&"[>]".to_string()));
    assert_eq!(shown(&scene).into_iter().find(|r| r.1 == "Status: On"), toggles);
}

#[test]
fn vpn_page_lists_sixteen_rows() {
    let mut a = app();
    let scene = render_vpn_settings(whole(), &mut a);
    assert_eq!(a.settings_state.mtu_buffer, "1380");
    let rows = shown(&scene);
    assert_eq!(rows.last(), Some(&(15, "Server IP override [>]".to_string())));
    assert!(rows.contains(&(3, "Use custom DNS server [2 servers >]".to_string())));
    assert!(rows.contains(&(7, "Anti-censorship [udp2tcp >]".to_string())));
    assert!(rows.contains(&(14, "Valid range: 1280-1420.".to_string())));
}

#[test]
fn a_focused_mtu_field_keeps_what_was_typed() {
    let mut a = app();
    a.settings_state.mtu_buffer = "13".to_string();
    a.focused = Some(WidgetId(widgets::VPN_MTU_EDIT));
    let _ = render_vpn_settings(whole(), &mut a);
    assert_eq!(a.settings_state.mtu_buffer, "13");
    a.focused = None;
    let _ = render_vpn_settings(whole(), &mut a);
    assert_eq!(a.settings_state.mtu_buffer, "1380");
}

#[test]
fn split_tunnel_page_lists_processes_or_applications() {
    let rows = texts(&render_split_tunnel(whole(), &app(), true));
    assert!(rows.contains(&"Excluded PIDs:".to_string()));
    assert!(rows.contains(&"    4242".to_string()));
    assert!(rows.contains(&"[Add PID]".to_string()));
    let rows = texts(&render_split_tunnel(whole(), &app(), false));
    assert!(rows.contains(&"    /usr/bin/firefox".to_string()));
    assert!(rows.contains(&"[Add path]".to_string()));
    let rows = texts(&render_split_tunnel(whole(), &App::new(), true));
    assert!(rows.contains(&"    (none)".to_string()));
}

#[test]
fn anti_censorship_page_marks_the_mode_and_offers_its_port() {
    let rows = texts(&anti_censorship::render(whole(), &app()));
    assert!(rows.contains(&"* udp2tcp [Select]".to_string()));
    assert!(rows.contains(&"  quic [Select]".to_string()));
    assert!(rows.contains(&"Port: 443 [Edit]".to_string()));
    let rows = texts(&anti_censorship::render(whole(), &App::new()));
    assert!(rows.contains(&"* auto [Select]".to_string()));
    assert!(!rows.iter().any(|row| row.starts_with("Port")));
}

#[test]
fn api_access_page_marks_the_method_in_use() {
    let mut a = app();
    a.api_access_id = Some("m-bridge".to_string());
    let rows = texts(&api_access::render(whole(), &a));
    assert_eq!(
        &rows[2..],
        ["  Direct", "[x]", "[Use]", "* Mullvad Bridges", "[ ]", "[Use]"],
    );
    let rows = texts(&api_access::render(whole(), &App::new()));
    assert_eq!(rows[2], "    (loading methods…)");
}

#[test]
fn custom_dns_page_lists_servers_above_the_last_row() {
    let scene = custom_dns::render(whole(), &app());
    let rows = shown(&scene);
    let texts: Vec<&str> = rows.iter().map(|r| r.1.as_str()).collect();
    assert!(texts.contains(&"    9.9.9.9"));
    assert!(texts.contains(&"[Edit]"));
    assert_eq!(rows.last(), Some(&(29, "[Add address]".to_string())));
    let empty = custom_dns::render(whole(), &App::new());
    assert!(shown(&empty).iter().any(|r| r.1 == "    (no servers configured)"));
}

#[test]
fn dns_blockers_page_has_a_row_for_each() {
    let rows = texts(&dns_blockers::render(whole(), &app()));
    assert!(rows.iter().any(|row| row.ends_with(": On [x]")));
    assert_eq!(rows.iter().filter(|row| row.ends_with(": Off [ ]")).count(), 5);
}

#[test]
fn relay_overrides_page_shows_both_addresses() {
    let rows = texts(&relay_overrides::render(whole(), &app()));
    assert!(rows.contains(&"se-got-wg-001 [Remove]".to_string()));
    assert!(rows.contains(&"    v4 192.0.2.77".to_string()));
    assert!(rows.contains(&"    v6 \u{2014}".to_string()));
    assert_eq!(&rows[rows.len() - 2..], ["[Add override\u{2026}]", "[Clear all]"]);
    let rows = texts(&relay_overrides::render(whole(), &App::new()));
    assert!(rows.contains(&"    (no overrides configured)".to_string()));
}

//! What the Settings pages do and show, said of the settings themselves.

use crate::app::{
    mtu_text, Answer, App, ConfirmActionView, DnsBlocker, InputView, NotificationView, OverlayView,
    PageId, RequestView, Return,
};
use crate::daemon::{
    DaitaSettings, DnsBlockers, DnsSettings, IpVersion, ObfuscationSettings, SelectedObfuscation,
    Settings, SplitTunnelSettings, TunnelState,
};
use crate::focus::WidgetId;
use crate::pages::settings::vpn::{rows_in, VpnRowView};
use crate::pages::settings::{
    all_digits, answer_notice, app_after, digits_value, ends_program, fixed_step, fixed_widget,
    fixed_widgets_have_their_own_ids, is_fixed, is_list_row, is_own, number_of, step, texts, typed_mtu,
    widgets, SettingsWidget, Step, DAITA_BLURB_PAGES,
};
use crate::text::decimal_digits;
use vstd::prelude::*;

verus! {

// ---- What a request changes ----

/// The blockers with one of them set to `on`.
pub open spec fn with_blocker(b: DnsBlockers, blocker: DnsBlocker, on: bool) -> DnsBlockers {
    match blocker {
        DnsBlocker::Ads => DnsBlockers { ads: on, ..b },
        DnsBlocker::Trackers => DnsBlockers { trackers: on, ..b },
        DnsBlocker::Malware => DnsBlockers { malware: on, ..b },
        DnsBlocker::AdultContent => DnsBlockers { adult_content: on, ..b },
        DnsBlocker::Gambling => DnsBlockers { gambling: on, ..b },
        DnsBlocker::SocialMedia => DnsBlockers { social_media: on, ..b },
    }
}

/// The settings after the daemon did what `request` asks for, as far as that
/// turns a setting over or chooses its value.
pub open spec fn carried_out(s: Settings, request: RequestView) -> Settings {
    match request {
        RequestView::ToggleMultihop => Settings { use_multihop: !s.use_multihop, ..s },
        RequestView::ToggleDaita => Settings {
            daita: DaitaSettings { enabled: !s.daita.enabled, ..s.daita },
            ..s
        },
        RequestView::ToggleDaitaDirectOnly => Settings {
            daita: DaitaSettings {
                use_multihop_if_necessary: !s.daita.use_multihop_if_necessary,
                ..s.daita
            },
            ..s
        },
        RequestView::ToggleAutoConnect => Settings { auto_connect: !s.auto_connect, ..s },
        RequestView::ToggleLan => Settings { allow_lan: !s.allow_lan, ..s },
        RequestView::ToggleIpv6 => Settings { enable_ipv6: !s.enable_ipv6, ..s },
        RequestView::ToggleQuantumResistant => Settings {
            quantum_resistant: !s.quantum_resistant,
            ..s
        },
        RequestView::ToggleCustomDns => Settings {
            dns: DnsSettings { custom: !s.dns.custom, ..s.dns },
            ..s
        },
        RequestView::ToggleSplitTunnel => Settings {
            split_tunnel: SplitTunnelSettings {
                enabled: !s.split_tunnel.enabled,
                ..s.split_tunnel
            },
            ..s
        },
        RequestView::SetIpVersion { version } => Settings { ip_version: version, ..s },
        RequestView::SetDnsBlocker { blocker, enabled } => Settings {
            dns: DnsSettings {
                blockers: with_blocker(s.dns.blockers, blocker, enabled),
                ..s.dns
            },
            ..s
        },
        RequestView::SetAntiCensorshipMode { mode } => Settings {
            obfuscation_settings: ObfuscationSettings {
                selected_obfuscation: mode,
                ..s.obfuscation_settings
            },
            ..s
        },
        _ => s,
    }
}

/// The settings after the user said yes to `action`, as far as that turns a
/// setting over.
pub open spec fn confirmed(s: Settings, action: ConfirmActionView) -> Settings {
    match action {
        ConfirmActionView::ToggleLockdown => Settings { lockdown_mode: !s.lockdown_mode, ..s },
        _ => s,
    }
}

/// The settings after a widget was activated, and the user said yes where asked.
pub open spec fn settings_after(app: App, s: Settings, widget: WidgetId, linux: bool) -> Settings {
    let done = step(app, widget, linux);
    match (done.request, done.overlay) {
        (Some(request), _) => carried_out(s, request),
        (None, Some(OverlayView::Confirm { action, .. })) => confirmed(s, action),
        _ => s,
    }
}

/// The application with other settings.
pub open spec fn with_settings(app: App, s: Settings) -> App {
    App { settings: Some(s), ..app }
}

// ---- What a widget does ----

/// The id of a fixed widget leads to that widget.
pub proof fn ids_lead_to_their_widgets(app: App, w: SettingsWidget, linux: bool)
    ensures
        step(app, WidgetId(w.id()), linux) == fixed_step(app, w, linux),
{
    assert(is_fixed(WidgetId(w.id())));
    assert(w.id() < widgets::CUSTOM_DNS_REMOVE_BASE);
    assert(!is_list_row(WidgetId(w.id())));
    let v = fixed_widget(w.id());
    assert(v.id() == w.id());
    fixed_widgets_have_their_own_ids(v, w);
}

/// Whether the tunnel state is one with nothing to take down.
pub open spec fn nothing_is_up(state: Option<TunnelState>) -> bool {
    match state {
        None => true,
        Some(TunnelState::Disconnected { .. }) => true,
        Some(_) => false,
    }
}

/// Each change is asked for by its own widget, and by no other.
pub proof fn each_change_has_its_own_widget(app: App, w: SettingsWidget, linux: bool)
    ensures
        ({
            let r = step(app, WidgetId(w.id()), linux).request;
            &&& r == Some(RequestView::ToggleMultihop) <==> w == SettingsWidget::MultihopToggle
            &&& r == Some(RequestView::ToggleDaita) <==> w == SettingsWidget::DaitaToggle
            &&& r == Some(RequestView::ToggleDaitaDirectOnly) <==> w
                == SettingsWidget::DaitaDirectOnlyToggle
            &&& r == Some(RequestView::ToggleAutoConnect) <==> w
                == SettingsWidget::VpnAutoConnectToggle
            &&& r == Some(RequestView::ToggleLan) <==> w == SettingsWidget::VpnLanToggle
            &&& r == Some(RequestView::ToggleIpv6) <==> w == SettingsWidget::VpnIpv6Toggle
            &&& r == Some(RequestView::ToggleQuantumResistant) <==> w
                == SettingsWidget::VpnQuantumToggle
            &&& r == Some(RequestView::ToggleCustomDns) <==> w == SettingsWidget::CustomDnsToggle
            &&& r == Some(RequestView::ToggleSplitTunnel) <==> w
                == SettingsWidget::SplitTunnelToggle
            &&& r == Some(RequestView::SetIpVersion { version: None }) <==> w
                == SettingsWidget::VpnDeviceIpAuto
            &&& r == Some(RequestView::SetIpVersion { version: Some(IpVersion::V4) }) <==> w
                == SettingsWidget::VpnDeviceIpV4
            &&& r == Some(RequestView::SetIpVersion { version: Some(IpVersion::V6) }) <==> w
                == SettingsWidget::VpnDeviceIpV6
            &&& r == Some(RequestView::RefreshCurrentAccessMethod) <==> w
                == SettingsWidget::ApiAccess
            &&& r == Some(RequestView::RefreshSplitTunnelPids) <==> w
                == SettingsWidget::SplitTunneling && linux
            &&& r == Some(RequestView::DisconnectAndQuit) <==> w
                == SettingsWidget::DisconnectAndQuit && !nothing_is_up(app.connection)
            &&& r is Some && r->0 is SetAntiCensorshipMode <==> is_mode_widget(w)
            &&& r is Some && r->0 is SetDnsBlocker <==> is_blocker_widget(w)
        }),
{
    ids_lead_to_their_widgets(app, w, linux);
}

/// Whether the widget is the row of an obfuscation mode.
pub open spec fn is_mode_widget(w: SettingsWidget) -> bool {
    ||| w == SettingsWidget::AntiCensorshipModeOff
    ||| w == SettingsWidget::AntiCensorshipModeAuto
    ||| w == SettingsWidget::AntiCensorshipModeUdp2Tcp
    ||| w == SettingsWidget::AntiCensorshipModeShadowsocks
    ||| w == SettingsWidget::AntiCensorshipModeWireguardPort
    ||| w == SettingsWidget::AntiCensorshipModeQuic
    ||| w == SettingsWidget::AntiCensorshipModeLwo
}

/// Whether the widget is the row of a content blocker.
pub open spec fn is_blocker_widget(w: SettingsWidget) -> bool {
    ||| w == SettingsWidget::DnsBlockAds
    ||| w == SettingsWidget::DnsBlockTrackers
    ||| w == SettingsWidget::DnsBlockMalware
    ||| w == SettingsWidget::DnsBlockAdultContent
    ||| w == SettingsWidget::DnsBlockGambling
    ||| w == SettingsWidget::DnsBlockSocialMedia
}

/// The row of an obfuscation mode sets that mode, and nothing else.
pub proof fn mode_rows_set_their_mode(app: App, s: Settings, linux: bool)
    requires
        app.settings == Some(s),
    ensures
        forall|w: SettingsWidget| #[trigger]
            is_mode_widget(w) ==> {
                let after = settings_after(app, s, WidgetId(w.id()), linux);
                &&& after == (Settings { obfuscation_settings: after.obfuscation_settings, ..s })
                &&& after.obfuscation_settings.selected_obfuscation == match w {
                    SettingsWidget::AntiCensorshipModeOff => SelectedObfuscation::Off,
                    SettingsWidget::AntiCensorshipModeAuto => SelectedObfuscation::Auto,
                    SettingsWidget::AntiCensorshipModeUdp2Tcp => SelectedObfuscation::Udp2Tcp,
                    SettingsWidget::AntiCensorshipModeShadowsocks => {
                        SelectedObfuscation::Shadowsocks
                    },
                    SettingsWidget::AntiCensorshipModeWireguardPort => {
                        SelectedObfuscation::WireguardPort
                    },
                    SettingsWidget::AntiCensorshipModeQuic => SelectedObfuscation::Quic,
                    _ => SelectedObfuscation::Lwo,
                }
            },
{
    assert forall|w: SettingsWidget| #[trigger] is_mode_widget(w) implies step(
        app,
        WidgetId(w.id()),
        linux,
    ) == fixed_step(app, w, linux) by {
        ids_lead_to_their_widgets(app, w, linux);
    }
}

/// The row of a content blocker turns that blocker over, and nothing else.
pub proof fn blocker_rows_turn_their_blocker_over(app: App, s: Settings, linux: bool)
    requires
        app.settings == Some(s),
    ensures
        ({
            let b = s.dns.blockers;
            let after = |w: SettingsWidget| settings_after(app, s, WidgetId(w.id()), linux);
            let with = |c: DnsBlockers|
                Settings { dns: DnsSettings { blockers: c, ..s.dns }, ..s };
            &&& after(SettingsWidget::DnsBlockAds) == with(DnsBlockers { ads: !b.ads, ..b })
            &&& after(SettingsWidget::DnsBlockTrackers) == with(
                DnsBlockers { trackers: !b.trackers, ..b },
            )
            &&& after(SettingsWidget::DnsBlockMalware) == with(
                DnsBlockers { malware: !b.malware, ..b },
            )
            &&& after(SettingsWidget::DnsBlockAdultContent) == with(
                DnsBlockers { adult_content: !b.adult_content, ..b },
            )
            &&& after(SettingsWidget::DnsBlockGambling) == with(
                DnsBlockers { gambling: !b.gambling, ..b },
            )
            &&& after(SettingsWidget::DnsBlockSocialMedia) == with(
                DnsBlockers { social_media: !b.social_media, ..b },
            )
        }),
{
    ids_lead_to_their_widgets(app, SettingsWidget::DnsBlockAds, linux);
    ids_lead_to_their_widgets(app, SettingsWidget::DnsBlockTrackers, linux);
    ids_lead_to_their_widgets(app, SettingsWidget::DnsBlockMalware, linux);
    ids_lead_to_their_widgets(app, SettingsWidget::DnsBlockAdultContent, linux);
    ids_lead_to_their_widgets(app, SettingsWidget::DnsBlockGambling, linux);
    ids_lead_to_their_widgets(app, SettingsWidget::DnsBlockSocialMedia, linux);
}

/// Each sub-page is opened by its own widget, and by no other.
pub proof fn each_page_has_its_own_widget(app: App, w: SettingsWidget, linux: bool)
    ensures
        ({
            let page = step(app, WidgetId(w.id()), linux).page;
            &&& page == Some(PageId::SettingsDaita) <==> w == SettingsWidget::Daita
            &&& page == Some(PageId::SettingsMultihop) <==> w == SettingsWidget::Multihop
            &&& page == Some(PageId::SettingsVpn) <==> w == SettingsWidget::VpnSettings
            &&& page == Some(PageId::SettingsApiAccess) <==> w == SettingsWidget::ApiAccess
            &&& page == Some(PageId::SettingsSplitTunnel) <==> w == SettingsWidget::SplitTunneling
            &&& page == Some(PageId::SettingsAntiCensorship) <==> w
                == SettingsWidget::VpnAntiCensorshipEdit
            &&& page == Some(PageId::SettingsDnsBlockers) <==> w
                == SettingsWidget::VpnDnsBlockersInfo
            &&& page == Some(PageId::SettingsCustomDns) <==> w == SettingsWidget::VpnCustomDnsInfo
            &&& page == Some(PageId::SettingsRelayOverrides) <==> w
                == SettingsWidget::VpnServerIpInfo
            &&& page is Some ==> {
                ||| page == Some(PageId::SettingsDaita)
                ||| page == Some(PageId::SettingsMultihop)
                ||| page == Some(PageId::SettingsVpn)
                ||| page == Some(PageId::SettingsApiAccess)
                ||| page == Some(PageId::SettingsSplitTunnel)
                ||| page == Some(PageId::SettingsAntiCensorship)
                ||| page == Some(PageId::SettingsDnsBlockers)
                ||| page == Some(PageId::SettingsCustomDns)
                ||| page == Some(PageId::SettingsRelayOverrides)
            }
        }),
{
    ids_lead_to_their_widgets(app, w, linux);
}

/// Each text input and each question is opened by its own widget, and the program
/// ends at once only where there is nothing to take down.
pub proof fn each_input_and_question_has_its_own_widget(app: App, w: SettingsWidget, linux: bool)
    ensures
        ({
            let done = step(app, WidgetId(w.id()), linux);
            let input = done.input;
            &&& input is Some && input->0 is CustomDnsInput <==> w
                == SettingsWidget::CustomDnsAddAddress
            &&& w == SettingsWidget::CustomDnsAddAddress ==> input->0->buffer.len() == 0
                && input->0->edit_index is None
            &&& input is Some && input->0 is SplitTunnelPathInput <==> w
                == SettingsWidget::SplitTunnelAddApp
            &&& input is Some && input->0 is SplitTunnelPidInput <==> w
                == SettingsWidget::SplitTunnelAddPid
            &&& input is Some && input->0 is RelayOverrideInput <==> w
                == SettingsWidget::RelayOverrideAdd
            &&& input is Some && input->0 is PortInput ==> w
                == SettingsWidget::AntiCensorshipPortEdit
            &&& input is Some ==> !(input->0 is Normal) && !(input->0 is VoucherInput)
                && !(input->0 is AccountInput)
            &&& done.overlay is Some <==> w == SettingsWidget::VpnLockdownToggle || w
                == SettingsWidget::RelayOverrideClearAll
            &&& done.overlay is Some ==> done.overlay->0 is Confirm
                && done.overlay->0->return_focus == app.focused
            &&& w == SettingsWidget::VpnLockdownToggle ==> done.overlay->0->action
                == ConfirmActionView::ToggleLockdown
            &&& w == SettingsWidget::RelayOverrideClearAll ==> done.overlay->0->action
                == ConfirmActionView::ClearRelayOverrides
            &&& done.quit <==> w == SettingsWidget::DisconnectAndQuit && nothing_is_up(
                app.connection,
            )
            &&& done.message is Some <==> {
                ||| w == SettingsWidget::VpnKillSwitchInfo
                ||| w == SettingsWidget::VpnKillSwitchToggle
                ||| w == SettingsWidget::VpnDeviceIpInfo
                ||| w == SettingsWidget::VpnLanInfo
                ||| w == SettingsWidget::VpnIpv6Info
                ||| w == SettingsWidget::VpnLockdownInfo
                ||| w == SettingsWidget::VpnQuantumInfo
            }
            &&& done.blurb_page is Some <==> w == SettingsWidget::DaitaBlurbPrev || w
                == SettingsWidget::DaitaBlurbNext
        }),
{
    ids_lead_to_their_widgets(app, w, linux);
}

/// The port of a mode can be edited exactly where the mode in use has one, and it
/// is that mode's port that is edited.
pub proof fn the_port_edited_is_that_of_the_mode_in_use(app: App, s: Settings, linux: bool)
    requires
        app.settings == Some(s),
    ensures
        ({
            let mode = s.obfuscation_settings.selected_obfuscation;
            let input = step(
                app,
                WidgetId(SettingsWidget::AntiCensorshipPortEdit.id()),
                linux,
            ).input;
            input == if mode == SelectedObfuscation::Udp2Tcp || mode
                == SelectedObfuscation::Shadowsocks || mode == SelectedObfuscation::WireguardPort {
                Some(InputView::PortInput { mode })
            } else {
                None
            }
        }),
{
    ids_lead_to_their_widgets(app, SettingsWidget::AntiCensorshipPortEdit, linux);
}

// ---- List rows ----

/// A row of a list acts on what the list holds at the row's place, and on
/// nothing where the list is shorter.
pub proof fn list_rows_act_on_their_entries(app: App, s: Settings, linux: bool, i: int)
    requires
        app.settings == Some(s),
        i >= 0,
    ensures
        i < 16 ==> {
            let remove = step(app, WidgetId((widgets::CUSTOM_DNS_REMOVE_BASE + i) as u32), linux);
            let edit = step(app, WidgetId((widgets::CUSTOM_DNS_EDIT_BASE + i) as u32), linux);
            &&& remove.request == Some(RequestView::RemoveCustomDns { index: i as usize })
            &&& edit.request is None
            &&& edit.input is Some && edit.input->0 is CustomDnsInput
            &&& edit.input->0->edit_index == Some(i as usize)
            &&& i < s.dns.addresses@.len() ==> edit.input->0->buffer == s.dns.addresses@[i]@
            &&& i >= s.dns.addresses@.len() ==> edit.input->0->buffer.len() == 0
        },
        i < 16 ==> {
            let toggle = step(app, WidgetId((widgets::API_ACCESS_TOGGLE_BASE + i) as u32), linux);
            let used = step(app, WidgetId((widgets::API_ACCESS_USE_BASE + i) as u32), linux);
            if i < s.api_access_methods@.len() {
                &&& toggle.request == Some(
                    RequestView::ToggleAccessMethod { id: s.api_access_methods@[i].id@ },
                )
                &&& used.request == Some(
                    RequestView::SetActiveAccessMethod { id: s.api_access_methods@[i].id@ },
                )
            } else {
                toggle.request is None && used.request is None
            }
        },
        i < 32 ==> step(
            app,
            WidgetId((widgets::SPLIT_TUNNEL_REMOVE_APP_BASE + i) as u32),
            linux,
        ).request == if i < s.split_tunnel.apps@.len() {
            Some(RequestView::RemoveSplitTunnelApp { path: s.split_tunnel.apps@[i]@ })
        } else {
            None
        },
        i < 32 ==> step(
            app,
            WidgetId((widgets::SPLIT_TUNNEL_REMOVE_PID_BASE + i) as u32),
            linux,
        ).request == match app.split_tunnel_pids {
            Some(pids) => if i < pids@.len() {
                Some(RequestView::RemoveSplitTunnelProcess { pid: pids@[i] })
            } else {
                None
            },
            None => None,
        },
        i < 32 ==> {
            let remove = step(
                app,
                WidgetId((widgets::RELAY_OVERRIDE_REMOVE_BASE + i) as u32),
                linux,
            );
            &&& remove.request is None
            &&& remove.overlay is Some <==> i < s.relay_overrides@.len()
            &&& remove.overlay is Some ==> remove.overlay->0 is Confirm
                && remove.overlay->0->action == (ConfirmActionView::RemoveRelayOverride {
                hostname: s.relay_overrides@[i].hostname@,
            }) && remove.overlay->0->return_focus == app.focused
        },
{
}

// ---- What the VPN page shows ----

/// Whether `rows` hold one checkbox row with the id `id`, and it is checked
/// exactly if `on`.
pub open spec fn checkbox_is(rows: Seq<VpnRowView>, id: u32, on: bool) -> bool {
    &&& exists|i: int| 0 <= i < rows.len() && is_checkbox(#[trigger] rows[i], id)
    &&& forall|i: int|
        0 <= i < rows.len() && is_checkbox(#[trigger] rows[i], id) ==> rows[i]->enabled == on
}

/// Whether a row is the checkbox with the id `id`.
pub open spec fn is_checkbox(row: VpnRowView, id: u32) -> bool {
    row is Toggle && row->toggle_id == WidgetId(id)
}

/// Each checkbox of the page is checked exactly if the setting that it stands for
/// is on. Without settings all are clear, but for the kill switch, which is
/// always on.
pub proof fn checkboxes_show_their_settings(app: App, buffer: Seq<char>)
    ensures
        ({
            let rows = rows_in(app, buffer);
            let s = app.settings->0;
            let known = app.settings is Some;
            &&& checkbox_is(rows, widgets::VPN_AUTO_CONNECT_TOGGLE, known && s.auto_connect)
            &&& checkbox_is(rows, widgets::VPN_LAN_TOGGLE, known && s.allow_lan)
            &&& checkbox_is(rows, widgets::VPN_IPV6_TOGGLE, known && s.enable_ipv6)
            &&& checkbox_is(rows, widgets::VPN_KILL_SWITCH_TOGGLE, true)
            &&& checkbox_is(rows, widgets::VPN_LOCKDOWN_TOGGLE, known && s.lockdown_mode)
            &&& checkbox_is(rows, widgets::VPN_QUANTUM_TOGGLE, known && s.quantum_resistant)
        }),
{
    let rows = rows_in(app, buffer);
    assert(is_checkbox(rows[0], widgets::VPN_AUTO_CONNECT_TOGGLE));
    assert(is_checkbox(rows[1], widgets::VPN_LAN_TOGGLE));
    assert(is_checkbox(rows[4], widgets::VPN_IPV6_TOGGLE));
    assert(is_checkbox(rows[5], widgets::VPN_KILL_SWITCH_TOGGLE));
    assert(is_checkbox(rows[6], widgets::VPN_LOCKDOWN_TOGGLE));
    assert(is_checkbox(rows[8], widgets::VPN_QUANTUM_TOGGLE));
}

/// Activating a checkbox of the page turns its own mark over, once the daemon did
/// what was asked for and the user said yes where asked, and changes no other
/// row. The kill switch changes nothing.
pub proof fn a_checkbox_turns_itself_over(
    app: App,
    s: Settings,
    buffer: Seq<char>,
    linux: bool,
    i: int,
)
    requires
        app.settings == Some(s),
        0 <= i < rows_in(app, buffer).len(),
        rows_in(app, buffer)[i] is Toggle,
    ensures
        ({
            let rows = rows_in(app, buffer);
            let id = rows[i]->toggle_id;
            let after = rows_in(with_settings(app, settings_after(app, s, id, linux)), buffer);
            if id == WidgetId(widgets::VPN_KILL_SWITCH_TOGGLE) {
                after == rows
            } else {
                after == rows.update(
                    i,
                    VpnRowView::Toggle {
                        label: rows[i]->Toggle_label,
                        enabled: !rows[i]->enabled,
                        info_id: rows[i]->info_id,
                        toggle_id: id,
                    },
                )
            }
        }),
{
    let rows = rows_in(app, buffer);
    let id = rows[i]->toggle_id;
    ids_lead_to_their_widgets(app, SettingsWidget::VpnAutoConnectToggle, linux);
    ids_lead_to_their_widgets(app, SettingsWidget::VpnLanToggle, linux);
    ids_lead_to_their_widgets(app, SettingsWidget::VpnIpv6Toggle, linux);
    ids_lead_to_their_widgets(app, SettingsWidget::VpnKillSwitchToggle, linux);
    ids_lead_to_their_widgets(app, SettingsWidget::VpnLockdownToggle, linux);
    ids_lead_to_their_widgets(app, SettingsWidget::VpnQuantumToggle, linux);
    let after = rows_in(with_settings(app, settings_after(app, s, id, linux)), buffer);
    if id == WidgetId(widgets::VPN_KILL_SWITCH_TOGGLE) {
        assert(after =~= rows);
    } else {
        assert(after =~= rows.update(
            i,
            VpnRowView::Toggle {
                label: rows[i]->Toggle_label,
                enabled: !rows[i]->enabled,
                info_id: rows[i]->info_id,
                toggle_id: id,
            },
        ));
    }
}

/// Whether `rows` hold one radio row with the id `id`, and it is selected exactly
/// if `on`.
pub open spec fn radio_is(rows: Seq<VpnRowView>, id: u32, on: bool) -> bool {
    &&& exists|i: int| 0 <= i < rows.len() && is_radio_row(#[trigger] rows[i], id)
    &&& forall|i: int|
        0 <= i < rows.len() && is_radio_row(#[trigger] rows[i], id) ==> rows[i]->selected == on
}

/// Whether a row is the radio with the id `id`.
pub open spec fn is_radio_row(row: VpnRowView, id: u32) -> bool {
    row is Radio && row->Radio_id == WidgetId(id)
}

/// Of the three radios for the IP version, the one of the version in the settings
/// is selected, and activating one selects it.
pub proof fn one_ip_version_is_selected(
    app: App,
    s: Settings,
    buffer: Seq<char>,
    linux: bool,
    id: u32,
)
    requires
        app.settings == Some(s),
        id == widgets::VPN_DEVICE_IP_AUTO || id == widgets::VPN_DEVICE_IP_V4 || id
            == widgets::VPN_DEVICE_IP_V6,
    ensures
        ({
            let rows = rows_in(app, buffer);
            let after = rows_in(
                with_settings(app, settings_after(app, s, WidgetId(id), linux)),
                buffer,
            );
            &&& radio_is(rows, widgets::VPN_DEVICE_IP_AUTO, s.ip_version is None)
            &&& radio_is(rows, widgets::VPN_DEVICE_IP_V4, s.ip_version == Some(IpVersion::V4))
            &&& radio_is(rows, widgets::VPN_DEVICE_IP_V6, s.ip_version == Some(IpVersion::V6))
            &&& radio_is(after, id, true)
        }),
{
    ids_lead_to_their_widgets(app, SettingsWidget::VpnDeviceIpAuto, linux);
    ids_lead_to_their_widgets(app, SettingsWidget::VpnDeviceIpV4, linux);
    ids_lead_to_their_widgets(app, SettingsWidget::VpnDeviceIpV6, linux);
    let rows = rows_in(app, buffer);
    let after = rows_in(with_settings(app, settings_after(app, s, WidgetId(id), linux)), buffer);
    assert(is_radio_row(rows[10], widgets::VPN_DEVICE_IP_AUTO));
    assert(is_radio_row(rows[11], widgets::VPN_DEVICE_IP_V4));
    assert(is_radio_row(rows[12], widgets::VPN_DEVICE_IP_V6));
    assert(is_radio_row(after[10], widgets::VPN_DEVICE_IP_AUTO));
    assert(is_radio_row(after[11], widgets::VPN_DEVICE_IP_V4));
    assert(is_radio_row(after[12], widgets::VPN_DEVICE_IP_V6));
}

// ---- Texts ----

/// Each information button tells about its own setting.
pub proof fn information_is_about_its_setting(app: App, linux: bool)
    ensures
        ({
            let told = |w: SettingsWidget| step(app, WidgetId(w.id()), linux).message;
            &&& told(SettingsWidget::VpnKillSwitchInfo) == Some(texts::KILL_SWITCH_INFO@)
            &&& told(SettingsWidget::VpnKillSwitchToggle) == Some(texts::KILL_SWITCH_INFO@)
            &&& told(SettingsWidget::VpnDeviceIpInfo) == Some(texts::DEVICE_IP_INFO@)
            &&& told(SettingsWidget::VpnLanInfo) == Some(texts::LAN_INFO@)
            &&& told(SettingsWidget::VpnIpv6Info) == Some(texts::IPV6_INFO@)
            &&& told(SettingsWidget::VpnLockdownInfo) == Some(texts::LOCKDOWN_INFO@)
            &&& told(SettingsWidget::VpnQuantumInfo) == Some(texts::QUANTUM_INFO@)
        }),
{
    ids_lead_to_their_widgets(app, SettingsWidget::VpnKillSwitchInfo, linux);
    ids_lead_to_their_widgets(app, SettingsWidget::VpnKillSwitchToggle, linux);
    ids_lead_to_their_widgets(app, SettingsWidget::VpnDeviceIpInfo, linux);
    ids_lead_to_their_widgets(app, SettingsWidget::VpnLanInfo, linux);
    ids_lead_to_their_widgets(app, SettingsWidget::VpnIpv6Info, linux);
    ids_lead_to_their_widgets(app, SettingsWidget::VpnLockdownInfo, linux);
    ids_lead_to_their_widgets(app, SettingsWidget::VpnQuantumInfo, linux);
}

/// Each question says what it asks about; the one on a relay names the relay.
pub proof fn questions_say_what_they_are_about(app: App, s: Settings, linux: bool, i: int)
    requires
        app.settings == Some(s),
        0 <= i < s.relay_overrides@.len(),
        i < 32,
    ensures
        ({
            let asked = |w: WidgetId| step(app, w, linux).overlay->0;
            let lockdown = asked(WidgetId(widgets::VPN_LOCKDOWN_TOGGLE));
            let clear = asked(WidgetId(widgets::RELAY_OVERRIDE_CLEAR_ALL));
            let remove = asked(WidgetId((widgets::RELAY_OVERRIDE_REMOVE_BASE + i) as u32));
            &&& lockdown->title == "Confirm lockdown mode update"@
            &&& lockdown->message == texts::LOCKDOWN_QUESTION@
            &&& clear->title == "Clear all server IP overrides"@
            &&& clear->message == texts::CLEAR_OVERRIDES_QUESTION@
            &&& remove->title == "Remove server IP override"@
            &&& remove->message == texts::REMOVE_OVERRIDE_QUESTION@
                + s.relay_overrides@[i].hostname@ + texts::REMOVE_OVERRIDE_QUESTION_END@
        }),
{
    ids_lead_to_their_widgets(app, SettingsWidget::VpnLockdownToggle, linux);
    ids_lead_to_their_widgets(app, SettingsWidget::RelayOverrideClearAll, linux);
}

/// The pager of the DAITA page turns one page at a time, and stops at both ends.
pub proof fn the_pager_turns_one_page(app: App, linux: bool)
    requires
        app.settings_state.daita_blurb_page < DAITA_BLURB_PAGES,
    ensures
        ({
            let page = app.settings_state.daita_blurb_page;
            let previous = step(app, WidgetId(widgets::DAITA_BLURB_PREV), linux).blurb_page;
            let next = step(app, WidgetId(widgets::DAITA_BLURB_NEXT), linux).blurb_page;
            &&& previous is Some && next is Some
            &&& previous->0 == page - 1 || page == 0 && previous->0 == 0
            &&& next->0 == page + 1 || page == DAITA_BLURB_PAGES - 1 && next->0 == page
            &&& next->0 < DAITA_BLURB_PAGES
        }),
{
    ids_lead_to_their_widgets(app, SettingsWidget::DaitaBlurbPrev, linux);
    ids_lead_to_their_widgets(app, SettingsWidget::DaitaBlurbNext, linux);
}

// ---- What a step changes ----

/// What a step says is what changes: the page that it opens leads back to where
/// it was opened, its message is shown, and all else stays.
pub proof fn steps_change_what_they_say(before: App, after: App, done: Step)
    requires
        app_after(before, after, done),
    ensures
        done.page is Some ==> after.page == done.page->0 && after.returns@ == before.returns@.push(
            Return { page: before.page, focused: before.focused },
        ),
        done.page is None ==> after.page == before.page && after.returns == before.returns,
        done.message is Some ==> after.notification is Some && after.notification->0@
            == NotificationView::Message(done.message->0),
        done.message is None ==> after.notification == before.notification,
        done.blurb_page is Some ==> after.settings_state.daita_blurb_page == done.blurb_page->0,
        done.blurb_page is None ==> after.settings_state == before.settings_state,
        after.settings_state.mtu_buffer == before.settings_state.mtu_buffer,
        after.quit <==> before.quit || done.quit,
        after.settings == before.settings,
        after.focused == before.focused,
        after.connection == before.connection,
        after.account == before.account,
        after.select_location_state == before.select_location_state,
{
}

// ---- Answers ----

/// The user is told of every failed change, by its name and in the daemon's own
/// words, and of nothing else; only disconnecting on the way out ends the
/// program.
pub proof fn failures_are_reported(request: RequestView, answer: Answer)
    ensures
        ({
            let notice = answer_notice(request, answer);
            let is_change = match request {
                RequestView::Connect => false,
                RequestView::Reconnect => false,
                RequestView::DisconnectAndQuit => false,
                RequestView::SelectCountry { .. } => false,
                RequestView::SelectCity { .. } => false,
                RequestView::SelectRelay { .. } => false,
                RequestView::ListDevices => false,
                RequestView::RemoveDevice { .. } => false,
                RequestView::RefreshCurrentAccessMethod => false,
                RequestView::RefreshSplitTunnelPids => false,
                _ => true,
            };
            &&& notice is Some <==> answer is Err && is_change
            &&& notice is Some ==> notice->0 is ActionFailed && notice->0->error == answer->Err_0@
                && names_the_change(request, notice->0->action)
            &&& ends_program(request) <==> request == RequestView::DisconnectAndQuit
        }),
{
}

/// Whether `name` is the name of the change that `request` asks for.
pub open spec fn names_the_change(request: RequestView, name: Seq<char>) -> bool {
    &&& name == "multihop toggle"@ || request != RequestView::ToggleMultihop
    &&& name == "DAITA toggle"@ || request != RequestView::ToggleDaita
    &&& name == "DAITA Direct only toggle"@ || request != RequestView::ToggleDaitaDirectOnly
    &&& name == "auto-connect toggle"@ || request != RequestView::ToggleAutoConnect
    &&& name == "LAN toggle"@ || request != RequestView::ToggleLan
    &&& name == "IPv6 toggle"@ || request != RequestView::ToggleIpv6
    &&& name == "quantum-resistant toggle"@ || request != RequestView::ToggleQuantumResistant
    &&& name == "custom DNS toggle"@ || request != RequestView::ToggleCustomDns
    &&& name == "split-tunnel toggle"@ || request != RequestView::ToggleSplitTunnel
    &&& name == "device IP version"@ || !(request is SetIpVersion)
    &&& name == "DNS content blocker toggle"@ || !(request is SetDnsBlocker)
    &&& name == "anti-censorship mode"@ || !(request is SetAntiCensorshipMode)
    &&& name == "remove custom DNS server"@ || !(request is RemoveCustomDns)
    &&& name == "toggle API access method"@ || !(request is ToggleAccessMethod)
    &&& name == "set active API access method"@ || !(request is SetActiveAccessMethod)
    &&& name == "remove split-tunnel app"@ || !(request is RemoveSplitTunnelApp)
    &&& name == "remove split-tunnel PID"@ || !(request is RemoveSplitTunnelProcess)
}

// ---- Numbers ----

proof fn digits_read_back(n: nat)
    ensures
        decimal_digits(n).len() > 0,
        all_digits(decimal_digits(n)),
        digits_value(decimal_digits(n)) == n,
    decreases n,
{
    let s = decimal_digits(n);
    if n < 10 {
        assert(s.drop_last() =~= Seq::empty());
        assert(digits_value(s.drop_last()) == 0);
        assert(s.last() as nat == 48 + n);
    } else {
        digits_read_back(n / 10);
        assert(s.drop_last() =~= decimal_digits(n / 10));
        assert(s.last() as nat == 48 + n % 10);
    }
}

/// A number that is typed as it is shown is taken as that number, and so it is
/// with a plus sign before it; one that does not fit is not taken.
pub proof fn numbers_are_read_as_they_are_shown(n: nat)
    ensures
        n <= u16::MAX ==> number_of(decimal_digits(n)) == Some(n as u16),
        n <= u16::MAX ==> number_of(seq!['+'] + decimal_digits(n)) == Some(n as u16),
        n > u16::MAX ==> number_of(decimal_digits(n)) is None,
{
    digits_read_back(n);
    let s = decimal_digits(n);
    assert('0' <= s[0]);
    assert((seq!['+'] + s).skip(1) =~= s);
}

/// A text with anything but digits in it, a plus sign at its start aside, is no
/// number, and neither is an empty one.
pub proof fn only_digits_are_numbers(text: Seq<char>, i: int)
    requires
        0 <= i < text.len(),
        !('0' <= text[i] && text[i] <= '9'),
        i > 0 || text[i] != '+',
    ensures
        number_of(text) is None,
        number_of(Seq::empty()) is None,
{
    if text[0] == '+' {
        assert(text.skip(1)[i - 1] == text[i]);
    }
}

/// An MTU that is typed as the field shows it is taken as it was.
pub proof fn the_mtu_is_read_as_it_is_shown(mtu: Option<u16>, text: Seq<char>)
    ensures
        typed_mtu(mtu_text(mtu)) == Some(mtu),
        typed_mtu(text) == Some(None::<u16>) <==> text.len() == 0,
        typed_mtu(text) is None <==> text.len() > 0 && number_of(text) is None,
{
    if let Some(n) = mtu {
        numbers_are_read_as_they_are_shown(n as nat);
        digits_read_back(n as nat);
    }
}

/// A widget that is none of these pages' does nothing here.
pub proof fn widgets_of_others_do_nothing(app: App, widget: WidgetId, linux: bool)
    requires
        !is_own(widget),
    ensures
        ({
            let done = step(app, widget, linux);
            &&& done.request is None && done.input is None && done.overlay is None
            &&& done.message is None && done.page is None && done.blurb_page is None
            &&& !done.quit
        }),
{
}

} // verus!

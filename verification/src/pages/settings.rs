//! The Settings pages: the root menu and its sub-pages.
//!
//! All of them share one set of widgets and one activation.

use crate::app::{
    confirm, leads_back, notification_view, request_view, Answer, App, ConfirmAction, ConfirmActionView,
    DnsBlocker, InputMode, InputView, NotificationView, OverlayMode, OverlayView, PageId, Request,
    RequestView, DAITA_BLURB_PAGES,
};
use crate::daemon::{IpVersion, RelayOverride, SelectedObfuscation, TunnelState};
use crate::focus::{decode, index_in, WidgetId};
use crate::text::{cat, chars, owned};
use vstd::prelude::*;

pub mod anti_censorship;
pub mod api_access;
pub mod custom_dns;
pub mod daita;
pub mod dns_blockers;
pub mod laws;
pub mod multihop;
pub mod relay_overrides;
pub mod root;
pub mod rows;
pub mod shown;
pub mod split_tunnel;
pub mod texts;
pub mod vpn;
pub mod widgets;

pub use self::daita::render_daita;
pub use self::multihop::render_multihop;
pub use self::root::render;
pub use self::split_tunnel::render_split_tunnel;
pub use self::vpn::render_vpn_settings;

verus! {

// ---- Widgets ----

/// A fixed widget of the Settings pages.
#[derive(Clone, Copy, Debug, PartialEq, Eq, Structural)]
pub enum SettingsWidget {
    // Root menu
    Daita,
    Multihop,
    VpnSettings,
    SplitTunneling,
    ApiAccess,
    DisconnectAndQuit,
    // Multihop
    MultihopToggle,
    // DAITA
    DaitaToggle,
    DaitaDirectOnlyToggle,
    DaitaBlurbPrev,
    DaitaBlurbNext,
    // VPN settings and split tunneling
    VpnLanToggle,
    VpnDnsBlockersInfo,
    VpnCustomDnsInfo,
    VpnIpv6Toggle,
    VpnKillSwitchInfo,
    VpnLockdownToggle,
    VpnAntiCensorshipEdit,
    VpnQuantumToggle,
    VpnDeviceIpInfo,
    VpnMtuEdit,
    VpnServerIpInfo,
    VpnAutoConnectToggle,
    SplitTunnelToggle,
    SplitTunnelAddApp,
    SplitTunnelAddPid,
    VpnLanInfo,
    VpnIpv6Info,
    VpnKillSwitchToggle,
    VpnLockdownInfo,
    VpnQuantumInfo,
    VpnDeviceIpAuto,
    VpnDeviceIpV4,
    VpnDeviceIpV6,
    // DNS content blockers
    DnsBlockAds,
    DnsBlockTrackers,
    DnsBlockMalware,
    DnsBlockAdultContent,
    DnsBlockGambling,
    DnsBlockSocialMedia,
    // Custom DNS
    CustomDnsToggle,
    CustomDnsAddAddress,
    // Anti-censorship
    AntiCensorshipModeOff,
    AntiCensorshipModeAuto,
    AntiCensorshipModeUdp2Tcp,
    AntiCensorshipModeShadowsocks,
    AntiCensorshipModeWireguardPort,
    AntiCensorshipModeQuic,
    AntiCensorshipModeLwo,
    AntiCensorshipPortEdit,
    // Server IP overrides
    RelayOverrideAdd,
    RelayOverrideClearAll,
}

impl SettingsWidget {
    /// The id of the widget.
    pub open spec fn id(self) -> u32 {
        match self {
            SettingsWidget::Daita => widgets::DAITA,
            SettingsWidget::Multihop => widgets::MULTIHOP,
            SettingsWidget::VpnSettings => widgets::VPN_SETTINGS,
            SettingsWidget::SplitTunneling => widgets::SPLIT_TUNNELING,
            SettingsWidget::ApiAccess => widgets::API_ACCESS,
            SettingsWidget::DisconnectAndQuit => widgets::DISCONNECT_AND_QUIT,
            SettingsWidget::MultihopToggle => widgets::MULTIHOP_TOGGLE,
            SettingsWidget::DaitaToggle => widgets::DAITA_TOGGLE,
            SettingsWidget::DaitaDirectOnlyToggle => widgets::DAITA_DIRECT_ONLY_TOGGLE,
            SettingsWidget::DaitaBlurbPrev => widgets::DAITA_BLURB_PREV,
            SettingsWidget::DaitaBlurbNext => widgets::DAITA_BLURB_NEXT,
            SettingsWidget::VpnLanToggle => widgets::VPN_LAN_TOGGLE,
            SettingsWidget::VpnDnsBlockersInfo => widgets::VPN_DNS_BLOCKERS_INFO,
            SettingsWidget::VpnCustomDnsInfo => widgets::VPN_CUSTOM_DNS_INFO,
            SettingsWidget::VpnIpv6Toggle => widgets::VPN_IPV6_TOGGLE,
            SettingsWidget::VpnKillSwitchInfo => widgets::VPN_KILL_SWITCH_INFO,
            SettingsWidget::VpnLockdownToggle => widgets::VPN_LOCKDOWN_TOGGLE,
            SettingsWidget::VpnAntiCensorshipEdit => widgets::VPN_ANTI_CENSORSHIP_EDIT,
            SettingsWidget::VpnQuantumToggle => widgets::VPN_QUANTUM_TOGGLE,
            SettingsWidget::VpnDeviceIpInfo => widgets::VPN_DEVICE_IP_INFO,
            SettingsWidget::VpnMtuEdit => widgets::VPN_MTU_EDIT,
            SettingsWidget::VpnServerIpInfo => widgets::VPN_SERVER_IP_INFO,
            SettingsWidget::VpnAutoConnectToggle => widgets::VPN_AUTO_CONNECT_TOGGLE,
            SettingsWidget::SplitTunnelToggle => widgets::SPLIT_TUNNEL_TOGGLE,
            SettingsWidget::SplitTunnelAddApp => widgets::SPLIT_TUNNEL_ADD_APP,
            SettingsWidget::SplitTunnelAddPid => widgets::SPLIT_TUNNEL_ADD_PID,
            SettingsWidget::VpnLanInfo => widgets::VPN_LAN_INFO,
            SettingsWidget::VpnIpv6Info => widgets::VPN_IPV6_INFO,
            SettingsWidget::VpnKillSwitchToggle => widgets::VPN_KILL_SWITCH_TOGGLE,
            SettingsWidget::VpnLockdownInfo => widgets::VPN_LOCKDOWN_INFO,
            SettingsWidget::VpnQuantumInfo => widgets::VPN_QUANTUM_INFO,
            SettingsWidget::VpnDeviceIpAuto => widgets::VPN_DEVICE_IP_AUTO,
            SettingsWidget::VpnDeviceIpV4 => widgets::VPN_DEVICE_IP_V4,
            SettingsWidget::VpnDeviceIpV6 => widgets::VPN_DEVICE_IP_V6,
            SettingsWidget::DnsBlockAds => widgets::DNS_BLOCK_ADS,
            SettingsWidget::DnsBlockTrackers => widgets::DNS_BLOCK_TRACKERS,
            SettingsWidget::DnsBlockMalware => widgets::DNS_BLOCK_MALWARE,
            SettingsWidget::DnsBlockAdultContent => widgets::DNS_BLOCK_ADULT_CONTENT,
            SettingsWidget::DnsBlockGambling => widgets::DNS_BLOCK_GAMBLING,
            SettingsWidget::DnsBlockSocialMedia => widgets::DNS_BLOCK_SOCIAL_MEDIA,
            SettingsWidget::CustomDnsToggle => widgets::CUSTOM_DNS_TOGGLE,
            SettingsWidget::CustomDnsAddAddress => widgets::CUSTOM_DNS_ADD_ADDRESS,
            SettingsWidget::AntiCensorshipModeOff => widgets::ANTI_CENSORSHIP_MODE_OFF,
            SettingsWidget::AntiCensorshipModeAuto => widgets::ANTI_CENSORSHIP_MODE_AUTO,
            SettingsWidget::AntiCensorshipModeUdp2Tcp => widgets::ANTI_CENSORSHIP_MODE_UDP2_TCP,
            SettingsWidget::AntiCensorshipModeShadowsocks => widgets::ANTI_CENSORSHIP_MODE_SHADOWSOCKS,
            SettingsWidget::AntiCensorshipModeWireguardPort => widgets::ANTI_CENSORSHIP_MODE_WIREGUARD_PORT,
            SettingsWidget::AntiCensorshipModeQuic => widgets::ANTI_CENSORSHIP_MODE_QUIC,
            SettingsWidget::AntiCensorshipModeLwo => widgets::ANTI_CENSORSHIP_MODE_LWO,
            SettingsWidget::AntiCensorshipPortEdit => widgets::ANTI_CENSORSHIP_PORT_EDIT,
            SettingsWidget::RelayOverrideAdd => widgets::RELAY_OVERRIDE_ADD,
            SettingsWidget::RelayOverrideClearAll => widgets::RELAY_OVERRIDE_CLEAR_ALL,
        }
    }

    /// The widget with the id `widget`, if it is one of these.
    pub fn from_widget_id(widget: WidgetId) -> (r: Option<SettingsWidget>)
        ensures
            match r {
                Some(w) => w.id() == widget.0,
                None => forall|w: SettingsWidget| #[trigger] w.id() != widget.0,
            },
    {
        let id: u32 = widget.0;
        if id == widgets::DAITA {
            Some(SettingsWidget::Daita)
        } else if id == widgets::MULTIHOP {
            Some(SettingsWidget::Multihop)
        } else if id == widgets::VPN_SETTINGS {
            Some(SettingsWidget::VpnSettings)
        } else if id == widgets::SPLIT_TUNNELING {
            Some(SettingsWidget::SplitTunneling)
        } else if id == widgets::API_ACCESS {
            Some(SettingsWidget::ApiAccess)
        } else if id == widgets::DISCONNECT_AND_QUIT {
            Some(SettingsWidget::DisconnectAndQuit)
        } else if id == widgets::MULTIHOP_TOGGLE {
            Some(SettingsWidget::MultihopToggle)
        } else if id == widgets::DAITA_TOGGLE {
            Some(SettingsWidget::DaitaToggle)
        } else if id == widgets::DAITA_DIRECT_ONLY_TOGGLE {
            Some(SettingsWidget::DaitaDirectOnlyToggle)
        } else if id == widgets::DAITA_BLURB_PREV {
            Some(SettingsWidget::DaitaBlurbPrev)
        } else if id == widgets::DAITA_BLURB_NEXT {
            Some(SettingsWidget::DaitaBlurbNext)
        } else if id == widgets::VPN_LAN_TOGGLE {
            Some(SettingsWidget::VpnLanToggle)
        } else if id == widgets::VPN_DNS_BLOCKERS_INFO {
            Some(SettingsWidget::VpnDnsBlockersInfo)
        } else if id == widgets::VPN_CUSTOM_DNS_INFO {
            Some(SettingsWidget::VpnCustomDnsInfo)
        } else if id == widgets::VPN_IPV6_TOGGLE {
            Some(SettingsWidget::VpnIpv6Toggle)
        } else if id == widgets::VPN_KILL_SWITCH_INFO {
            Some(SettingsWidget::VpnKillSwitchInfo)
        } else if id == widgets::VPN_LOCKDOWN_TOGGLE {
            Some(SettingsWidget::VpnLockdownToggle)
        } else if id == widgets::VPN_ANTI_CENSORSHIP_EDIT {
            Some(SettingsWidget::VpnAntiCensorshipEdit)
        } else if id == widgets::VPN_QUANTUM_TOGGLE {
            Some(SettingsWidget::VpnQuantumToggle)
        } else if id == widgets::VPN_DEVICE_IP_INFO {
            Some(SettingsWidget::VpnDeviceIpInfo)
        } else if id == widgets::VPN_MTU_EDIT {
            Some(SettingsWidget::VpnMtuEdit)
        } else if id == widgets::VPN_SERVER_IP_INFO {
            Some(SettingsWidget::VpnServerIpInfo)
        } else if id == widgets::VPN_AUTO_CONNECT_TOGGLE {
            Some(SettingsWidget::VpnAutoConnectToggle)
        } else if id == widgets::SPLIT_TUNNEL_TOGGLE {
            Some(SettingsWidget::SplitTunnelToggle)
        } else if id == widgets::SPLIT_TUNNEL_ADD_APP {
            Some(SettingsWidget::SplitTunnelAddApp)
        } else if id == widgets::SPLIT_TUNNEL_ADD_PID {
            Some(SettingsWidget::SplitTunnelAddPid)
        } else if id == widgets::VPN_LAN_INFO {
            Some(SettingsWidget::VpnLanInfo)
        } else if id == widgets::VPN_IPV6_INFO {
            Some(SettingsWidget::VpnIpv6Info)
        } else if id == widgets::VPN_KILL_SWITCH_TOGGLE {
            Some(SettingsWidget::VpnKillSwitchToggle)
        } else if id == widgets::VPN_LOCKDOWN_INFO {
            Some(SettingsWidget::VpnLockdownInfo)
        } else if id == widgets::VPN_QUANTUM_INFO {
            Some(SettingsWidget::VpnQuantumInfo)
        } else if id == widgets::VPN_DEVICE_IP_AUTO {
            Some(SettingsWidget::VpnDeviceIpAuto)
        } else if id == widgets::VPN_DEVICE_IP_V4 {
            Some(SettingsWidget::VpnDeviceIpV4)
        } else if id == widgets::VPN_DEVICE_IP_V6 {
            Some(SettingsWidget::VpnDeviceIpV6)
        } else if id == widgets::DNS_BLOCK_ADS {
            Some(SettingsWidget::DnsBlockAds)
        } else if id == widgets::DNS_BLOCK_TRACKERS {
            Some(SettingsWidget::DnsBlockTrackers)
        } else if id == widgets::DNS_BLOCK_MALWARE {
            Some(SettingsWidget::DnsBlockMalware)
        } else if id == widgets::DNS_BLOCK_ADULT_CONTENT {
            Some(SettingsWidget::DnsBlockAdultContent)
        } else if id == widgets::DNS_BLOCK_GAMBLING {
            Some(SettingsWidget::DnsBlockGambling)
        } else if id == widgets::DNS_BLOCK_SOCIAL_MEDIA {
            Some(SettingsWidget::DnsBlockSocialMedia)
        } else if id == widgets::CUSTOM_DNS_TOGGLE {
            Some(SettingsWidget::CustomDnsToggle)
        } else if id == widgets::CUSTOM_DNS_ADD_ADDRESS {
            Some(SettingsWidget::CustomDnsAddAddress)
        } else if id == widgets::ANTI_CENSORSHIP_MODE_OFF {
            Some(SettingsWidget::AntiCensorshipModeOff)
        } else if id == widgets::ANTI_CENSORSHIP_MODE_AUTO {
            Some(SettingsWidget::AntiCensorshipModeAuto)
        } else if id == widgets::ANTI_CENSORSHIP_MODE_UDP2_TCP {
            Some(SettingsWidget::AntiCensorshipModeUdp2Tcp)
        } else if id == widgets::ANTI_CENSORSHIP_MODE_SHADOWSOCKS {
            Some(SettingsWidget::AntiCensorshipModeShadowsocks)
        } else if id == widgets::ANTI_CENSORSHIP_MODE_WIREGUARD_PORT {
            Some(SettingsWidget::AntiCensorshipModeWireguardPort)
        } else if id == widgets::ANTI_CENSORSHIP_MODE_QUIC {
            Some(SettingsWidget::AntiCensorshipModeQuic)
        } else if id == widgets::ANTI_CENSORSHIP_MODE_LWO {
            Some(SettingsWidget::AntiCensorshipModeLwo)
        } else if id == widgets::ANTI_CENSORSHIP_PORT_EDIT {
            Some(SettingsWidget::AntiCensorshipPortEdit)
        } else if id == widgets::RELAY_OVERRIDE_ADD {
            Some(SettingsWidget::RelayOverrideAdd)
        } else if id == widgets::RELAY_OVERRIDE_CLEAR_ALL {
            Some(SettingsWidget::RelayOverrideClearAll)
        } else {
            None
        }
    }

    /// The obfuscation mode that the widget selects.
    pub open spec fn mode(self) -> Option<SelectedObfuscation> {
        match self {
            SettingsWidget::AntiCensorshipModeOff => Some(SelectedObfuscation::Off),
            SettingsWidget::AntiCensorshipModeAuto => Some(SelectedObfuscation::Auto),
            SettingsWidget::AntiCensorshipModeUdp2Tcp => Some(SelectedObfuscation::Udp2Tcp),
            SettingsWidget::AntiCensorshipModeShadowsocks => Some(SelectedObfuscation::Shadowsocks),
            SettingsWidget::AntiCensorshipModeWireguardPort => Some(
                SelectedObfuscation::WireguardPort,
            ),
            SettingsWidget::AntiCensorshipModeQuic => Some(SelectedObfuscation::Quic),
            SettingsWidget::AntiCensorshipModeLwo => Some(SelectedObfuscation::Lwo),
            _ => None,
        }
    }

    /// The obfuscation mode that the widget selects, if it is a mode row.
    pub fn anti_censorship_mode(self) -> (r: Option<SelectedObfuscation>)
        ensures
            r == self.mode(),
    {
        match self {
            SettingsWidget::AntiCensorshipModeOff => Some(SelectedObfuscation::Off),
            SettingsWidget::AntiCensorshipModeAuto => Some(SelectedObfuscation::Auto),
            SettingsWidget::AntiCensorshipModeUdp2Tcp => Some(SelectedObfuscation::Udp2Tcp),
            SettingsWidget::AntiCensorshipModeShadowsocks => Some(SelectedObfuscation::Shadowsocks),
            SettingsWidget::AntiCensorshipModeWireguardPort => Some(
                SelectedObfuscation::WireguardPort,
            ),
            SettingsWidget::AntiCensorshipModeQuic => Some(SelectedObfuscation::Quic),
            SettingsWidget::AntiCensorshipModeLwo => Some(SelectedObfuscation::Lwo),
            _ => None,
        }
    }

    /// The content blocker that the widget toggles.
    pub open spec fn blocker(self) -> Option<DnsBlocker> {
        match self {
            SettingsWidget::DnsBlockAds => Some(DnsBlocker::Ads),
            SettingsWidget::DnsBlockTrackers => Some(DnsBlocker::Trackers),
            SettingsWidget::DnsBlockMalware => Some(DnsBlocker::Malware),
            SettingsWidget::DnsBlockAdultContent => Some(DnsBlocker::AdultContent),
            SettingsWidget::DnsBlockGambling => Some(DnsBlocker::Gambling),
            SettingsWidget::DnsBlockSocialMedia => Some(DnsBlocker::SocialMedia),
            _ => None,
        }
    }

    /// The content blocker that the widget toggles, if it is one of those rows.
    pub fn dns_blocker(self) -> (r: Option<DnsBlocker>)
        ensures
            r == self.blocker(),
    {
        match self {
            SettingsWidget::DnsBlockAds => Some(DnsBlocker::Ads),
            SettingsWidget::DnsBlockTrackers => Some(DnsBlocker::Trackers),
            SettingsWidget::DnsBlockMalware => Some(DnsBlocker::Malware),
            SettingsWidget::DnsBlockAdultContent => Some(DnsBlocker::AdultContent),
            SettingsWidget::DnsBlockGambling => Some(DnsBlocker::Gambling),
            SettingsWidget::DnsBlockSocialMedia => Some(DnsBlocker::SocialMedia),
            _ => None,
        }
    }
}

/// The row of a `[Remove]` on the Custom DNS page.
pub fn custom_dns_remove_index(widget: WidgetId) -> (r: Option<usize>)
    ensures
        r == index_in(widget, widgets::CUSTOM_DNS_REMOVE_BASE, widgets::CUSTOM_DNS_REMOVE_MAX),
{
    decode(widget, widgets::CUSTOM_DNS_REMOVE_BASE, widgets::CUSTOM_DNS_REMOVE_MAX)
}

/// The row of an `[Edit]` on the Custom DNS page.
pub fn custom_dns_edit_index(widget: WidgetId) -> (r: Option<usize>)
    ensures
        r == index_in(widget, widgets::CUSTOM_DNS_EDIT_BASE, widgets::CUSTOM_DNS_EDIT_MAX),
{
    decode(widget, widgets::CUSTOM_DNS_EDIT_BASE, widgets::CUSTOM_DNS_EDIT_MAX)
}

/// The row of a checkbox on the API access page.
pub fn api_access_toggle_index(widget: WidgetId) -> (r: Option<usize>)
    ensures
        r == index_in(widget, widgets::API_ACCESS_TOGGLE_BASE, widgets::API_ACCESS_MAX),
{
    decode(widget, widgets::API_ACCESS_TOGGLE_BASE, widgets::API_ACCESS_MAX)
}

/// The row of a `[Use]` on the API access page.
pub fn api_access_use_index(widget: WidgetId) -> (r: Option<usize>)
    ensures
        r == index_in(widget, widgets::API_ACCESS_USE_BASE, widgets::API_ACCESS_MAX),
{
    decode(widget, widgets::API_ACCESS_USE_BASE, widgets::API_ACCESS_MAX)
}

/// The row of a `[Remove]` in the list of excluded applications.
pub fn split_tunnel_remove_app_index(widget: WidgetId) -> (r: Option<usize>)
    ensures
        r == index_in(widget, widgets::SPLIT_TUNNEL_REMOVE_APP_BASE, widgets::SPLIT_TUNNEL_REMOVE_MAX),
{
    decode(widget, widgets::SPLIT_TUNNEL_REMOVE_APP_BASE, widgets::SPLIT_TUNNEL_REMOVE_MAX)
}

/// The row of a `[Remove]` in the list of excluded processes.
pub fn split_tunnel_remove_pid_index(widget: WidgetId) -> (r: Option<usize>)
    ensures
        r == index_in(widget, widgets::SPLIT_TUNNEL_REMOVE_PID_BASE, widgets::SPLIT_TUNNEL_REMOVE_MAX),
{
    decode(widget, widgets::SPLIT_TUNNEL_REMOVE_PID_BASE, widgets::SPLIT_TUNNEL_REMOVE_MAX)
}

/// The row of a `[Remove]` in the list of server IP overrides.
pub fn relay_override_remove_index(widget: WidgetId) -> (r: Option<usize>)
    ensures
        r == index_in(widget, widgets::RELAY_OVERRIDE_REMOVE_BASE, widgets::RELAY_OVERRIDE_REMOVE_MAX),
{
    decode(widget, widgets::RELAY_OVERRIDE_REMOVE_BASE, widgets::RELAY_OVERRIDE_REMOVE_MAX)
}

/// Whether `widget` is a row of one of the lists.
pub open spec fn is_list_row(widget: WidgetId) -> bool {
    ||| index_in(widget, widgets::CUSTOM_DNS_REMOVE_BASE, widgets::CUSTOM_DNS_REMOVE_MAX) is Some
    ||| index_in(widget, widgets::CUSTOM_DNS_EDIT_BASE, widgets::CUSTOM_DNS_EDIT_MAX) is Some
    ||| index_in(widget, widgets::API_ACCESS_TOGGLE_BASE, widgets::API_ACCESS_MAX) is Some
    ||| index_in(widget, widgets::API_ACCESS_USE_BASE, widgets::API_ACCESS_MAX) is Some
    ||| index_in(widget, widgets::SPLIT_TUNNEL_REMOVE_APP_BASE, widgets::SPLIT_TUNNEL_REMOVE_MAX) is Some
    ||| index_in(widget, widgets::SPLIT_TUNNEL_REMOVE_PID_BASE, widgets::SPLIT_TUNNEL_REMOVE_MAX) is Some
    ||| index_in(widget, widgets::RELAY_OVERRIDE_REMOVE_BASE, widgets::RELAY_OVERRIDE_REMOVE_MAX) is Some
}

/// Whether `widget` is a fixed widget of the Settings pages.
pub open spec fn is_fixed(widget: WidgetId) -> bool {
    exists|w: SettingsWidget| #[trigger] w.id() == widget.0
}

/// Whether `widget` is a widget of the Settings pages.
pub open spec fn is_own(widget: WidgetId) -> bool {
    is_fixed(widget) || is_list_row(widget)
}

/// Whether `widget` is a widget of the Settings pages.
pub fn owns_widget(widget: WidgetId) -> (r: bool)
    ensures
        r == is_own(widget),
{
    SettingsWidget::from_widget_id(widget).is_some()
        || custom_dns_remove_index(widget).is_some()
        || custom_dns_edit_index(widget).is_some()
        || api_access_toggle_index(widget).is_some()
        || api_access_use_index(widget).is_some()
        || split_tunnel_remove_app_index(widget).is_some()
        || split_tunnel_remove_pid_index(widget).is_some()
        || relay_override_remove_index(widget).is_some()
}

/// A list whose rows have widgets: the first id, and how many there are.
pub struct RowIds {
    pub base: u32,
    pub max: u32,
}

/// The lists of the Settings pages.
pub open spec fn lists() -> Seq<RowIds> {
    seq![
        RowIds { base: widgets::CUSTOM_DNS_REMOVE_BASE, max: widgets::CUSTOM_DNS_REMOVE_MAX },
        RowIds { base: widgets::CUSTOM_DNS_EDIT_BASE, max: widgets::CUSTOM_DNS_EDIT_MAX },
        RowIds { base: widgets::API_ACCESS_TOGGLE_BASE, max: widgets::API_ACCESS_MAX },
        RowIds { base: widgets::API_ACCESS_USE_BASE, max: widgets::API_ACCESS_MAX },
        RowIds {
            base: widgets::SPLIT_TUNNEL_REMOVE_APP_BASE,
            max: widgets::SPLIT_TUNNEL_REMOVE_MAX,
        },
        RowIds {
            base: widgets::SPLIT_TUNNEL_REMOVE_PID_BASE,
            max: widgets::SPLIT_TUNNEL_REMOVE_MAX,
        },
        RowIds {
            base: widgets::RELAY_OVERRIDE_REMOVE_BASE,
            max: widgets::RELAY_OVERRIDE_REMOVE_MAX,
        },
    ]
}

/// Whether `widget` is a row of list `i`.
pub open spec fn in_list(widget: WidgetId, i: int) -> bool {
    index_in(widget, lists()[i].base, lists()[i].max) is Some
}

/// A widget is a row of at most one list, and no fixed widget is a row.
pub proof fn widget_kinds_are_disjoint(widget: WidgetId, i: int, j: int)
    requires
        0 <= i < lists().len(),
        0 <= j < lists().len(),
        in_list(widget, i),
    ensures
        in_list(widget, j) ==> i == j,
        is_list_row(widget),
        !is_fixed(widget),
{
    if is_fixed(widget) {
        let w = choose|w: SettingsWidget| #[trigger] w.id() == widget.0;
        assert(w.id() < widgets::CUSTOM_DNS_REMOVE_BASE);
    }
}

/// No two fixed widgets share an id.
pub proof fn fixed_widgets_have_their_own_ids(a: SettingsWidget, b: SettingsWidget)
    requires
        a.id() == b.id(),
    ensures
        a == b,
{
}

// ---- What the pages look up ----

/// Whether the port of an obfuscation mode can be set.
pub open spec fn has_port(mode: SelectedObfuscation) -> bool {
    mode == SelectedObfuscation::Udp2Tcp || mode == SelectedObfuscation::Shadowsocks || mode
        == SelectedObfuscation::WireguardPort
}

/// Whether the port of an obfuscation mode can be set.
pub fn mode_has_configurable_port(mode: SelectedObfuscation) -> (r: bool)
    ensures
        r == has_port(mode),
{
    match mode {
        SelectedObfuscation::Udp2Tcp => true,
        SelectedObfuscation::Shadowsocks => true,
        SelectedObfuscation::WireguardPort => true,
        _ => false,
    }
}

/// The custom DNS servers.
pub open spec fn dns_addresses(app: App) -> Seq<String> {
    match app.settings {
        Some(s) => s.dns.addresses@,
        None => Seq::empty(),
    }
}

/// The excluded applications.
pub open spec fn excluded_apps(app: App) -> Seq<String> {
    match app.settings {
        Some(s) => s.split_tunnel.apps@,
        None => Seq::empty(),
    }
}

/// The excluded processes.
pub open spec fn excluded_pids(app: App) -> Seq<i32> {
    match app.split_tunnel_pids {
        Some(pids) => pids@,
        None => Seq::empty(),
    }
}

/// The server IP overrides.
pub open spec fn overrides_of(app: App) -> Seq<RelayOverride> {
    match app.settings {
        Some(s) => s.relay_overrides@,
        None => Seq::empty(),
    }
}

/// The application of a `[Remove]` row. There is none past the end of the list,
/// nor before the settings are known.
pub fn split_tunnel_app_at(app: &App, index: usize) -> (r: Option<String>)
    ensures
        match r {
            Some(path) => index < excluded_apps(*app).len() && path == excluded_apps(
                *app,
            )[index as int],
            None => index >= excluded_apps(*app).len(),
        },
{
    match &app.settings {
        Some(s) => if index < s.split_tunnel.apps.len() {
            Some(s.split_tunnel.apps[index].clone())
        } else {
            None
        },
        None => None,
    }
}

/// The process of a `[Remove]` row. There is none past the end of the list, nor
/// before the list is known.
pub fn split_tunnel_pid_at(app: &App, index: usize) -> (r: Option<i32>)
    ensures
        match r {
            Some(pid) => index < excluded_pids(*app).len() && pid == excluded_pids(
                *app,
            )[index as int],
            None => index >= excluded_pids(*app).len(),
        },
{
    match &app.split_tunnel_pids {
        Some(pids) => if index < pids.len() {
            Some(pids[index])
        } else {
            None
        },
        None => None,
    }
}

fn override_host_at(app: &App, index: usize) -> (r: Option<String>)
    ensures
        match r {
            Some(h) => index < overrides_of(*app).len() && h == overrides_of(
                *app,
            )[index as int].hostname,
            None => index >= overrides_of(*app).len(),
        },
{
    match &app.settings {
        Some(s) => if index < s.relay_overrides.len() {
            Some(s.relay_overrides[index].hostname.clone())
        } else {
            None
        },
        None => None,
    }
}

/// The text of custom DNS server `index`, or nothing where there is none.
pub open spec fn dns_text(app: App, index: int) -> Seq<char> {
    if index < dns_addresses(app).len() {
        dns_addresses(app)[index]@
    } else {
        Seq::empty()
    }
}

fn dns_address_at(app: &App, index: usize) -> (r: String)
    ensures
        r@ == dns_text(*app, index as int),
{
    match &app.settings {
        Some(s) => if index < s.dns.addresses.len() {
            s.dns.addresses[index].clone()
        } else {
            String::new()
        },
        None => String::new(),
    }
}

/// Whether a content blocker is on.
pub open spec fn blocks(app: App, blocker: DnsBlocker) -> bool {
    app.settings is Some && blocker.is_set(app.settings->0.dns.blockers)
}

/// Whether a content blocker is on.
pub fn dns_blocker_enabled(app: &App, blocker: DnsBlocker) -> (r: bool)
    ensures
        r == blocks(*app, blocker),
{
    match &app.settings {
        Some(s) => blocker.read(&s.dns.blockers),
        None => false,
    }
}

/// The obfuscation mode, or Auto while it is not known.
pub open spec fn current_mode(app: App) -> SelectedObfuscation {
    match app.settings {
        Some(s) => s.obfuscation_settings.selected_obfuscation,
        None => SelectedObfuscation::Auto,
    }
}

/// The obfuscation mode, or Auto while it is not known.
pub fn current_obfuscation_mode(app: &App) -> (r: SelectedObfuscation)
    ensures
        r == current_mode(*app),
{
    match &app.settings {
        Some(s) => s.obfuscation_settings.selected_obfuscation,
        None => SelectedObfuscation::Auto,
    }
}

/// Whether there is no tunnel to take down.
pub open spec fn is_down(state: Option<TunnelState>) -> bool {
    state is None || state->0 is Disconnected
}

/// Label of the last button of the root menu. It speaks of disconnecting only
/// where there is something to disconnect.
pub fn disconnect_and_quit_label(state: Option<&TunnelState>) -> (r: &'static str)
    ensures
        r@ == quit_label(
            match state {
                Some(s) => Some(*s),
                None => None,
            },
        ),
{
    match state {
        Some(TunnelState::Disconnected { .. }) => "Quit",
        None => "Quit",
        _ => "Disconnect & quit",
    }
}

/// Label of the last button of the root menu.
pub open spec fn quit_label(state: Option<TunnelState>) -> Seq<char> {
    if is_down(state) {
        "Quit"@
    } else {
        "Disconnect & quit"@
    }
}

// ---- Activation ----

/// What activating a widget of the Settings pages does.
#[verifier::ext_equal]
pub struct Step {
    /// What the daemon is asked to do.
    pub request: Option<RequestView>,
    /// The text input that opens.
    pub input: Option<InputView>,
    /// The question that is put.
    pub overlay: Option<OverlayView>,
    /// What the user is told.
    pub message: Option<Seq<char>>,
    /// The sub-page that opens.
    pub page: Option<PageId>,
    /// The page of the DAITA description that is turned to.
    pub blurb_page: Option<usize>,
    /// The program ends.
    pub quit: bool,
}

/// Nothing is done.
pub open spec fn nothing() -> Step {
    Step {
        request: None,
        input: None,
        overlay: None,
        message: None,
        page: None,
        blurb_page: None,
        quit: false,
    }
}

/// The daemon is asked.
pub open spec fn ask(request: RequestView) -> Step {
    Step { request: Some(request), ..nothing() }
}

/// The user is told.
pub open spec fn tell(message: Seq<char>) -> Step {
    Step { message: Some(message), ..nothing() }
}

/// A sub-page opens.
pub open spec fn open_page(page: PageId) -> Step {
    Step { page: Some(page), ..nothing() }
}

/// A text input opens.
pub open spec fn open_input(input: InputView) -> Step {
    Step { input: Some(input), ..nothing() }
}

/// A question is put. The focus comes back to where it is.
pub open spec fn put_question(
    app: App,
    title: Seq<char>,
    message: Seq<char>,
    action: ConfirmActionView,
) -> Step {
    Step {
        overlay: Some(
            OverlayView::Confirm { title, message, action, return_focus: app.focused },
        ),
        ..nothing()
    }
}

/// The question put before an override is removed.
pub open spec fn remove_override_question(hostname: Seq<char>) -> Seq<char> {
    texts::REMOVE_OVERRIDE_QUESTION@ + hostname + texts::REMOVE_OVERRIDE_QUESTION_END@
}

/// What activating a row of a list does. A row that is no longer there does
/// nothing, but for a custom DNS server, where the daemon says so, and for its
/// input, which is empty then.
pub open spec fn list_step(app: App, widget: WidgetId) -> Step {
    if let Some(i) = index_in(
        widget,
        widgets::CUSTOM_DNS_REMOVE_BASE,
        widgets::CUSTOM_DNS_REMOVE_MAX,
    ) {
        ask(RequestView::RemoveCustomDns { index: i })
    } else if let Some(i) = index_in(
        widget,
        widgets::CUSTOM_DNS_EDIT_BASE,
        widgets::CUSTOM_DNS_EDIT_MAX,
    ) {
        open_input(
            InputView::CustomDnsInput { buffer: dns_text(app, i as int), edit_index: Some(i) },
        )
    } else if let Some(i) = index_in(
        widget,
        widgets::API_ACCESS_TOGGLE_BASE,
        widgets::API_ACCESS_MAX,
    ) {
        match api_access::method_id(app, i as int) {
            Some(id) => ask(RequestView::ToggleAccessMethod { id }),
            None => nothing(),
        }
    } else if let Some(i) = index_in(
        widget,
        widgets::API_ACCESS_USE_BASE,
        widgets::API_ACCESS_MAX,
    ) {
        match api_access::method_id(app, i as int) {
            Some(id) => ask(RequestView::SetActiveAccessMethod { id }),
            None => nothing(),
        }
    } else if let Some(i) = index_in(
        widget,
        widgets::SPLIT_TUNNEL_REMOVE_APP_BASE,
        widgets::SPLIT_TUNNEL_REMOVE_MAX,
    ) {
        if i < excluded_apps(app).len() {
            ask(RequestView::RemoveSplitTunnelApp { path: excluded_apps(app)[i as int]@ })
        } else {
            nothing()
        }
    } else if let Some(i) = index_in(
        widget,
        widgets::SPLIT_TUNNEL_REMOVE_PID_BASE,
        widgets::SPLIT_TUNNEL_REMOVE_MAX,
    ) {
        if i < excluded_pids(app).len() {
            ask(RequestView::RemoveSplitTunnelProcess { pid: excluded_pids(app)[i as int] })
        } else {
            nothing()
        }
    } else if let Some(i) = index_in(
        widget,
        widgets::RELAY_OVERRIDE_REMOVE_BASE,
        widgets::RELAY_OVERRIDE_REMOVE_MAX,
    ) {
        if i < overrides_of(app).len() {
            let hostname = overrides_of(app)[i as int].hostname@;
            put_question(
                app,
                "Remove server IP override"@,
                remove_override_question(hostname),
                ConfirmActionView::RemoveRelayOverride { hostname },
            )
        } else {
            nothing()
        }
    } else {
        nothing()
    }
}

/// What activating a fixed widget does. `linux` says whether processes, and not
/// applications, are excluded from the tunnel.
pub open spec fn fixed_step(app: App, widget: SettingsWidget, linux: bool) -> Step {
    match widget {
        SettingsWidget::Daita => open_page(PageId::SettingsDaita),
        SettingsWidget::Multihop => open_page(PageId::SettingsMultihop),
        SettingsWidget::VpnSettings => open_page(PageId::SettingsVpn),
        SettingsWidget::ApiAccess => Step {
            request: Some(RequestView::RefreshCurrentAccessMethod),
            ..open_page(PageId::SettingsApiAccess)
        },
        SettingsWidget::SplitTunneling => Step {
            request: if linux {
                Some(RequestView::RefreshSplitTunnelPids)
            } else {
                None
            },
            ..open_page(PageId::SettingsSplitTunnel)
        },
        SettingsWidget::DisconnectAndQuit => if is_down(app.connection) {
            Step { quit: true, ..nothing() }
        } else {
            ask(RequestView::DisconnectAndQuit)
        },
        SettingsWidget::MultihopToggle => ask(RequestView::ToggleMultihop),
        SettingsWidget::DaitaToggle => ask(RequestView::ToggleDaita),
        SettingsWidget::DaitaDirectOnlyToggle => ask(RequestView::ToggleDaitaDirectOnly),
        SettingsWidget::DaitaBlurbPrev => Step {
            blurb_page: Some(
                if app.settings_state.daita_blurb_page == 0 {
                    0
                } else {
                    (app.settings_state.daita_blurb_page - 1) as usize
                },
            ),
            ..nothing()
        },
        SettingsWidget::DaitaBlurbNext => Step {
            blurb_page: Some(
                if app.settings_state.daita_blurb_page + 1 < DAITA_BLURB_PAGES {
                    (app.settings_state.daita_blurb_page + 1) as usize
                } else {
                    (DAITA_BLURB_PAGES - 1) as usize
                },
            ),
            ..nothing()
        },
        SettingsWidget::VpnAutoConnectToggle => ask(RequestView::ToggleAutoConnect),
        SettingsWidget::VpnLanToggle => ask(RequestView::ToggleLan),
        SettingsWidget::VpnIpv6Toggle => ask(RequestView::ToggleIpv6),
        SettingsWidget::VpnLockdownToggle => put_question(
            app,
            "Confirm lockdown mode update"@,
            texts::LOCKDOWN_QUESTION@,
            ConfirmActionView::ToggleLockdown,
        ),
        SettingsWidget::VpnQuantumToggle => ask(RequestView::ToggleQuantumResistant),
        SettingsWidget::VpnAntiCensorshipEdit => open_page(PageId::SettingsAntiCensorship),
        SettingsWidget::VpnMtuEdit => nothing(),
        SettingsWidget::VpnDnsBlockersInfo => open_page(PageId::SettingsDnsBlockers),
        SettingsWidget::VpnCustomDnsInfo => open_page(PageId::SettingsCustomDns),
        SettingsWidget::VpnServerIpInfo => open_page(PageId::SettingsRelayOverrides),
        SettingsWidget::VpnKillSwitchInfo => tell(texts::KILL_SWITCH_INFO@),
        SettingsWidget::VpnKillSwitchToggle => tell(texts::KILL_SWITCH_INFO@),
        SettingsWidget::VpnDeviceIpInfo => tell(texts::DEVICE_IP_INFO@),
        SettingsWidget::VpnLanInfo => tell(texts::LAN_INFO@),
        SettingsWidget::VpnIpv6Info => tell(texts::IPV6_INFO@),
        SettingsWidget::VpnLockdownInfo => tell(texts::LOCKDOWN_INFO@),
        SettingsWidget::VpnQuantumInfo => tell(texts::QUANTUM_INFO@),
        SettingsWidget::VpnDeviceIpAuto => ask(RequestView::SetIpVersion { version: None }),
        SettingsWidget::VpnDeviceIpV4 => ask(
            RequestView::SetIpVersion { version: Some(IpVersion::V4) },
        ),
        SettingsWidget::VpnDeviceIpV6 => ask(
            RequestView::SetIpVersion { version: Some(IpVersion::V6) },
        ),
        SettingsWidget::CustomDnsToggle => ask(RequestView::ToggleCustomDns),
        SettingsWidget::CustomDnsAddAddress => open_input(
            InputView::CustomDnsInput { buffer: Seq::empty(), edit_index: None },
        ),
        SettingsWidget::SplitTunnelToggle => ask(RequestView::ToggleSplitTunnel),
        SettingsWidget::SplitTunnelAddApp => open_input(InputView::SplitTunnelPathInput),
        SettingsWidget::SplitTunnelAddPid => open_input(InputView::SplitTunnelPidInput),
        SettingsWidget::AntiCensorshipPortEdit => if has_port(current_mode(app)) {
            open_input(InputView::PortInput { mode: current_mode(app) })
        } else {
            nothing()
        },
        SettingsWidget::RelayOverrideAdd => open_input(InputView::RelayOverrideInput),
        SettingsWidget::RelayOverrideClearAll => put_question(
            app,
            "Clear all server IP overrides"@,
            texts::CLEAR_OVERRIDES_QUESTION@,
            ConfirmActionView::ClearRelayOverrides,
        ),
        _ => match (widget.mode(), widget.blocker()) {
            (Some(mode), _) => ask(RequestView::SetAntiCensorshipMode { mode }),
            (None, Some(blocker)) => ask(
                RequestView::SetDnsBlocker { blocker, enabled: !blocks(app, blocker) },
            ),
            (None, None) => nothing(),
        },
    }
}

/// The fixed widget with the id `id`.
pub open spec fn fixed_widget(id: u32) -> SettingsWidget {
    choose|w: SettingsWidget| #[trigger] w.id() == id
}

/// What activating `widget` does.
pub open spec fn step(app: App, widget: WidgetId, linux: bool) -> Step {
    if is_list_row(widget) {
        list_step(app, widget)
    } else if is_fixed(widget) {
        fixed_step(app, fixed_widget(widget.0), linux)
    } else {
        nothing()
    }
}

/// Whether `after` is `before` with `step` done to it.
pub open spec fn app_after(before: App, after: App, step: Step) -> bool {
    &&& match step.message {
        Some(m) => notification_view(after.notification) == Some(NotificationView::Message(m)),
        None => after.notification == before.notification,
    }
    &&& match step.page {
        Some(page) => after.page == page && leads_back(before, after),
        None => after.page == before.page && after.returns == before.returns,
    }
    &&& after.settings_state == match step.blurb_page {
        Some(page) => crate::app::SettingsState { daita_blurb_page: page, ..before.settings_state },
        None => before.settings_state,
    }
    &&& after.quit == (before.quit || step.quit)
    &&& after == (App {
        notification: after.notification,
        page: after.page,
        returns: after.returns,
        settings_state: after.settings_state,
        quit: after.quit,
        ..before
    })
}

/// Run the action bound to a widget of the Settings pages. What only the daemon
/// can do comes back as a request; [`complete`] takes in how it ended.
pub fn activate(
    app: &mut App,
    input_mode: &mut InputMode,
    overlay: &mut OverlayMode,
    widget: WidgetId,
    linux: bool,
) -> (r: Option<Request>)
    ensures
        ({
            let s = step(*old(app), widget, linux);
            &&& request_view(r) == s.request
            &&& app_after(*old(app), *final(app), s)
            &&& match s.input {
                Some(v) => final(input_mode)@ == v,
                None => *final(input_mode) == *old(input_mode),
            }
            &&& match s.overlay {
                Some(v) => final(overlay)@ == v,
                None => *final(overlay) == *old(overlay),
            }
        }),
{
    if let Some(idx) = custom_dns_remove_index(widget) {
        return Some(Request::RemoveCustomDns { index: idx });
    }
    if let Some(idx) = custom_dns_edit_index(widget) {
        let buffer = dns_address_at(app, idx);
        *input_mode = InputMode::CustomDnsInput { buffer, edit_index: Some(idx) };
        return None;
    }
    if let Some(idx) = api_access_toggle_index(widget) {
        return match api_access::method_id_at(app, idx) {
            Some(id) => Some(Request::ToggleAccessMethod { id }),
            None => None,
        };
    }
    if let Some(idx) = api_access_use_index(widget) {
        return match api_access::method_id_at(app, idx) {
            Some(id) => Some(Request::SetActiveAccessMethod { id }),
            None => None,
        };
    }
    if let Some(idx) = split_tunnel_remove_app_index(widget) {
        return match split_tunnel_app_at(app, idx) {
            Some(path) => Some(Request::RemoveSplitTunnelApp { path }),
            None => None,
        };
    }
    if let Some(idx) = split_tunnel_remove_pid_index(widget) {
        return match split_tunnel_pid_at(app, idx) {
            Some(pid) => Some(Request::RemoveSplitTunnelProcess { pid }),
            None => None,
        };
    }
    if let Some(idx) = relay_override_remove_index(widget) {
        if let Some(hostname) = override_host_at(app, idx) {
            let mut question = cat(texts::REMOVE_OVERRIDE_QUESTION, hostname.as_str());
            question.append(texts::REMOVE_OVERRIDE_QUESTION_END);
            *overlay = confirm(
                "Remove server IP override",
                question.as_str(),
                ConfirmAction::RemoveRelayOverride { hostname },
                app.focused,
            );
        }
        return None;
    }
    match SettingsWidget::from_widget_id(widget) {
        Some(w) => {
            proof {
                assert(is_fixed(widget));
                fixed_widgets_have_their_own_ids(w, fixed_widget(widget.0));
            }
            activate_fixed(app, input_mode, overlay, w, linux)
        },
        None => None,
    }
}

fn activate_fixed(
    app: &mut App,
    input_mode: &mut InputMode,
    overlay: &mut OverlayMode,
    widget: SettingsWidget,
    linux: bool,
) -> (r: Option<Request>)
    ensures
        ({
            let s = fixed_step(*old(app), widget, linux);
            &&& request_view(r) == s.request
            &&& app_after(*old(app), *final(app), s)
            &&& match s.input {
                Some(v) => final(input_mode)@ == v,
                None => *final(input_mode) == *old(input_mode),
            }
            &&& match s.overlay {
                Some(v) => final(overlay)@ == v,
                None => *final(overlay) == *old(overlay),
            }
        }),
{
    match widget {
        // Root menu
        SettingsWidget::Daita => {
            app.enter_sub_page(PageId::SettingsDaita);
            None
        },
        SettingsWidget::Multihop => {
            app.enter_sub_page(PageId::SettingsMultihop);
            None
        },
        SettingsWidget::VpnSettings => {
            app.enter_sub_page(PageId::SettingsVpn);
            None
        },
        SettingsWidget::ApiAccess => {
            // The daemon does not report changes of the current method.
            app.enter_sub_page(PageId::SettingsApiAccess);
            Some(Request::RefreshCurrentAccessMethod)
        },
        SettingsWidget::SplitTunneling => {
            // Nor does it report changes of the excluded processes.
            app.enter_sub_page(PageId::SettingsSplitTunnel);
            if linux {
                Some(Request::RefreshSplitTunnelPids)
            } else {
                None
            }
        },
        SettingsWidget::DisconnectAndQuit => {
            let down = match &app.connection {
                Some(TunnelState::Disconnected { .. }) => true,
                None => true,
                _ => false,
            };
            if down {
                app.quit = true;
                None
            } else {
                Some(Request::DisconnectAndQuit)
            }
        },
        // Multihop and DAITA
        SettingsWidget::MultihopToggle => Some(Request::ToggleMultihop),
        SettingsWidget::DaitaToggle => Some(Request::ToggleDaita),
        SettingsWidget::DaitaDirectOnlyToggle => Some(Request::ToggleDaitaDirectOnly),
        SettingsWidget::DaitaBlurbPrev => {
            app.settings_state.previous_daita_blurb_page();
            None
        },
        SettingsWidget::DaitaBlurbNext => {
            app.settings_state.next_daita_blurb_page();
            None
        },
        // VPN settings
        SettingsWidget::VpnAutoConnectToggle => Some(Request::ToggleAutoConnect),
        SettingsWidget::VpnLanToggle => Some(Request::ToggleLan),
        SettingsWidget::VpnIpv6Toggle => Some(Request::ToggleIpv6),
        SettingsWidget::VpnLockdownToggle => {
            *overlay = confirm(
                "Confirm lockdown mode update",
                texts::LOCKDOWN_QUESTION,
                ConfirmAction::ToggleLockdown,
                app.focused,
            );
            None
        },
        SettingsWidget::VpnQuantumToggle => Some(Request::ToggleQuantumResistant),
        SettingsWidget::VpnAntiCensorshipEdit => {
            app.enter_sub_page(PageId::SettingsAntiCensorship);
            None
        },
        // The field takes its keys directly.
        SettingsWidget::VpnMtuEdit => None,
        SettingsWidget::VpnDnsBlockersInfo => {
            app.enter_sub_page(PageId::SettingsDnsBlockers);
            None
        },
        SettingsWidget::VpnCustomDnsInfo => {
            app.enter_sub_page(PageId::SettingsCustomDns);
            None
        },
        SettingsWidget::VpnServerIpInfo => {
            app.enter_sub_page(PageId::SettingsRelayOverrides);
            None
        },
        SettingsWidget::VpnKillSwitchInfo => {
            app.show_notification(texts::KILL_SWITCH_INFO);
            None
        },
        SettingsWidget::VpnKillSwitchToggle => {
            app.show_notification(texts::KILL_SWITCH_INFO);
            None
        },
        SettingsWidget::VpnDeviceIpInfo => {
            app.show_notification(texts::DEVICE_IP_INFO);
            None
        },
        SettingsWidget::VpnLanInfo => {
            app.show_notification(texts::LAN_INFO);
            None
        },
        SettingsWidget::VpnIpv6Info => {
            app.show_notification(texts::IPV6_INFO);
            None
        },
        SettingsWidget::VpnLockdownInfo => {
            app.show_notification(texts::LOCKDOWN_INFO);
            None
        },
        SettingsWidget::VpnQuantumInfo => {
            app.show_notification(texts::QUANTUM_INFO);
            None
        },
        SettingsWidget::VpnDeviceIpAuto => Some(Request::SetIpVersion { version: None }),
        SettingsWidget::VpnDeviceIpV4 => Some(
            Request::SetIpVersion { version: Some(IpVersion::V4) },
        ),
        SettingsWidget::VpnDeviceIpV6 => Some(
            Request::SetIpVersion { version: Some(IpVersion::V6) },
        ),
        // Custom DNS and split tunneling
        SettingsWidget::CustomDnsToggle => Some(Request::ToggleCustomDns),
        SettingsWidget::CustomDnsAddAddress => {
            *input_mode = InputMode::CustomDnsInput { buffer: String::new(), edit_index: None };
            None
        },
        SettingsWidget::SplitTunnelToggle => Some(Request::ToggleSplitTunnel),
        SettingsWidget::SplitTunnelAddApp => {
            *input_mode = InputMode::SplitTunnelPathInput;
            None
        },
        SettingsWidget::SplitTunnelAddPid => {
            *input_mode = InputMode::SplitTunnelPidInput;
            None
        },
        // Anti-censorship
        SettingsWidget::AntiCensorshipPortEdit => {
            let mode = current_obfuscation_mode(app);
            if mode_has_configurable_port(mode) {
                *input_mode = InputMode::PortInput { mode };
            }
            None
        },
        // Server IP overrides
        SettingsWidget::RelayOverrideAdd => {
            *input_mode = InputMode::RelayOverrideInput;
            None
        },
        SettingsWidget::RelayOverrideClearAll => {
            *overlay = confirm(
                "Clear all server IP overrides",
                texts::CLEAR_OVERRIDES_QUESTION,
                ConfirmAction::ClearRelayOverrides,
                app.focused,
            );
            None
        },
        _ => match (widget.anti_censorship_mode(), widget.dns_blocker()) {
            (Some(mode), _) => Some(Request::SetAntiCensorshipMode { mode }),
            (None, Some(blocker)) => {
                let enabled = !dns_blocker_enabled(app, blocker);
                Some(Request::SetDnsBlocker { blocker, enabled })
            },
            (None, None) => None,
        },
    }
}

/// What a request of the Settings pages is called when it fails. Refreshing in
/// the background, and disconnecting on the way out, fail without a word.
pub open spec fn request_name(request: RequestView) -> Option<Seq<char>> {
    match request {
        RequestView::RemoveCustomDns { .. } => Some("remove custom DNS server"@),
        RequestView::ToggleAccessMethod { .. } => Some("toggle API access method"@),
        RequestView::SetActiveAccessMethod { .. } => Some("set active API access method"@),
        RequestView::RemoveSplitTunnelApp { .. } => Some("remove split-tunnel app"@),
        RequestView::RemoveSplitTunnelProcess { .. } => Some("remove split-tunnel PID"@),
        RequestView::ToggleMultihop => Some("multihop toggle"@),
        RequestView::ToggleDaita => Some("DAITA toggle"@),
        RequestView::ToggleDaitaDirectOnly => Some("DAITA Direct only toggle"@),
        RequestView::ToggleAutoConnect => Some("auto-connect toggle"@),
        RequestView::ToggleLan => Some("LAN toggle"@),
        RequestView::ToggleIpv6 => Some("IPv6 toggle"@),
        RequestView::ToggleQuantumResistant => Some("quantum-resistant toggle"@),
        RequestView::SetIpVersion { .. } => Some("device IP version"@),
        RequestView::SetDnsBlocker { .. } => Some("DNS content blocker toggle"@),
        RequestView::ToggleCustomDns => Some("custom DNS toggle"@),
        RequestView::ToggleSplitTunnel => Some("split-tunnel toggle"@),
        RequestView::SetAntiCensorshipMode { .. } => Some("anti-censorship mode"@),
        _ => None,
    }
}

fn name_of_request(request: &Request) -> (r: Option<&'static str>)
    ensures
        match r {
            Some(name) => request_name(request@) == Some(name@),
            None => request_name(request@) is None,
        },
{
    match request {
        Request::RemoveCustomDns { .. } => Some("remove custom DNS server"),
        Request::ToggleAccessMethod { .. } => Some("toggle API access method"),
        Request::SetActiveAccessMethod { .. } => Some("set active API access method"),
        Request::RemoveSplitTunnelApp { .. } => Some("remove split-tunnel app"),
        Request::RemoveSplitTunnelProcess { .. } => Some("remove split-tunnel PID"),
        Request::ToggleMultihop => Some("multihop toggle"),
        Request::ToggleDaita => Some("DAITA toggle"),
        Request::ToggleDaitaDirectOnly => Some("DAITA Direct only toggle"),
        Request::ToggleAutoConnect => Some("auto-connect toggle"),
        Request::ToggleLan => Some("LAN toggle"),
        Request::ToggleIpv6 => Some("IPv6 toggle"),
        Request::ToggleQuantumResistant => Some("quantum-resistant toggle"),
        Request::SetIpVersion { .. } => Some("device IP version"),
        Request::SetDnsBlocker { .. } => Some("DNS content blocker toggle"),
        Request::ToggleCustomDns => Some("custom DNS toggle"),
        Request::ToggleSplitTunnel => Some("split-tunnel toggle"),
        Request::SetAntiCensorshipMode { .. } => Some("anti-censorship mode"),
        _ => None,
    }
}

/// What the user is told when a request of the Settings pages ended, if anything.
pub open spec fn answer_notice(request: RequestView, answer: Answer) -> Option<NotificationView> {
    match (answer, request_name(request)) {
        (Err(error), Some(action)) => Some(
            NotificationView::ActionFailed { action, error: error@ },
        ),
        _ => None,
    }
}

/// Whether the program ends once the request ended, however that went.
pub open spec fn ends_program(request: RequestView) -> bool {
    request is DisconnectAndQuit
}

/// Take in how a request of the Settings pages ended. A failure is reported, if
/// the request has a name; disconnecting on the way out ends the program
/// however it went; all else is left to what the daemon reports.
pub fn complete(app: &mut App, request: &Request, answer: Answer)
    ensures
        match answer_notice(request@, answer) {
            Some(notice) => notification_view(final(app).notification) == Some(notice),
            None => final(app).notification == old(app).notification,
        },
        *final(app) == (App {
            notification: final(app).notification,
            quit: old(app).quit || ends_program(request@),
            ..*old(app)
        }),
        match (answer, request_name(request@)) {
            (Err(error), Some(action)) => {
                &&& notification_view(final(app).notification) == Some(
                    NotificationView::ActionFailed { action, error: error@ },
                )
                &&& *final(app) == (App { notification: final(app).notification, ..*old(app) })
            },
            _ => *final(app) == if request@ is DisconnectAndQuit {
                App { quit: true, ..*old(app) }
            } else {
                *old(app)
            },
        },
{
    if let Request::DisconnectAndQuit = request {
        app.quit = true;
        return;
    }
    match (answer, name_of_request(request)) {
        (Err(error), Some(action)) => app.show_failure(action, error),
        _ => {},
    }
}

// ---- The MTU field ----

/// The value of a text of decimal digits.
pub open spec fn digits_value(s: Seq<char>) -> nat
    decreases s.len(),
{
    if s.len() == 0 {
        0
    } else {
        digits_value(s.drop_last()) * 10 + (s.last() as nat - 48) as nat
    }
}

/// Whether all characters are decimal digits.
pub open spec fn all_digits(s: Seq<char>) -> bool {
    forall|i: int| 0 <= i < s.len() ==> '0' <= #[trigger] s[i] && s[i] <= '9'
}

/// `s` without a plus sign at its start.
pub open spec fn unsigned_part(s: Seq<char>) -> Seq<char> {
    if s.len() > 0 && s[0] == '+' {
        s.skip(1)
    } else {
        s
    }
}

/// The 16-bit number that `s` spells: digits, with a plus sign before them or
/// not.
pub open spec fn number_of(s: Seq<char>) -> Option<u16> {
    let digits = unsigned_part(s);
    if digits.len() > 0 && all_digits(digits) && digits_value(digits) <= u16::MAX {
        Some(digits_value(digits) as u16)
    } else {
        None
    }
}

proof fn digits_value_grows(s: Seq<char>, n: int)
    requires
        0 <= n <= s.len(),
        all_digits(s),
    ensures
        digits_value(s.take(n)) <= digits_value(s),
    decreases s.len() - n,
{
    if n < s.len() {
        digits_value_grows(s, n + 1);
        assert(s.take(n + 1).drop_last() =~= s.take(n));
        assert(s.take(n + 1).last() == s[n]);
    } else {
        assert(s.take(n) =~= s);
    }
}

fn parse_number(text: &str) -> (r: Option<u16>)
    ensures
        r == number_of(text@),
{
    let v = chars(text);
    let start: usize = if v.len() > 0 && v[0] == '+' {
        1
    } else {
        0
    };
    let ghost digits = unsigned_part(text@);
    assert(digits =~= v@.skip(start as int));
    if start == v.len() {
        return None;
    }
    let mut value: u32 = 0;
    let mut i: usize = start;
    assert(digits.take(0) =~= Seq::empty());
    while i < v.len()
        invariant
            start <= i <= v.len(),
            v@ == text@,
            start < v.len(),
            digits == unsigned_part(text@),
            digits == v@.skip(start as int),
            forall|j: int| 0 <= j < i - start ==> '0' <= #[trigger] digits[j] && digits[j] <= '9',
            value == digits_value(digits.take(i - start)),
            value <= u16::MAX,
        decreases v.len() - i,
    {
        let c = v[i];
        let ghost n = i - start;
        assert(digits[n] == c);
        if c < '0' || '9' < c {
            return None;
        }
        let d: u32 = (c as u32) - 48;
        value = value * 10 + d;
        proof {
            assert(digits.take(n + 1).drop_last() =~= digits.take(n));
            assert(digits.take(n + 1).last() == c);
        }
        if value > 65535 {
            proof {
                if all_digits(digits) {
                    digits_value_grows(digits, n + 1);
                }
            }
            return None;
        }
        i = i + 1;
    }
    assert(digits.take(i - start) =~= digits);
    Some(value as u16)
}

/// What the user typed as the MTU: nothing for the daemon's default, or a number;
/// none if it is neither.
pub open spec fn typed_mtu(text: Seq<char>) -> Option<Option<u16>> {
    if text.len() == 0 {
        Some(None)
    } else {
        match number_of(text) {
            Some(n) => Some(Some(n)),
            None => None,
        }
    }
}

/// The MTU that the user typed. Nothing typed stands for the daemon's default;
/// anything else has to be a 16-bit number. Whether the daemon takes it is for
/// the daemon to say.
pub fn parse_mtu_input(buffer: &str) -> (r: Result<Option<u16>, String>)
    ensures
        match r {
            Ok(mtu) => typed_mtu(buffer@) == Some(mtu),
            Err(_) => typed_mtu(buffer@) is None,
        },
        match r {
            Ok(None) => buffer@.len() == 0,
            Ok(Some(n)) => buffer@.len() > 0 && number_of(buffer@) == Some(n),
            Err(message) => buffer@.len() > 0 && number_of(buffer@) is None && message@
                == "MTU must be a number between 0 and 65535"@,
        },
{
    if buffer.is_empty() {
        return Ok(None);
    }
    match parse_number(buffer) {
        Some(n) => Ok(Some(n)),
        None => Err(owned("MTU must be a number between 0 and 65535")),
    }
}

} // verus!

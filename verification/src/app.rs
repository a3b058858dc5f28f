//! Application state: what the daemon reported, where the user is, and the
//! transient state of each page.

use crate::app::select_location::NodeKind;
use crate::daemon::{
    AccountInfo, Device, DeviceState, DnsBlockers, IpVersion, LocationConstraint, RelayLocation,
    RelayOverride, RelaySettings, SelectedObfuscation, Settings, TunnelState,
};
use crate::focus::WidgetId;
use crate::log::LogEntry;
use crate::text::{decimal, decimal_digits, owned};
use vstd::prelude::*;

pub mod filter;
pub mod logs;
pub mod select_location;

verus! {

// ---- Pages ----

/// A page of the application.
#[derive(Clone, Copy, Debug, PartialEq, Eq, Structural)]
pub enum PageId {
    Status,
    Account,
    Settings,
    Logs,
    SelectLocation,
    SelectLocationFilter,
    AccountDevices,
    SettingsDaita,
    SettingsMultihop,
    SettingsVpn,
    SettingsApiAccess,
    SettingsSplitTunnel,
    SettingsAntiCensorship,
    SettingsDnsBlockers,
    SettingsCustomDns,
    SettingsRelayOverrides,
}

/// Where leaving a sub-page leads: the page it was entered from, and the focus
/// there.
#[derive(Clone, Copy, Debug, PartialEq, Eq, Structural)]
pub struct Return {
    pub page: PageId,
    pub focused: Option<WidgetId>,
}

// ---- Messages ----

/// What the user is told.
#[derive(Debug)]
pub enum Notification {
    Message(String),
    /// The action that the daemon refused, and its error.
    ActionFailed { action: String, error: String },
}

/// What the user is told, as texts.
#[verifier::ext_equal]
pub enum NotificationView {
    Message(Seq<char>),
    ActionFailed { action: Seq<char>, error: Seq<char> },
}

impl View for Notification {
    type V = NotificationView;

    open spec fn view(&self) -> NotificationView {
        match self {
            Notification::Message(m) => NotificationView::Message(m@),
            Notification::ActionFailed { action, error } => NotificationView::ActionFailed {
                action: action@,
                error: error@,
            },
        }
    }
}

// ---- Overlays and input modes ----

/// What is done once the user confirms.
#[derive(Debug)]
pub enum ConfirmAction {
    Disconnect,
    Logout,
    RotateWireGuardKey,
    ToggleLockdown,
    RemoveRelayOverride { hostname: String },
    ClearRelayOverrides,
}

/// What is done once the user confirms, over texts.
#[verifier::ext_equal]
pub enum ConfirmActionView {
    Disconnect,
    Logout,
    RotateWireGuardKey,
    ToggleLockdown,
    RemoveRelayOverride { hostname: Seq<char> },
    ClearRelayOverrides,
}

impl View for ConfirmAction {
    type V = ConfirmActionView;

    open spec fn view(&self) -> ConfirmActionView {
        match self {
            ConfirmAction::Disconnect => ConfirmActionView::Disconnect,
            ConfirmAction::Logout => ConfirmActionView::Logout,
            ConfirmAction::RotateWireGuardKey => ConfirmActionView::RotateWireGuardKey,
            ConfirmAction::ToggleLockdown => ConfirmActionView::ToggleLockdown,
            ConfirmAction::RemoveRelayOverride { hostname } => {
                ConfirmActionView::RemoveRelayOverride { hostname: hostname@ }
            },
            ConfirmAction::ClearRelayOverrides => ConfirmActionView::ClearRelayOverrides,
        }
    }
}

/// The overlay in front of the page.
#[derive(Debug)]
pub enum OverlayMode {
    Hidden,
    Confirm {
        title: String,
        message: String,
        action: ConfirmAction,
        return_focus: Option<WidgetId>,
    },
}

/// The overlay in front of the page, over texts.
#[verifier::ext_equal]
pub enum OverlayView {
    Hidden,
    Confirm {
        title: Seq<char>,
        message: Seq<char>,
        action: ConfirmActionView,
        return_focus: Option<WidgetId>,
    },
}

impl View for OverlayMode {
    type V = OverlayView;

    open spec fn view(&self) -> OverlayView {
        match self {
            OverlayMode::Hidden => OverlayView::Hidden,
            OverlayMode::Confirm { title, message, action, return_focus } => {
                OverlayView::Confirm {
                    title: title@,
                    message: message@,
                    action: action@,
                    return_focus: *return_focus,
                }
            },
        }
    }
}

/// A question to confirm, in front of the page.
pub fn confirm(
    title: &str,
    message: &str,
    action: ConfirmAction,
    return_focus: Option<WidgetId>,
) -> (r: OverlayMode)
    ensures
        r@ == (OverlayView::Confirm {
            title: title@,
            message: message@,
            action: action@,
            return_focus,
        }),
{
    OverlayMode::Confirm { title: owned(title), message: owned(message), action, return_focus }
}

/// The text input that is open. Each starts out empty but for the fields given.
#[derive(Debug)]
pub enum InputMode {
    Normal,
    VoucherInput,
    AccountInput,
    CustomDnsInput { buffer: String, edit_index: Option<usize> },
    PortInput { mode: SelectedObfuscation },
    SplitTunnelPathInput,
    SplitTunnelPidInput,
    RelayOverrideInput,
}

/// The text input that is open, over texts.
#[verifier::ext_equal]
pub enum InputView {
    Normal,
    VoucherInput,
    AccountInput,
    CustomDnsInput { buffer: Seq<char>, edit_index: Option<usize> },
    PortInput { mode: SelectedObfuscation },
    SplitTunnelPathInput,
    SplitTunnelPidInput,
    RelayOverrideInput,
}

impl View for InputMode {
    type V = InputView;

    open spec fn view(&self) -> InputView {
        match self {
            InputMode::Normal => InputView::Normal,
            InputMode::VoucherInput => InputView::VoucherInput,
            InputMode::AccountInput => InputView::AccountInput,
            InputMode::CustomDnsInput { buffer, edit_index } => InputView::CustomDnsInput {
                buffer: buffer@,
                edit_index: *edit_index,
            },
            InputMode::PortInput { mode } => InputView::PortInput { mode: *mode },
            InputMode::SplitTunnelPathInput => InputView::SplitTunnelPathInput,
            InputMode::SplitTunnelPidInput => InputView::SplitTunnelPidInput,
            InputMode::RelayOverrideInput => InputView::RelayOverrideInput,
        }
    }
}

// ---- Requests to the daemon ----

/// A kind of domain that the daemon's resolver can refuse.
#[derive(Clone, Copy, Debug, PartialEq, Eq, Structural)]
pub enum DnsBlocker {
    Ads,
    Trackers,
    Malware,
    AdultContent,
    Gambling,
    SocialMedia,
}

impl DnsBlocker {
    /// Whether `blockers` refuses this kind.
    pub open spec fn is_set(self, blockers: DnsBlockers) -> bool {
        match self {
            DnsBlocker::Ads => blockers.ads,
            DnsBlocker::Trackers => blockers.trackers,
            DnsBlocker::Malware => blockers.malware,
            DnsBlocker::AdultContent => blockers.adult_content,
            DnsBlocker::Gambling => blockers.gambling,
            DnsBlocker::SocialMedia => blockers.social_media,
        }
    }

    /// Whether `blockers` refuses this kind.
    pub fn read(self, blockers: &DnsBlockers) -> (r: bool)
        ensures
            r == self.is_set(*blockers),
    {
        match self {
            DnsBlocker::Ads => blockers.ads,
            DnsBlocker::Trackers => blockers.trackers,
            DnsBlocker::Malware => blockers.malware,
            DnsBlocker::AdultContent => blockers.adult_content,
            DnsBlocker::Gambling => blockers.gambling,
            DnsBlocker::SocialMedia => blockers.social_media,
        }
    }

    /// Name of the kind.
    pub open spec fn name(self) -> Seq<char> {
        match self {
            DnsBlocker::Ads => "Ads"@,
            DnsBlocker::Trackers => "Trackers"@,
            DnsBlocker::Malware => "Malware"@,
            DnsBlocker::AdultContent => "Adult content"@,
            DnsBlocker::Gambling => "Gambling"@,
            DnsBlocker::SocialMedia => "Social media"@,
        }
    }

    /// Name of the kind.
    pub fn label(self) -> (r: &'static str)
        ensures
            r@ == self.name(),
    {
        match self {
            DnsBlocker::Ads => "Ads",
            DnsBlocker::Trackers => "Trackers",
            DnsBlocker::Malware => "Malware",
            DnsBlocker::AdultContent => "Adult content",
            DnsBlocker::Gambling => "Gambling",
            DnsBlocker::SocialMedia => "Social media",
        }
    }
}

/// Something that only the daemon can do.
#[derive(Debug)]
pub enum Request {
    Connect,
    Reconnect,
    DisconnectAndQuit,
    SelectCountry { node: NodeKind, country: String },
    SelectCity { node: NodeKind, country: String, city: String },
    SelectRelay { node: NodeKind, hostname: String },
    ListDevices,
    RemoveDevice { id: String },
    RemoveCustomDns { index: usize },
    ToggleAccessMethod { id: String },
    SetActiveAccessMethod { id: String },
    RefreshCurrentAccessMethod,
    RemoveSplitTunnelApp { path: String },
    RemoveSplitTunnelProcess { pid: i32 },
    RefreshSplitTunnelPids,
    ToggleMultihop,
    ToggleDaita,
    ToggleDaitaDirectOnly,
    ToggleAutoConnect,
    ToggleLan,
    ToggleIpv6,
    ToggleQuantumResistant,
    ToggleCustomDns,
    ToggleSplitTunnel,
    SetIpVersion { version: Option<IpVersion> },
    SetDnsBlocker { blocker: DnsBlocker, enabled: bool },
    SetAntiCensorshipMode { mode: SelectedObfuscation },
}

/// Something that only the daemon can do, over texts.
#[verifier::ext_equal]
pub enum RequestView {
    Connect,
    Reconnect,
    DisconnectAndQuit,
    SelectCountry { node: NodeKind, country: Seq<char> },
    SelectCity { node: NodeKind, country: Seq<char>, city: Seq<char> },
    SelectRelay { node: NodeKind, hostname: Seq<char> },
    ListDevices,
    RemoveDevice { id: Seq<char> },
    RemoveCustomDns { index: usize },
    ToggleAccessMethod { id: Seq<char> },
    SetActiveAccessMethod { id: Seq<char> },
    RefreshCurrentAccessMethod,
    RemoveSplitTunnelApp { path: Seq<char> },
    RemoveSplitTunnelProcess { pid: i32 },
    RefreshSplitTunnelPids,
    ToggleMultihop,
    ToggleDaita,
    ToggleDaitaDirectOnly,
    ToggleAutoConnect,
    ToggleLan,
    ToggleIpv6,
    ToggleQuantumResistant,
    ToggleCustomDns,
    ToggleSplitTunnel,
    SetIpVersion { version: Option<IpVersion> },
    SetDnsBlocker { blocker: DnsBlocker, enabled: bool },
    SetAntiCensorshipMode { mode: SelectedObfuscation },
}

impl View for Request {
    type V = RequestView;

    open spec fn view(&self) -> RequestView {
        match self {
            Request::Connect => RequestView::Connect,
            Request::Reconnect => RequestView::Reconnect,
            Request::DisconnectAndQuit => RequestView::DisconnectAndQuit,
            Request::SelectCountry { node, country } => RequestView::SelectCountry {
                node: *node,
                country: country@,
            },
            Request::SelectCity { node, country, city } => RequestView::SelectCity {
                node: *node,
                country: country@,
                city: city@,
            },
            Request::SelectRelay { node, hostname } => RequestView::SelectRelay {
                node: *node,
                hostname: hostname@,
            },
            Request::ListDevices => RequestView::ListDevices,
            Request::RemoveDevice { id } => RequestView::RemoveDevice { id: id@ },
            Request::RemoveCustomDns { index } => RequestView::RemoveCustomDns { index: *index },
            Request::ToggleAccessMethod { id } => RequestView::ToggleAccessMethod { id: id@ },
            Request::SetActiveAccessMethod { id } => RequestView::SetActiveAccessMethod { id: id@ },
            Request::RefreshCurrentAccessMethod => RequestView::RefreshCurrentAccessMethod,
            Request::RemoveSplitTunnelApp { path } => RequestView::RemoveSplitTunnelApp {
                path: path@,
            },
            Request::RemoveSplitTunnelProcess { pid } => RequestView::RemoveSplitTunnelProcess {
                pid: *pid,
            },
            Request::RefreshSplitTunnelPids => RequestView::RefreshSplitTunnelPids,
            Request::ToggleMultihop => RequestView::ToggleMultihop,
            Request::ToggleDaita => RequestView::ToggleDaita,
            Request::ToggleDaitaDirectOnly => RequestView::ToggleDaitaDirectOnly,
            Request::ToggleAutoConnect => RequestView::ToggleAutoConnect,
            Request::ToggleLan => RequestView::ToggleLan,
            Request::ToggleIpv6 => RequestView::ToggleIpv6,
            Request::ToggleQuantumResistant => RequestView::ToggleQuantumResistant,
            Request::ToggleCustomDns => RequestView::ToggleCustomDns,
            Request::ToggleSplitTunnel => RequestView::ToggleSplitTunnel,
            Request::SetIpVersion { version } => RequestView::SetIpVersion { version: *version },
            Request::SetDnsBlocker { blocker, enabled } => RequestView::SetDnsBlocker {
                blocker: *blocker,
                enabled: *enabled,
            },
            Request::SetAntiCensorshipMode { mode } => RequestView::SetAntiCensorshipMode {
                mode: *mode,
            },
        }
    }
}

/// An optional request, over texts.
pub open spec fn request_view(r: Option<Request>) -> Option<RequestView> {
    match r {
        Some(request) => Some(request@),
        None => None,
    }
}

/// How the daemon answered a request. For connecting and reconnecting the flag
/// says whether anything was started; for the rest it means nothing.
pub type Answer = Result<bool, String>;

/// A tunnel operation.
#[derive(Clone, Copy, Debug, PartialEq, Eq, Structural)]
pub enum Operation {
    Connect,
    Disconnect,
    Reconnect,
    Other,
}

/// What the daemon was last asked to do to the tunnel, while it does it.
#[derive(Clone, Copy, Debug, PartialEq, Eq, Structural)]
pub enum OperationStatus {
    Idle,
    Running(Operation),
}

// ---- Page states ----

/// State of the Status page.
#[derive(Clone, Copy, Debug, PartialEq, Eq, Structural)]
pub struct StatusState {
    pub connection_details_expanded: bool,
}

/// State of the Account page.
#[derive(Debug)]
pub struct AccountState {
    pub account_number_visible: bool,
    pub devices: Option<Vec<Device>>,
    pub devices_error: Option<String>,
    pub devices_loading: bool,
}

/// Number of pages of the DAITA description.
pub const DAITA_BLURB_PAGES: usize = 2;

/// Smallest and largest MTU that the daemon takes.
pub const WIREGUARD_MTU_MIN: u16 = 1280;

pub const WIREGUARD_MTU_MAX: u16 = 1420;

/// State of the Settings pages.
#[derive(Debug)]
pub struct SettingsState {
    pub daita_blurb_page: usize,
    pub mtu_buffer: String,
}

/// What the MTU field shows for the daemon's value: its digits, or nothing.
pub open spec fn mtu_text(mtu: Option<u16>) -> Seq<char> {
    match mtu {
        Some(n) => decimal_digits(n as nat),
        None => Seq::empty(),
    }
}

impl SettingsState {
    /// Step back one page of the DAITA description, stopping at the first.
    pub fn previous_daita_blurb_page(&mut self)
        ensures
            *final(self) == (SettingsState {
                daita_blurb_page: if old(self).daita_blurb_page == 0 {
                    0
                } else {
                    (old(self).daita_blurb_page - 1) as usize
                },
                ..*old(self)
            }),
    {
        if self.daita_blurb_page > 0 {
            self.daita_blurb_page = self.daita_blurb_page - 1;
        }
    }

    /// Step forward one page of the DAITA description, stopping at the last.
    pub fn next_daita_blurb_page(&mut self)
        ensures
            *final(self) == (SettingsState {
                daita_blurb_page: if old(self).daita_blurb_page + 1 < DAITA_BLURB_PAGES {
                    (old(self).daita_blurb_page + 1) as usize
                } else {
                    (DAITA_BLURB_PAGES - 1) as usize
                },
                ..*old(self)
            }),
    {
        if self.daita_blurb_page < DAITA_BLURB_PAGES - 1 {
            self.daita_blurb_page = self.daita_blurb_page + 1;
        } else {
            self.daita_blurb_page = DAITA_BLURB_PAGES - 1;
        }
    }

    /// Show the daemon's MTU in the field.
    pub fn sync_mtu_buffer_from_daemon(&mut self, mtu: Option<u16>)
        ensures
            final(self).mtu_buffer@ == mtu_text(mtu),
            final(self).daita_blurb_page == old(self).daita_blurb_page,
    {
        self.mtu_buffer = match mtu {
            Some(n) => decimal(n as u64),
            None => String::new(),
        };
    }
}

// ---- The relay selection ----

/// The location that an end of the tunnel is set to.
#[derive(Clone, Copy, Debug)]
pub enum CurrentRelaySelection<'a> {
    /// The daemon has not reported its settings yet.
    Unknown,
    Any,
    Country(&'a str),
    City { country: &'a str, city: &'a str },
    Hostname(&'a str),
    CustomList,
    CustomTunnel,
}

/// The location that an end of the tunnel is set to, over texts.
#[verifier::ext_equal]
pub enum SelectionView {
    Unknown,
    Any,
    Country(Seq<char>),
    City { country: Seq<char>, city: Seq<char> },
    Hostname(Seq<char>),
    CustomList,
    CustomTunnel,
}

impl<'a> View for CurrentRelaySelection<'a> {
    type V = SelectionView;

    open spec fn view(&self) -> SelectionView {
        match self {
            CurrentRelaySelection::Unknown => SelectionView::Unknown,
            CurrentRelaySelection::Any => SelectionView::Any,
            CurrentRelaySelection::Country(c) => SelectionView::Country(c@),
            CurrentRelaySelection::City { country, city } => SelectionView::City {
                country: country@,
                city: city@,
            },
            CurrentRelaySelection::Hostname(h) => SelectionView::Hostname(h@),
            CurrentRelaySelection::CustomList => SelectionView::CustomList,
            CurrentRelaySelection::CustomTunnel => SelectionView::CustomTunnel,
        }
    }
}

/// The selection that a location constraint stands for.
pub open spec fn constraint_selection(c: LocationConstraint) -> SelectionView {
    match c {
        LocationConstraint::Any => SelectionView::Any,
        LocationConstraint::Country(c) => SelectionView::Country(c@),
        LocationConstraint::City { country, city } => SelectionView::City {
            country: country@,
            city: city@,
        },
        LocationConstraint::Hostname(h) => SelectionView::Hostname(h@),
        LocationConstraint::CustomList => SelectionView::CustomList,
    }
}

fn selection_of(c: &LocationConstraint) -> (r: CurrentRelaySelection<'_>)
    ensures
        r@ == constraint_selection(*c),
{
    match c {
        LocationConstraint::Any => CurrentRelaySelection::Any,
        LocationConstraint::Country(c) => CurrentRelaySelection::Country(c.as_str()),
        LocationConstraint::City { country, city } => CurrentRelaySelection::City {
            country: country.as_str(),
            city: city.as_str(),
        },
        LocationConstraint::Hostname(h) => CurrentRelaySelection::Hostname(h.as_str()),
        LocationConstraint::CustomList => CurrentRelaySelection::CustomList,
    }
}

// ---- The application ----

/// Application state.
#[derive(Debug)]
pub struct App {
    pub settings: Option<Settings>,
    pub relay_locations: Vec<RelayLocation>,
    pub connection: Option<TunnelState>,
    pub account: Option<AccountInfo>,
    pub daemon_version: Option<String>,
    pub operation: OperationStatus,
    pub api_access_id: Option<String>,
    pub split_tunnel_pids: Option<Vec<i32>>,
    pub log_buffer: Vec<LogEntry>,
    pub page: PageId,
    pub focused: Option<WidgetId>,
    pub returns: Vec<Return>,
    pub notification: Option<Notification>,
    pub quit: bool,
    pub status_state: StatusState,
    pub account_state: AccountState,
    pub settings_state: SettingsState,
    pub logs_state: logs::PageState,
    pub select_location_state: select_location::PageState,
    pub filter_state: filter::PageState,
}

/// The notification as a text.
pub open spec fn notification_view(n: Option<Notification>) -> Option<NotificationView> {
    match n {
        Some(n) => Some(n@),
        None => None,
    }
}

/// Whether `inside` remembers the page and the focus of `before` as the way back.
pub open spec fn leads_back(before: App, inside: App) -> bool {
    inside.returns@ == before.returns@.push(
        Return { page: before.page, focused: before.focused },
    )
}

/// Whether `after` is `inside` gone back to where it was entered from. On a page
/// that is no sub-page there is no way back, and nothing happens.
pub open spec fn left(inside: App, after: App) -> bool {
    if inside.returns@.len() == 0 {
        after == inside
    } else {
        &&& after.returns@ == inside.returns@.drop_last()
        &&& after == (App {
            page: inside.returns@.last().page,
            focused: inside.returns@.last().focused,
            returns: after.returns,
            ..inside
        })
    }
}

/// Whether `app` is in the state at start.
pub open spec fn is_fresh(app: App) -> bool {
    &&& app.settings is None
    &&& app.relay_locations@.len() == 0
    &&& app.connection is None
    &&& app.account is None
    &&& app.daemon_version is None
    &&& app.operation == OperationStatus::Idle
    &&& app.api_access_id is None
    &&& app.split_tunnel_pids is None
    &&& app.log_buffer@.len() == 0
    &&& app.page == PageId::Status
    &&& app.focused is None
    &&& app.returns@.len() == 0
    &&& app.notification is None
    &&& !app.quit
    &&& !app.status_state.connection_details_expanded
    &&& !app.account_state.account_number_visible
    &&& app.account_state.devices is None
    &&& app.account_state.devices_error is None
    &&& !app.account_state.devices_loading
    &&& app.settings_state.daita_blurb_page == 0
    &&& app.settings_state.mtu_buffer@.len() == 0
    &&& app.logs_state.pinned is None
    &&& app.select_location_state@ == select_location::unopened()
    &&& app.filter_state@ == filter::no_filter()
}

impl App {
    /// The state at start, before the daemon reported anything.
    pub fn new() -> (r: App)
        ensures
            is_fresh(r),
            r.settings is None,
            r.relay_locations@.len() == 0,
            r.connection is None,
            r.account is None,
            r.daemon_version is None,
            r.operation == OperationStatus::Idle,
            r.api_access_id is None,
            r.split_tunnel_pids is None,
            r.log_buffer@.len() == 0,
            r.page == PageId::Status,
            r.focused is None,
            r.returns@.len() == 0,
            r.notification is None,
            !r.quit,
            !r.status_state.connection_details_expanded,
            !r.account_state.account_number_visible,
            r.account_state.devices is None,
            r.account_state.devices_error is None,
            !r.account_state.devices_loading,
            r.settings_state.daita_blurb_page == 0,
            r.settings_state.mtu_buffer@ == Seq::<char>::empty(),
            r.logs_state == (logs::PageState { pinned: None, total: 0, viewport: 0 }),
            r.select_location_state@ == select_location::unopened(),
            r.filter_state@ == filter::no_filter(),
    {
        App {
            settings: None,
            relay_locations: Vec::new(),
            connection: None,
            account: None,
            daemon_version: None,
            operation: OperationStatus::Idle,
            api_access_id: None,
            split_tunnel_pids: None,
            log_buffer: Vec::new(),
            page: PageId::Status,
            focused: None,
            returns: Vec::new(),
            notification: None,
            quit: false,
            status_state: StatusState { connection_details_expanded: false },
            account_state: AccountState {
                account_number_visible: false,
                devices: None,
                devices_error: None,
                devices_loading: false,
            },
            settings_state: SettingsState { daita_blurb_page: 0, mtu_buffer: String::new() },
            logs_state: logs::PageState::new(),
            select_location_state: select_location::PageState::new(),
            filter_state: filter::PageState::new(),
        }
    }

    // ---- Navigation ----

    /// Open `page` as a sub-page of the current one. The focus stays where it
    /// is, and is remembered for the way back.
    pub fn enter_sub_page(&mut self, page: PageId)
        ensures
            leads_back(*old(self), *final(self)),
            *final(self) == (App { page, returns: final(self).returns, ..*old(self) }),
    {
        self.returns.push(Return { page: self.page, focused: self.focused });
        self.page = page;
    }

    /// Go back to where the current sub-page was entered from, with the focus
    /// that was there. Nothing happens on a page that is no sub-page.
    pub fn leave_sub_page(&mut self)
        ensures
            left(*old(self), *final(self)),
    {
        if self.returns.len() == 0 {
            return;
        }
        match self.returns.pop() {
            Some(back) => {
                self.page = back.page;
                self.focused = back.focused;
            },
            None => {},
        }
    }

    /// Tell the user `message`.
    pub fn show_notification(&mut self, message: &str)
        ensures
            notification_view(final(self).notification) == Some(
                NotificationView::Message(message@),
            ),
            *final(self) == (App { notification: final(self).notification, ..*old(self) }),
    {
        self.notification = Some(Notification::Message(owned(message)));
    }

    /// Tell the user that the daemon refused `action`.
    pub fn show_failure(&mut self, action: &str, error: String)
        ensures
            notification_view(final(self).notification) == Some(
                NotificationView::ActionFailed { action: action@, error: error@ },
            ),
            *final(self) == (App { notification: final(self).notification, ..*old(self) }),
    {
        self.notification = Some(Notification::ActionFailed { action: owned(action), error });
    }

    // ---- Settings ----

    /// Whether traffic goes through two relays.
    pub open spec fn multihop(self) -> bool {
        self.settings is Some && self.settings->0.use_multihop
    }

    /// Whether traffic goes through two relays.
    pub fn is_multihop_enabled(&self) -> (r: bool)
        ensures
            r == self.multihop(),
    {
        match &self.settings {
            Some(s) => s.use_multihop,
            None => false,
        }
    }

    /// Whether DAITA picks the entry relay, whatever entry is configured.
    pub open spec fn daita_picks_entry(self) -> bool {
        self.settings is Some && self.settings->0.daita.enabled
            && self.settings->0.daita.use_multihop_if_necessary
    }

    /// Whether DAITA picks the entry relay, whatever entry is configured.
    pub fn daita_overrides_entry(&self) -> (r: bool)
        ensures
            r == self.daita_picks_entry(),
    {
        match &self.settings {
            Some(s) => s.daita.enabled && s.daita.use_multihop_if_necessary,
            None => false,
        }
    }

    /// The location selected for `node`.
    pub open spec fn selection(self, node: NodeKind) -> SelectionView {
        match self.settings {
            None => SelectionView::Unknown,
            Some(s) => match (s.relay_settings, node) {
                (RelaySettings::CustomTunnel, _) => SelectionView::CustomTunnel,
                (RelaySettings::Normal { exit, .. }, NodeKind::Exit) => constraint_selection(exit),
                (RelaySettings::Normal { entry, .. }, NodeKind::Entry) => constraint_selection(
                    entry,
                ),
            },
        }
    }

    /// The location selected for the exit.
    pub fn current_relay_selection(&self) -> (r: CurrentRelaySelection<'_>)
        ensures
            r@ == self.selection(NodeKind::Exit),
    {
        match &self.settings {
            None => CurrentRelaySelection::Unknown,
            Some(s) => match &s.relay_settings {
                RelaySettings::CustomTunnel => CurrentRelaySelection::CustomTunnel,
                RelaySettings::Normal { exit, .. } => selection_of(exit),
            },
        }
    }

    /// The location selected for the entry.
    pub fn current_entry_relay_selection(&self) -> (r: CurrentRelaySelection<'_>)
        ensures
            r@ == self.selection(NodeKind::Entry),
    {
        match &self.settings {
            None => CurrentRelaySelection::Unknown,
            Some(s) => match &s.relay_settings {
                RelaySettings::CustomTunnel => CurrentRelaySelection::CustomTunnel,
                RelaySettings::Normal { entry, .. } => selection_of(entry),
            },
        }
    }

    // ---- Account ----

    /// The device that is logged in.
    pub open spec fn device(self) -> Option<Device> {
        match self.account {
            Some(info) => match info.device {
                DeviceState::LoggedIn(both) => Some(both.device),
                _ => None,
            },
            None => None,
        }
    }

    /// The device that is logged in.
    pub fn current_device(&self) -> (r: Option<&Device>)
        ensures
            match r {
                Some(d) => self.device() == Some(*d),
                None => self.device() is None,
            },
    {
        match &self.account {
            Some(info) => match &info.device {
                DeviceState::LoggedIn(both) => Some(&both.device),
                _ => None,
            },
            None => None,
        }
    }
}

/// Leaving a sub-page leads back to the page, and to the focus, from which it was
/// entered, whatever happened on it.
pub proof fn leaving_undoes_entering(before: App, inside: App, after: App)
    requires
        leads_back(before, inside),
        left(inside, after),
    ensures
        after.page == before.page,
        after.focused == before.focused,
        after.returns@ == before.returns@,
{
    assert(after.returns@ =~= before.returns@);
}

/// At the start the Status page is shown, nothing is known of the daemon, nothing
/// is under way, and there is nowhere to go back to.
pub proof fn nothing_is_known_at_the_start(app: App)
    requires
        is_fresh(app),
    ensures
        app.page == PageId::Status,
        app.settings is None && app.connection is None && app.account is None,
        app.relay_locations@.len() == 0 && app.log_buffer@.len() == 0,
        app.daemon_version is None && app.api_access_id is None && app.split_tunnel_pids is None,
        app.operation == OperationStatus::Idle,
        app.focused is None && app.notification is None && app.returns@.len() == 0 && !app.quit,
        !app.status_state.connection_details_expanded,
        !app.account_state.account_number_visible,
        app.account_state.devices is None && app.account_state.devices_error is None
            && !app.account_state.devices_loading,
        app.settings_state.daita_blurb_page == 0 && app.settings_state.mtu_buffer@.len() == 0,
        app.logs_state.pinned is None,
        app.select_location_state@.query.len() == 0,
        app.filter_state@.excluded == Set::<Seq<char>>::empty(),
        !app.multihop() && !app.daita_picks_entry(),
        app.selection(NodeKind::Exit) == SelectionView::Unknown,
{
}

} // verus!

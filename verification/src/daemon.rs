//! What the daemon reports: relays, settings, account and tunnel state.
//!
//! Addresses, protocols and feature names are held as the text the daemon
//! prints for them; coordinates are held as the bits of an IEEE 754 double.

use vstd::prelude::*;

verus! {

// ---- Relays ----

/// One relay, with the place it stands in.
#[derive(Debug)]
pub struct RelayLocation {
    pub country_code: String,
    pub country_name: String,
    pub city_code: String,
    pub city_name: String,
    pub hostname: String,
}

/// A relay as plain text.
#[verifier::ext_equal]
pub struct RelayView {
    pub country_code: Seq<char>,
    pub country_name: Seq<char>,
    pub city_code: Seq<char>,
    pub city_name: Seq<char>,
    pub hostname: Seq<char>,
}

impl View for RelayLocation {
    type V = RelayView;

    open spec fn view(&self) -> RelayView {
        RelayView {
            country_code: self.country_code@,
            country_name: self.country_name@,
            city_code: self.city_code@,
            city_name: self.city_name@,
            hostname: self.hostname@,
        }
    }
}

/// The location that one end of the tunnel is constrained to.
#[derive(Debug)]
pub enum LocationConstraint {
    Any,
    Country(String),
    City { country: String, city: String },
    Hostname(String),
    CustomList,
}

/// The relays that the daemon may use.
#[derive(Debug)]
pub enum RelaySettings {
    CustomTunnel,
    Normal { exit: LocationConstraint, entry: LocationConstraint },
}

/// The IP version that the tunnel's transport is held to.
#[derive(Clone, Copy, Debug, PartialEq, Eq, Structural)]
pub enum IpVersion {
    V4,
    V6,
}

// ---- Settings ----

/// How WireGuard traffic is disguised.
#[derive(Clone, Copy, Debug, PartialEq, Eq, Structural)]
pub enum SelectedObfuscation {
    Off,
    Auto,
    Udp2Tcp,
    Shadowsocks,
    WireguardPort,
    Quic,
    Lwo,
}

impl SelectedObfuscation {
    /// Name of the mode.
    pub open spec fn name(self) -> Seq<char> {
        match self {
            SelectedObfuscation::Off => "off"@,
            SelectedObfuscation::Auto => "auto"@,
            SelectedObfuscation::Udp2Tcp => "udp2tcp"@,
            SelectedObfuscation::Shadowsocks => "shadowsocks"@,
            SelectedObfuscation::WireguardPort => "wireguard-port"@,
            SelectedObfuscation::Quic => "quic"@,
            SelectedObfuscation::Lwo => "lwo"@,
        }
    }

    /// Name of the mode.
    pub fn label(self) -> (r: &'static str)
        ensures
            r@ == self.name(),
    {
        match self {
            SelectedObfuscation::Off => "off",
            SelectedObfuscation::Auto => "auto",
            SelectedObfuscation::Udp2Tcp => "udp2tcp",
            SelectedObfuscation::Shadowsocks => "shadowsocks",
            SelectedObfuscation::WireguardPort => "wireguard-port",
            SelectedObfuscation::Quic => "quic",
            SelectedObfuscation::Lwo => "lwo",
        }
    }
}

/// Obfuscation mode, and the port that each mode with a port is held to.
#[derive(Debug)]
pub struct ObfuscationSettings {
    pub selected_obfuscation: SelectedObfuscation,
    pub udp2tcp_port: Option<u16>,
    pub shadowsocks_port: Option<u16>,
    pub wireguard_port: Option<u16>,
}

/// Traffic-analysis defence.
#[derive(Clone, Copy, Debug)]
pub struct DaitaSettings {
    pub enabled: bool,
    pub use_multihop_if_necessary: bool,
}

/// Which kinds of domains the daemon's resolver refuses.
#[derive(Clone, Copy, Debug)]
pub struct DnsBlockers {
    pub ads: bool,
    pub trackers: bool,
    pub malware: bool,
    pub adult_content: bool,
    pub gambling: bool,
    pub social_media: bool,
}

/// DNS configuration. The addresses are kept while custom DNS is off.
#[derive(Debug)]
pub struct DnsSettings {
    pub custom: bool,
    pub addresses: Vec<String>,
    pub blockers: DnsBlockers,
}

/// Applications that are kept outside the tunnel.
#[derive(Debug)]
pub struct SplitTunnelSettings {
    pub enabled: bool,
    pub apps: Vec<String>,
}

/// One way to reach the API.
#[derive(Debug)]
pub struct AccessMethodSetting {
    pub id: String,
    pub name: String,
    pub enabled: bool,
}

/// Replacement addresses for one relay.
#[derive(Debug)]
pub struct RelayOverride {
    pub hostname: String,
    pub ipv4_addr_in: Option<String>,
    pub ipv6_addr_in: Option<String>,
}

/// The daemon's settings.
#[derive(Debug)]
pub struct Settings {
    pub relay_settings: RelaySettings,
    pub use_multihop: bool,
    pub ip_version: Option<IpVersion>,
    pub allow_lan: bool,
    pub lockdown_mode: bool,
    pub auto_connect: bool,
    pub enable_ipv6: bool,
    pub quantum_resistant: bool,
    pub mtu: Option<u16>,
    pub daita: DaitaSettings,
    pub obfuscation_settings: ObfuscationSettings,
    pub dns: DnsSettings,
    pub split_tunnel: SplitTunnelSettings,
    pub api_access_methods: Vec<AccessMethodSetting>,
    pub relay_overrides: Vec<RelayOverride>,
}

// ---- Account ----

/// A moment: seconds since the start of 1970 in UTC, and nanoseconds.
#[derive(Clone, Copy, Debug, PartialEq, Eq, Structural)]
pub struct Timestamp {
    pub seconds: i64,
    pub nanos: u32,
}

/// A device that is registered on an account.
#[derive(Debug)]
pub struct Device {
    pub id: String,
    pub pretty_name: String,
    pub created: Timestamp,
}

/// An account number together with the device that is logged in to it.
#[derive(Debug)]
pub struct AccountAndDevice {
    pub account_number: String,
    pub device: Device,
}

/// Login state of this device.
#[derive(Debug)]
pub enum DeviceState {
    LoggedIn(AccountAndDevice),
    LoggedOut,
    Revoked,
}

/// What the daemon knows of the account itself.
#[derive(Clone, Copy, Debug)]
pub struct AccountData {
    pub expiry: Timestamp,
}

/// Login state, with the account's data once it was fetched.
#[derive(Debug)]
pub struct AccountInfo {
    pub device: DeviceState,
    pub data: Option<AccountData>,
}

// ---- Tunnel ----

/// An angle in degrees, as the bits of an IEEE 754 double.
#[derive(Clone, Copy, Debug, PartialEq, Eq, Structural)]
pub struct Degrees {
    pub bits: u64,
}

/// Where the daemon believes traffic leaves.
#[derive(Debug)]
pub struct GeoIpLocation {
    pub ipv4: Option<String>,
    pub ipv6: Option<String>,
    pub country: String,
    pub city: Option<String>,
    pub latitude: Degrees,
    pub longitude: Degrees,
    pub mullvad_exit_ip: bool,
    pub hostname: Option<String>,
    pub entry_hostname: Option<String>,
}

/// A socket address and the protocol spoken there.
#[derive(Debug)]
pub struct Endpoint {
    pub address: String,
    pub protocol: String,
}

/// An endpoint that disguises traffic, and how.
#[derive(Debug)]
pub struct ObfuscationEndpoint {
    pub obfuscation_type: String,
    pub endpoint: Endpoint,
}

/// The obfuscation in use.
#[derive(Debug)]
pub enum ObfuscationInfo {
    Single(ObfuscationEndpoint),
    Multiplexer { direct: Option<Endpoint>, obfuscators: Vec<ObfuscationEndpoint> },
}

/// Both ends of the running tunnel.
#[derive(Debug)]
pub struct TunnelEndpoint {
    pub endpoint: Endpoint,
    pub entry_endpoint: Option<Endpoint>,
    pub obfuscation: Option<ObfuscationInfo>,
    pub tunnel_interface: Option<String>,
}

/// Names of the features that are active on a tunnel, in no particular order.
#[derive(Debug)]
pub struct FeatureIndicators {
    pub active: Vec<String>,
}

/// What happens once the tunnel is down.
#[derive(Clone, Copy, Debug, PartialEq, Eq, Structural)]
pub enum ActionAfterDisconnect {
    Nothing,
    Block,
    Reconnect,
}

/// Why the tunnel is in its error state.
#[derive(Debug)]
pub struct ErrorState {
    pub cause: String,
    pub blocking: bool,
}

/// State of the tunnel.
#[derive(Debug)]
pub enum TunnelState {
    Disconnected { location: Option<GeoIpLocation>, locked_down: bool },
    Connecting {
        endpoint: TunnelEndpoint,
        location: Option<GeoIpLocation>,
        feature_indicators: FeatureIndicators,
    },
    Connected {
        endpoint: TunnelEndpoint,
        location: Option<GeoIpLocation>,
        feature_indicators: FeatureIndicators,
    },
    Disconnecting(ActionAfterDisconnect),
    Error(ErrorState),
}

impl TunnelState {
    /// The location that the state carries.
    pub open spec fn location(self) -> Option<GeoIpLocation> {
        match self {
            TunnelState::Disconnected { location, .. } => location,
            TunnelState::Connecting { location, .. } => location,
            TunnelState::Connected { location, .. } => location,
            _ => None,
        }
    }

    /// The location that the state carries.
    pub fn get_location(&self) -> (r: Option<&GeoIpLocation>)
        ensures
            match r {
                Some(l) => self.location() == Some(*l),
                None => self.location() is None,
            },
    {
        match self {
            TunnelState::Disconnected { location, .. } => location.as_ref(),
            TunnelState::Connecting { location, .. } => location.as_ref(),
            TunnelState::Connected { location, .. } => location.as_ref(),
            _ => None,
        }
    }

    /// The endpoint of a tunnel that is up or coming up.
    pub open spec fn tunnel_endpoint(self) -> Option<TunnelEndpoint> {
        match self {
            TunnelState::Connecting { endpoint, .. } => Some(endpoint),
            TunnelState::Connected { endpoint, .. } => Some(endpoint),
            _ => None,
        }
    }

    /// The endpoint of a tunnel that is up or coming up.
    pub fn endpoint(&self) -> (r: Option<&TunnelEndpoint>)
        ensures
            match r {
                Some(e) => self.tunnel_endpoint() == Some(*e),
                None => self.tunnel_endpoint() is None,
            },
    {
        match self {
            TunnelState::Connecting { endpoint, .. } => Some(endpoint),
            TunnelState::Connected { endpoint, .. } => Some(endpoint),
            _ => None,
        }
    }
}

} // verus!

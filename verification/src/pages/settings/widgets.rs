//! Widget ids of the Settings pages.

use vstd::prelude::*;

verus! {

// ---- Root menu ----

pub const DAITA: u32 = 0x40;

pub const MULTIHOP: u32 = 0x41;

pub const VPN_SETTINGS: u32 = 0x42;

pub const SPLIT_TUNNELING: u32 = 0x43;

pub const API_ACCESS: u32 = 0x44;

pub const DISCONNECT_AND_QUIT: u32 = 0x45;

// ---- Multihop ----

pub const MULTIHOP_TOGGLE: u32 = 0x50;

// ---- DAITA ----

pub const DAITA_TOGGLE: u32 = 0x60;

pub const DAITA_DIRECT_ONLY_TOGGLE: u32 = 0x61;

pub const DAITA_BLURB_PREV: u32 = 0x62;

pub const DAITA_BLURB_NEXT: u32 = 0x63;

// ---- VPN settings and split tunneling ----

pub const VPN_LAN_TOGGLE: u32 = 0x70;

pub const VPN_DNS_BLOCKERS_INFO: u32 = 0x71;

pub const VPN_CUSTOM_DNS_INFO: u32 = 0x72;

pub const VPN_IPV6_TOGGLE: u32 = 0x73;

pub const VPN_KILL_SWITCH_INFO: u32 = 0x74;

pub const VPN_LOCKDOWN_TOGGLE: u32 = 0x75;

pub const VPN_ANTI_CENSORSHIP_EDIT: u32 = 0x76;

pub const VPN_QUANTUM_TOGGLE: u32 = 0x77;

pub const VPN_DEVICE_IP_INFO: u32 = 0x78;

pub const VPN_MTU_EDIT: u32 = 0x79;

pub const VPN_SERVER_IP_INFO: u32 = 0x7A;

pub const VPN_AUTO_CONNECT_TOGGLE: u32 = 0x7B;

pub const SPLIT_TUNNEL_TOGGLE: u32 = 0x7C;

pub const SPLIT_TUNNEL_ADD_APP: u32 = 0x7D;

pub const SPLIT_TUNNEL_ADD_PID: u32 = 0x7E;

pub const VPN_LAN_INFO: u32 = 0x7F;

pub const VPN_IPV6_INFO: u32 = 0x80;

pub const VPN_KILL_SWITCH_TOGGLE: u32 = 0x81;

pub const VPN_LOCKDOWN_INFO: u32 = 0x82;

pub const VPN_QUANTUM_INFO: u32 = 0x83;

pub const VPN_DEVICE_IP_AUTO: u32 = 0x84;

pub const VPN_DEVICE_IP_V4: u32 = 0x85;

pub const VPN_DEVICE_IP_V6: u32 = 0x86;

// ---- DNS content blockers ----

pub const DNS_BLOCK_ADS: u32 = 0x90;

pub const DNS_BLOCK_TRACKERS: u32 = 0x91;

pub const DNS_BLOCK_MALWARE: u32 = 0x92;

pub const DNS_BLOCK_ADULT_CONTENT: u32 = 0x93;

pub const DNS_BLOCK_GAMBLING: u32 = 0x94;

pub const DNS_BLOCK_SOCIAL_MEDIA: u32 = 0x95;

// ---- Custom DNS ----

pub const CUSTOM_DNS_TOGGLE: u32 = 0x96;

pub const CUSTOM_DNS_ADD_ADDRESS: u32 = 0x97;

// ---- Anti-censorship ----

pub const ANTI_CENSORSHIP_MODE_OFF: u32 = 0x98;

pub const ANTI_CENSORSHIP_MODE_AUTO: u32 = 0x99;

pub const ANTI_CENSORSHIP_MODE_UDP2_TCP: u32 = 0x9A;

pub const ANTI_CENSORSHIP_MODE_SHADOWSOCKS: u32 = 0x9B;

pub const ANTI_CENSORSHIP_MODE_WIREGUARD_PORT: u32 = 0x9C;

pub const ANTI_CENSORSHIP_MODE_QUIC: u32 = 0x9D;

pub const ANTI_CENSORSHIP_MODE_LWO: u32 = 0x9E;

pub const ANTI_CENSORSHIP_PORT_EDIT: u32 = 0x9F;

// ---- Server IP overrides ----

pub const RELAY_OVERRIDE_ADD: u32 = 0xA0;

pub const RELAY_OVERRIDE_CLEAR_ALL: u32 = 0xA1;

// ---- Rows of lists: a first id, and how many rows have one ----

/// `[Remove]` of a custom DNS server.
pub const CUSTOM_DNS_REMOVE_BASE: u32 = 0xA2;

pub const CUSTOM_DNS_REMOVE_MAX: u32 = 16;

/// `[Edit]` of a custom DNS server.
pub const CUSTOM_DNS_EDIT_BASE: u32 = CUSTOM_DNS_REMOVE_BASE + CUSTOM_DNS_REMOVE_MAX;

pub const CUSTOM_DNS_EDIT_MAX: u32 = CUSTOM_DNS_REMOVE_MAX;

/// Checkbox of an API access method.
pub const API_ACCESS_TOGGLE_BASE: u32 = CUSTOM_DNS_EDIT_BASE + CUSTOM_DNS_EDIT_MAX;

pub const API_ACCESS_MAX: u32 = 16;

/// `[Use]` of an API access method.
pub const API_ACCESS_USE_BASE: u32 = API_ACCESS_TOGGLE_BASE + API_ACCESS_MAX;

/// `[Remove]` of an excluded application.
pub const SPLIT_TUNNEL_REMOVE_APP_BASE: u32 = API_ACCESS_USE_BASE + API_ACCESS_MAX;

pub const SPLIT_TUNNEL_REMOVE_MAX: u32 = 32;

/// `[Remove]` of an excluded process.
pub const SPLIT_TUNNEL_REMOVE_PID_BASE: u32 = SPLIT_TUNNEL_REMOVE_APP_BASE + SPLIT_TUNNEL_REMOVE_MAX;

/// `[Remove]` of a server IP override.
pub const RELAY_OVERRIDE_REMOVE_BASE: u32 = SPLIT_TUNNEL_REMOVE_PID_BASE + SPLIT_TUNNEL_REMOVE_MAX;

pub const RELAY_OVERRIDE_REMOVE_MAX: u32 = 32;

} // verus!

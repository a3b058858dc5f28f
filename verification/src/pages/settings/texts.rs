//! Texts of the Settings pages.

use vstd::prelude::*;

verus! {

/// What the kill switch does.
pub const KILL_SWITCH_INFO: &'static str = "This built-in feature prevents your traffic from leaking outside of the VPN tunnel if your network suddenly stops working or if the tunnel fails, it does this by blocking your traffic until your connection is reestablished.\n\nThe difference between the Kill Switch and Lockdown Mode is that the Kill Switch will prevent any leaks from happening during automatic tunnel reconnects, software crashes and similar accidents. With Lockdown Mode enabled, you must be connected to a Mullvad VPN server to be able to reach the internet. Manually disconnecting or quitting the app will block your connection.\n";

/// What the device IP version is for.
pub const DEVICE_IP_INFO: &'static str = "This feature allows you to choose whether to use only IPv4, only IPv6, or allow the app to automatically decide the best option when connecting to a server.\n\nIt can be useful when you are aware of problems caused by a certain IP version.\n";

/// What local network sharing does.
pub const LAN_INFO: &'static str = "This feature allows access to other devices on the local network, such as for sharing, printing, streaming, etc.\n\nIt does this by allowing network communication outside the tunnel to local multicast and broadcast ranges as well as to and from these private IP ranges:\n\n- 10.0.0.0/8\n- 172.16.0.0/12\n- 192.168.0.0/16\n- 169.254.0.0/16\n- fe80::/10\n- fc00::/7\n";

/// What in-tunnel IPv6 does.
pub const IPV6_INFO: &'static str = "When this feature is enabled, IPv6 can be used alongside IPv4 in the VPN tunnel to communicate with internet services.\n\nIPv4 is always enabled and the majority of websites and applications use this protocol. We do not recommend enabling IPv6 unless you know you need it.\n";

/// How lockdown mode differs from the kill switch.
pub const LOCKDOWN_INFO: &'static str = "The difference between the Kill Switch and Lockdown Mode is that the Kill Switch will prevent any leaks from happening during automatic tunnel reconnects, software crashes and similar accidents.\n\nWith Lockdown Mode enabled, you must be connected to a Mullvad VPN server to be able to reach the internet. Manually disconnecting or quitting the app will block your connection.\n";

/// What the quantum-resistant tunnel does.
pub const QUANTUM_INFO: &'static str = "This feature makes the WireGuard tunnel resistant to potential attacks from quantum computers.\n\nIt does this by performing an extra key exchange using a quantum safe algorithm and mixing the result into WireGuard's regular encryption.\n";

/// Asked before lockdown mode is turned over.
pub const LOCKDOWN_QUESTION: &'static str = "Attention: enabling this will always require a Mullvad VPN connection in order to reach the internet. The app's built-in kill switch is always on. This setting will additionally block the internet if clicking Disconnect or Quit.";

/// Asked before all server IP overrides are cleared.
pub const CLEAR_OVERRIDES_QUESTION: &'static str = "Wipe every per-relay IPv4/IPv6 override? The daemon will fall back to the upstream-published addresses for every relay.";

/// Asked before a server IP override is removed, up to its hostname and after.
pub const REMOVE_OVERRIDE_QUESTION: &'static str = "Remove the IPv4/IPv6 in-address override for `";

pub const REMOVE_OVERRIDE_QUESTION_END: &'static str = "`? The daemon will fall back to the upstream-published address.";

} // verus!

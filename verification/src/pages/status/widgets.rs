//! Widget ids of the Status page.

use vstd::prelude::*;

verus! {

pub const DETAILS_TOGGLE: u32 = 0x10;

pub const SWITCH_LOCATION: u32 = 0x11;

pub const REFRESH_CONNECTION: u32 = 0x12;

pub const CONNECT_DISCONNECT: u32 = 0x13;

} // verus!

//! Widget ids of the Account page and the Manage-devices page.

use vstd::prelude::*;

verus! {

pub const MANAGE_DEVICES: u32 = 0x20;

pub const SHOW_ACCOUNT: u32 = 0x21;

pub const BUY_CREDIT: u32 = 0x22;

pub const REDEEM_VOUCHER: u32 = 0x23;

pub const LOG_OUT: u32 = 0x24;

pub const LOG_IN: u32 = 0x25;

pub const ROTATE_KEY: u32 = 0x26;

/// `[Remove]` of another device: a first id, and how many rows have one.
pub const REMOVE_DEVICE_BASE: u32 = 0x27;

pub const REMOVE_DEVICE_MAX: u32 = 16;

} // verus!

//! Widget ids of the Select-location page.

use vstd::prelude::*;

verus! {

/// The search anchor at the top of the page.
pub const SEARCH_ANCHOR: u32 = 0x1000;

/// The `[Filter]` button to its right.
pub const FILTER_BUTTON: u32 = 0x1001;

/// The `[Entry]` tab, there only while multihop is on.
pub const ENTRY_TAB: u32 = 0x1002;

/// The `[Exit]` tab.
pub const EXIT_TAB: u32 = 0x1003;

/// Rows of each level that can take focus. Rows past these are shown only.
pub const COUNTRY_MAX: u32 = 256;

pub const CITY_MAX: u32 = 256;

pub const RELAY_MAX: u32 = 1024;

pub const COUNTRY_RADIO_BASE: u32 = 0x1100;

pub const CITY_RADIO_BASE: u32 = COUNTRY_RADIO_BASE + COUNTRY_MAX;

pub const RELAY_RADIO_BASE: u32 = CITY_RADIO_BASE + CITY_MAX;

/// Chevrons, which only the mouse reaches, have the row index of their radio.
pub const COUNTRY_CHEVRON_BASE: u32 = RELAY_RADIO_BASE + RELAY_MAX;

pub const CITY_CHEVRON_BASE: u32 = COUNTRY_CHEVRON_BASE + COUNTRY_MAX;

} // verus!

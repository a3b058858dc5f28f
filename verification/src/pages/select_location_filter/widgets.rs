//! Widget ids of the fixed rows of the location filter page.

use vstd::prelude::*;

verus! {

pub const OWNERSHIP_ANY: u32 = 0x2000;

pub const OWNERSHIP_MULLVAD_OWNED: u32 = 0x2001;

pub const OWNERSHIP_RENTED: u32 = 0x2002;

pub const PROVIDERS_ALL: u32 = 0x2003;

} // verus!

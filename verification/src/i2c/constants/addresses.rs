//! The two 7-bit bus addresses that the chip can be strapped to.

use vstd::prelude::*;

verus! {

/// Address with the address pin tied low.
pub const DEFAULT: u8 = 0x10;

/// Address with the address pin tied high.
pub const ALTERNATIVE: u8 = 0x48;

} // verus!

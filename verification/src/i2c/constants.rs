//! Fixed numbers of the chip: its bus addresses, its register map and the
//! layout of its registers.

pub mod addresses;
pub mod fields;
pub mod registers;

use vstd::prelude::*;

verus! {

/// Time that the chip needs to settle after it is powered on, in
/// milliseconds.
pub const POWER_ON_SETTLE_MS: u32 = 4;

} // verus!

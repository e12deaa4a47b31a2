//! Where each setting lies in its register: the number of bits below the
//! field and the number of bits in it.

use vstd::prelude::*;

verus! {

/// Gain, in the settings register.
pub const GAIN_OFFSET: u16 = 11;

pub const GAIN_WIDTH: u16 = 2;

/// Integration time, in the settings register.
pub const INTEGRATION_TIME_OFFSET: u16 = 6;

pub const INTEGRATION_TIME_WIDTH: u16 = 4;

/// Persistence protect number, in the settings register.
pub const PERSISTENCE_OFFSET: u16 = 4;

pub const PERSISTENCE_WIDTH: u16 = 2;

/// Interrupt enable, in the settings register.
pub const INTERRUPT_ENABLE_OFFSET: u16 = 1;

pub const INTERRUPT_ENABLE_WIDTH: u16 = 1;

/// Shutdown, in the settings register.
pub const SHUTDOWN_OFFSET: u16 = 0;

pub const SHUTDOWN_WIDTH: u16 = 1;

/// Power saving mode, in the power saving register.
pub const POWER_SAVING_MODE_OFFSET: u16 = 1;

pub const POWER_SAVING_MODE_WIDTH: u16 = 2;

/// Power saving enable, in the power saving register.
pub const POWER_SAVING_ENABLE_OFFSET: u16 = 0;

pub const POWER_SAVING_ENABLE_WIDTH: u16 = 1;

/// Low threshold exceeded, in the interrupt status register.
pub const LOW_THRESHOLD_EXCEEDED_OFFSET: u16 = 15;

/// High threshold exceeded, in the interrupt status register.
pub const HIGH_THRESHOLD_EXCEEDED_OFFSET: u16 = 14;

/// Width of each of the two threshold flags.
pub const THRESHOLD_EXCEEDED_WIDTH: u16 = 1;

/// Whether the field of `width` bits at `offset` lies within a 16-bit word.
pub open spec fn fits(offset: u16, width: u16) -> bool {
    offset + width <= 16
}

/// Whether the field of `width` bits at `offset` ends at or below the bit
/// at which another field starts.
pub open spec fn below(offset: u16, width: u16, other_offset: u16) -> bool {
    offset + width <= other_offset
}

/// Every field lies within its register, and the fields of one register lie
/// one above the other, so that no two of them share a bit.
pub proof fn lemma_layout()
    ensures
        fits(SHUTDOWN_OFFSET, SHUTDOWN_WIDTH),
        fits(INTERRUPT_ENABLE_OFFSET, INTERRUPT_ENABLE_WIDTH),
        fits(PERSISTENCE_OFFSET, PERSISTENCE_WIDTH),
        fits(INTEGRATION_TIME_OFFSET, INTEGRATION_TIME_WIDTH),
        fits(GAIN_OFFSET, GAIN_WIDTH),
        below(SHUTDOWN_OFFSET, SHUTDOWN_WIDTH, INTERRUPT_ENABLE_OFFSET),
        below(INTERRUPT_ENABLE_OFFSET, INTERRUPT_ENABLE_WIDTH, PERSISTENCE_OFFSET),
        below(PERSISTENCE_OFFSET, PERSISTENCE_WIDTH, INTEGRATION_TIME_OFFSET),
        below(INTEGRATION_TIME_OFFSET, INTEGRATION_TIME_WIDTH, GAIN_OFFSET),
        fits(POWER_SAVING_ENABLE_OFFSET, POWER_SAVING_ENABLE_WIDTH),
        fits(POWER_SAVING_MODE_OFFSET, POWER_SAVING_MODE_WIDTH),
        below(POWER_SAVING_ENABLE_OFFSET, POWER_SAVING_ENABLE_WIDTH, POWER_SAVING_MODE_OFFSET),
        fits(HIGH_THRESHOLD_EXCEEDED_OFFSET, THRESHOLD_EXCEEDED_WIDTH),
        fits(LOW_THRESHOLD_EXCEEDED_OFFSET, THRESHOLD_EXCEEDED_WIDTH),
        below(
            HIGH_THRESHOLD_EXCEEDED_OFFSET,
            THRESHOLD_EXCEEDED_WIDTH,
            LOW_THRESHOLD_EXCEEDED_OFFSET,
        ),
{
}

} // verus!

//! Command codes of the chip's 16-bit registers.

use vstd::prelude::*;

verus! {

/// Settings: gain, integration time, persistence, interrupt enable, shutdown.
pub const SETTING_REG: u8 = 0x00;

/// High threshold of the interrupt window.
pub const H_THRESH_REG: u8 = 0x01;

/// Low threshold of the interrupt window.
pub const L_THRESH_REG: u8 = 0x02;

/// Power saving mode and its enable bit.
pub const POWER_SAVE_REG: u8 = 0x03;

/// Ambient light output, read-only.
pub const AMBIENT_LIGHT_DATA_REG: u8 = 0x04;

/// White light output, read-only.
pub const WHITE_LIGHT_DATA_REG: u8 = 0x05;

/// Interrupt status: which threshold was crossed.
pub const INTERRUPT_REG: u8 = 0x06;

} // verus!

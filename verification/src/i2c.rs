//! Register access and typed settings of the sensor.
//!
//! A device handle owns the bus and the delay. Every getter reads its
//! register afresh, and every setter of a field reads the register, splices
//! the field in and writes the word back. A call makes no transaction after
//! one that failed and reports the failure as an I/O error.

pub mod bitfield;
pub mod constants;
pub mod settings;
pub mod trace;
pub mod wire;

use crate::i2c::bitfield::clip_u16;
use crate::i2c::bitfield::extract_field;
use crate::i2c::bitfield::insert_u16;
use crate::i2c::constants::fields;
use crate::i2c::constants::registers;
use crate::i2c::constants::POWER_ON_SETTLE_MS;
use crate::i2c::wire::convert_buffer_to_u16;
use crate::i2c::wire::convert_u16_to_buffer;
use crate::i2c::wire::register_read;
use crate::i2c::wire::register_write;
use crate::i2c::wire::wire_bytes;
use crate::i2c::wire::write_frame;
use crate::transport::DelayMs;
use crate::transport::I2cBus;
use crate::transport::Event;
use crate::transport::Recorder;
use vstd::prelude::*;
use vstd::std_specs::convert::TryFromSpec;

pub use crate::i2c::settings::Address;
pub use crate::i2c::settings::Gain;
pub use crate::i2c::settings::IntegrationTime;
pub use crate::i2c::settings::InterruptEnable;
pub use crate::i2c::settings::PersistenceProtectNumber;
pub use crate::i2c::settings::PowerSavingMode;
pub use crate::i2c::settings::PowerSavingModeEnable;
pub use crate::i2c::settings::Shutdown;
pub use crate::i2c::settings::Threshold;
pub use crate::i2c::trace::field_update;
pub use crate::i2c::trace::power_update;
pub use crate::i2c::trace::reads_register;
pub use crate::i2c::trace::updates_field;
pub use crate::i2c::trace::DeviceView;

verus! {

/// Why an access to the chip failed.
#[derive(Debug, Clone, Copy, PartialEq, Eq, Structural)]
pub enum LightSensorI2cError {
    /// A register field held a bit pattern that stands for no setting.
    ConversionError,
    /// A bus transaction did not complete.
    IOError,
}

/// Handle of one sensor: it owns the bus and the delay, and holds the bus
/// address of the chip. It caches nothing of the chip's state.
pub struct LightSensorI2c<I2C, Delay> {
    link: Recorder<I2C, Delay>,
    address: u8,
}

impl<I2C: I2cBus, Delay: DelayMs> View for LightSensorI2c<I2C, Delay> {
    type V = DeviceView;

    closed spec fn view(&self) -> DeviceView {
        DeviceView { address: self.address, events: self.link.history() }
    }
}

/// Reads from register `register` of the chip into `buffer`, in one
/// transaction that sends the register's command code and then fills the
/// buffer.
pub fn read_from_register<I2C: I2cBus, Delay: DelayMs>(
    dev: &mut LightSensorI2c<I2C, Delay>,
    register: u8,
    buffer: &mut [u8],
) -> (r: Result<(), LightSensorI2cError>)
    ensures
        final(dev)@ == old(dev)@.after(
            Event::WriteRead {
                address: old(dev)@.address,
                written: seq![register],
                requested: old(buffer)@.len(),
                response: if r is Ok {
                    Some(final(buffer)@)
                } else {
                    None
                },
            },
        ),
        r matches Err(e) ==> e == LightSensorI2cError::IOError,
{
    let command = [register];
    assert(command@ =~= seq![register]);
    match dev.link.write_read(dev.address, &command, buffer) {
        Ok(_) => Ok(()),
        Err(_) => Err(LightSensorI2cError::IOError),
    }
}

/// Writes `bytes` to register `register` of the chip, in one transaction
/// that sends the register's command code first.
pub fn write_to_register<I2C: I2cBus, Delay: DelayMs>(
    dev: &mut LightSensorI2c<I2C, Delay>,
    register: u8,
    bytes: &[u8],
) -> (r: Result<(), LightSensorI2cError>)
    ensures
        final(dev)@ == old(dev)@.after(
            Event::Write {
                address: old(dev)@.address,
                written: seq![register] + bytes@,
                ok: r is Ok,
            },
        ),
        r matches Err(e) ==> e == LightSensorI2cError::IOError,
{
    let buffer = write_frame(register, bytes);
    match dev.link.write(dev.address, buffer.as_slice()) {
        Ok(_) => Ok(()),
        Err(_) => Err(LightSensorI2cError::IOError),
    }
}

/// Reads the word held by register `register`.
pub fn read_and_convert_to_u16<I2C: I2cBus, Delay: DelayMs>(
    dev: &mut LightSensorI2c<I2C, Delay>,
    register: u8,
) -> (r: Result<u16, LightSensorI2cError>)
    ensures
        final(dev)@ == old(dev)@.after(register_read(old(dev)@.address, register, r.ok())),
        r matches Err(e) ==> e == LightSensorI2cError::IOError,
{
    let mut buffer = [0u8;2];
    match read_from_register(dev, register, &mut buffer) {
        Ok(_) => {
            let state: u16 = convert_buffer_to_u16(&buffer);
            assert(buffer@ =~= wire_bytes(state));
            Ok(state)
        },
        Err(e) => Err(e),
    }
}

/// Writes the word `state` to register `register`.
pub fn convert_and_write_u16<I2C: I2cBus, Delay: DelayMs>(
    dev: &mut LightSensorI2c<I2C, Delay>,
    register: u8,
    state: u16,
) -> (r: Result<(), LightSensorI2cError>)
    ensures
        final(dev)@ == old(dev)@.after(
            register_write(old(dev)@.address, register, state, r is Ok),
        ),
        r matches Err(e) ==> e == LightSensorI2cError::IOError,
{
    let mut buffer = [0u8;2];
    convert_u16_to_buffer(&mut buffer, state);
    assert(buffer@ =~= wire_bytes(state));
    write_to_register(dev, register, &buffer)
}

/// Sets the field of `width` bits at `offset` in register `register` to the
/// low `width` bits of `value`: reads the register, splices the field into
/// the word read and writes the word back. The update is not atomic: the
/// chip may be written by others between the read and the write.
pub fn read_modify_write_field<I2C: I2cBus, Delay: DelayMs>(
    dev: &mut LightSensorI2c<I2C, Delay>,
    register: u8,
    offset: u16,
    width: u16,
    value: u16,
) -> (r: Result<(), LightSensorI2cError>)
    requires
        offset + width <= 16,
    ensures
        updates_field(old(dev)@, final(dev)@, register, offset, width, value, r is Ok),
        r matches Err(e) ==> e == LightSensorI2cError::IOError,
{
    match read_and_convert_to_u16(dev, register) {
        Ok(old_state) => {
            let new_state: u16 = insert_u16(old_state, offset, width, value);
            convert_and_write_u16(dev, register, new_state)
        },
        Err(e) => Err(e),
    }
}

/// The fields whose every bit pattern stands for a value hold nothing
/// beyond their width.
proof fn lemma_fields_fit(state: u16)
    by (bit_vector)
    ensures
        extract_field(state, fields::GAIN_OFFSET, fields::GAIN_WIDTH) < 4,
        extract_field(state, fields::PERSISTENCE_OFFSET, fields::PERSISTENCE_WIDTH) < 4,
        extract_field(state, fields::INTERRUPT_ENABLE_OFFSET, fields::INTERRUPT_ENABLE_WIDTH) < 2,
        extract_field(state, fields::SHUTDOWN_OFFSET, fields::SHUTDOWN_WIDTH) < 2,
        extract_field(state, fields::POWER_SAVING_MODE_OFFSET, fields::POWER_SAVING_MODE_WIDTH) < 4,
        extract_field(state, fields::POWER_SAVING_ENABLE_OFFSET, fields::POWER_SAVING_ENABLE_WIDTH)
            < 2,
        extract_field(
            state,
            fields::LOW_THRESHOLD_EXCEEDED_OFFSET,
            fields::THRESHOLD_EXCEEDED_WIDTH,
        ) < 2,
        extract_field(
            state,
            fields::HIGH_THRESHOLD_EXCEEDED_OFFSET,
            fields::THRESHOLD_EXCEEDED_WIDTH,
        ) < 2,
{
}

impl<I2C: I2cBus, Delay: DelayMs> LightSensorI2c<I2C, Delay> {
    /// Makes a handle for the chip at `address` on the bus `i2c`, without
    /// touching the chip.
    pub fn new(i2c: I2C, address: u8, delay: Delay) -> (dev: LightSensorI2c<I2C, Delay>)
        ensures
            dev@ == (DeviceView { address, events: Seq::empty() }),
    {
        LightSensorI2c { link: Recorder::new(i2c, delay), address }
    }

    /// Reads the gain.
    pub fn get_gain(&mut self) -> (r: Result<Gain, LightSensorI2cError>)
        ensures
            reads_register(old(self)@, final(self)@, registers::SETTING_REG),
            r == match final(self)@.last_read() {
                Some(state) => Gain::try_from_spec(
                    extract_field(state, fields::GAIN_OFFSET, fields::GAIN_WIDTH),
                ),
                None => Err(LightSensorI2cError::IOError),
            },
            r is Ok <==> final(self)@.last_read() is Some,
    {
        match read_and_convert_to_u16(self, registers::SETTING_REG) {
            Ok(state) => {
                let gain: u16 = clip_u16(
                    state,
                    fields::GAIN_OFFSET,
                    fields::GAIN_WIDTH,
                );
                proof {
                    lemma_fields_fit(state);
                }
                Gain::try_from(gain)
            },
            Err(e) => Err(e),
        }
    }

    /// Reads the integration time. A field that holds none of the six known
    /// patterns gives a conversion error.
    pub fn get_integration_time(&mut self) -> (r: Result<IntegrationTime, LightSensorI2cError>)
        ensures
            reads_register(old(self)@, final(self)@, registers::SETTING_REG),
            r == match final(self)@.last_read() {
                Some(state) => IntegrationTime::try_from_spec(
                    extract_field(
                        state,
                        fields::INTEGRATION_TIME_OFFSET,
                        fields::INTEGRATION_TIME_WIDTH,
                    ),
                ),
                None => Err(LightSensorI2cError::IOError),
            },
    {
        match read_and_convert_to_u16(self, registers::SETTING_REG) {
            Ok(state) => {
                let integration_time: u16 = clip_u16(
                    state,
                    fields::INTEGRATION_TIME_OFFSET,
                    fields::INTEGRATION_TIME_WIDTH,
                );
                IntegrationTime::try_from(integration_time)
            },
            Err(e) => Err(e),
        }
    }

    /// Reads the persistence protect number.
    pub fn get_persist_protect_number(&mut self) -> (r: Result<
        PersistenceProtectNumber,
        LightSensorI2cError,
    >)
        ensures
            reads_register(old(self)@, final(self)@, registers::SETTING_REG),
            r == match final(self)@.last_read() {
                Some(state) => PersistenceProtectNumber::try_from_spec(
                    extract_field(state, fields::PERSISTENCE_OFFSET, fields::PERSISTENCE_WIDTH),
                ),
                None => Err(LightSensorI2cError::IOError),
            },
            r is Ok <==> final(self)@.last_read() is Some,
    {
        match read_and_convert_to_u16(self, registers::SETTING_REG) {
            Ok(state) => {
                let ppn: u16 = clip_u16(
                    state,
                    fields::PERSISTENCE_OFFSET,
                    fields::PERSISTENCE_WIDTH,
                );
                proof {
                    lemma_fields_fit(state);
                }
                PersistenceProtectNumber::try_from(ppn)
            },
            Err(e) => Err(e),
        }
    }

    /// Reads whether the interrupt is enabled.
    pub fn get_interrupt_enabled(&mut self) -> (r: Result<InterruptEnable, LightSensorI2cError>)
        ensures
            reads_register(old(self)@, final(self)@, registers::SETTING_REG),
            r == match final(self)@.last_read() {
                Some(state) => InterruptEnable::try_from_spec(
                    extract_field(
                        state,
                        fields::INTERRUPT_ENABLE_OFFSET,
                        fields::INTERRUPT_ENABLE_WIDTH,
                    ),
                ),
                None => Err(LightSensorI2cError::IOError),
            },
            r is Ok <==> final(self)@.last_read() is Some,
    {
        match read_and_convert_to_u16(self, registers::SETTING_REG) {
            Ok(state) => {
                let interrupt: u16 = clip_u16(
                    state,
                    fields::INTERRUPT_ENABLE_OFFSET,
                    fields::INTERRUPT_ENABLE_WIDTH,
                );
                proof {
                    lemma_fields_fit(state);
                }
                InterruptEnable::try_from(interrupt)
            },
            Err(e) => Err(e),
        }
    }

    /// Reads the power state.
    pub fn get_shutdown(&mut self) -> (r: Result<Shutdown, LightSensorI2cError>)
        ensures
            reads_register(old(self)@, final(self)@, registers::SETTING_REG),
            r == match final(self)@.last_read() {
                Some(state) => Shutdown::try_from_spec(
                    extract_field(state, fields::SHUTDOWN_OFFSET, fields::SHUTDOWN_WIDTH),
                ),
                None => Err(LightSensorI2cError::IOError),
            },
            r is Ok <==> final(self)@.last_read() is Some,
    {
        match read_and_convert_to_u16(self, registers::SETTING_REG) {
            Ok(state) => {
                let shut_down: u16 = clip_u16(
                    state,
                    fields::SHUTDOWN_OFFSET,
                    fields::SHUTDOWN_WIDTH,
                );
                proof {
                    lemma_fields_fit(state);
                }
                Shutdown::try_from(shut_down)
            },
            Err(e) => Err(e),
        }
    }

    /// Reads the power saving mode.
    pub fn get_power_saving_mode(&mut self) -> (r: Result<PowerSavingMode, LightSensorI2cError>)
        ensures
            reads_register(old(self)@, final(self)@, registers::POWER_SAVE_REG),
            r == match final(self)@.last_read() {
                Some(state) => PowerSavingMode::try_from_spec(
                    extract_field(
                        state,
                        fields::POWER_SAVING_MODE_OFFSET,
                        fields::POWER_SAVING_MODE_WIDTH,
                    ),
                ),
                None => Err(LightSensorI2cError::IOError),
            },
            r is Ok <==> final(self)@.last_read() is Some,
    {
        match read_and_convert_to_u16(self, registers::POWER_SAVE_REG) {
            Ok(state) => {
                let mode: u16 = clip_u16(
                    state,
                    fields::POWER_SAVING_MODE_OFFSET,
                    fields::POWER_SAVING_MODE_WIDTH,
                );
                proof {
                    lemma_fields_fit(state);
                }
                PowerSavingMode::try_from(mode)
            },
            Err(e) => Err(e),
        }
    }

    /// Reads whether power saving is in effect.
    pub fn get_power_saving_mode_enabled(&mut self) -> (r: Result<
        PowerSavingModeEnable,
        LightSensorI2cError,
    >)
        ensures
            reads_register(old(self)@, final(self)@, registers::POWER_SAVE_REG),
            r == match final(self)@.last_read() {
                Some(state) => PowerSavingModeEnable::try_from_spec(
                    extract_field(
                        state,
                        fields::POWER_SAVING_ENABLE_OFFSET,
                        fields::POWER_SAVING_ENABLE_WIDTH,
                    ),
                ),
                None => Err(LightSensorI2cError::IOError),
            },
            r is Ok <==> final(self)@.last_read() is Some,
    {
        match read_and_convert_to_u16(self, registers::POWER_SAVE_REG) {
            Ok(state) => {
                let enabled: u16 = clip_u16(
                    state,
                    fields::POWER_SAVING_ENABLE_OFFSET,
                    fields::POWER_SAVING_ENABLE_WIDTH,
                );
                proof {
                    lemma_fields_fit(state);
                }
                PowerSavingModeEnable::try_from(enabled)
            },
            Err(e) => Err(e),
        }
    }

    /// Reads whether the low threshold was crossed.
    pub fn get_low_threshold_exceeded(&mut self) -> (r: Result<Threshold, LightSensorI2cError>)
        ensures
            reads_register(old(self)@, final(self)@, registers::INTERRUPT_REG),
            r == match final(self)@.last_read() {
                Some(state) => Threshold::try_from_spec(
                    extract_field(
                        state,
                        fields::LOW_THRESHOLD_EXCEEDED_OFFSET,
                        fields::THRESHOLD_EXCEEDED_WIDTH,
                    ),
                ),
                None => Err(LightSensorI2cError::IOError),
            },
            r is Ok <==> final(self)@.last_read() is Some,
    {
        match read_and_convert_to_u16(self, registers::INTERRUPT_REG) {
            Ok(state) => {
                let threshold_exceeded: u16 = clip_u16(
                    state,
                    fields::LOW_THRESHOLD_EXCEEDED_OFFSET,
                    fields::THRESHOLD_EXCEEDED_WIDTH,
                );
                proof {
                    lemma_fields_fit(state);
                }
                Threshold::try_from(threshold_exceeded)
            },
            Err(e) => Err(e),
        }
    }

    /// Reads whether the high threshold was crossed.
    pub fn get_high_threshold_exceeded(&mut self) -> (r: Result<Threshold, LightSensorI2cError>)
        ensures
            reads_register(old(self)@, final(self)@, registers::INTERRUPT_REG),
            r == match final(self)@.last_read() {
                Some(state) => Threshold::try_from_spec(
                    extract_field(
                        state,
                        fields::HIGH_THRESHOLD_EXCEEDED_OFFSET,
                        fields::THRESHOLD_EXCEEDED_WIDTH,
                    ),
                ),
                None => Err(LightSensorI2cError::IOError),
            },
            r is Ok <==> final(self)@.last_read() is Some,
    {
        match read_and_convert_to_u16(self, registers::INTERRUPT_REG) {
            Ok(state) => {
                let threshold_exceeded: u16 = clip_u16(
                    state,
                    fields::HIGH_THRESHOLD_EXCEEDED_OFFSET,
                    fields::THRESHOLD_EXCEEDED_WIDTH,
                );
                proof {
                    lemma_fields_fit(state);
                }
                Threshold::try_from(threshold_exceeded)
            },
            Err(e) => Err(e),
        }
    }

    /// Reads the high threshold of the interrupt window, in counts.
    pub fn get_high_threshold_window(&mut self) -> (r: Result<u16, LightSensorI2cError>)
        ensures
            reads_register(old(self)@, final(self)@, registers::H_THRESH_REG),
            r == match final(self)@.last_read() {
                Some(state) => Ok(state),
                None => Err(LightSensorI2cError::IOError),
            },
    {
        read_and_convert_to_u16(self, registers::H_THRESH_REG)
    }

    /// Reads the low threshold of the interrupt window, in counts.
    pub fn get_low_threshold_window(&mut self) -> (r: Result<u16, LightSensorI2cError>)
        ensures
            reads_register(old(self)@, final(self)@, registers::L_THRESH_REG),
            r == match final(self)@.last_read() {
                Some(state) => Ok(state),
                None => Err(LightSensorI2cError::IOError),
            },
    {
        read_and_convert_to_u16(self, registers::L_THRESH_REG)
    }

    /// Reads the raw count of the ambient light channel.
    pub fn get_ambient_light_output(&mut self) -> (r: Result<u16, LightSensorI2cError>)
        ensures
            reads_register(old(self)@, final(self)@, registers::AMBIENT_LIGHT_DATA_REG),
            r == match final(self)@.last_read() {
                Some(state) => Ok(state),
                None => Err(LightSensorI2cError::IOError),
            },
    {
        read_and_convert_to_u16(self, registers::AMBIENT_LIGHT_DATA_REG)
    }

    /// Reads the raw count of the white light channel.
    pub fn get_white_light_output(&mut self) -> (r: Result<u16, LightSensorI2cError>)
        ensures
            reads_register(old(self)@, final(self)@, registers::WHITE_LIGHT_DATA_REG),
            r == match final(self)@.last_read() {
                Some(state) => Ok(state),
                None => Err(LightSensorI2cError::IOError),
            },
    {
        read_and_convert_to_u16(self, registers::WHITE_LIGHT_DATA_REG)
    }

    /// Sets the gain and leaves the other settings as they are.
    pub fn set_gain(&mut self, gain: Gain) -> (r: Result<(), LightSensorI2cError>)
        ensures
            updates_field(
                old(self)@,
                final(self)@,
                registers::SETTING_REG,
                fields::GAIN_OFFSET,
                fields::GAIN_WIDTH,
                gain.bits(),
                r is Ok,
            ),
            r matches Err(e) ==> e == LightSensorI2cError::IOError,
    {
        read_modify_write_field(
            self,
            registers::SETTING_REG,
            fields::GAIN_OFFSET,
            fields::GAIN_WIDTH,
            gain.into(),
        )
    }

    /// Sets the integration time and leaves the other settings as they are.
    pub fn set_integration_time(
        &mut self,
        integration_time: IntegrationTime,
    ) -> (r: Result<(), LightSensorI2cError>)
        ensures
            updates_field(
                old(self)@,
                final(self)@,
                registers::SETTING_REG,
                fields::INTEGRATION_TIME_OFFSET,
                fields::INTEGRATION_TIME_WIDTH,
                integration_time.bits(),
                r is Ok,
            ),
            r matches Err(e) ==> e == LightSensorI2cError::IOError,
    {
        read_modify_write_field(
            self,
            registers::SETTING_REG,
            fields::INTEGRATION_TIME_OFFSET,
            fields::INTEGRATION_TIME_WIDTH,
            integration_time.into(),
        )
    }

    /// Sets the persistence protect number and leaves the other settings as
    /// they are.
    pub fn set_persist_protect_number(
        &mut self,
        persistence_protect_number: PersistenceProtectNumber,
    ) -> (r: Result<(), LightSensorI2cError>)
        ensures
            updates_field(
                old(self)@,
                final(self)@,
                registers::SETTING_REG,
                fields::PERSISTENCE_OFFSET,
                fields::PERSISTENCE_WIDTH,
                persistence_protect_number.bits(),
                r is Ok,
            ),
            r matches Err(e) ==> e == LightSensorI2cError::IOError,
    {
        read_modify_write_field(
            self,
            registers::SETTING_REG,
            fields::PERSISTENCE_OFFSET,
            fields::PERSISTENCE_WIDTH,
            persistence_protect_number.into(),
        )
    }

    /// Enables or disables the interrupt and leaves the other settings as they
    /// are.
    pub fn set_interrupt_enabled(
        &mut self,
        interrupt_enable: InterruptEnable,
    ) -> (r: Result<(), LightSensorI2cError>)
        ensures
            updates_field(
                old(self)@,
                final(self)@,
                registers::SETTING_REG,
                fields::INTERRUPT_ENABLE_OFFSET,
                fields::INTERRUPT_ENABLE_WIDTH,
                interrupt_enable.bits(),
                r is Ok,
            ),
            r matches Err(e) ==> e == LightSensorI2cError::IOError,
    {
        read_modify_write_field(
            self,
            registers::SETTING_REG,
            fields::INTERRUPT_ENABLE_OFFSET,
            fields::INTERRUPT_ENABLE_WIDTH,
            interrupt_enable.into(),
        )
    }

    /// Sets the power state and leaves the other settings as they are. Once
    /// the write that powers the chip on has completed, waits for the chip to
    /// settle; does not wait when the chip is shut down or the update fails.
    pub fn set_shutdown(&mut self, shutdown: Shutdown) -> (r: Result<(), LightSensorI2cError>)
        ensures
            final(self)@.address == old(self)@.address,
            power_update(
                old(self)@.events,
                final(self)@.events,
                old(self)@.address,
                shutdown,
                r is Ok,
            ),
            r matches Err(e) ==> e == LightSensorI2cError::IOError,
    {
        match read_modify_write_field(
            self,
            registers::SETTING_REG,
            fields::SHUTDOWN_OFFSET,
            fields::SHUTDOWN_WIDTH,
            shutdown.into(),
        ) {
            Ok(_) => {
                match shutdown {
                    Shutdown::PowerOn => self.link.delay_ms(POWER_ON_SETTLE_MS),
                    _ => (),
                }
                Ok(())
            },
            Err(e) => Err(e),
        }
    }

    /// Sets the power saving mode and leaves the enable bit as it is.
    pub fn set_power_saving_mode(
        &mut self,
        mode: PowerSavingMode,
    ) -> (r: Result<(), LightSensorI2cError>)
        ensures
            updates_field(
                old(self)@,
                final(self)@,
                registers::POWER_SAVE_REG,
                fields::POWER_SAVING_MODE_OFFSET,
                fields::POWER_SAVING_MODE_WIDTH,
                mode.bits(),
                r is Ok,
            ),
            r matches Err(e) ==> e == LightSensorI2cError::IOError,
    {
        read_modify_write_field(
            self,
            registers::POWER_SAVE_REG,
            fields::POWER_SAVING_MODE_OFFSET,
            fields::POWER_SAVING_MODE_WIDTH,
            mode.into(),
        )
    }

    /// Switches power saving on or off and leaves the mode as it is.
    pub fn set_power_saving_mode_enabled(
        &mut self,
        enable: PowerSavingModeEnable,
    ) -> (r: Result<(), LightSensorI2cError>)
        ensures
            updates_field(
                old(self)@,
                final(self)@,
                registers::POWER_SAVE_REG,
                fields::POWER_SAVING_ENABLE_OFFSET,
                fields::POWER_SAVING_ENABLE_WIDTH,
                enable.bits(),
                r is Ok,
            ),
            r matches Err(e) ==> e == LightSensorI2cError::IOError,
    {
        read_modify_write_field(
            self,
            registers::POWER_SAVE_REG,
            fields::POWER_SAVING_ENABLE_OFFSET,
            fields::POWER_SAVING_ENABLE_WIDTH,
            enable.into(),
        )
    }

    /// Sets the high threshold of the interrupt window, in counts.
    pub fn set_high_threshold_window(
        &mut self,
        threshold: u16,
    ) -> (r: Result<(), LightSensorI2cError>)
        ensures
            final(self)@ == old(self)@.after(
                register_write(old(self)@.address, registers::H_THRESH_REG, threshold, r is Ok),
            ),
            r matches Err(e) ==> e == LightSensorI2cError::IOError,
    {
        convert_and_write_u16(self, registers::H_THRESH_REG, threshold)
    }

    /// Sets the low threshold of the interrupt window, in counts.
    pub fn set_low_threshold_window(
        &mut self,
        threshold: u16,
    ) -> (r: Result<(), LightSensorI2cError>)
        ensures
            final(self)@ == old(self)@.after(
                register_write(old(self)@.address, registers::L_THRESH_REG, threshold, r is Ok),
            ),
            r matches Err(e) ==> e == LightSensorI2cError::IOError,
    {
        convert_and_write_u16(self, registers::L_THRESH_REG, threshold)
    }
}

} // verus!

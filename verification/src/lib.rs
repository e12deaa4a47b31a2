//! Register-level driver for an ambient and white light sensor on a two-wire
//! bus.
//!
//! The driver reads and writes the chip's packed 16-bit registers through
//! typed settings and turns raw counts into illuminance. It owns the bus and
//! the delay it is given and keeps nothing of the chip's state: every call
//! goes to the chip. Its contracts say which bus transactions and pauses a
//! call makes, in which order, and what it returns for each answer of the
//! chip.

pub mod i2c;
pub mod lux;
pub mod protocol;
pub mod transport;

use crate::i2c::constants::registers;
use crate::i2c::settings::Gain;
use crate::i2c::settings::IntegrationTime;
use crate::i2c::settings::Shutdown;
use crate::i2c::trace::reads_register;
use crate::i2c::trace::DeviceView;
use crate::i2c::LightSensorI2c;
use crate::i2c::LightSensorI2cError;
use crate::lux::lux_reading;
use crate::lux::LuxReading;
use crate::protocol::lemma_start_succeeded;
use crate::protocol::measurement_trace;
use crate::protocol::settings_read;
use crate::protocol::settings_trace;
use crate::protocol::started;
use crate::protocol::starts;
use crate::transport::DelayMs;
use crate::transport::I2cBus;
use vstd::prelude::*;
use vstd::std_specs::convert::FromSpecImpl;

pub use crate::i2c::Address;

verus! {

/// Why a call on the sensor failed.
#[derive(Debug, Clone, Copy, PartialEq, Eq, Structural)]
pub enum LightSensorError {
    /// A register field held a bit pattern that stands for no setting.
    ConversionError,
    /// A bus transaction did not complete.
    IOError,
}

impl LightSensorError {
    /// The sensor error that a register-level error becomes.
    pub open spec fn of(error: LightSensorI2cError) -> LightSensorError {
        match error {
            LightSensorI2cError::ConversionError => LightSensorError::ConversionError,
            LightSensorI2cError::IOError => LightSensorError::IOError,
        }
    }
}

impl From<LightSensorI2cError> for LightSensorError {
    fn from(error: LightSensorI2cError) -> (e: LightSensorError) {
        match error {
            LightSensorI2cError::ConversionError => LightSensorError::ConversionError,
            LightSensorI2cError::IOError => LightSensorError::IOError,
        }
    }
}

impl FromSpecImpl<LightSensorI2cError> for LightSensorError {
    open spec fn obeys_from_spec() -> bool {
        true
    }

    open spec fn from_spec(error: LightSensorI2cError) -> LightSensorError {
        LightSensorError::of(error)
    }
}

/// The sensor: typed access to the chip and conversion of its counts.
pub struct LightSensor<I2C, Delay> {
    dev: LightSensorI2c<I2C, Delay>,
}

impl<I2C: I2cBus, Delay: DelayMs> View for LightSensor<I2C, Delay> {
    type V = DeviceView;

    closed spec fn view(&self) -> DeviceView {
        self.dev@
    }
}

impl<I2C: I2cBus, Delay: DelayMs> LightSensor<I2C, Delay> {
    /// Makes a sensor for the chip at `address` on the bus `dev`, without
    /// touching the chip.
    pub fn new(dev: I2C, address: Address, delay: Delay) -> (sensor: Self)
        ensures
            sensor@ == (DeviceView { address: address.bus_address(), events: Seq::empty() }),
    {
        let i2c_wrapper = LightSensorI2c::new(dev, address.into(), delay);
        LightSensor { dev: i2c_wrapper }
    }

    /// Puts the chip into the known initial configuration: powered on, gain
    /// 1/4, integration time 50 ms. Each is one field update, which keeps
    /// what the settings register holds besides; the chip is given time to
    /// settle right after it is powered on.
    pub fn start(&mut self) -> (r: Result<(), LightSensorError>)
        ensures
            starts(old(self)@, final(self)@, r is Ok),
            r is Ok ==> started(old(self)@, final(self)@),
            r matches Err(e) ==> e == LightSensorError::IOError,
    {
        let ghost n = self@.events.len() as int;
        match self.dev.set_shutdown(Shutdown::PowerOn) {
            Ok(_) => {},
            Err(e) => {
                return Err(e.into());
            },
        }
        let ghost powered = self@.events;
        match self.dev.set_gain(Gain::X1_4) {
            Ok(_) => {},
            Err(e) => {
                assert(self@.events.take(n + 3) =~= powered);
                return Err(e.into());
            },
        }
        let ghost gained = self@.events;
        let r = self.dev.set_integration_time(IntegrationTime::Ms50);
        assert(self@.events.take(n + 5) =~= gained);
        assert(self@.events.take(n + 3) =~= powered);
        match r {
            Ok(_) => {
                proof {
                    lemma_start_succeeded(old(self)@, self@);
                }
                Ok(())
            },
            Err(e) => Err(e.into()),
        }
    }

    /// Makes a sensor and puts the chip into the known initial
    /// configuration. When a transaction fails the sensor is given up, and
    /// the bus and the delay with it.
    pub fn build(dev: I2C, address: Address, delay: Delay) -> (r: Result<Self, LightSensorError>)
        ensures
            r matches Ok(sensor) ==> started(
                DeviceView { address: address.bus_address(), events: Seq::empty() },
                sensor@,
            ),
            r matches Err(e) ==> e == LightSensorError::IOError,
    {
        let mut sensor = Self::new(dev, address, delay);
        match sensor.start() {
            Ok(_) => Ok(sensor),
            Err(e) => Err(e),
        }
    }

    /// Reads the gain and the integration time that are in effect.
    fn read_settings(&mut self) -> (r: Result<(Gain, IntegrationTime), LightSensorError>)
        ensures
            final(self)@.address == old(self)@.address,
            settings_trace(old(self)@.events, final(self)@.events, old(self)@.address),
            r == settings_read(final(self)@.events, old(self)@.events.len() as int),
    {
        let gain = match self.dev.get_gain() {
            Ok(gain) => gain,
            Err(e) => {
                return Err(e.into());
            },
        };
        match self.dev.get_integration_time() {
            Ok(integration_time) => Ok((gain, integration_time)),
            Err(e) => Err(e.into()),
        }
    }

    /// Converts the raw count `raw` to illuminance under the gain and the
    /// integration time that the chip reports: reads the gain, then the
    /// integration time, each by a read of the settings register, and gives
    /// the linear value with the mark of whether the correction applies.
    pub fn convert_raw_to_lux(&mut self, raw: u16) -> (r: Result<LuxReading, LightSensorError>)
        ensures
            final(self)@.address == old(self)@.address,
            settings_trace(old(self)@.events, final(self)@.events, old(self)@.address),
            r == match settings_read(final(self)@.events, old(self)@.events.len() as int) {
                Ok((gain, time)) => Ok(LuxReading::of(gain, time, raw)),
                Err(e) => Err(e),
            },
    {
        match self.read_settings() {
            Ok((gain, integration_time)) => Ok(lux_reading(gain, integration_time, raw)),
            Err(e) => Err(e),
        }
    }

    /// Measures ambient light: fetches the settings in effect, then the raw
    /// count of the ambient light channel, and converts the count.
    pub fn get_ambient_light_lux(&mut self) -> (r: Result<LuxReading, LightSensorError>)
        ensures
            final(self)@.address == old(self)@.address,
            measurement_trace(old(self)@.events, final(self)@.events, old(self)@.address),
            r == match settings_read(final(self)@.events, old(self)@.events.len() as int) {
                Ok((gain, time)) => match final(self)@.last_read() {
                    Some(raw) => Ok(LuxReading::of(gain, time, raw)),
                    None => Err(LightSensorError::IOError),
                },
                Err(e) => Err(e),
            },
    {
        let ghost n = self@.events.len() as int;
        let (gain, integration_time) = match self.read_settings() {
            Ok(settings) => settings,
            Err(e) => {
                return Err(e);
            },
        };
        let ghost fetched = self@.events;
        match self.dev.get_ambient_light_output() {
            Ok(raw_lux) => {
                assert(self@.events.take(n + 2) =~= fetched);
                Ok(lux_reading(gain, integration_time, raw_lux))
            },
            Err(e) => {
                assert(self@.events.take(n + 2) =~= fetched);
                Err(e.into())
            },
        }
    }

    /// Reads the raw count of the white light channel.
    pub fn get_white_light(&mut self) -> (r: Result<u16, LightSensorError>)
        ensures
            reads_register(old(self)@, final(self)@, registers::WHITE_LIGHT_DATA_REG),
            r == match final(self)@.last_read() {
                Some(count) => Ok(count),
                None => Err(LightSensorError::IOError),
            },
    {
        match self.dev.get_white_light_output() {
            Ok(white_light) => Ok(white_light),
            Err(e) => Err(e.into()),
        }
    }
}

} // verus!

use embedded_hal::delay::DelayNs;
use embedded_hal::i2c::I2c;
use embedded_hal_mock::eh1::delay::NoopDelay;
use embedded_hal_mock::eh1::i2c::{Mock as I2cMock, Transaction as I2cTransaction};
use light_sensor::i2c::constants;
use light_sensor::transport::{DelayMs, I2cBus, TransportError};
use light_sensor::{Address, LightSensor};

struct HalBus<T>(T);

impl<T: I2c> I2cBus for HalBus<T> {
    fn write_read(
        &mut self,
        address: u8,
        write: &[u8],
        read: &mut [u8],
    ) -> Result<(), TransportError> {
        self.0.write_read(address, write, read).map_err(|_| TransportError)
    }

    fn write(&mut self, address: u8, bytes: &[u8]) -> Result<(), TransportError> {
        self.0.write(address, bytes).map_err(|_| TransportError)
    }
}

struct HalDelay<D>(D);

impl<D: DelayNs> DelayMs for HalDelay<D> {
    fn delay_ms(&mut self, ms: u32) {
        self.0.delay_ms(ms);
    }
}

#[test]
fn start_light_sensor() {
    let address: u8 = constants::addresses::DEFAULT;
    let setting: u8 = constants::registers::SETTING_REG;
    let expectations = [
        I2cTransaction::write_read(address, vec![setting], vec![0x00, 0x00]),
        I2cTransaction::write(address, vec![setting, 0x00, 0x00]),
        I2cTransaction::write_read(address, vec![setting], vec![0x00, 0x00]),
        I2cTransaction::write(address, vec![setting, 0x00, 0x18]),
        I2cTransaction::write_read(address, vec![setting], vec![0x00, 0x18]),
        I2cTransaction::write(address, vec![setting, 0x00, 0x1A]),
    ];
    let i2c = I2cMock::new(&expectations);
    let mut i2c_clone = i2c.clone();

    let _ = LightSensor::build(HalBus(i2c), Address::Default, HalDelay(NoopDelay::new()));

    i2c_clone.done();
}

#[test]
fn start_light_sensor_succeeds_and_keeps_other_fields() {
    let address: u8 = constants::addresses::DEFAULT;
    let setting: u8 = constants::registers::SETTING_REG;
    let expectations = [
        I2cTransaction::write_read(address, vec![setting], vec![0x33, 0x00]),
        I2cTransaction::write(address, vec![setting, 0x32, 0x00]),
        I2cTransaction::write_read(address, vec![setting], vec![0x32, 0x00]),
        I2cTransaction::write(address, vec![setting, 0x32, 0x18]),
        I2cTransaction::write_read(address, vec![setting], vec![0x32, 0x18]),
        I2cTransaction::write(address, vec![setting, 0x32, 0x1A]),
    ];
    let i2c = I2cMock::new(&expectations);
    let mut i2c_clone = i2c.clone();

    let built = LightSensor::build(HalBus(i2c), Address::Default, HalDelay(NoopDelay::new()));
    assert!(built.is_ok());

    i2c_clone.done();
}

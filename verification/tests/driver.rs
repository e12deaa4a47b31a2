use std::cell::RefCell;
use std::collections::VecDeque;
use std::rc::Rc;

use light_sensor::i2c::constants::{addresses, registers, POWER_ON_SETTLE_MS};
use light_sensor::i2c::{
    convert_and_write_u16, read_and_convert_to_u16, read_from_register, read_modify_write_field,
    write_to_register, Gain, IntegrationTime, InterruptEnable, LightSensorI2c,
    LightSensorI2cError, PersistenceProtectNumber, PowerSavingMode, PowerSavingModeEnable,
    Shutdown, Threshold,
};
use light_sensor::i2c::wire::write_frame;
use light_sensor::lux::LuxReading;
use light_sensor::transport::{DelayMs, I2cBus, Recorder, TransportError};
use light_sensor::{Address, LightSensor, LightSensorError};

/// What the scripted chip answers to the next transaction.
#[derive(Clone, Copy, Debug)]
enum Reply {
    Word(u16),
    ReadFails,
    WriteOk,
    WriteFails,
}

/// A call as the bus or the delay saw it.
#[derive(Clone, Debug, PartialEq, Eq)]
enum Seen {
    Read { address: u8, written: Vec<u8>, requested: usize },
    Write { address: u8, written: Vec<u8> },
    Pause(u32),
}

/// The calls seen by a bus and a delay that belong together, in the order
/// in which they were made.
type Calls = Rc<RefCell<Vec<Seen>>>;

#[derive(Clone)]
struct ScriptedBus {
    replies: Rc<RefCell<VecDeque<Reply>>>,
    calls: Calls,
}

impl ScriptedBus {
    fn new(replies: &[Reply]) -> ScriptedBus {
        ScriptedBus {
            replies: Rc::new(RefCell::new(replies.iter().copied().collect())),
            calls: Rc::new(RefCell::new(Vec::new())),
        }
    }

    /// The bus transactions seen so far.
    fn seen(&self) -> Vec<Seen> {
        self.calls.borrow().iter().filter(|c| !matches!(c, Seen::Pause(_))).cloned().collect()
    }

    /// The bus transactions and the pauses seen so far.
    fn calls(&self) -> Vec<Seen> {
        self.calls.borrow().clone()
    }

    fn exhausted(&self) -> bool {
        self.replies.borrow().is_empty()
    }

    /// A delay whose pauses are seen among the transactions of this bus.
    fn delay(&self) -> RecordingDelay {
        RecordingDelay { calls: self.calls.clone() }
    }
}

impl I2cBus for ScriptedBus {
    fn write_read(
        &mut self,
        address: u8,
        write: &[u8],
        read: &mut [u8],
    ) -> Result<(), TransportError> {
        self.calls.borrow_mut().push(Seen::Read {
            address,
            written: write.to_vec(),
            requested: read.len(),
        });
        match self.replies.borrow_mut().pop_front() {
            Some(Reply::Word(word)) => {
                read[0] = (word & 0xff) as u8;
                read[1] = (word >> 8) as u8;
                Ok(())
            }
            Some(Reply::ReadFails) => Err(TransportError),
            other => panic!("a read met the reply {:?}", other),
        }
    }

    fn write(&mut self, address: u8, bytes: &[u8]) -> Result<(), TransportError> {
        self.calls.borrow_mut().push(Seen::Write { address, written: bytes.to_vec() });
        match self.replies.borrow_mut().pop_front() {
            Some(Reply::WriteOk) => Ok(()),
            Some(Reply::WriteFails) => Err(TransportError),
            other => panic!("a write met the reply {:?}", other),
        }
    }
}

#[derive(Clone)]
struct RecordingDelay {
    calls: Calls,
}

impl RecordingDelay {
    fn pauses(&self) -> Vec<u32> {
        let calls = self.calls.borrow();
        let mut pauses = Vec::new();
        for call in calls.iter() {
            if let Seen::Pause(ms) = call {
                pauses.push(*ms);
            }
        }
        pauses
    }
}

impl DelayMs for RecordingDelay {
    fn delay_ms(&mut self, ms: u32) {
        self.calls.borrow_mut().push(Seen::Pause(ms));
    }
}

const ADDRESS: u8 = 0x10;

type Device = LightSensorI2c<ScriptedBus, RecordingDelay>;

type Sensor = LightSensor<ScriptedBus, RecordingDelay>;

fn device(replies: &[Reply]) -> (Device, ScriptedBus, RecordingDelay) {
    let bus = ScriptedBus::new(replies);
    let delay = bus.delay();
    (LightSensorI2c::new(bus.clone(), ADDRESS, delay.clone()), bus, delay)
}

fn sensor(replies: &[Reply]) -> (Sensor, ScriptedBus, RecordingDelay) {
    let bus = ScriptedBus::new(replies);
    let delay = bus.delay();
    (LightSensor::new(bus.clone(), Address::Default, delay.clone()), bus, delay)
}

fn read_of(register: u8) -> Seen {
    Seen::Read { address: ADDRESS, written: vec![register], requested: 2 }
}

fn write_of(register: u8, word: u16) -> Seen {
    let low = (word & 0xff) as u8;
    let high = (word >> 8) as u8;
    Seen::Write { address: ADDRESS, written: vec![register, low, high] }
}

#[test]
fn register_map() {
    assert_eq!(registers::SETTING_REG, 0x00);
    assert_eq!(registers::H_THRESH_REG, 0x01);
    assert_eq!(registers::L_THRESH_REG, 0x02);
    assert_eq!(registers::POWER_SAVE_REG, 0x03);
    assert_eq!(registers::AMBIENT_LIGHT_DATA_REG, 0x04);
    assert_eq!(registers::WHITE_LIGHT_DATA_REG, 0x05);
    assert_eq!(registers::INTERRUPT_REG, 0x06);
    assert_eq!(addresses::DEFAULT, ADDRESS);
    assert_eq!(POWER_ON_SETTLE_MS, 4);
}

#[test]
fn new_touches_nothing() {
    let (_dev, bus, delay) = device(&[]);
    assert!(bus.seen().is_empty());
    assert!(delay.pauses().is_empty());
}

#[test]
fn read_from_register_fills_the_buffer() {
    let (mut dev, bus, _) = device(&[Reply::Word(0xbeef)]);
    let mut buffer = [0u8; 2];
    assert_eq!(read_from_register(&mut dev, 0x04, &mut buffer), Ok(()));
    assert_eq!(buffer, [0xef, 0xbe]);
    assert_eq!(bus.seen(), vec![read_of(0x04)]);
}

#[test]
fn read_from_register_reports_failure() {
    let (mut dev, bus, _) = device(&[Reply::ReadFails]);
    let mut buffer = [0u8; 2];
    assert_eq!(read_from_register(&mut dev, 0x04, &mut buffer), Err(LightSensorI2cError::IOError));
    assert_eq!(bus.seen(), vec![read_of(0x04)]);
}

#[test]
fn write_to_register_sends_the_register_first() {
    let (mut dev, bus, _) = device(&[Reply::WriteOk]);
    assert_eq!(write_to_register(&mut dev, 0x02, &[0xaa, 0xbb, 0xcc]), Ok(()));
    assert_eq!(
        bus.seen(),
        vec![Seen::Write { address: ADDRESS, written: vec![0x02, 0xaa, 0xbb, 0xcc] }]
    );
}

#[test]
fn write_to_register_with_no_payload() {
    let (mut dev, bus, _) = device(&[Reply::WriteOk]);
    assert_eq!(write_to_register(&mut dev, 0x02, &[]), Ok(()));
    assert_eq!(bus.seen(), vec![Seen::Write { address: ADDRESS, written: vec![0x02] }]);
}

#[test]
fn write_to_register_reports_failure() {
    let (mut dev, bus, _) = device(&[Reply::WriteFails]);
    assert_eq!(write_to_register(&mut dev, 0x02, &[1, 2]), Err(LightSensorI2cError::IOError));
    assert_eq!(bus.seen().len(), 1);
}

#[test]
fn write_frame_puts_the_register_first() {
    assert_eq!(write_frame(0x00, &[0x00, 0x1a]), vec![0x00, 0x00, 0x1a]);
    assert_eq!(write_frame(0x06, &[]), vec![0x06]);
    assert_eq!(write_frame(0xff, &[1, 2, 3, 4]), vec![0xff, 1, 2, 3, 4]);
}

#[test]
fn recorder_passes_calls_on() {
    let bus = ScriptedBus::new(&[Reply::Word(0x0201), Reply::WriteOk, Reply::ReadFails]);
    let delay = bus.delay();
    let mut recorder = Recorder::new(bus.clone(), delay.clone());
    let mut buffer = [0u8; 2];
    assert_eq!(recorder.write_read(0x22, &[9], &mut buffer), Ok(()));
    assert_eq!(buffer, [0x01, 0x02]);
    recorder.delay_ms(4);
    assert_eq!(recorder.write(0x23, &[1, 2, 3]), Ok(()));
    recorder.delay_ms(0);
    assert_eq!(recorder.write_read(0x24, &[], &mut buffer), Err(TransportError));
    recorder.delay_ms(u32::MAX);
    assert_eq!(
        bus.calls(),
        vec![
            Seen::Read { address: 0x22, written: vec![9], requested: 2 },
            Seen::Pause(4),
            Seen::Write { address: 0x23, written: vec![1, 2, 3] },
            Seen::Pause(0),
            Seen::Read { address: 0x24, written: vec![], requested: 2 },
            Seen::Pause(u32::MAX),
        ]
    );
    assert_eq!(delay.pauses(), vec![4, 0, u32::MAX]);
}

#[test]
fn word_access() {
    let (mut dev, bus, _) = device(&[
        Reply::Word(0x8001),
        Reply::ReadFails,
        Reply::WriteOk,
        Reply::WriteFails,
    ]);
    assert_eq!(read_and_convert_to_u16(&mut dev, 0x06), Ok(0x8001));
    assert_eq!(read_and_convert_to_u16(&mut dev, 0x06), Err(LightSensorI2cError::IOError));
    assert_eq!(convert_and_write_u16(&mut dev, 0x03, 0x0102), Ok(()));
    assert_eq!(convert_and_write_u16(&mut dev, 0x03, 0x0102), Err(LightSensorI2cError::IOError));
    assert_eq!(
        bus.seen(),
        vec![read_of(0x06), read_of(0x06), write_of(0x03, 0x0102), write_of(0x03, 0x0102)]
    );
}

#[test]
fn field_update_reads_splices_and_writes() {
    let (mut dev, bus, delay) = device(&[Reply::Word(0xa5a5), Reply::WriteOk]);
    assert_eq!(read_modify_write_field(&mut dev, 0x03, 4, 8, 0xff3c), Ok(()));
    assert_eq!(bus.seen(), vec![read_of(0x03), write_of(0x03, 0xa3c5)]);
    assert!(delay.pauses().is_empty());
}

#[test]
fn field_update_of_the_whole_word_and_of_nothing() {
    let (mut dev, bus, _) = device(&[
        Reply::Word(0xa5a5),
        Reply::WriteOk,
        Reply::Word(0xa5a5),
        Reply::WriteOk,
    ]);
    assert_eq!(read_modify_write_field(&mut dev, 0x01, 0, 16, 0x1234), Ok(()));
    assert_eq!(read_modify_write_field(&mut dev, 0x01, 16, 0, 0x1234), Ok(()));
    assert_eq!(
        bus.seen(),
        vec![read_of(0x01), write_of(0x01, 0x1234), read_of(0x01), write_of(0x01, 0xa5a5)]
    );
}

#[test]
fn field_update_stops_at_a_failure() {
    let io = Err(LightSensorI2cError::IOError);
    let (mut dev, bus, _) = device(&[Reply::ReadFails, Reply::Word(0), Reply::WriteFails]);
    assert_eq!(read_modify_write_field(&mut dev, 0x00, 0, 1, 1), io);
    assert_eq!(bus.seen(), vec![read_of(0x00)]);
    assert_eq!(read_modify_write_field(&mut dev, 0x00, 0, 1, 1), io);
    assert_eq!(bus.seen(), vec![read_of(0x00), read_of(0x00), write_of(0x00, 1)]);
}

#[test]
fn words_travel_low_byte_first() {
    let (mut dev, bus, _) = device(&[Reply::Word(0x1234), Reply::WriteOk]);
    assert_eq!(dev.get_high_threshold_window(), Ok(0x1234));
    assert_eq!(dev.set_high_threshold_window(0xabcd), Ok(()));
    assert_eq!(
        bus.seen(),
        vec![
            read_of(registers::H_THRESH_REG),
            Seen::Write { address: ADDRESS, written: vec![registers::H_THRESH_REG, 0xcd, 0xab] },
        ]
    );
}

#[test]
fn get_gain_decodes_the_field() {
    for (state, gain) in [
        (0x0000u16, Gain::X1),
        (0x0800, Gain::X2),
        (0x1000, Gain::X1_8),
        (0x1800, Gain::X1_4),
        (0xffff, Gain::X1_4),
        (0xe7ff, Gain::X1),
    ] {
        let (mut dev, bus, _) = device(&[Reply::Word(state)]);
        assert_eq!(dev.get_gain(), Ok(gain));
        assert_eq!(bus.seen(), vec![read_of(registers::SETTING_REG)]);
    }
}

#[test]
fn get_integration_time_decodes_the_field() {
    for (state, time) in [
        (0x0300u16, IntegrationTime::Ms25),
        (0x0200, IntegrationTime::Ms50),
        (0x0000, IntegrationTime::Ms100),
        (0x0040, IntegrationTime::Ms200),
        (0x0080, IntegrationTime::Ms400),
        (0x00c0, IntegrationTime::Ms800),
        (0xfc3f, IntegrationTime::Ms100),
    ] {
        let (mut dev, bus, _) = device(&[Reply::Word(state)]);
        assert_eq!(dev.get_integration_time(), Ok(time));
        assert_eq!(bus.seen(), vec![read_of(registers::SETTING_REG)]);
    }
}

#[test]
fn get_integration_time_rejects_an_unknown_pattern() {
    for state in [0x0100u16, 0x0140, 0x03c0, 0xffff] {
        let (mut dev, bus, _) = device(&[Reply::Word(state)]);
        assert_eq!(dev.get_integration_time(), Err(LightSensorI2cError::ConversionError));
        assert_eq!(bus.seen().len(), 1);
    }
}

#[test]
fn other_settings_getters_decode_their_fields() {
    let (mut dev, bus, _) = device(&[
        Reply::Word(0x0020),
        Reply::Word(0x0002),
        Reply::Word(0x0001),
        Reply::Word(0x0004),
        Reply::Word(0x0001),
    ]);
    assert_eq!(dev.get_persist_protect_number(), Ok(PersistenceProtectNumber::N4));
    assert_eq!(dev.get_interrupt_enabled(), Ok(InterruptEnable::Enable));
    assert_eq!(dev.get_shutdown(), Ok(Shutdown::PowerOff));
    assert_eq!(dev.get_power_saving_mode(), Ok(PowerSavingMode::M3));
    assert_eq!(dev.get_power_saving_mode_enabled(), Ok(PowerSavingModeEnable::Enable));
    assert_eq!(
        bus.seen(),
        vec![
            read_of(registers::SETTING_REG),
            read_of(registers::SETTING_REG),
            read_of(registers::SETTING_REG),
            read_of(registers::POWER_SAVE_REG),
            read_of(registers::POWER_SAVE_REG),
        ]
    );
}

#[test]
fn getters_ignore_the_other_fields() {
    let (mut dev, _, _) = device(&[
        Reply::Word(0xffcf),
        Reply::Word(0xfffd),
        Reply::Word(0xfffe),
        Reply::Word(0xfff9),
        Reply::Word(0xfffe),
    ]);
    assert_eq!(dev.get_persist_protect_number(), Ok(PersistenceProtectNumber::N1));
    assert_eq!(dev.get_interrupt_enabled(), Ok(InterruptEnable::Disable));
    assert_eq!(dev.get_shutdown(), Ok(Shutdown::PowerOn));
    assert_eq!(dev.get_power_saving_mode(), Ok(PowerSavingMode::M1));
    assert_eq!(dev.get_power_saving_mode_enabled(), Ok(PowerSavingModeEnable::Disable));
}

#[test]
fn threshold_flags() {
    let (mut dev, bus, _) = device(&[
        Reply::Word(0x8000),
        Reply::Word(0x8000),
        Reply::Word(0x4000),
        Reply::Word(0x4000),
    ]);
    assert_eq!(dev.get_low_threshold_exceeded(), Ok(Threshold::Exceeded));
    assert_eq!(dev.get_high_threshold_exceeded(), Ok(Threshold::NotExceeded));
    assert_eq!(dev.get_low_threshold_exceeded(), Ok(Threshold::NotExceeded));
    assert_eq!(dev.get_high_threshold_exceeded(), Ok(Threshold::Exceeded));
    assert_eq!(bus.seen(), vec![read_of(registers::INTERRUPT_REG); 4]);
}

#[test]
fn full_word_registers() {
    let (mut dev, bus, _) = device(&[
        Reply::Word(0x0102),
        Reply::Word(0x0304),
        Reply::Word(0x0506),
        Reply::Word(0xffff),
        Reply::WriteOk,
        Reply::WriteOk,
    ]);
    assert_eq!(dev.get_high_threshold_window(), Ok(0x0102));
    assert_eq!(dev.get_low_threshold_window(), Ok(0x0304));
    assert_eq!(dev.get_ambient_light_output(), Ok(0x0506));
    assert_eq!(dev.get_white_light_output(), Ok(0xffff));
    assert_eq!(dev.set_high_threshold_window(10_000), Ok(()));
    assert_eq!(dev.set_low_threshold_window(0), Ok(()));
    assert_eq!(
        bus.seen(),
        vec![
            read_of(registers::H_THRESH_REG),
            read_of(registers::L_THRESH_REG),
            read_of(registers::AMBIENT_LIGHT_DATA_REG),
            read_of(registers::WHITE_LIGHT_DATA_REG),
            write_of(registers::H_THRESH_REG, 10_000),
            write_of(registers::L_THRESH_REG, 0),
        ]
    );
}

#[test]
fn setters_splice_their_field() {
    let (mut dev, bus, delay) = device(&[
        Reply::Word(0x0000),
        Reply::WriteOk,
        Reply::Word(0xffff),
        Reply::WriteOk,
        Reply::Word(0x1800),
        Reply::WriteOk,
        Reply::Word(0xffff),
        Reply::WriteOk,
        Reply::Word(0x0000),
        Reply::WriteOk,
        Reply::Word(0x0001),
        Reply::WriteOk,
    ]);
    assert_eq!(dev.set_gain(Gain::X1_4), Ok(()));
    assert_eq!(dev.set_gain(Gain::X2), Ok(()));
    assert_eq!(dev.set_integration_time(IntegrationTime::Ms50), Ok(()));
    assert_eq!(dev.set_persist_protect_number(PersistenceProtectNumber::N2), Ok(()));
    assert_eq!(dev.set_interrupt_enabled(InterruptEnable::Enable), Ok(()));
    assert_eq!(dev.set_interrupt_enabled(InterruptEnable::Disable), Ok(()));
    let s = registers::SETTING_REG;
    assert_eq!(
        bus.seen(),
        vec![
            read_of(s),
            write_of(s, 0x1800),
            read_of(s),
            write_of(s, 0xefff),
            read_of(s),
            write_of(s, 0x1a00),
            read_of(s),
            write_of(s, 0xffdf),
            read_of(s),
            write_of(s, 0x0002),
            read_of(s),
            write_of(s, 0x0001),
        ]
    );
    assert!(delay.pauses().is_empty());
}

#[test]
fn power_saving_setters_use_their_register() {
    let (mut dev, bus, _) = device(&[
        Reply::Word(0x0001),
        Reply::WriteOk,
        Reply::Word(0x0006),
        Reply::WriteOk,
    ]);
    assert_eq!(dev.set_power_saving_mode(PowerSavingMode::M4), Ok(()));
    assert_eq!(dev.set_power_saving_mode_enabled(PowerSavingModeEnable::Enable), Ok(()));
    let p = registers::POWER_SAVE_REG;
    assert_eq!(
        bus.seen(),
        vec![read_of(p), write_of(p, 0x0007), read_of(p), write_of(p, 0x0007)]
    );
}

#[test]
fn power_on_waits_once_after_the_write() {
    let (mut dev, bus, delay) = device(&[Reply::Word(0x1a01), Reply::WriteOk]);
    assert_eq!(dev.set_shutdown(Shutdown::PowerOn), Ok(()));
    assert_eq!(
        bus.calls(),
        vec![
            read_of(registers::SETTING_REG),
            write_of(registers::SETTING_REG, 0x1a00),
            Seen::Pause(4),
        ]
    );
    assert_eq!(delay.pauses(), vec![4]);
}

#[test]
fn power_off_does_not_wait() {
    let (mut dev, bus, delay) = device(&[Reply::Word(0x1a00), Reply::WriteOk]);
    assert_eq!(dev.set_shutdown(Shutdown::PowerOff), Ok(()));
    assert_eq!(
        bus.seen(),
        vec![read_of(registers::SETTING_REG), write_of(registers::SETTING_REG, 0x1a01)]
    );
    assert!(delay.pauses().is_empty());
}

#[test]
fn power_on_does_not_wait_when_the_write_fails() {
    let (mut dev, bus, delay) = device(&[Reply::Word(0x0001), Reply::WriteFails]);
    assert_eq!(dev.set_shutdown(Shutdown::PowerOn), Err(LightSensorI2cError::IOError));
    assert_eq!(bus.seen().len(), 2);
    assert!(delay.pauses().is_empty());
}

#[test]
fn power_on_does_not_write_when_the_read_fails() {
    let (mut dev, bus, delay) = device(&[Reply::ReadFails]);
    assert_eq!(dev.set_shutdown(Shutdown::PowerOn), Err(LightSensorI2cError::IOError));
    assert_eq!(bus.seen(), vec![read_of(registers::SETTING_REG)]);
    assert!(delay.pauses().is_empty());
}

#[test]
fn getters_report_a_failed_read() {
    let (mut dev, bus, _) = device(&[Reply::ReadFails; 13]);
    let io = LightSensorI2cError::IOError;
    assert_eq!(dev.get_gain(), Err(io));
    assert_eq!(dev.get_integration_time(), Err(io));
    assert_eq!(dev.get_persist_protect_number(), Err(io));
    assert_eq!(dev.get_interrupt_enabled(), Err(io));
    assert_eq!(dev.get_shutdown(), Err(io));
    assert_eq!(dev.get_power_saving_mode(), Err(io));
    assert_eq!(dev.get_power_saving_mode_enabled(), Err(io));
    assert_eq!(dev.get_low_threshold_exceeded(), Err(io));
    assert_eq!(dev.get_high_threshold_exceeded(), Err(io));
    assert_eq!(dev.get_high_threshold_window(), Err(io));
    assert_eq!(dev.get_low_threshold_window(), Err(io));
    assert_eq!(dev.get_ambient_light_output(), Err(io));
    assert_eq!(dev.get_white_light_output(), Err(io));
    assert_eq!(bus.seen().len(), 13);
    assert!(bus.exhausted());
}

#[test]
fn setters_stop_at_a_failed_read() {
    let (mut dev, bus, _) = device(&[Reply::ReadFails; 6]);
    let io = LightSensorI2cError::IOError;
    assert_eq!(dev.set_gain(Gain::X1), Err(io));
    assert_eq!(dev.set_integration_time(IntegrationTime::Ms25), Err(io));
    assert_eq!(dev.set_persist_protect_number(PersistenceProtectNumber::N8), Err(io));
    assert_eq!(dev.set_interrupt_enabled(InterruptEnable::Enable), Err(io));
    assert_eq!(dev.set_power_saving_mode(PowerSavingMode::M2), Err(io));
    assert_eq!(dev.set_power_saving_mode_enabled(PowerSavingModeEnable::Enable), Err(io));
    let s = registers::SETTING_REG;
    let p = registers::POWER_SAVE_REG;
    assert_eq!(
        bus.seen(),
        vec![read_of(s), read_of(s), read_of(s), read_of(s), read_of(p), read_of(p)]
    );
}

#[test]
fn setters_report_a_failed_write() {
    let (mut dev, bus, _) = device(&[
        Reply::Word(0),
        Reply::WriteFails,
        Reply::WriteFails,
        Reply::WriteFails,
    ]);
    let io = LightSensorI2cError::IOError;
    assert_eq!(dev.set_gain(Gain::X2), Err(io));
    assert_eq!(dev.set_high_threshold_window(1), Err(io));
    assert_eq!(dev.set_low_threshold_window(2), Err(io));
    assert_eq!(bus.seen().len(), 4);
    assert!(bus.exhausted());
}

#[test]
fn sensor_uses_the_address_of_the_strapping() {
    let bus = ScriptedBus::new(&[Reply::Word(7)]);
    let mut alt = LightSensor::new(bus.clone(), Address::Alternative, bus.delay());
    assert_eq!(alt.get_white_light(), Ok(7));
    assert_eq!(
        bus.seen(),
        vec![Seen::Read {
            address: addresses::ALTERNATIVE,
            written: vec![registers::WHITE_LIGHT_DATA_REG],
            requested: 2,
        }]
    );
}

#[test]
fn start_runs_the_whole_sequence() {
    let (mut sensor, bus, delay) = sensor(&[
        Reply::Word(0x0001),
        Reply::WriteOk,
        Reply::Word(0x0000),
        Reply::WriteOk,
        Reply::Word(0x1800),
        Reply::WriteOk,
    ]);
    assert_eq!(sensor.start(), Ok(()));
    let s = registers::SETTING_REG;
    assert_eq!(
        bus.calls(),
        vec![
            read_of(s),
            write_of(s, 0x0000),
            Seen::Pause(4),
            read_of(s),
            write_of(s, 0x1800),
            read_of(s),
            write_of(s, 0x1a00),
        ]
    );
    assert_eq!(delay.pauses(), vec![4]);
}

#[test]
fn start_keeps_the_fields_it_does_not_set() {
    let (mut sensor, bus, _) = sensor(&[
        Reply::Word(0xffff),
        Reply::WriteOk,
        Reply::Word(0xfffe),
        Reply::WriteOk,
        Reply::Word(0xfffe),
        Reply::WriteOk,
    ]);
    assert_eq!(sensor.start(), Ok(()));
    let s = registers::SETTING_REG;
    assert_eq!(
        bus.seen(),
        vec![
            read_of(s),
            write_of(s, 0xfffe),
            read_of(s),
            write_of(s, 0xfffe),
            read_of(s),
            write_of(s, 0xfe3e),
        ]
    );
}

#[test]
fn start_stops_at_the_first_failure() {
    let script = [
        Reply::Word(0),
        Reply::WriteOk,
        Reply::Word(0),
        Reply::WriteOk,
        Reply::Word(0),
        Reply::WriteOk,
    ];
    for failing in 0..6 {
        let mut replies = script[..failing].to_vec();
        replies.push(if failing % 2 == 0 { Reply::ReadFails } else { Reply::WriteFails });
        let (mut sensor, bus, delay) = sensor(&replies);
        assert_eq!(sensor.start(), Err(LightSensorError::IOError));
        assert_eq!(bus.seen().len(), failing + 1);
        assert!(bus.exhausted());
        let expected: Vec<u32> = if failing >= 2 { vec![4] } else { vec![] };
        assert_eq!(delay.pauses(), expected);
    }
}

#[test]
fn build_runs_the_whole_sequence() {
    let bus = ScriptedBus::new(&[
        Reply::Word(0x0001),
        Reply::WriteOk,
        Reply::Word(0x0000),
        Reply::WriteOk,
        Reply::Word(0x1800),
        Reply::WriteOk,
    ]);
    let built = LightSensor::build(bus.clone(), Address::Default, bus.delay());
    assert!(built.is_ok());
    assert_eq!(bus.calls().len(), 7);
    assert_eq!(bus.calls()[2], Seen::Pause(4));
    assert!(bus.exhausted());
}

#[test]
fn build_reports_a_failure() {
    let bus = ScriptedBus::new(&[Reply::Word(0), Reply::WriteFails]);
    let built = LightSensor::build(bus.clone(), Address::Default, bus.delay());
    assert!(matches!(built, Err(LightSensorError::IOError)));
    assert_eq!(bus.calls().len(), 2);
}

#[test]
fn convert_reads_gain_then_integration_time() {
    let (mut sensor, bus, _) = sensor(&[Reply::Word(0x1800), Reply::Word(0x1800)]);
    assert_eq!(
        sensor.convert_raw_to_lux(1000),
        Ok(LuxReading { linear_microlux: 230_400_000, needs_correction: false })
    );
    assert_eq!(bus.seen(), vec![read_of(registers::SETTING_REG); 2]);
}

#[test]
fn convert_takes_each_setting_from_its_own_read() {
    let (mut sensor, _, _) = sensor(&[Reply::Word(0x1000), Reply::Word(0x0300)]);
    assert_eq!(
        sensor.convert_raw_to_lux(10),
        Ok(LuxReading { linear_microlux: 16 * 115_200 * 10, needs_correction: false })
    );
}

#[test]
fn convert_flags_high_illuminance_at_low_gain_only() {
    let (mut low, _, _) = sensor(&[Reply::Word(0x1000), Reply::Word(0x1000)]);
    assert_eq!(
        low.convert_raw_to_lux(2171),
        Ok(LuxReading { linear_microlux: 1_000_396_800, needs_correction: true })
    );
    let (mut high, _, _) = sensor(&[Reply::Word(0x0300), Reply::Word(0x0300)]);
    assert_eq!(
        high.convert_raw_to_lux(65_535),
        Ok(LuxReading { linear_microlux: 230_400 * 65_535, needs_correction: false })
    );
}

#[test]
fn convert_stops_at_a_failed_read() {
    let (mut first, bus, _) = sensor(&[Reply::ReadFails]);
    assert_eq!(first.convert_raw_to_lux(1), Err(LightSensorError::IOError));
    assert_eq!(bus.seen().len(), 1);
    let (mut second, bus, _) = sensor(&[Reply::Word(0), Reply::ReadFails]);
    assert_eq!(second.convert_raw_to_lux(1), Err(LightSensorError::IOError));
    assert_eq!(bus.seen().len(), 2);
}

#[test]
fn convert_rejects_an_unknown_integration_time() {
    let (mut sensor, bus, _) = sensor(&[Reply::Word(0x0100), Reply::Word(0x0100)]);
    assert_eq!(sensor.convert_raw_to_lux(1), Err(LightSensorError::ConversionError));
    assert_eq!(bus.seen().len(), 2);
}

#[test]
fn ambient_light_reads_settings_then_the_count() {
    let (mut sensor, bus, _) =
        sensor(&[Reply::Word(0x1a00), Reply::Word(0x1a00), Reply::Word(500)]);
    assert_eq!(
        sensor.get_ambient_light_lux(),
        Ok(LuxReading { linear_microlux: 8 * 57_600 * 500, needs_correction: false })
    );
    assert_eq!(
        bus.seen(),
        vec![
            read_of(registers::SETTING_REG),
            read_of(registers::SETTING_REG),
            read_of(registers::AMBIENT_LIGHT_DATA_REG),
        ]
    );
}

#[test]
fn ambient_light_stops_at_the_first_failure() {
    let io = Err(LightSensorError::IOError);
    let (mut first, bus, _) = sensor(&[Reply::ReadFails]);
    assert_eq!(first.get_ambient_light_lux(), io);
    assert_eq!(bus.seen().len(), 1);
    let (mut second, bus, _) = sensor(&[Reply::Word(0), Reply::ReadFails]);
    assert_eq!(second.get_ambient_light_lux(), io);
    assert_eq!(bus.seen().len(), 2);
    let (mut third, bus, _) = sensor(&[Reply::Word(0), Reply::Word(0), Reply::ReadFails]);
    assert_eq!(third.get_ambient_light_lux(), io);
    assert_eq!(bus.seen().len(), 3);
    let (mut unknown, bus, _) = sensor(&[Reply::Word(0x0100), Reply::Word(0x0100)]);
    assert_eq!(unknown.get_ambient_light_lux(), Err(LightSensorError::ConversionError));
    assert_eq!(bus.seen().len(), 2);
}

#[test]
fn white_light_is_the_raw_count() {
    let (mut sensor, bus, _) = sensor(&[Reply::Word(0xfedc), Reply::ReadFails]);
    assert_eq!(sensor.get_white_light(), Ok(0xfedc));
    assert_eq!(sensor.get_white_light(), Err(LightSensorError::IOError));
    assert_eq!(bus.seen(), vec![read_of(registers::WHITE_LIGHT_DATA_REG); 2]);
}

#[test]
fn sensor_error_of_register_error() {
    assert_eq!(
        LightSensorError::from(LightSensorI2cError::IOError),
        LightSensorError::IOError
    );
    assert_eq!(
        LightSensorError::from(LightSensorI2cError::ConversionError),
        LightSensorError::ConversionError
    );
}

//! The settings of the chip: each is a closed set of values, and each value
//! has a fixed bit pattern in its register field.

use crate::i2c::bitfield::extract_field;
use crate::i2c::bitfield::lemma_extract_after_splice;
use crate::i2c::bitfield::low_ones;
use crate::i2c::bitfield::splice_field;
use crate::i2c::constants::addresses;
use crate::i2c::constants::fields;
use crate::i2c::LightSensorI2cError;
use vstd::prelude::*;
use vstd::std_specs::convert::FromSpecImpl;
use vstd::std_specs::convert::TryFromSpecImpl;

verus! {

/// Sensitivity of the photodiode.
#[allow(non_camel_case_types)]
#[derive(Clone, Copy, PartialEq, Eq, Debug, Structural)]
pub enum Gain {
    /// Gain 1.
    X1,
    /// Gain 2.
    X2,
    /// Gain 1/8.
    X1_8,
    /// Gain 1/4.
    X1_4,
}

impl Gain {
    /// The bit pattern of the value in the gain field.
    pub open spec fn bits(self) -> u16 {
        match self {
            Gain::X1 => 0b00,
            Gain::X2 => 0b01,
            Gain::X1_8 => 0b10,
            Gain::X1_4 => 0b11,
        }
    }

    /// The value that a bit pattern stands for, if it stands for one.
    pub open spec fn from_bits(bits: u16) -> Option<Gain> {
        if bits == 0b00 {
            Some(Gain::X1)
        } else if bits == 0b01 {
            Some(Gain::X2)
        } else if bits == 0b10 {
            Some(Gain::X1_8)
        } else if bits == 0b11 {
            Some(Gain::X1_4)
        } else {
            None
        }
    }
}

impl From<Gain> for u16 {
    fn from(item: Gain) -> (bits: u16) {
        match item {
            Gain::X1 => 0b00,
            Gain::X2 => 0b01,
            Gain::X1_8 => 0b10,
            Gain::X1_4 => 0b11,
        }
    }
}

impl FromSpecImpl<Gain> for u16 {
    open spec fn obeys_from_spec() -> bool {
        true
    }

    open spec fn from_spec(item: Gain) -> u16 {
        item.bits()
    }
}

impl TryFrom<u16> for Gain {
    type Error = LightSensorI2cError;

    fn try_from(item: u16) -> (r: Result<Gain, LightSensorI2cError>) {
        match item {
            0b00 => Ok(Gain::X1),
            0b01 => Ok(Gain::X2),
            0b10 => Ok(Gain::X1_8),
            0b11 => Ok(Gain::X1_4),
            _ => Err(LightSensorI2cError::ConversionError),
        }
    }
}

impl TryFromSpecImpl<u16> for Gain {
    open spec fn obeys_try_from_spec() -> bool {
        true
    }

    open spec fn try_from_spec(item: u16) -> Result<Gain, LightSensorI2cError> {
        match Gain::from_bits(item) {
            Some(value) => Ok(value),
            None => Err(LightSensorI2cError::ConversionError),
        }
    }
}

/// The encoding of the gain is a bijection between its values and its valid
/// bit patterns: decoding a valid pattern and encoding the result gives the
/// pattern back, and encoding a value and decoding the result gives the value
/// back. The valid patterns are all those of the 2-bit field.
pub proof fn lemma_gain_round_trip(bits: u16, value: Gain)
    ensures
        Gain::from_bits(bits) is Some <==> bits < 4,
        Gain::from_bits(bits) matches Some(decoded) ==> decoded.bits() == bits,
        Gain::from_bits(value.bits()) == Some(value),
{
}

/// A value of the gain that is spliced into a register word is the value that
/// the word then decodes to, whatever the word held before.
pub proof fn lemma_gain_written_is_read(state: u16, value: Gain)
    ensures
        Gain::from_bits(
            extract_field(
                splice_field(
                    state,
                    fields::GAIN_OFFSET,
                    fields::GAIN_WIDTH,
                    value.bits(),
                ),
                fields::GAIN_OFFSET,
                fields::GAIN_WIDTH,
            ),
        ) == Some(value),
{
    lemma_extract_after_splice(
        state,
        fields::GAIN_OFFSET,
        fields::GAIN_WIDTH,
        value.bits(),
    );
    assert(low_ones(fields::GAIN_WIDTH) == 3) by (bit_vector);
}

/// Exposure time of one sample.
#[derive(Clone, Copy, PartialEq, Eq, Debug, Structural)]
pub enum IntegrationTime {
    /// 25 ms.
    Ms25,
    /// 50 ms.
    Ms50,
    /// 100 ms.
    Ms100,
    /// 200 ms.
    Ms200,
    /// 400 ms.
    Ms400,
    /// 800 ms.
    Ms800,
}

impl IntegrationTime {
    /// The bit pattern of the value in the integration time field.
    pub open spec fn bits(self) -> u16 {
        match self {
            IntegrationTime::Ms25 => 0b1100,
            IntegrationTime::Ms50 => 0b1000,
            IntegrationTime::Ms100 => 0b0000,
            IntegrationTime::Ms200 => 0b0001,
            IntegrationTime::Ms400 => 0b0010,
            IntegrationTime::Ms800 => 0b0011,
        }
    }

    /// The value that a bit pattern stands for, if it stands for one.
    pub open spec fn from_bits(bits: u16) -> Option<IntegrationTime> {
        if bits == 0b1100 {
            Some(IntegrationTime::Ms25)
        } else if bits == 0b1000 {
            Some(IntegrationTime::Ms50)
        } else if bits == 0b0000 {
            Some(IntegrationTime::Ms100)
        } else if bits == 0b0001 {
            Some(IntegrationTime::Ms200)
        } else if bits == 0b0010 {
            Some(IntegrationTime::Ms400)
        } else if bits == 0b0011 {
            Some(IntegrationTime::Ms800)
        } else {
            None
        }
    }
}

impl From<IntegrationTime> for u16 {
    fn from(item: IntegrationTime) -> (bits: u16) {
        match item {
            IntegrationTime::Ms25 => 0b1100,
            IntegrationTime::Ms50 => 0b1000,
            IntegrationTime::Ms100 => 0b0000,
            IntegrationTime::Ms200 => 0b0001,
            IntegrationTime::Ms400 => 0b0010,
            IntegrationTime::Ms800 => 0b0011,
        }
    }
}

impl FromSpecImpl<IntegrationTime> for u16 {
    open spec fn obeys_from_spec() -> bool {
        true
    }

    open spec fn from_spec(item: IntegrationTime) -> u16 {
        item.bits()
    }
}

impl TryFrom<u16> for IntegrationTime {
    type Error = LightSensorI2cError;

    fn try_from(item: u16) -> (r: Result<IntegrationTime, LightSensorI2cError>) {
        match item {
            0b1100 => Ok(IntegrationTime::Ms25),
            0b1000 => Ok(IntegrationTime::Ms50),
            0b0000 => Ok(IntegrationTime::Ms100),
            0b0001 => Ok(IntegrationTime::Ms200),
            0b0010 => Ok(IntegrationTime::Ms400),
            0b0011 => Ok(IntegrationTime::Ms800),
            _ => Err(LightSensorI2cError::ConversionError),
        }
    }
}

impl TryFromSpecImpl<u16> for IntegrationTime {
    open spec fn obeys_try_from_spec() -> bool {
        true
    }

    open spec fn try_from_spec(item: u16) -> Result<IntegrationTime, LightSensorI2cError> {
        match IntegrationTime::from_bits(item) {
            Some(value) => Ok(value),
            None => Err(LightSensorI2cError::ConversionError),
        }
    }
}

/// The encoding of the integration time is a bijection between its values and
/// its valid bit patterns: decoding a valid pattern and encoding the result
/// gives the pattern back, and encoding a value and decoding the result gives
/// the value back. The valid patterns are 0 to 3, 0b1000 and 0b1100.
pub proof fn lemma_integration_time_round_trip(bits: u16, value: IntegrationTime)
    ensures
        IntegrationTime::from_bits(bits) is Some <==> (bits < 4 || bits == 0b1000 || bits
            == 0b1100),
        IntegrationTime::from_bits(bits) matches Some(decoded) ==> decoded.bits() == bits,
        IntegrationTime::from_bits(value.bits()) == Some(value),
{
}

/// A value of the integration time that is spliced into a register word is
/// the value that the word then decodes to, whatever the word held before.
pub proof fn lemma_integration_time_written_is_read(state: u16, value: IntegrationTime)
    ensures
        IntegrationTime::from_bits(
            extract_field(
                splice_field(
                    state,
                    fields::INTEGRATION_TIME_OFFSET,
                    fields::INTEGRATION_TIME_WIDTH,
                    value.bits(),
                ),
                fields::INTEGRATION_TIME_OFFSET,
                fields::INTEGRATION_TIME_WIDTH,
            ),
        ) == Some(value),
{
    lemma_extract_after_splice(
        state,
        fields::INTEGRATION_TIME_OFFSET,
        fields::INTEGRATION_TIME_WIDTH,
        value.bits(),
    );
    assert(low_ones(fields::INTEGRATION_TIME_WIDTH) == 15) by (bit_vector);
}

/// Number of consecutive samples beyond a threshold that raise the interrupt.
#[derive(Clone, Copy, PartialEq, Eq, Debug, Structural)]
pub enum PersistenceProtectNumber {
    /// One sample.
    N1,
    /// Two samples.
    N2,
    /// Four samples.
    N4,
    /// Eight samples.
    N8,
}

impl PersistenceProtectNumber {
    /// The bit pattern of the value in the persistence protect number field.
    pub open spec fn bits(self) -> u16 {
        match self {
            PersistenceProtectNumber::N1 => 0b00,
            PersistenceProtectNumber::N2 => 0b01,
            PersistenceProtectNumber::N4 => 0b10,
            PersistenceProtectNumber::N8 => 0b11,
        }
    }

    /// The value that a bit pattern stands for, if it stands for one.
    pub open spec fn from_bits(bits: u16) -> Option<PersistenceProtectNumber> {
        if bits == 0b00 {
            Some(PersistenceProtectNumber::N1)
        } else if bits == 0b01 {
            Some(PersistenceProtectNumber::N2)
        } else if bits == 0b10 {
            Some(PersistenceProtectNumber::N4)
        } else if bits == 0b11 {
            Some(PersistenceProtectNumber::N8)
        } else {
            None
        }
    }
}

impl From<PersistenceProtectNumber> for u16 {
    fn from(item: PersistenceProtectNumber) -> (bits: u16) {
        match item {
            PersistenceProtectNumber::N1 => 0b00,
            PersistenceProtectNumber::N2 => 0b01,
            PersistenceProtectNumber::N4 => 0b10,
            PersistenceProtectNumber::N8 => 0b11,
        }
    }
}

impl FromSpecImpl<PersistenceProtectNumber> for u16 {
    open spec fn obeys_from_spec() -> bool {
        true
    }

    open spec fn from_spec(item: PersistenceProtectNumber) -> u16 {
        item.bits()
    }
}

impl TryFrom<u16> for PersistenceProtectNumber {
    type Error = LightSensorI2cError;

    fn try_from(item: u16) -> (r: Result<PersistenceProtectNumber, LightSensorI2cError>) {
        match item {
            0b00 => Ok(PersistenceProtectNumber::N1),
            0b01 => Ok(PersistenceProtectNumber::N2),
            0b10 => Ok(PersistenceProtectNumber::N4),
            0b11 => Ok(PersistenceProtectNumber::N8),
            _ => Err(LightSensorI2cError::ConversionError),
        }
    }
}

impl TryFromSpecImpl<u16> for PersistenceProtectNumber {
    open spec fn obeys_try_from_spec() -> bool {
        true
    }

    open spec fn try_from_spec(item: u16) -> Result<PersistenceProtectNumber, LightSensorI2cError> {
        match PersistenceProtectNumber::from_bits(item) {
            Some(value) => Ok(value),
            None => Err(LightSensorI2cError::ConversionError),
        }
    }
}

/// The encoding of the persistence protect number is a bijection between its
/// values and its valid bit patterns: decoding a valid pattern and encoding
/// the result gives the pattern back, and encoding a value and decoding the
/// result gives the value back. The valid patterns are all those of the 2-bit
/// field.
pub proof fn lemma_persistence_protect_number_round_trip(bits: u16, value: PersistenceProtectNumber)
    ensures
        PersistenceProtectNumber::from_bits(bits) is Some <==> bits < 4,
        PersistenceProtectNumber::from_bits(bits) matches Some(decoded) ==> decoded.bits() == bits,
        PersistenceProtectNumber::from_bits(value.bits()) == Some(value),
{
}

/// A value of the persistence protect number that is spliced into a register
/// word is the value that the word then decodes to, whatever the word held
/// before.
pub proof fn lemma_persistence_protect_number_written_is_read(
    state: u16,
    value: PersistenceProtectNumber,
)
    ensures
        PersistenceProtectNumber::from_bits(
            extract_field(
                splice_field(
                    state,
                    fields::PERSISTENCE_OFFSET,
                    fields::PERSISTENCE_WIDTH,
                    value.bits(),
                ),
                fields::PERSISTENCE_OFFSET,
                fields::PERSISTENCE_WIDTH,
            ),
        ) == Some(value),
{
    lemma_extract_after_splice(
        state,
        fields::PERSISTENCE_OFFSET,
        fields::PERSISTENCE_WIDTH,
        value.bits(),
    );
    assert(low_ones(fields::PERSISTENCE_WIDTH) == 3) by (bit_vector);
}

/// Power saving mode, from the fastest refresh to the lowest current.
#[derive(Clone, Copy, PartialEq, Eq, Debug, Structural)]
pub enum PowerSavingMode {
    /// Mode 1: fastest refresh, highest current.
    M1,
    /// Mode 2.
    M2,
    /// Mode 3.
    M3,
    /// Mode 4: slowest refresh, lowest current.
    M4,
}

impl PowerSavingMode {
    /// The bit pattern of the value in the power saving mode field.
    pub open spec fn bits(self) -> u16 {
        match self {
            PowerSavingMode::M1 => 0b00,
            PowerSavingMode::M2 => 0b01,
            PowerSavingMode::M3 => 0b10,
            PowerSavingMode::M4 => 0b11,
        }
    }

    /// The value that a bit pattern stands for, if it stands for one.
    pub open spec fn from_bits(bits: u16) -> Option<PowerSavingMode> {
        if bits == 0b00 {
            Some(PowerSavingMode::M1)
        } else if bits == 0b01 {
            Some(PowerSavingMode::M2)
        } else if bits == 0b10 {
            Some(PowerSavingMode::M3)
        } else if bits == 0b11 {
            Some(PowerSavingMode::M4)
        } else {
            None
        }
    }
}

impl From<PowerSavingMode> for u16 {
    fn from(item: PowerSavingMode) -> (bits: u16) {
        match item {
            PowerSavingMode::M1 => 0b00,
            PowerSavingMode::M2 => 0b01,
            PowerSavingMode::M3 => 0b10,
            PowerSavingMode::M4 => 0b11,
        }
    }
}

impl FromSpecImpl<PowerSavingMode> for u16 {
    open spec fn obeys_from_spec() -> bool {
        true
    }

    open spec fn from_spec(item: PowerSavingMode) -> u16 {
        item.bits()
    }
}

impl TryFrom<u16> for PowerSavingMode {
    type Error = LightSensorI2cError;

    fn try_from(item: u16) -> (r: Result<PowerSavingMode, LightSensorI2cError>) {
        match item {
            0b00 => Ok(PowerSavingMode::M1),
            0b01 => Ok(PowerSavingMode::M2),
            0b10 => Ok(PowerSavingMode::M3),
            0b11 => Ok(PowerSavingMode::M4),
            _ => Err(LightSensorI2cError::ConversionError),
        }
    }
}

impl TryFromSpecImpl<u16> for PowerSavingMode {
    open spec fn obeys_try_from_spec() -> bool {
        true
    }

    open spec fn try_from_spec(item: u16) -> Result<PowerSavingMode, LightSensorI2cError> {
        match PowerSavingMode::from_bits(item) {
            Some(value) => Ok(value),
            None => Err(LightSensorI2cError::ConversionError),
        }
    }
}

/// The encoding of the power saving mode is a bijection between its values
/// and its valid bit patterns: decoding a valid pattern and encoding the
/// result gives the pattern back, and encoding a value and decoding the
/// result gives the value back. The valid patterns are all those of the 2-bit
/// field.
pub proof fn lemma_power_saving_mode_round_trip(bits: u16, value: PowerSavingMode)
    ensures
        PowerSavingMode::from_bits(bits) is Some <==> bits < 4,
        PowerSavingMode::from_bits(bits) matches Some(decoded) ==> decoded.bits() == bits,
        PowerSavingMode::from_bits(value.bits()) == Some(value),
{
}

/// A value of the power saving mode that is spliced into a register word is
/// the value that the word then decodes to, whatever the word held before.
pub proof fn lemma_power_saving_mode_written_is_read(state: u16, value: PowerSavingMode)
    ensures
        PowerSavingMode::from_bits(
            extract_field(
                splice_field(
                    state,
                    fields::POWER_SAVING_MODE_OFFSET,
                    fields::POWER_SAVING_MODE_WIDTH,
                    value.bits(),
                ),
                fields::POWER_SAVING_MODE_OFFSET,
                fields::POWER_SAVING_MODE_WIDTH,
            ),
        ) == Some(value),
{
    lemma_extract_after_splice(
        state,
        fields::POWER_SAVING_MODE_OFFSET,
        fields::POWER_SAVING_MODE_WIDTH,
        value.bits(),
    );
    assert(low_ones(fields::POWER_SAVING_MODE_WIDTH) == 3) by (bit_vector);
}

/// Whether the power saving mode is in effect.
#[derive(Clone, Copy, PartialEq, Eq, Debug, Structural)]
pub enum PowerSavingModeEnable {
    /// Power saving off.
    Disable,
    /// Power saving on.
    Enable,
}

impl PowerSavingModeEnable {
    /// The bit pattern of the value in the power saving enable field.
    pub open spec fn bits(self) -> u16 {
        match self {
            PowerSavingModeEnable::Disable => 0b0,
            PowerSavingModeEnable::Enable => 0b1,
        }
    }

    /// The value that a bit pattern stands for, if it stands for one.
    pub open spec fn from_bits(bits: u16) -> Option<PowerSavingModeEnable> {
        if bits == 0b0 {
            Some(PowerSavingModeEnable::Disable)
        } else if bits == 0b1 {
            Some(PowerSavingModeEnable::Enable)
        } else {
            None
        }
    }
}

impl From<PowerSavingModeEnable> for u16 {
    fn from(item: PowerSavingModeEnable) -> (bits: u16) {
        match item {
            PowerSavingModeEnable::Disable => 0b0,
            PowerSavingModeEnable::Enable => 0b1,
        }
    }
}

impl FromSpecImpl<PowerSavingModeEnable> for u16 {
    open spec fn obeys_from_spec() -> bool {
        true
    }

    open spec fn from_spec(item: PowerSavingModeEnable) -> u16 {
        item.bits()
    }
}

impl TryFrom<u16> for PowerSavingModeEnable {
    type Error = LightSensorI2cError;

    fn try_from(item: u16) -> (r: Result<PowerSavingModeEnable, LightSensorI2cError>) {
        match item {
            0b0 => Ok(PowerSavingModeEnable::Disable),
            0b1 => Ok(PowerSavingModeEnable::Enable),
            _ => Err(LightSensorI2cError::ConversionError),
        }
    }
}

impl TryFromSpecImpl<u16> for PowerSavingModeEnable {
    open spec fn obeys_try_from_spec() -> bool {
        true
    }

    open spec fn try_from_spec(item: u16) -> Result<PowerSavingModeEnable, LightSensorI2cError> {
        match PowerSavingModeEnable::from_bits(item) {
            Some(value) => Ok(value),
            None => Err(LightSensorI2cError::ConversionError),
        }
    }
}

/// The encoding of the power saving enable is a bijection between its values
/// and its valid bit patterns: decoding a valid pattern and encoding the
/// result gives the pattern back, and encoding a value and decoding the
/// result gives the value back. The valid patterns are both values of the
/// one-bit field.
pub proof fn lemma_power_saving_mode_enable_round_trip(bits: u16, value: PowerSavingModeEnable)
    ensures
        PowerSavingModeEnable::from_bits(bits) is Some <==> bits < 2,
        PowerSavingModeEnable::from_bits(bits) matches Some(decoded) ==> decoded.bits() == bits,
        PowerSavingModeEnable::from_bits(value.bits()) == Some(value),
{
}

/// A value of the power saving enable that is spliced into a register word is
/// the value that the word then decodes to, whatever the word held before.
pub proof fn lemma_power_saving_mode_enable_written_is_read(
    state: u16,
    value: PowerSavingModeEnable,
)
    ensures
        PowerSavingModeEnable::from_bits(
            extract_field(
                splice_field(
                    state,
                    fields::POWER_SAVING_ENABLE_OFFSET,
                    fields::POWER_SAVING_ENABLE_WIDTH,
                    value.bits(),
                ),
                fields::POWER_SAVING_ENABLE_OFFSET,
                fields::POWER_SAVING_ENABLE_WIDTH,
            ),
        ) == Some(value),
{
    lemma_extract_after_splice(
        state,
        fields::POWER_SAVING_ENABLE_OFFSET,
        fields::POWER_SAVING_ENABLE_WIDTH,
        value.bits(),
    );
    assert(low_ones(fields::POWER_SAVING_ENABLE_WIDTH) == 1) by (bit_vector);
}

/// Whether the threshold interrupt is enabled.
#[derive(Clone, Copy, PartialEq, Eq, Debug, Structural)]
pub enum InterruptEnable {
    /// Interrupt off.
    Disable,
    /// Interrupt on.
    Enable,
}

impl InterruptEnable {
    /// The bit pattern of the value in the interrupt enable field.
    pub open spec fn bits(self) -> u16 {
        match self {
            InterruptEnable::Disable => 0b0,
            InterruptEnable::Enable => 0b1,
        }
    }

    /// The value that a bit pattern stands for, if it stands for one.
    pub open spec fn from_bits(bits: u16) -> Option<InterruptEnable> {
        if bits == 0b0 {
            Some(InterruptEnable::Disable)
        } else if bits == 0b1 {
            Some(InterruptEnable::Enable)
        } else {
            None
        }
    }
}

impl From<InterruptEnable> for u16 {
    fn from(item: InterruptEnable) -> (bits: u16) {
        match item {
            InterruptEnable::Disable => 0b0,
            InterruptEnable::Enable => 0b1,
        }
    }
}

impl FromSpecImpl<InterruptEnable> for u16 {
    open spec fn obeys_from_spec() -> bool {
        true
    }

    open spec fn from_spec(item: InterruptEnable) -> u16 {
        item.bits()
    }
}

impl TryFrom<u16> for InterruptEnable {
    type Error = LightSensorI2cError;

    fn try_from(item: u16) -> (r: Result<InterruptEnable, LightSensorI2cError>) {
        match item {
            0b0 => Ok(InterruptEnable::Disable),
            0b1 => Ok(InterruptEnable::Enable),
            _ => Err(LightSensorI2cError::ConversionError),
        }
    }
}

impl TryFromSpecImpl<u16> for InterruptEnable {
    open spec fn obeys_try_from_spec() -> bool {
        true
    }

    open spec fn try_from_spec(item: u16) -> Result<InterruptEnable, LightSensorI2cError> {
        match InterruptEnable::from_bits(item) {
            Some(value) => Ok(value),
            None => Err(LightSensorI2cError::ConversionError),
        }
    }
}

/// The encoding of the interrupt enable is a bijection between its values and
/// its valid bit patterns: decoding a valid pattern and encoding the result
/// gives the pattern back, and encoding a value and decoding the result gives
/// the value back. The valid patterns are both values of the one-bit field.
pub proof fn lemma_interrupt_enable_round_trip(bits: u16, value: InterruptEnable)
    ensures
        InterruptEnable::from_bits(bits) is Some <==> bits < 2,
        InterruptEnable::from_bits(bits) matches Some(decoded) ==> decoded.bits() == bits,
        InterruptEnable::from_bits(value.bits()) == Some(value),
{
}

/// A value of the interrupt enable that is spliced into a register word is
/// the value that the word then decodes to, whatever the word held before.
pub proof fn lemma_interrupt_enable_written_is_read(state: u16, value: InterruptEnable)
    ensures
        InterruptEnable::from_bits(
            extract_field(
                splice_field(
                    state,
                    fields::INTERRUPT_ENABLE_OFFSET,
                    fields::INTERRUPT_ENABLE_WIDTH,
                    value.bits(),
                ),
                fields::INTERRUPT_ENABLE_OFFSET,
                fields::INTERRUPT_ENABLE_WIDTH,
            ),
        ) == Some(value),
{
    lemma_extract_after_splice(
        state,
        fields::INTERRUPT_ENABLE_OFFSET,
        fields::INTERRUPT_ENABLE_WIDTH,
        value.bits(),
    );
    assert(low_ones(fields::INTERRUPT_ENABLE_WIDTH) == 1) by (bit_vector);
}

/// Power state of the sensor.
#[derive(Clone, Copy, PartialEq, Eq, Debug, Structural)]
pub enum Shutdown {
    /// The sensor measures.
    PowerOn,
    /// The sensor is shut down.
    PowerOff,
}

impl Shutdown {
    /// The bit pattern of the value in the shutdown field.
    pub open spec fn bits(self) -> u16 {
        match self {
            Shutdown::PowerOn => 0b0,
            Shutdown::PowerOff => 0b1,
        }
    }

    /// The value that a bit pattern stands for, if it stands for one.
    pub open spec fn from_bits(bits: u16) -> Option<Shutdown> {
        if bits == 0b0 {
            Some(Shutdown::PowerOn)
        } else if bits == 0b1 {
            Some(Shutdown::PowerOff)
        } else {
            None
        }
    }
}

impl From<Shutdown> for u16 {
    fn from(item: Shutdown) -> (bits: u16) {
        match item {
            Shutdown::PowerOn => 0b0,
            Shutdown::PowerOff => 0b1,
        }
    }
}

impl FromSpecImpl<Shutdown> for u16 {
    open spec fn obeys_from_spec() -> bool {
        true
    }

    open spec fn from_spec(item: Shutdown) -> u16 {
        item.bits()
    }
}

impl TryFrom<u16> for Shutdown {
    type Error = LightSensorI2cError;

    fn try_from(item: u16) -> (r: Result<Shutdown, LightSensorI2cError>) {
        match item {
            0b0 => Ok(Shutdown::PowerOn),
            0b1 => Ok(Shutdown::PowerOff),
            _ => Err(LightSensorI2cError::ConversionError),
        }
    }
}

impl TryFromSpecImpl<u16> for Shutdown {
    open spec fn obeys_try_from_spec() -> bool {
        true
    }

    open spec fn try_from_spec(item: u16) -> Result<Shutdown, LightSensorI2cError> {
        match Shutdown::from_bits(item) {
            Some(value) => Ok(value),
            None => Err(LightSensorI2cError::ConversionError),
        }
    }
}

/// The encoding of the shutdown is a bijection between its values and its
/// valid bit patterns: decoding a valid pattern and encoding the result gives
/// the pattern back, and encoding a value and decoding the result gives the
/// value back. The valid patterns are both values of the one-bit field.
pub proof fn lemma_shutdown_round_trip(bits: u16, value: Shutdown)
    ensures
        Shutdown::from_bits(bits) is Some <==> bits < 2,
        Shutdown::from_bits(bits) matches Some(decoded) ==> decoded.bits() == bits,
        Shutdown::from_bits(value.bits()) == Some(value),
{
}

/// A value of the shutdown that is spliced into a register word is the value
/// that the word then decodes to, whatever the word held before.
pub proof fn lemma_shutdown_written_is_read(state: u16, value: Shutdown)
    ensures
        Shutdown::from_bits(
            extract_field(
                splice_field(
                    state,
                    fields::SHUTDOWN_OFFSET,
                    fields::SHUTDOWN_WIDTH,
                    value.bits(),
                ),
                fields::SHUTDOWN_OFFSET,
                fields::SHUTDOWN_WIDTH,
            ),
        ) == Some(value),
{
    lemma_extract_after_splice(
        state,
        fields::SHUTDOWN_OFFSET,
        fields::SHUTDOWN_WIDTH,
        value.bits(),
    );
    assert(low_ones(fields::SHUTDOWN_WIDTH) == 1) by (bit_vector);
}

/// Whether a threshold of the window was crossed.
#[derive(Clone, Copy, PartialEq, Eq, Debug, Structural)]
pub enum Threshold {
    /// The threshold was not crossed.
    NotExceeded,
    /// The threshold was crossed.
    Exceeded,
}

impl Threshold {
    /// The bit pattern of the value in the threshold flag field.
    pub open spec fn bits(self) -> u16 {
        match self {
            Threshold::NotExceeded => 0b0,
            Threshold::Exceeded => 0b1,
        }
    }

    /// The value that a bit pattern stands for, if it stands for one.
    pub open spec fn from_bits(bits: u16) -> Option<Threshold> {
        if bits == 0b0 {
            Some(Threshold::NotExceeded)
        } else if bits == 0b1 {
            Some(Threshold::Exceeded)
        } else {
            None
        }
    }
}

impl From<Threshold> for u16 {
    fn from(item: Threshold) -> (bits: u16) {
        match item {
            Threshold::NotExceeded => 0b0,
            Threshold::Exceeded => 0b1,
        }
    }
}

impl FromSpecImpl<Threshold> for u16 {
    open spec fn obeys_from_spec() -> bool {
        true
    }

    open spec fn from_spec(item: Threshold) -> u16 {
        item.bits()
    }
}

impl TryFrom<u16> for Threshold {
    type Error = LightSensorI2cError;

    fn try_from(item: u16) -> (r: Result<Threshold, LightSensorI2cError>) {
        match item {
            0b0 => Ok(Threshold::NotExceeded),
            0b1 => Ok(Threshold::Exceeded),
            _ => Err(LightSensorI2cError::ConversionError),
        }
    }
}

impl TryFromSpecImpl<u16> for Threshold {
    open spec fn obeys_try_from_spec() -> bool {
        true
    }

    open spec fn try_from_spec(item: u16) -> Result<Threshold, LightSensorI2cError> {
        match Threshold::from_bits(item) {
            Some(value) => Ok(value),
            None => Err(LightSensorI2cError::ConversionError),
        }
    }
}

/// The encoding of the threshold flag is a bijection between its values and
/// its valid bit patterns: decoding a valid pattern and encoding the result
/// gives the pattern back, and encoding a value and decoding the result gives
/// the value back. The valid patterns are both values of the one-bit field.
pub proof fn lemma_threshold_round_trip(bits: u16, value: Threshold)
    ensures
        Threshold::from_bits(bits) is Some <==> bits < 2,
        Threshold::from_bits(bits) matches Some(decoded) ==> decoded.bits() == bits,
        Threshold::from_bits(value.bits()) == Some(value),
{
}

/// The bus address that the chip answers to, chosen by how its address pin
/// is strapped.
#[derive(Clone, Copy, PartialEq, Eq, Debug, Structural)]
pub enum Address {
    /// The address of the default strapping.
    Default,
    /// The address of the other strapping.
    Alternative,
}

impl Address {
    /// The 7-bit bus address.
    pub open spec fn bus_address(self) -> u8 {
        match self {
            Address::Default => addresses::DEFAULT,
            Address::Alternative => addresses::ALTERNATIVE,
        }
    }
}

impl From<Address> for u8 {
    fn from(item: Address) -> (address: u8) {
        match item {
            Address::Default => addresses::DEFAULT,
            Address::Alternative => addresses::ALTERNATIVE,
        }
    }
}

impl FromSpecImpl<Address> for u8 {
    open spec fn obeys_from_spec() -> bool {
        true
    }

    open spec fn from_spec(item: Address) -> u8 {
        item.bus_address()
    }
}

} // verus!

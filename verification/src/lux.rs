//! Photometric conversion: from a raw count and the settings it was taken
//! with to illuminance.
//!
//! Illuminance is held exactly, as a whole number of millionths of a lux.
//! One count is worth 0.0288 lux at gain 2 and 100 ms; every scale factor
//! is a power of two no smaller than 1/8, so the linear formula always
//! gives a whole number of microlux. The correction of high illuminance is
//! a polynomial in floating point: the reading says whether it applies and
//! leaves its evaluation to the caller.

use crate::i2c::settings::Gain;
use crate::i2c::settings::IntegrationTime;
use vstd::prelude::*;

verus! {

/// Illuminance of one count at gain 2 and 100 ms integration time, in
/// microlux.
pub const RESOLUTION_MICROLUX: u64 = 28_800;

/// The illuminance, in microlux, above which a reading taken at a low gain
/// needs the high-illuminance correction: 1000 lux.
pub const CORRECTION_THRESHOLD_MICROLUX: u64 = 1_000_000_000;

/// The duration of an integration time in milliseconds.
pub open spec fn duration_ms(time: IntegrationTime) -> nat {
    match time {
        IntegrationTime::Ms25 => 25,
        IntegrationTime::Ms50 => 50,
        IntegrationTime::Ms100 => 100,
        IntegrationTime::Ms200 => 200,
        IntegrationTime::Ms400 => 400,
        IntegrationTime::Ms800 => 800,
    }
}

/// Eight times the gain: the smallest gain, 1/8, counts 1.
pub open spec fn gain_eighths(gain: Gain) -> nat {
    match gain {
        Gain::X1_8 => 1,
        Gain::X1_4 => 2,
        Gain::X1 => 8,
        Gain::X2 => 16,
    }
}

/// Illuminance of one count at gain 2 with integration time `time`, in
/// microlux: the resolution at 100 ms scaled by 4, 2, 1, 1/2, 1/4 and 1/8
/// from the shortest integration time to the longest.
pub open spec fn spec_resolution_microlux(time: IntegrationTime) -> u64 {
    match time {
        IntegrationTime::Ms25 => 115_200,
        IntegrationTime::Ms50 => 57_600,
        IntegrationTime::Ms100 => 28_800,
        IntegrationTime::Ms200 => 14_400,
        IntegrationTime::Ms400 => 7_200,
        IntegrationTime::Ms800 => 3_600,
    }
}

/// The factor that scales a count taken at `gain` to the reference gain 2.
pub open spec fn spec_gain_factor(gain: Gain) -> u64 {
    match gain {
        Gain::X2 => 1,
        Gain::X1 => 2,
        Gain::X1_4 => 8,
        Gain::X1_8 => 16,
    }
}

/// Whether `gain` is one of the two low gains, 1/4 and 1/8.
pub open spec fn spec_is_low_gain(gain: Gain) -> bool {
    gain == Gain::X1_4 || gain == Gain::X1_8
}

/// Illuminance of one count taken at `gain` with integration time `time`,
/// in microlux: the gain factor times the resolution.
pub open spec fn microlux_per_count(gain: Gain, time: IntegrationTime) -> nat {
    match gain {
        Gain::X2 => spec_resolution_microlux(time) as nat,
        Gain::X1 => 2 * spec_resolution_microlux(time) as nat,
        Gain::X1_4 => 8 * spec_resolution_microlux(time) as nat,
        Gain::X1_8 => 16 * spec_resolution_microlux(time) as nat,
    }
}

/// Illuminance in microlux by the linear formula: resolution times gain
/// factor times count.
pub open spec fn linear_microlux(gain: Gain, time: IntegrationTime, raw: u16) -> nat {
    microlux_per_count(gain, time) * (raw as nat)
}

/// Whether the high-illuminance correction applies to a linear value of
/// `microlux` taken at `gain`: only at a low gain, and only strictly above
/// 1000 lux. The photodiode leaves the linear range only where a low gain
/// lets it reach such illuminance, so the condition on the gain belongs to
/// the formula; a caller that wants the correction at every gain compares
/// the linear value with the threshold itself.
pub open spec fn spec_needs_correction(gain: Gain, microlux: u64) -> bool {
    spec_is_low_gain(gain) && microlux > CORRECTION_THRESHOLD_MICROLUX
}

/// What a raw count amounts to under the settings it was taken with.
#[derive(Clone, Copy, Debug, PartialEq, Eq, Structural)]
pub struct LuxReading {
    /// Illuminance by the linear formula, in microlux.
    pub linear_microlux: u64,
    /// Whether the high-illuminance correction is to be applied to it.
    pub needs_correction: bool,
}

impl LuxReading {
    /// The reading of a count of `raw` taken at `gain` with integration time
    /// `time`.
    pub open spec fn of(gain: Gain, time: IntegrationTime, raw: u16) -> LuxReading {
        LuxReading {
            linear_microlux: linear_microlux(gain, time, raw) as u64,
            needs_correction: spec_needs_correction(gain, linear_microlux(gain, time, raw) as u64),
        }
    }
}

/// The scale factors are the inverses of what they scale: the resolution
/// times the duration of the integration time is the same for every
/// integration time, the gain factor times the gain is the same for every
/// gain, and one count is worth the product of the two factors.
pub proof fn lemma_scale_factors(gain: Gain, time: IntegrationTime)
    ensures
        spec_resolution_microlux(time) * duration_ms(time) == RESOLUTION_MICROLUX * 100,
        spec_gain_factor(gain) * gain_eighths(gain) == 16,
        microlux_per_count(gain, time) == spec_gain_factor(gain) * spec_resolution_microlux(time),
        microlux_per_count(gain, time) <= 1_843_200,
{
    let factor = spec_gain_factor(gain);
    let resolution = spec_resolution_microlux(time);
    assert(factor * gain_eighths(gain) == 16) by {
        match gain {
            Gain::X2 => {},
            Gain::X1 => {},
            Gain::X1_4 => {},
            Gain::X1_8 => {},
        }
    }
    assert(microlux_per_count(gain, time) == factor * resolution) by (nonlinear_arith)
        requires
            factor == 1 && microlux_per_count(gain, time) == resolution || factor == 2
                && microlux_per_count(gain, time) == 2 * resolution || factor == 8
                && microlux_per_count(gain, time) == 8 * resolution || factor == 16
                && microlux_per_count(gain, time) == 16 * resolution,
    ;
}

/// The linear formula never leaves the range of the reading: the largest
/// value, at gain 1/8, 25 ms and a full count, is below 2^37 microlux.
pub proof fn lemma_linear_microlux_bound(gain: Gain, time: IntegrationTime, raw: u16)
    ensures
        linear_microlux(gain, time, raw) <= 1_843_200 * 65_535,
        LuxReading::of(gain, time, raw).linear_microlux == linear_microlux(gain, time, raw),
{
    lemma_scale_factors(gain, time);
    assert(microlux_per_count(gain, time) * (raw as nat) <= 1_843_200 * 65_535)
        by (nonlinear_arith)
        requires
            microlux_per_count(gain, time) <= 1_843_200,
            raw <= 65_535,
    ;
}

/// The reference case: at gain 1/4 and 100 ms one count is worth eight
/// times the resolution, 0.2304 lux, and counts up to 4340 stay at or below
/// 1000 lux and are read without correction.
pub proof fn lemma_reference_case(raw: u16)
    ensures
        linear_microlux(Gain::X1_4, IntegrationTime::Ms100, raw) == 8 * RESOLUTION_MICROLUX * raw,
        LuxReading::of(Gain::X1_4, IntegrationTime::Ms100, raw).needs_correction <==> raw > 4340,
{
    lemma_linear_microlux_bound(Gain::X1_4, IntegrationTime::Ms100, raw);
    assert(linear_microlux(Gain::X1_4, IntegrationTime::Ms100, raw) == 230_400 * raw);
}

/// At gain 1 and at gain 2 no count, however large, calls for the
/// high-illuminance correction.
pub proof fn lemma_no_correction_at_high_gain(gain: Gain, time: IntegrationTime, raw: u16)
    requires
        gain == Gain::X1 || gain == Gain::X2,
    ensures
        !LuxReading::of(gain, time, raw).needs_correction,
{
}

/// At a low gain the correction applies exactly to the counts whose linear
/// value is above 1000 lux.
pub proof fn lemma_correction_at_low_gain(gain: Gain, time: IntegrationTime, raw: u16)
    requires
        gain == Gain::X1_4 || gain == Gain::X1_8,
    ensures
        LuxReading::of(gain, time, raw).needs_correction <==> linear_microlux(gain, time, raw)
            > 1_000_000_000,
{
    lemma_linear_microlux_bound(gain, time, raw);
}

/// Looks up the illuminance of one count at gain 2 for an integration time.
#[verifier::when_used_as_spec(spec_resolution_microlux)]
pub fn resolution_microlux(time: IntegrationTime) -> (resolution: u64)
    ensures
        resolution == spec_resolution_microlux(time),
{
    match time {
        IntegrationTime::Ms25 => 4 * RESOLUTION_MICROLUX,
        IntegrationTime::Ms50 => 2 * RESOLUTION_MICROLUX,
        IntegrationTime::Ms100 => RESOLUTION_MICROLUX,
        IntegrationTime::Ms200 => RESOLUTION_MICROLUX / 2,
        IntegrationTime::Ms400 => RESOLUTION_MICROLUX / 4,
        IntegrationTime::Ms800 => RESOLUTION_MICROLUX / 8,
    }
}

/// Looks up the scale factor of a gain.
#[verifier::when_used_as_spec(spec_gain_factor)]
pub fn gain_factor(gain: Gain) -> (factor: u64)
    ensures
        factor == spec_gain_factor(gain),
{
    match gain {
        Gain::X2 => 1,
        Gain::X1 => 2,
        Gain::X1_4 => 8,
        Gain::X1_8 => 16,
    }
}

/// Tells whether a gain is one of the two low gains.
#[verifier::when_used_as_spec(spec_is_low_gain)]
pub fn is_low_gain(gain: Gain) -> (low: bool)
    ensures
        low == spec_is_low_gain(gain),
{
    match gain {
        Gain::X1_4 | Gain::X1_8 => true,
        _ => false,
    }
}

/// Tells whether the high-illuminance correction applies to a linear value
/// of `microlux` taken at `gain`.
#[verifier::when_used_as_spec(spec_needs_correction)]
pub fn needs_correction(gain: Gain, microlux: u64) -> (needed: bool)
    ensures
        needed == spec_needs_correction(gain, microlux),
{
    is_low_gain(gain) && microlux > CORRECTION_THRESHOLD_MICROLUX
}

/// Converts a raw count to illuminance under the given settings.
pub fn lux_reading(gain: Gain, time: IntegrationTime, raw: u16) -> (reading: LuxReading)
    ensures
        reading == LuxReading::of(gain, time, raw),
        reading.linear_microlux == linear_microlux(gain, time, raw),
{
    let resolution: u64 = resolution_microlux(time);
    let factor: u64 = gain_factor(gain);
    proof {
        lemma_scale_factors(gain, time);
        lemma_linear_microlux_bound(gain, time, raw);
    }
    let per_count: u64 = factor * resolution;
    let microlux: u64 = per_count * (raw as u64);
    LuxReading { linear_microlux: microlux, needs_correction: needs_correction(gain, microlux) }
}

} // verus!

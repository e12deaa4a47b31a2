use light_sensor::i2c::{Gain, IntegrationTime};
use light_sensor::lux::{
    gain_factor, is_low_gain, lux_reading, needs_correction, resolution_microlux, LuxReading,
    CORRECTION_THRESHOLD_MICROLUX, RESOLUTION_MICROLUX,
};

const TIMES: [IntegrationTime; 6] = [
    IntegrationTime::Ms25,
    IntegrationTime::Ms50,
    IntegrationTime::Ms100,
    IntegrationTime::Ms200,
    IntegrationTime::Ms400,
    IntegrationTime::Ms800,
];

fn lux(reading: LuxReading) -> f64 {
    reading.linear_microlux as f64 / 1.0e6
}

#[test]
fn resolution_by_integration_time() {
    assert_eq!(RESOLUTION_MICROLUX, 28_800);
    assert_eq!(resolution_microlux(IntegrationTime::Ms25), 115_200);
    assert_eq!(resolution_microlux(IntegrationTime::Ms50), 57_600);
    assert_eq!(resolution_microlux(IntegrationTime::Ms100), 28_800);
    assert_eq!(resolution_microlux(IntegrationTime::Ms200), 14_400);
    assert_eq!(resolution_microlux(IntegrationTime::Ms400), 7_200);
    assert_eq!(resolution_microlux(IntegrationTime::Ms800), 3_600);
}

#[test]
fn factor_by_gain() {
    assert_eq!(gain_factor(Gain::X2), 1);
    assert_eq!(gain_factor(Gain::X1), 2);
    assert_eq!(gain_factor(Gain::X1_4), 8);
    assert_eq!(gain_factor(Gain::X1_8), 16);
}

#[test]
fn low_gains() {
    assert!(is_low_gain(Gain::X1_4));
    assert!(is_low_gain(Gain::X1_8));
    assert!(!is_low_gain(Gain::X1));
    assert!(!is_low_gain(Gain::X2));
}

#[test]
fn reference_case_is_linear() {
    for raw in [0u16, 1, 100, 1000, 4340] {
        let reading = lux_reading(Gain::X1_4, IntegrationTime::Ms100, raw);
        assert_eq!(reading.linear_microlux, 230_400 * u64::from(raw));
        assert!(!reading.needs_correction);
        let expected = 0.0288 * 1.0 * 8.0 * f64::from(raw);
        assert!((lux(reading) - expected).abs() < 1.0e-9);
    }
    let reading = lux_reading(Gain::X1_4, IntegrationTime::Ms100, 1000);
    assert_eq!(reading, LuxReading { linear_microlux: 230_400_000, needs_correction: false });
}

#[test]
fn linear_formula_matches_the_factors() {
    let factors = [4.0, 2.0, 1.0, 0.5, 0.25, 0.125];
    let gains = [(Gain::X2, 1.0), (Gain::X1, 2.0), (Gain::X1_4, 8.0), (Gain::X1_8, 16.0)];
    for (time, time_factor) in TIMES.iter().zip(factors) {
        for (gain, gain_factor) in gains {
            for raw in [0u16, 1, 777, 65_535] {
                let reading = lux_reading(gain, *time, raw);
                let expected = 0.0288 * time_factor * gain_factor * f64::from(raw);
                assert!((lux(reading) - expected).abs() <= expected * 1.0e-12);
            }
        }
    }
}

#[test]
fn largest_reading() {
    let reading = lux_reading(Gain::X1_8, IntegrationTime::Ms25, 65_535);
    assert_eq!(reading.linear_microlux, 1_843_200 * 65_535);
    assert!(reading.needs_correction);
}

#[test]
fn correction_boundary_at_eighth_gain() {
    let below = lux_reading(Gain::X1_8, IntegrationTime::Ms100, 2170);
    assert_eq!(below.linear_microlux, 999_936_000);
    assert!(!below.needs_correction);
    let above = lux_reading(Gain::X1_8, IntegrationTime::Ms100, 2171);
    assert_eq!(above.linear_microlux, 1_000_396_800);
    assert!(above.needs_correction);
}

#[test]
fn correction_boundary_is_strict() {
    assert_eq!(CORRECTION_THRESHOLD_MICROLUX, 1_000_000_000);
    assert!(!needs_correction(Gain::X1_8, 1_000_000_000));
    assert!(needs_correction(Gain::X1_8, 1_000_000_001));
    assert!(!needs_correction(Gain::X1_4, 1_000_000_000));
    assert!(needs_correction(Gain::X1_4, 1_000_000_001));
    assert!(!needs_correction(Gain::X1_4, 0));
}

#[test]
fn no_correction_at_high_gain() {
    for gain in [Gain::X1, Gain::X2] {
        for time in TIMES {
            for raw in [0u16, 1, 30_000, 65_535] {
                assert!(!lux_reading(gain, time, raw).needs_correction);
            }
        }
        assert!(!needs_correction(gain, u64::MAX));
    }
    let bright = lux_reading(Gain::X1, IntegrationTime::Ms25, 65_535);
    assert!(bright.linear_microlux > CORRECTION_THRESHOLD_MICROLUX);
    assert!(!bright.needs_correction);
}

use mpu6886::config::{AccelBw, GyroBw};
use mpu6886::device::{AccelRange, GyroRange, CLKSEL};
use mpu6886::error::SensorError;

#[test]
fn clksel_round_trips_every_variant() {
    let all = [
        CLKSEL::OSCILL,
        CLKSEL::AUTOPLL1,
        CLKSEL::AUTOPLL2,
        CLKSEL::AUTOPLL3,
        CLKSEL::AUTOPLL4,
        CLKSEL::AUTOPLL5,
        CLKSEL::OSCILL6,
        CLKSEL::STOP,
    ];
    for &v in &all {
        assert_eq!(CLKSEL::from(v.encode()), v);
    }
}

#[test]
fn clksel_encodes_its_documented_patterns() {
    assert_eq!(CLKSEL::OSCILL.encode(), 0);
    assert_eq!(CLKSEL::AUTOPLL1.encode(), 1);
    assert_eq!(CLKSEL::OSCILL6.encode(), 6);
    assert_eq!(CLKSEL::STOP.encode(), 7);
}

#[test]
fn clksel_clamps_undefined_patterns_to_default() {
    assert_eq!(CLKSEL::from(8u8), CLKSEL::AUTOPLL1);
    assert_eq!(CLKSEL::from(255u8), CLKSEL::AUTOPLL1);
}

#[test]
fn accel_range_round_trips_every_variant() {
    let all = [AccelRange::G2, AccelRange::G4, AccelRange::G8, AccelRange::G16];
    for &v in &all {
        assert_eq!(AccelRange::from(v.encode()), v);
    }
}

#[test]
fn accel_range_clamps_undefined_patterns_to_default() {
    assert_eq!(AccelRange::from(4u8), AccelRange::G2);
    assert_eq!(AccelRange::from(200u8), AccelRange::G2);
}

#[test]
fn accel_range_sensitivities() {
    assert_eq!(AccelRange::G2.sensitivity(), 16384);
    assert_eq!(AccelRange::G4.sensitivity(), 8192);
    assert_eq!(AccelRange::G8.sensitivity(), 4096);
    assert_eq!(AccelRange::G16.sensitivity(), 2048);
}

#[test]
fn gyro_range_round_trips_every_variant() {
    let all = [GyroRange::D250, GyroRange::D500, GyroRange::D1000, GyroRange::D2000];
    for &v in &all {
        assert_eq!(GyroRange::from(v.encode()), v);
    }
}

#[test]
fn gyro_range_clamps_undefined_patterns_to_default() {
    assert_eq!(GyroRange::from(4u8), GyroRange::D250);
    assert_eq!(GyroRange::from(99u8), GyroRange::D250);
}

#[test]
fn gyro_range_sensitivity_tenths() {
    assert_eq!(GyroRange::D250.sensitivity_tenths(), 1310);
    assert_eq!(GyroRange::D500.sensitivity_tenths(), 655);
    assert_eq!(GyroRange::D1000.sensitivity_tenths(), 328);
    assert_eq!(GyroRange::D2000.sensitivity_tenths(), 164);
}

#[test]
fn accel_bw_round_trips_every_variant() {
    let all = [
        AccelBw::Hz1046,
        AccelBw::Hz218,
        AccelBw::Hz99,
        AccelBw::Hz45,
        AccelBw::Hz21,
        AccelBw::Hz10,
        AccelBw::Hz5,
        AccelBw::Hz420,
    ];
    for &v in &all {
        assert_eq!(AccelBw::try_from(v.bits()), Ok(v));
    }
}

#[test]
fn accel_bw_rejects_patterns_outside_the_table() {
    assert_eq!(AccelBw::try_from(0b0001u8), Err(SensorError::InvalidDiscriminant));
    assert_eq!(AccelBw::try_from(0b1001u8), Err(SensorError::InvalidDiscriminant));
    assert_eq!(AccelBw::try_from(0b1111u8), Err(SensorError::InvalidDiscriminant));
    assert_eq!(AccelBw::try_from(0xffu8), Err(SensorError::InvalidDiscriminant));
}

#[test]
fn accel_bw_default_is_the_power_on_value() {
    assert_eq!(AccelBw::default(), AccelBw::Hz218);
}

#[test]
fn gyro_bw_round_trips_every_variant() {
    let all = [
        GyroBw::Hz8173,
        GyroBw::Hz250,
        GyroBw::Hz176,
        GyroBw::Hz92,
        GyroBw::Hz41,
        GyroBw::Hz20,
        GyroBw::Hz10,
        GyroBw::Hz5,
        GyroBw::Hz3281,
    ];
    for &v in &all {
        assert_eq!(GyroBw::try_from(v.bits()), Ok(v));
    }
}

#[test]
fn gyro_bw_rejects_patterns_outside_the_table() {
    assert_eq!(GyroBw::try_from(0b01001u8), Err(SensorError::InvalidDiscriminant));
    assert_eq!(GyroBw::try_from(0b10000u8), Err(SensorError::InvalidDiscriminant));
    assert_eq!(GyroBw::try_from(0b11111u8), Err(SensorError::InvalidDiscriminant));
    assert_eq!(GyroBw::try_from(0xffu8), Err(SensorError::InvalidDiscriminant));
}

#[test]
fn gyro_bw_default_is_the_power_on_value() {
    assert_eq!(GyroBw::default(), GyroBw::Hz3281);
}

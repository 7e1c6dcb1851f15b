use mpu6886::bus::{MemBus, NoopDelay};
use mpu6886::config::{AccelBw, GyroBw};
use mpu6886::device::{
    AccelRange, GyroRange, ACCEL_CONFIG, ACCEL_CONFIG_2, ACC_REGX_H, CHIP_ID, CLKSEL, CONFIG,
    FIFO_EN, FIFO_R_W, GYRO_CONFIG, GYRO_REGX_H, INT_ENABLE, INT_PIN_CFG, INT_STATUS, MOT_DUR,
    MOT_THR, PWR_MGMT_1, TEMP_OUT_H, USER_CTRL, WHOAMI,
};
use mpu6886::error::{Mpu6886Error, SensorError};
use mpu6886::{read_word, FifoFrame, Mpu6886};

fn fresh_device() -> Mpu6886<MemBus> {
    let mut bus = MemBus::new();
    bus.poke(WHOAMI, CHIP_ID);
    Mpu6886::new(bus)
}

#[test]
fn init_succeeds_and_leaves_documented_defaults() {
    let mut dev = fresh_device();
    let mut delay = NoopDelay;
    dev.init(&mut delay).unwrap();
    assert_eq!(dev.get_accel_range().unwrap(), AccelRange::G2);
    assert_eq!(dev.get_gyro_range().unwrap(), GyroRange::D250);
    assert_eq!(dev.get_sleep_enabled().unwrap(), false);
    assert_eq!(dev.get_temp_enabled().unwrap(), true);
    assert_eq!(dev.get_clock_source().unwrap(), CLKSEL::AUTOPLL1);
    assert_eq!(dev.read_byte(PWR_MGMT_1::ADDR).unwrap(), 0x01);
}

#[test]
fn init_fails_with_the_actual_chip_id_byte() {
    let mut bus = MemBus::new();
    bus.poke(WHOAMI, 0x42);
    let mut dev = Mpu6886::new(bus);
    let mut delay = NoopDelay;
    let r = dev.init(&mut delay);
    assert!(matches!(r, Err(Mpu6886Error::InvalidChipId(0x42))));
}

#[test]
fn init_surfaces_a_bus_failure() {
    let mut bus = MemBus::new();
    bus.poke(WHOAMI, CHIP_ID);
    bus.set_failing(true);
    let mut dev = Mpu6886::new(bus);
    let mut delay = NoopDelay;
    let r = dev.init(&mut delay);
    assert!(matches!(r, Err(Mpu6886Error::I2c(_))));
}

#[test]
fn temp_enabled_round_trips_both_ways() {
    let mut dev = fresh_device();
    dev.set_temp_enabled(true).unwrap();
    assert_eq!(dev.get_temp_enabled().unwrap(), true);
    // the stored bit is inverted: enabled means the disable bit is clear
    assert_eq!(dev.read_byte(PWR_MGMT_1::ADDR).unwrap() & 0x08, 0x00);
    dev.set_temp_enabled(false).unwrap();
    assert_eq!(dev.get_temp_enabled().unwrap(), false);
    assert_eq!(dev.read_byte(PWR_MGMT_1::ADDR).unwrap() & 0x08, 0x08);
}

#[test]
fn sleep_round_trips_both_ways() {
    let mut dev = fresh_device();
    dev.set_sleep_enabled(true).unwrap();
    assert_eq!(dev.get_sleep_enabled().unwrap(), true);
    dev.set_sleep_enabled(false).unwrap();
    assert_eq!(dev.get_sleep_enabled().unwrap(), false);
}

#[test]
fn clock_source_round_trips_every_variant() {
    let mut dev = fresh_device();
    let all = [
        CLKSEL::AUTOPLL2,
        CLKSEL::AUTOPLL3,
        CLKSEL::OSCILL,
        CLKSEL::STOP,
        CLKSEL::AUTOPLL4,
        CLKSEL::AUTOPLL5,
        CLKSEL::OSCILL6,
        CLKSEL::AUTOPLL1,
    ];
    for &src in &all {
        dev.set_clock_source(src).unwrap();
        assert_eq!(dev.get_clock_source().unwrap(), src);
    }
}

#[test]
fn accel_range_set_then_get() {
    let mut dev = fresh_device();
    assert_eq!(dev.get_accel_range().unwrap(), AccelRange::G2);
    dev.set_accel_range(AccelRange::G4).unwrap();
    assert_eq!(dev.get_accel_range().unwrap(), AccelRange::G4);
    dev.set_accel_range(AccelRange::G16).unwrap();
    assert_eq!(dev.get_accel_range().unwrap(), AccelRange::G16);
}

#[test]
fn gyro_range_set_then_get() {
    let mut dev = fresh_device();
    assert_eq!(dev.get_gyro_range().unwrap(), GyroRange::D250);
    dev.set_gyro_range(GyroRange::D500).unwrap();
    assert_eq!(dev.get_gyro_range().unwrap(), GyroRange::D500);
    dev.set_gyro_range(GyroRange::D2000).unwrap();
    assert_eq!(dev.get_gyro_range().unwrap(), GyroRange::D2000);
}

#[test]
fn set_accel_range_touches_only_its_field() {
    let mut dev = fresh_device();
    dev.write_byte(ACCEL_CONFIG::ADDR, 0b1110_0111).unwrap();
    dev.set_accel_range(AccelRange::G16).unwrap();
    assert_eq!(dev.read_byte(ACCEL_CONFIG::ADDR).unwrap(), 0b1111_1111);
    dev.set_accel_range(AccelRange::G2).unwrap();
    assert_eq!(dev.read_byte(ACCEL_CONFIG::ADDR).unwrap(), 0b1110_0111);
}

#[test]
fn reset_device_sets_the_reset_bit() {
    let mut dev = fresh_device();
    let mut delay = NoopDelay;
    dev.reset_device(&mut delay).unwrap();
    assert_eq!(dev.read_byte(PWR_MGMT_1::ADDR).unwrap(), 0x80);
}

#[test]
fn self_tests_round_trip_on_every_axis() {
    let mut dev = fresh_device();
    dev.set_accel_x_self_test(true).unwrap();
    dev.set_accel_y_self_test(true).unwrap();
    dev.set_accel_z_self_test(true).unwrap();
    assert_eq!(dev.get_accel_x_self_test().unwrap(), true);
    assert_eq!(dev.get_accel_y_self_test().unwrap(), true);
    assert_eq!(dev.get_accel_z_self_test().unwrap(), true);
    assert_eq!(dev.read_byte(ACCEL_CONFIG::ADDR).unwrap(), 0b1110_0000);
    dev.set_accel_y_self_test(false).unwrap();
    assert_eq!(dev.get_accel_x_self_test().unwrap(), true);
    assert_eq!(dev.get_accel_y_self_test().unwrap(), false);
    assert_eq!(dev.get_accel_z_self_test().unwrap(), true);
}

#[test]
fn setup_motion_detection_writes_the_documented_sequence() {
    let mut dev = fresh_device();
    dev.setup_motion_detection().unwrap();
    assert_eq!(dev.read_byte(PWR_MGMT_1::ADDR).unwrap(), 0x00);
    assert_eq!(dev.read_byte(INT_PIN_CFG::ADDR).unwrap(), 0x20);
    assert_eq!(dev.read_byte(ACCEL_CONFIG::ADDR).unwrap(), 0x01);
    assert_eq!(dev.read_byte(MOT_THR).unwrap(), 10);
    assert_eq!(dev.read_byte(MOT_DUR).unwrap(), 40);
    assert_eq!(dev.read_byte(0x69).unwrap(), 0x15);
    assert_eq!(dev.read_byte(INT_ENABLE::ADDR).unwrap(), 0x40);
}

#[test]
fn motion_detected_tests_all_three_wake_on_motion_bits() {
    let mut dev = fresh_device();
    assert_eq!(dev.get_motion_detected().unwrap(), false);
    dev.write_byte(INT_STATUS::ADDR, 0x80).unwrap();
    assert_eq!(dev.get_motion_detected().unwrap(), true);
    dev.write_byte(INT_STATUS::ADDR, 0x40).unwrap();
    assert_eq!(dev.get_motion_detected().unwrap(), true);
    dev.write_byte(INT_STATUS::ADDR, 0x20).unwrap();
    assert_eq!(dev.get_motion_detected().unwrap(), true);
    dev.write_byte(INT_STATUS::ADDR, 0x10).unwrap();
    assert_eq!(dev.get_motion_detected().unwrap(), false);
}

#[test]
fn read_word_assembles_twos_complement() {
    assert_eq!(read_word(0x80, 0x00), -32768);
    assert_eq!(read_word(0x7f, 0xff), 32767);
    assert_eq!(read_word(0x00, 0x00), 0);
    assert_eq!(read_word(0xff, 0xff), -1);
    assert_eq!(read_word(0x01, 0x00), 256);
}

#[test]
fn acc_raw_and_milli_g_at_4g_range() {
    let mut dev = fresh_device();
    dev.set_accel_range(AccelRange::G4).unwrap();
    // raw x sample of one g at the ±4g divisor: 8192 LSB
    dev.write_byte(ACC_REGX_H, 0x20).unwrap();
    assert_eq!(dev.get_acc_raw().unwrap(), (8192, 0, 0));
    assert_eq!(dev.get_acc_milli_g().unwrap(), (1000, 0, 0));
}

#[test]
fn acc_milli_g_negative_sample() {
    let mut dev = fresh_device();
    dev.set_accel_range(AccelRange::G4).unwrap();
    // raw y sample of minus one g: -8192 LSB, big-endian 0xe000
    dev.write_byte(ACC_REGX_H.wrapping_add(2), 0xe0).unwrap();
    assert_eq!(dev.get_acc_raw().unwrap(), (0, -8192, 0));
    assert_eq!(dev.get_acc_milli_g().unwrap(), (0, -1000, 0));
}

#[test]
fn gyro_raw_and_milli_dps_at_500_range() {
    let mut dev = fresh_device();
    dev.set_gyro_range(GyroRange::D500).unwrap();
    // raw x sample of ten degrees per second at 65.5 LSB per unit: 655 LSB
    dev.write_byte(GYRO_REGX_H, 0x02).unwrap();
    dev.write_byte(GYRO_REGX_H.wrapping_add(1), 0x8f).unwrap();
    assert_eq!(dev.get_gyro_raw().unwrap(), (655, 0, 0));
    assert_eq!(dev.get_gyro_milli_dps().unwrap(), (10000, 0, 0));
}

#[test]
fn temp_raw_zero_reads_as_25_degrees() {
    let mut dev = fresh_device();
    assert_eq!(dev.get_temp_raw().unwrap(), 0);
    assert_eq!(dev.get_temp_milli_c().unwrap(), 25000);
}

#[test]
fn temp_scaling_is_exact_at_one_unit_of_sensitivity() {
    let mut dev = fresh_device();
    // raw 3268 counts is exactly ten degrees above the offset
    dev.write_byte(TEMP_OUT_H, 0x0c).unwrap();
    dev.write_byte(TEMP_OUT_H.wrapping_add(1), 0xc4).unwrap();
    assert_eq!(dev.get_temp_milli_c().unwrap(), 35000);
    // raw -3268 counts is exactly ten degrees below the offset
    dev.write_byte(TEMP_OUT_H, 0xf3).unwrap();
    dev.write_byte(TEMP_OUT_H.wrapping_add(1), 0x3c).unwrap();
    assert_eq!(dev.get_temp_milli_c().unwrap(), 15000);
}

#[test]
fn enable_fifo_sets_the_control_bits() {
    let mut dev = fresh_device();
    dev.enable_fifo(true, true).unwrap();
    assert_eq!(dev.read_byte(FIFO_EN).unwrap(), 0b0001_1000);
    assert_eq!(dev.read_byte(USER_CTRL).unwrap(), 0b0100_0101);
    let mut dev2 = fresh_device();
    dev2.enable_fifo(false, false).unwrap();
    assert_eq!(dev2.read_byte(FIFO_EN).unwrap(), 0x00);
    assert_eq!(dev2.read_byte(USER_CTRL).unwrap(), 0b0100_0101);
}

#[test]
fn read_fifo_fails_on_the_empty_sentinel() {
    let mut dev = fresh_device();
    dev.write_byte(FIFO_R_W, 0xff).unwrap();
    let r = dev.read_fifo_raw();
    assert!(matches!(r, Err(Mpu6886Error::SensorError(SensorError::NoFifoData))));
    let r2 = dev.read_fifo_milli();
    assert!(matches!(r2, Err(Mpu6886Error::SensorError(SensorError::NoFifoData))));
}

#[test]
fn read_fifo_decodes_a_full_frame() {
    let mut dev = fresh_device();
    dev.set_accel_range(AccelRange::G4).unwrap();
    dev.set_gyro_range(GyroRange::D500).unwrap();
    let frame: [u8; 14] = [
        0x20, 0x00, // accelerometer x: 8192
        0xe0, 0x00, // accelerometer y: -8192
        0x00, 0x00, // accelerometer z: 0
        0x0c, 0xc4, // temperature: 3268
        0x02, 0x8f, // gyroscope x: 655
        0x00, 0x00, // gyroscope y: 0
        0xfd, 0x71, // gyroscope z: -655
    ];
    for (i, &b) in frame.iter().enumerate() {
        dev.write_byte(FIFO_R_W.wrapping_add(i as u8), b).unwrap();
    }
    let raw = dev.read_fifo_raw().unwrap();
    assert_eq!(
        raw,
        FifoFrame { ax: 8192, ay: -8192, az: 0, temp: 3268, gx: 655, gy: 0, gz: -655 }
    );
    let milli = dev.read_fifo_milli().unwrap();
    assert_eq!(
        milli,
        FifoFrame { ax: 1000, ay: -1000, az: 0, temp: 35000, gx: 10000, gy: 0, gz: -10000 }
    );
}

#[test]
fn accel_bandwidth_getter_decodes_and_rejects() {
    let mut dev = fresh_device();
    dev.write_byte(ACCEL_CONFIG_2::ADDR, 0b0000_0011).unwrap();
    assert_eq!(dev.get_accel_bandwith().unwrap(), AccelBw::Hz45);
    dev.write_byte(ACCEL_CONFIG_2::ADDR, 0b0000_1001).unwrap();
    let r = dev.get_accel_bandwith();
    assert!(matches!(r, Err(Mpu6886Error::SensorError(SensorError::InvalidDiscriminant))));
}

#[test]
fn gyro_bandwidth_getter_combines_both_registers() {
    let mut dev = fresh_device();
    dev.write_byte(CONFIG::ADDR, 0x01).unwrap();
    dev.write_byte(GYRO_CONFIG::ADDR, 0x00).unwrap();
    assert_eq!(dev.get_gyro_bandwith().unwrap(), GyroBw::Hz176);
    // filter bypass bit set in the second register selects the bypass option
    dev.write_byte(CONFIG::ADDR, 0x00).unwrap();
    dev.write_byte(GYRO_CONFIG::ADDR, 0x01).unwrap();
    assert_eq!(dev.get_gyro_bandwith().unwrap(), GyroBw::Hz8173);
    // an undefined combined pattern is rejected, never clamped
    dev.write_byte(GYRO_CONFIG::ADDR, 0x02).unwrap();
    let r = dev.get_gyro_bandwith();
    assert!(matches!(r, Err(Mpu6886Error::SensorError(SensorError::InvalidDiscriminant))));
}

#[test]
fn set_accel_bw_writes_the_selector_byte() {
    let mut dev = fresh_device();
    dev.set_accel_bw(AccelBw::Hz99).unwrap();
    assert_eq!(dev.read_byte(CONFIG::ADDR).unwrap(), 0b0010);
    assert_eq!(dev.read_byte(GYRO_CONFIG::ADDR).unwrap(), 0b0010);
}

#[test]
fn set_gyro_bw_is_a_preserved_stub() {
    let mut dev = fresh_device();
    dev.write_byte(CONFIG::ADDR, 0x55).unwrap();
    dev.write_byte(GYRO_CONFIG::ADDR, 0xaa).unwrap();
    dev.set_gyro_bw(GyroBw::Hz92).unwrap();
    assert_eq!(dev.read_byte(CONFIG::ADDR).unwrap(), 0x55);
    assert_eq!(dev.read_byte(GYRO_CONFIG::ADDR).unwrap(), 0xaa);
}

#[test]
fn bus_failures_surface_as_i2c_errors() {
    let mut bus = MemBus::new();
    bus.set_failing(true);
    let mut dev = Mpu6886::new(bus);
    assert!(matches!(dev.write_byte(0x10, 1), Err(Mpu6886Error::I2c(_))));
    assert!(matches!(dev.read_byte(0x10), Err(Mpu6886Error::I2c(_))));
    assert!(matches!(dev.get_temp_enabled(), Err(Mpu6886Error::I2c(_))));
    assert!(matches!(dev.read_fifo_raw(), Err(Mpu6886Error::I2c(_))));
}

#[test]
fn constructor_with_sensitivities_seeds_the_conversion_cache() {
    let mut bus = MemBus::new();
    bus.poke(ACC_REGX_H, 0x20);
    let mut dev = Mpu6886::new_with_sens(bus, AccelRange::G4, GyroRange::D500);
    assert_eq!(dev.get_acc_milli_g().unwrap(), (1000, 0, 0));
}

#[test]
fn constructor_with_address_still_operates() {
    let bus = MemBus::new();
    let mut dev = Mpu6886::new_with_addr(bus, 0x69);
    dev.set_sleep_enabled(true).unwrap();
    assert_eq!(dev.get_sleep_enabled().unwrap(), true);
}

#[test]
fn bit_field_transactions_compose() {
    let mut dev = fresh_device();
    dev.write_bits(0x10, 2, 3, 0b101).unwrap();
    assert_eq!(dev.read_byte(0x10).unwrap(), 0b0001_0100);
    assert_eq!(dev.read_bits(0x10, 2, 3).unwrap(), 0b101);
    dev.write_bit(0x10, 0, true).unwrap();
    assert_eq!(dev.read_byte(0x10).unwrap(), 0b0001_0101);
}

#[test]
fn read_bytes_returns_consecutive_registers() {
    let mut dev = fresh_device();
    dev.write_byte(0x30, 1).unwrap();
    dev.write_byte(0x31, 2).unwrap();
    dev.write_byte(0x32, 3).unwrap();
    dev.write_byte(0x33, 4).unwrap();
    assert_eq!(dev.read_bytes(0x30, 4).unwrap(), vec![1, 2, 3, 4]);
}

//! Driver core for a 6-axis inertial measurement chip (3-axis gyroscope,
//! 3-axis accelerometer, temperature sensor) addressed over a byte-oriented
//! register bus.
//!
//! The crate translates high-level operations (select a full-scale range,
//! read a sample, enable motion detection) into correctly addressed,
//! correctly masked register transactions, and decodes raw register bytes
//! back into typed configuration values and signed sample words.
//!
//! The transport itself is a capability the caller supplies: an
//! implementation of [`bus::Bus`] carries the byte transactions, and an
//! implementation of [`bus::DelayMs`] blocks during power-up settling.
//! Scaling of raw counts into floating-point physical units is left to the
//! embedding application; the driver returns raw counts and exact
//! fixed-point milli-unit values.

use vstd::prelude::*;

pub mod bits;
pub mod bus;
pub mod config;
pub mod device;
pub mod error;

use crate::bits::{
    get_bit, get_bits, set_bit, set_bits, spec_get_bit, spec_get_bits, spec_set_bit, spec_set_bits,
};
use crate::bus::{Bus, DelayMs};
use crate::config::{AccelBw, GyroBw};
use crate::device::{
    AccelRange, GyroRange, ACC_REGX_H, CLKSEL, ACCEL_CONFIG, ACCEL_CONFIG_2, CONFIG,
    DEFAULT_SLAVE_ADDR, FIFO_EN, FIFO_R_W, GYRO_CONFIG, GYRO_REGX_H, INT_ENABLE, INT_PIN_CFG,
    INT_STATUS, MOT_DUR, MOT_THR, PWR_MGMT_1, TEMP_OFFSET_MILLI_C, TEMP_OUT_H,
    TEMP_SENSITIVITY_TENTHS, USER_CTRL, WHOAMI, CHIP_ID,
};
use crate::error::{Mpu6886Error, SensorError};

verus! {

/// The register image after a read-modify-write of the field that starts
/// at bit `start` of the register at `reg`.
pub open spec fn spec_rmw_bits(regs: Seq<u8>, reg: u8, start: u8, len: u8, value: u8) -> Seq<u8> {
    regs.update(reg as int, spec_set_bits(regs[reg as int], start, len, value))
}

/// The register image after a read-modify-write of bit `n` of the
/// register at `reg`.
pub open spec fn spec_rmw_bit(regs: Seq<u8>, reg: u8, n: u8, value: bool) -> Seq<u8> {
    regs.update(reg as int, spec_set_bit(regs[reg as int], n, value))
}

/// The signed 16-bit sample encoded big-endian in two register bytes
/// (high byte first), as a mathematical integer in -32768..=32767.
pub open spec fn spec_read_word(high: u8, low: u8) -> int {
    if high >= 0x80 {
        (high as int) * 256 + (low as int) - 0x10000
    } else {
        (high as int) * 256 + (low as int)
    }
}

/// A raw count scaled by `num / den` in exact integer arithmetic,
/// truncated toward zero.
pub open spec fn spec_scale(raw: int, num: int, den: int) -> int {
    if raw >= 0 {
        raw * num / den
    } else {
        -((-raw) * num / den)
    }
}

/// Handles all operations on the chip: lifecycle, configuration, and the
/// sensor read pipeline. It owns the bus capability and caches the
/// full-scale ranges set last, from which the conversion divisors derive.
pub struct Mpu6886<B: Bus> {
    bus: B,
    slave_addr: u8,
    arange: AccelRange,
    grange: GyroRange,
}

impl<B: Bus> Mpu6886<B> {
    /// The image of the device's registers as seen through the bus.
    pub closed spec fn regs(&self) -> Seq<u8> {
        self.bus.regs()
    }

    /// The bus address this driver talks to.
    pub closed spec fn addr(&self) -> u8 {
        self.slave_addr
    }

    /// The accelerometer range set last, from which the cached
    /// accelerometer sensitivity divisor derives.
    pub closed spec fn arange(&self) -> AccelRange {
        self.arange
    }

    /// The gyroscope range set last, from which the cached gyroscope
    /// sensitivity divisor derives.
    pub closed spec fn grange(&self) -> GyroRange {
        self.grange
    }

    /// The driver is usable: its register image is a full address space.
    pub closed spec fn wf(&self) -> bool {
        self.bus.regs().len() == 256
    }

    /// The bus address and the cached ranges of `post` are those of `pre`.
    pub closed spec fn config_kept(pre: Self, post: Self) -> bool {
        &&& post.slave_addr == pre.slave_addr
        &&& post.arange == pre.arange
        &&& post.grange == pre.grange
    }

    /// Side-effect-free constructor with the default bus address and the
    /// default ranges (±2g, ±250 degrees per second: the highest
    /// sensitivity divisors).
    pub fn new(bus: B) -> (r: Mpu6886<B>)
        requires
            bus.regs().len() == 256,
        ensures
            r.wf(),
            r.regs() == bus.regs(),
            r.addr() == DEFAULT_SLAVE_ADDR,
            r.arange() == AccelRange::G2,
            r.grange() == GyroRange::D250,
    {
        Mpu6886 {
            bus,
            slave_addr: DEFAULT_SLAVE_ADDR,
            arange: AccelRange::G2,
            grange: GyroRange::D250,
        }
    }

    /// Constructor with custom initial ranges for the cached
    /// sensitivities, no calibration.
    pub fn new_with_sens(bus: B, arange: AccelRange, grange: GyroRange) -> (r: Mpu6886<B>)
        requires
            bus.regs().len() == 256,
        ensures
            r.wf(),
            r.regs() == bus.regs(),
            r.addr() == DEFAULT_SLAVE_ADDR,
            r.arange() == arange,
            r.grange() == grange,
    {
        Mpu6886 { bus, slave_addr: DEFAULT_SLAVE_ADDR, arange, grange }
    }

    /// Same as `new`, but the chip address can be specified (0x69 when
    /// the address pin is pulled up).
    pub fn new_with_addr(bus: B, slave_addr: u8) -> (r: Mpu6886<B>)
        requires
            bus.regs().len() == 256,
        ensures
            r.wf(),
            r.regs() == bus.regs(),
            r.addr() == slave_addr,
            r.arange() == AccelRange::G2,
            r.grange() == GyroRange::D250,
    {
        Mpu6886 { bus, slave_addr, arange: AccelRange::G2, grange: GyroRange::D250 }
    }

    /// Combination of `new_with_sens` and `new_with_addr`.
    pub fn new_with_addr_and_sens(
        bus: B,
        slave_addr: u8,
        arange: AccelRange,
        grange: GyroRange,
    ) -> (r: Mpu6886<B>)
        requires
            bus.regs().len() == 256,
        ensures
            r.wf(),
            r.regs() == bus.regs(),
            r.addr() == slave_addr,
            r.arange() == arange,
            r.grange() == grange,
    {
        Mpu6886 { bus, slave_addr, arange, grange }
    }

    /// The accelerometer range the conversion cache currently derives
    /// from: the range set last, or the constructor's.
    pub fn cached_accel_range(&self) -> (r: AccelRange)
        ensures
            r == self.arange(),
    {
        self.arange
    }

    /// The gyroscope range the conversion cache currently derives from:
    /// the range set last, or the constructor's.
    pub fn cached_gyro_range(&self) -> (r: GyroRange)
        ensures
            r == self.grange(),
    {
        self.grange
    }

    /// Write one byte to a register: a single two-byte bus transaction,
    /// the register address followed by the data byte.
    pub fn write_byte(&mut self, reg: u8, byte: u8) -> (r: Result<(), Mpu6886Error<B::BusErr>>)
        requires
            old(self).wf(),
        ensures
            final(self).wf(),
            Self::config_kept(*old(self), *final(self)),
            r is Ok ==> final(self).regs() == old(self).regs().update(reg as int, byte),
            r is Err ==> final(self).regs() == old(self).regs(),
            r matches Err(e) ==> e is I2c,
    {
        match self.bus.write_reg(self.slave_addr, reg, byte) {
            Ok(()) => Ok(()),
            Err(e) => Err(Mpu6886Error::I2c(e)),
        }
    }

    /// Read one byte from a register: a one-byte request transaction
    /// followed by a one-byte read.
    pub fn read_byte(&mut self, reg: u8) -> (r: Result<u8, Mpu6886Error<B::BusErr>>)
        requires
            old(self).wf(),
        ensures
            final(self).wf(),
            Self::config_kept(*old(self), *final(self)),
            final(self).regs() == old(self).regs(),
            r matches Ok(b) ==> b == old(self).regs()[reg as int],
            r matches Err(e) ==> e is I2c,
    {
        match self.bus.read_regs(self.slave_addr, reg, 1) {
            Ok(buf) => Ok(buf[0]),
            Err(e) => Err(Mpu6886Error::I2c(e)),
        }
    }

    /// Read `len` consecutive register bytes starting at `reg`; used for
    /// multi-byte sequential reads (sensor data blocks, FIFO bursts).
    pub fn read_bytes(&mut self, reg: u8, len: usize) -> (r: Result<
        Vec<u8>,
        Mpu6886Error<B::BusErr>,
    >)
        requires
            old(self).wf(),
            reg as int + len as int <= 256,
        ensures
            final(self).wf(),
            Self::config_kept(*old(self), *final(self)),
            final(self).regs() == old(self).regs(),
            r matches Ok(buf) ==> buf@ == old(self).regs().subrange(
                reg as int,
                reg as int + len as int,
            ),
            r matches Err(e) ==> e is I2c,
    {
        match self.bus.read_regs(self.slave_addr, reg, len) {
            Ok(buf) => Ok(buf),
            Err(e) => Err(Mpu6886Error::I2c(e)),
        }
    }

    /// Read bit `bit_n` of a register, as 0 or 1.
    fn read_bit(&mut self, reg: u8, bit_n: u8) -> (r: Result<u8, Mpu6886Error<B::BusErr>>)
        requires
            old(self).wf(),
            bit_n < 8,
        ensures
            final(self).wf(),
            Self::config_kept(*old(self), *final(self)),
            final(self).regs() == old(self).regs(),
            r matches Ok(b) ==> b == spec_get_bit(old(self).regs()[reg as int], bit_n) && (b == 0
                || b == 1),
            r matches Err(e) ==> e is I2c,
    {
        match self.read_byte(reg) {
            Ok(byte) => Ok(get_bit(byte, bit_n)),
            Err(e) => Err(e),
        }
    }

    /// Read the field of `length` bits starting at bit `start_bit` of a
    /// register, right-aligned in the result.
    pub fn read_bits(&mut self, reg: u8, start_bit: u8, length: u8) -> (r: Result<
        u8,
        Mpu6886Error<B::BusErr>,
    >)
        requires
            old(self).wf(),
            1 <= length,
            start_bit + length <= 8,
        ensures
            final(self).wf(),
            Self::config_kept(*old(self), *final(self)),
            final(self).regs() == old(self).regs(),
            r matches Ok(v) ==> v == spec_get_bits(old(self).regs()[reg as int], start_bit, length)
                && (v as u16) < (1u16 << length),
            r matches Err(e) ==> e is I2c,
    {
        match self.read_byte(reg) {
            Ok(byte) => Ok(get_bits(byte, start_bit, length)),
            Err(e) => Err(e),
        }
    }

    /// Set or clear one bit of a register by read-modify-write: two
    /// sequential bus transactions, not atomic.
    pub fn write_bit(&mut self, reg: u8, bit_n: u8, enable: bool) -> (r: Result<
        (),
        Mpu6886Error<B::BusErr>,
    >)
        requires
            old(self).wf(),
            bit_n < 8,
        ensures
            final(self).wf(),
            Self::config_kept(*old(self), *final(self)),
            r is Ok ==> final(self).regs() == spec_rmw_bit(old(self).regs(), reg, bit_n, enable),
            r is Err ==> final(self).regs() == old(self).regs(),
            r matches Err(e) ==> e is I2c,
    {
        match self.read_byte(reg) {
            Ok(byte) => {
                let mut b = byte;
                set_bit(&mut b, bit_n, enable);
                self.write_byte(reg, b)
            },
            Err(e) => Err(e),
        }
    }

    /// Write a value into the field of `length` bits starting at bit
    /// `start_bit` of a register by read-modify-write: two sequential bus
    /// transactions, not atomic. Value bits above the field width are
    /// masked off.
    pub fn write_bits(&mut self, reg: u8, start_bit: u8, length: u8, data: u8) -> (r: Result<
        (),
        Mpu6886Error<B::BusErr>,
    >)
        requires
            old(self).wf(),
            1 <= length,
            start_bit + length <= 8,
        ensures
            final(self).wf(),
            Self::config_kept(*old(self), *final(self)),
            r is Ok ==> final(self).regs() == spec_rmw_bits(
                old(self).regs(),
                reg,
                start_bit,
                length,
                data,
            ),
            r is Err ==> final(self).regs() == old(self).regs(),
            r matches Err(e) ==> e is I2c,
    {
        match self.read_byte(reg) {
            Ok(byte) => {
                let mut b = byte;
                set_bits(&mut b, start_bit, length, data);
                self.write_byte(reg, b)
            },
            Err(e) => Err(e),
        }
    }
}

/// The combined gyroscope bandwidth selector read from two registers:
/// the three low pass filter configuration bits of the configuration
/// register, plus the two filter bypass bits shifted above them.
pub open spec fn spec_gyro_bw_sel(regs: Seq<u8>) -> u8 {
    spec_get_bits(regs[CONFIG::ADDR as int], 0, 3) | (spec_get_bits(
        regs[GYRO_CONFIG::ADDR as int],
        0,
        2,
    ) << 3)
}

impl<B: Bus> Mpu6886<B> {
    /// Select the clock source, writing its pattern into the clock
    /// select field of power management 1.
    pub fn set_clock_source(&mut self, source: CLKSEL) -> (r: Result<(), Mpu6886Error<B::BusErr>>)
        requires
            old(self).wf(),
        ensures
            final(self).wf(),
            Self::config_kept(*old(self), *final(self)),
            r is Ok ==> final(self).regs() == spec_rmw_bits(
                old(self).regs(),
                PWR_MGMT_1::ADDR,
                0,
                3,
                source.encode(),
            ),
            r is Err ==> final(self).regs() == old(self).regs(),
            r matches Err(e) ==> e is I2c,
    {
        let f = PWR_MGMT_1::clksel();
        self.write_bits(PWR_MGMT_1::ADDR, f.bit, f.length, source.encode())
    }

    /// Read the current clock source. Decoding is total, so this cannot
    /// fail on the pattern.
    pub fn get_clock_source(&mut self) -> (r: Result<CLKSEL, Mpu6886Error<B::BusErr>>)
        requires
            old(self).wf(),
        ensures
            final(self).wf(),
            Self::config_kept(*old(self), *final(self)),
            final(self).regs() == old(self).regs(),
            r matches Ok(src) ==> src == CLKSEL::spec_from(
                spec_get_bits(old(self).regs()[PWR_MGMT_1::ADDR as int], 0, 3),
            ),
            r matches Err(e) ==> e is I2c,
    {
        let f = PWR_MGMT_1::clksel();
        match self.read_bits(PWR_MGMT_1::ADDR, f.bit, f.length) {
            Ok(source) => Ok(CLKSEL::from(source)),
            Err(e) => Err(e),
        }
    }

    /// Wake the chip: clear the sleep bit and select the gyroscope PLL
    /// clock reference in one byte, then block for the 100 ms settle
    /// time through the delay capability.
    fn wake<D: DelayMs>(&mut self, delay: &mut D) -> (r: Result<(), Mpu6886Error<B::BusErr>>)
        requires
            old(self).wf(),
        ensures
            final(self).wf(),
            Self::config_kept(*old(self), *final(self)),
            r is Ok ==> final(self).regs() == old(self).regs().update(
                PWR_MGMT_1::ADDR as int,
                0x01,
            ),
            r is Err ==> final(self).regs() == old(self).regs(),
            r matches Err(e) ==> e is I2c,
    {
        match self.write_byte(PWR_MGMT_1::ADDR, 0x01) {
            Ok(()) => {
                delay.delay_ms(100);
                Ok(())
            },
            Err(e) => Err(e),
        }
    }

    /// Check the identity register: succeeds exactly when it holds the
    /// chip identity constant; any other byte is surfaced in the error.
    fn verify(&mut self) -> (r: Result<(), Mpu6886Error<B::BusErr>>)
        requires
            old(self).wf(),
        ensures
            final(self).wf(),
            Self::config_kept(*old(self), *final(self)),
            final(self).regs() == old(self).regs(),
            r is Ok ==> old(self).regs()[WHOAMI as int] == CHIP_ID,
            r matches Err(Mpu6886Error::InvalidChipId(b)) ==> b == old(self).regs()[WHOAMI as int]
                && b != CHIP_ID,
            r matches Err(e) ==> e is I2c || e is InvalidChipId,
    {
        let chip_type = match self.read_byte(WHOAMI) {
            Ok(b) => b,
            Err(e) => { return Err(e) },
        };
        if chip_type != CHIP_ID {
            return Err(Mpu6886Error::InvalidChipId(chip_type));
        }
        Ok(())
    }

    /// Wake the chip, check its identity, and set the default ranges
    /// (±2g, ±250 degrees per second). Fails fast on the first failing
    /// step, without rollback.
    pub fn init<D: DelayMs>(&mut self, delay: &mut D) -> (r: Result<(), Mpu6886Error<B::BusErr>>)
        requires
            old(self).wf(),
        ensures
            final(self).wf(),
            final(self).addr() == old(self).addr(),
            r is Ok ==> {
                &&& old(self).regs()[WHOAMI as int] == CHIP_ID
                &&& final(self).regs() == spec_rmw_bits(
                    spec_rmw_bits(
                        old(self).regs().update(PWR_MGMT_1::ADDR as int, 0x01),
                        ACCEL_CONFIG::ADDR,
                        3,
                        2,
                        0,
                    ),
                    GYRO_CONFIG::ADDR,
                    3,
                    2,
                    0,
                )
                &&& final(self).arange() == AccelRange::G2
                &&& final(self).grange() == GyroRange::D250
            },
            r matches Err(Mpu6886Error::InvalidChipId(b)) ==> b == old(self).regs()[WHOAMI as int]
                && b != CHIP_ID,
            r matches Err(e) ==> !(e is SensorError),
    {
        match self.wake(delay) {
            Ok(()) => (),
            Err(e) => { return Err(e) },
        }
        match self.verify() {
            Ok(()) => (),
            Err(e) => { return Err(e) },
        }
        match self.set_accel_range(AccelRange::G2) {
            Ok(()) => (),
            Err(e) => { return Err(e) },
        }
        match self.set_gyro_range(GyroRange::D250) {
            Ok(()) => (),
            Err(e) => { return Err(e) },
        }
        Ok(())
    }

    /// Configure wake-on-motion detection: interrupt pin behaviour,
    /// digital high-pass filter, motion threshold and duration, detection
    /// decrements, and the wake-on-motion interrupt enable, as one
    /// committed sequence of register writes. A mid-sequence bus failure
    /// leaves the device partially configured; nothing is rolled back.
    pub fn setup_motion_detection(&mut self) -> (r: Result<(), Mpu6886Error<B::BusErr>>)
        requires
            old(self).wf(),
        ensures
            final(self).wf(),
            Self::config_kept(*old(self), *final(self)),
            r is Ok ==> final(self).regs() == old(self).regs().update(
                PWR_MGMT_1::ADDR as int,
                0x00,
            ).update(INT_PIN_CFG::ADDR as int, 0x20).update(ACCEL_CONFIG::ADDR as int, 0x01).update(
                MOT_THR as int,
                10,
            ).update(MOT_DUR as int, 40).update(0x69, 0x15).update(INT_ENABLE::ADDR as int, 0x40),
            r matches Err(e) ==> e is I2c,
    {
        match self.write_byte(PWR_MGMT_1::ADDR, 0x00) {
            Ok(()) => (),
            Err(e) => { return Err(e) },
        }
        // active high, push-pull interrupt pin, held until status is read
        match self.write_byte(INT_PIN_CFG::ADDR, 0x20) {
            Ok(()) => (),
            Err(e) => { return Err(e) },
        }
        // digital high pass filter at 5 Hz
        match self.write_byte(ACCEL_CONFIG::ADDR, 0x01) {
            Ok(()) => (),
            Err(e) => { return Err(e) },
        }
        // motion threshold, in LSB
        match self.write_byte(MOT_THR, 10) {
            Ok(()) => (),
            Err(e) => { return Err(e) },
        }
        // motion detect duration; one LSB is 1 ms at the 1 kHz rate
        match self.write_byte(MOT_DUR, 40) {
            Ok(()) => (),
            Err(e) => { return Err(e) },
        }
        // motion detection decrements and accelerometer start-up delay
        match self.write_byte(0x69, 0x15) {
            Ok(()) => (),
            Err(e) => { return Err(e) },
        }
        // enable the wake-on-motion interrupt
        match self.write_byte(INT_ENABLE::ADDR, 0x40) {
            Ok(()) => (),
            Err(e) => { return Err(e) },
        }
        Ok(())
    }

    /// Whether any of the three wake-on-motion interrupt bits is set in
    /// the interrupt status register. On the physical device the latched
    /// bits clear when that register is read: a side effect of the read
    /// itself, outside the register-image model.
    pub fn get_motion_detected(&mut self) -> (r: Result<bool, Mpu6886Error<B::BusErr>>)
        requires
            old(self).wf(),
        ensures
            final(self).wf(),
            Self::config_kept(*old(self), *final(self)),
            final(self).regs() == old(self).regs(),
            r matches Ok(b) ==> b == {
                ||| spec_get_bit(old(self).regs()[INT_STATUS::ADDR as int], INT_STATUS::WOM_X_INT)
                    == 1
                ||| spec_get_bit(old(self).regs()[INT_STATUS::ADDR as int], INT_STATUS::WOM_Y_INT)
                    == 1
                ||| spec_get_bit(old(self).regs()[INT_STATUS::ADDR as int], INT_STATUS::WOM_Z_INT)
                    == 1
            },
            r matches Err(e) ==> e is I2c,
    {
        match self.read_byte(INT_STATUS::ADDR) {
            Ok(byte) => Ok(
                get_bit(byte, INT_STATUS::WOM_X_INT) == 1 || get_bit(byte, INT_STATUS::WOM_Y_INT)
                    == 1 || get_bit(byte, INT_STATUS::WOM_Z_INT) == 1,
            ),
            Err(e) => Err(e),
        }
    }

    /// Set the gyroscope full-scale range and update the cached
    /// sensitivity divisor with it; the cache changes exactly when the
    /// register write succeeds.
    pub fn set_gyro_range(&mut self, range: GyroRange) -> (r: Result<(), Mpu6886Error<B::BusErr>>)
        requires
            old(self).wf(),
        ensures
            final(self).wf(),
            final(self).addr() == old(self).addr(),
            final(self).arange() == old(self).arange(),
            r is Ok ==> final(self).regs() == spec_rmw_bits(
                old(self).regs(),
                GYRO_CONFIG::ADDR,
                3,
                2,
                range.encode(),
            ) && final(self).grange() == range,
            r is Err ==> final(self).regs() == old(self).regs() && final(self).grange() == old(
                self,
            ).grange(),
            r matches Err(e) ==> e is I2c,
    {
        let f = GYRO_CONFIG::fs_sel();
        match self.write_bits(GYRO_CONFIG::ADDR, f.bit, f.length, range.encode()) {
            Ok(()) => {
                self.grange = range;
                Ok(())
            },
            Err(e) => Err(e),
        }
    }

    /// Read the gyroscope full-scale range currently configured in the
    /// device. Decoding is total, so this cannot fail on the pattern.
    pub fn get_gyro_range(&mut self) -> (r: Result<GyroRange, Mpu6886Error<B::BusErr>>)
        requires
            old(self).wf(),
        ensures
            final(self).wf(),
            Self::config_kept(*old(self), *final(self)),
            final(self).regs() == old(self).regs(),
            r matches Ok(rg) ==> rg == GyroRange::spec_from(
                spec_get_bits(old(self).regs()[GYRO_CONFIG::ADDR as int], 3, 2),
            ),
            r matches Err(e) ==> e is I2c,
    {
        let f = GYRO_CONFIG::fs_sel();
        match self.read_bits(GYRO_CONFIG::ADDR, f.bit, f.length) {
            Ok(byte) => Ok(GyroRange::from(byte)),
            Err(e) => Err(e),
        }
    }

    /// Set the accelerometer full-scale range and update the cached
    /// sensitivity divisor with it; the cache changes exactly when the
    /// register write succeeds.
    pub fn set_accel_range(&mut self, range: AccelRange) -> (r: Result<
        (),
        Mpu6886Error<B::BusErr>,
    >)
        requires
            old(self).wf(),
        ensures
            final(self).wf(),
            final(self).addr() == old(self).addr(),
            final(self).grange() == old(self).grange(),
            r is Ok ==> final(self).regs() == spec_rmw_bits(
                old(self).regs(),
                ACCEL_CONFIG::ADDR,
                3,
                2,
                range.encode(),
            ) && final(self).arange() == range,
            r is Err ==> final(self).regs() == old(self).regs() && final(self).arange() == old(
                self,
            ).arange(),
            r matches Err(e) ==> e is I2c,
    {
        let f = ACCEL_CONFIG::fs_sel();
        match self.write_bits(ACCEL_CONFIG::ADDR, f.bit, f.length, range.encode()) {
            Ok(()) => {
                self.arange = range;
                Ok(())
            },
            Err(e) => Err(e),
        }
    }

    /// Read the accelerometer full-scale range currently configured in
    /// the device. Decoding is total, so this cannot fail on the pattern.
    pub fn get_accel_range(&mut self) -> (r: Result<AccelRange, Mpu6886Error<B::BusErr>>)
        requires
            old(self).wf(),
        ensures
            final(self).wf(),
            Self::config_kept(*old(self), *final(self)),
            final(self).regs() == old(self).regs(),
            r matches Ok(rg) ==> rg == AccelRange::spec_from(
                spec_get_bits(old(self).regs()[ACCEL_CONFIG::ADDR as int], 3, 2),
            ),
            r matches Err(e) ==> e is I2c,
    {
        let f = ACCEL_CONFIG::fs_sel();
        match self.read_bits(ACCEL_CONFIG::ADDR, f.bit, f.length) {
            Ok(byte) => Ok(AccelRange::from(byte)),
            Err(e) => Err(e),
        }
    }

    /// Reset the device: set the reset bit and block for the 100 ms
    /// settle time. On the physical chip this returns every register to
    /// its power-on default and re-enables sleep, so the caller must
    /// initialise again before continued operation; the register-image
    /// model tracks only the written bit.
    pub fn reset_device<D: DelayMs>(&mut self, delay: &mut D) -> (r: Result<
        (),
        Mpu6886Error<B::BusErr>,
    >)
        requires
            old(self).wf(),
        ensures
            final(self).wf(),
            Self::config_kept(*old(self), *final(self)),
            r is Ok ==> final(self).regs() == spec_rmw_bit(
                old(self).regs(),
                PWR_MGMT_1::ADDR,
                PWR_MGMT_1::DEVICE_RESET,
                true,
            ),
            r is Err ==> final(self).regs() == old(self).regs(),
            r matches Err(e) ==> e is I2c,
    {
        match self.write_bit(PWR_MGMT_1::ADDR, PWR_MGMT_1::DEVICE_RESET, true) {
            Ok(()) => {
                delay.delay_ms(100);
                Ok(())
            },
            Err(e) => Err(e),
        }
    }

    /// Enable or disable the sleep mode of the sensor.
    pub fn set_sleep_enabled(&mut self, enable: bool) -> (r: Result<(), Mpu6886Error<B::BusErr>>)
        requires
            old(self).wf(),
        ensures
            final(self).wf(),
            Self::config_kept(*old(self), *final(self)),
            r is Ok ==> final(self).regs() == spec_rmw_bit(
                old(self).regs(),
                PWR_MGMT_1::ADDR,
                PWR_MGMT_1::SLEEP,
                enable,
            ),
            r is Err ==> final(self).regs() == old(self).regs(),
            r matches Err(e) ==> e is I2c,
    {
        self.write_bit(PWR_MGMT_1::ADDR, PWR_MGMT_1::SLEEP, enable)
    }

    /// Whether sleep mode is enabled.
    pub fn get_sleep_enabled(&mut self) -> (r: Result<bool, Mpu6886Error<B::BusErr>>)
        requires
            old(self).wf(),
        ensures
            final(self).wf(),
            Self::config_kept(*old(self), *final(self)),
            final(self).regs() == old(self).regs(),
            r matches Ok(b) ==> b == (spec_get_bit(
                old(self).regs()[PWR_MGMT_1::ADDR as int],
                PWR_MGMT_1::SLEEP,
            ) == 1),
            r matches Err(e) ==> e is I2c,
    {
        match self.read_bit(PWR_MGMT_1::ADDR, PWR_MGMT_1::SLEEP) {
            Ok(b) => Ok(b != 0),
            Err(e) => Err(e),
        }
    }

    /// Enable or disable the temperature sensor. The stored bit records
    /// the disabled state, so the written bit is the negation of
    /// `enable`.
    pub fn set_temp_enabled(&mut self, enable: bool) -> (r: Result<(), Mpu6886Error<B::BusErr>>)
        requires
            old(self).wf(),
        ensures
            final(self).wf(),
            Self::config_kept(*old(self), *final(self)),
            r is Ok ==> final(self).regs() == spec_rmw_bit(
                old(self).regs(),
                PWR_MGMT_1::ADDR,
                PWR_MGMT_1::TEMP_DIS,
                !enable,
            ),
            r is Err ==> final(self).regs() == old(self).regs(),
            r matches Err(e) ==> e is I2c,
    {
        self.write_bit(PWR_MGMT_1::ADDR, PWR_MGMT_1::TEMP_DIS, !enable)
    }

    /// Whether the temperature sensor is enabled: true exactly when the
    /// stored disable bit reads zero.
    pub fn get_temp_enabled(&mut self) -> (r: Result<bool, Mpu6886Error<B::BusErr>>)
        requires
            old(self).wf(),
        ensures
            final(self).wf(),
            Self::config_kept(*old(self), *final(self)),
            final(self).regs() == old(self).regs(),
            r matches Ok(b) ==> b == (spec_get_bit(
                old(self).regs()[PWR_MGMT_1::ADDR as int],
                PWR_MGMT_1::TEMP_DIS,
            ) == 0),
            r matches Err(e) ==> e is I2c,
    {
        match self.read_bit(PWR_MGMT_1::ADDR, PWR_MGMT_1::TEMP_DIS) {
            Ok(b) => Ok(b == 0),
            Err(e) => Err(e),
        }
    }
}

/// One 14-byte FIFO frame, decoded: three accelerometer axes, the
/// temperature word, three gyroscope axes. The unit of the fields is
/// whatever the function that produced the frame states.
#[derive(Clone, Copy, Debug, PartialEq, Eq, Structural)]
pub struct FifoFrame {
    /// Accelerometer x axis.
    pub ax: i32,
    /// Accelerometer y axis.
    pub ay: i32,
    /// Accelerometer z axis.
    pub az: i32,
    /// Temperature.
    pub temp: i32,
    /// Gyroscope x axis.
    pub gx: i32,
    /// Gyroscope y axis.
    pub gy: i32,
    /// Gyroscope z axis.
    pub gz: i32,
}

/// Assemble a signed 16-bit two's-complement sample from its big-endian
/// byte pair (high byte first).
pub fn read_word(high: u8, low: u8) -> (w: i32)
    ensures
        w == spec_read_word(high, low),
        -32768 <= w <= 32767,
{
    let word: i32 = (high as i32) * 256 + (low as i32);
    if word >= 0x8000 {
        -((65535 - word) + 1)
    } else {
        word
    }
}

/// Scale a raw sample by `num / den`, truncating toward zero.
fn scale_raw(raw: i32, num: u32, den: u32) -> (r: i32)
    requires
        -32768 <= raw <= 32767,
        1 <= num <= 10000,
        1 <= den,
    ensures
        r == spec_scale(raw as int, num as int, den as int),
{
    if raw >= 0 {
        let mag: u32 = raw as u32;
        proof {
            assert(mag * num <= 32767 * 10000) by (nonlinear_arith)
                requires
                    mag <= 32767,
                    num <= 10000,
            ;
        }
        let m: u32 = mag * num;
        proof {
            assert(m / den <= m) by (nonlinear_arith)
                requires
                    1 <= den,
            ;
        }
        (m / den) as i32
    } else {
        let mag: u32 = (-raw) as u32;
        proof {
            assert(mag * num <= 32768 * 10000) by (nonlinear_arith)
                requires
                    mag <= 32768,
                    num <= 10000,
            ;
        }
        let m: u32 = mag * num;
        proof {
            assert(m / den <= m) by (nonlinear_arith)
                requires
                    1 <= den,
            ;
        }
        -((m / den) as i32)
    }
}

impl<B: Bus> Mpu6886<B> {
    /// Enable or disable the accelerometer x axis self test.
    pub fn set_accel_x_self_test(&mut self, enable: bool) -> (r: Result<
        (),
        Mpu6886Error<B::BusErr>,
    >)
        requires
            old(self).wf(),
        ensures
            final(self).wf(),
            Self::config_kept(*old(self), *final(self)),
            r is Ok ==> final(self).regs() == spec_rmw_bit(
                old(self).regs(),
                ACCEL_CONFIG::ADDR,
                ACCEL_CONFIG::XA_ST,
                enable,
            ),
            r is Err ==> final(self).regs() == old(self).regs(),
            r matches Err(e) ==> e is I2c,
    {
        self.write_bit(ACCEL_CONFIG::ADDR, ACCEL_CONFIG::XA_ST, enable)
    }

    /// Whether the accelerometer x axis self test is enabled.
    pub fn get_accel_x_self_test(&mut self) -> (r: Result<bool, Mpu6886Error<B::BusErr>>)
        requires
            old(self).wf(),
        ensures
            final(self).wf(),
            Self::config_kept(*old(self), *final(self)),
            final(self).regs() == old(self).regs(),
            r matches Ok(b) ==> b == (spec_get_bit(
                old(self).regs()[ACCEL_CONFIG::ADDR as int],
                ACCEL_CONFIG::XA_ST,
            ) == 1),
            r matches Err(e) ==> e is I2c,
    {
        match self.read_bit(ACCEL_CONFIG::ADDR, ACCEL_CONFIG::XA_ST) {
            Ok(b) => Ok(b != 0),
            Err(e) => Err(e),
        }
    }

    /// Enable or disable the accelerometer y axis self test.
    pub fn set_accel_y_self_test(&mut self, enable: bool) -> (r: Result<
        (),
        Mpu6886Error<B::BusErr>,
    >)
        requires
            old(self).wf(),
        ensures
            final(self).wf(),
            Self::config_kept(*old(self), *final(self)),
            r is Ok ==> final(self).regs() == spec_rmw_bit(
                old(self).regs(),
                ACCEL_CONFIG::ADDR,
                ACCEL_CONFIG::YA_ST,
                enable,
            ),
            r is Err ==> final(self).regs() == old(self).regs(),
            r matches Err(e) ==> e is I2c,
    {
        self.write_bit(ACCEL_CONFIG::ADDR, ACCEL_CONFIG::YA_ST, enable)
    }

    /// Whether the accelerometer y axis self test is enabled.
    pub fn get_accel_y_self_test(&mut self) -> (r: Result<bool, Mpu6886Error<B::BusErr>>)
        requires
            old(self).wf(),
        ensures
            final(self).wf(),
            Self::config_kept(*old(self), *final(self)),
            final(self).regs() == old(self).regs(),
            r matches Ok(b) ==> b == (spec_get_bit(
                old(self).regs()[ACCEL_CONFIG::ADDR as int],
                ACCEL_CONFIG::YA_ST,
            ) == 1),
            r matches Err(e) ==> e is I2c,
    {
        match self.read_bit(ACCEL_CONFIG::ADDR, ACCEL_CONFIG::YA_ST) {
            Ok(b) => Ok(b != 0),
            Err(e) => Err(e),
        }
    }

    /// Enable or disable the accelerometer z axis self test.
    pub fn set_accel_z_self_test(&mut self, enable: bool) -> (r: Result<
        (),
        Mpu6886Error<B::BusErr>,
    >)
        requires
            old(self).wf(),
        ensures
            final(self).wf(),
            Self::config_kept(*old(self), *final(self)),
            r is Ok ==> final(self).regs() == spec_rmw_bit(
                old(self).regs(),
                ACCEL_CONFIG::ADDR,
                ACCEL_CONFIG::ZA_ST,
                enable,
            ),
            r is Err ==> final(self).regs() == old(self).regs(),
            r matches Err(e) ==> e is I2c,
    {
        self.write_bit(ACCEL_CONFIG::ADDR, ACCEL_CONFIG::ZA_ST, enable)
    }

    /// Whether the accelerometer z axis self test is enabled.
    pub fn get_accel_z_self_test(&mut self) -> (r: Result<bool, Mpu6886Error<B::BusErr>>)
        requires
            old(self).wf(),
        ensures
            final(self).wf(),
            Self::config_kept(*old(self), *final(self)),
            final(self).regs() == old(self).regs(),
            r matches Ok(b) ==> b == (spec_get_bit(
                old(self).regs()[ACCEL_CONFIG::ADDR as int],
                ACCEL_CONFIG::ZA_ST,
            ) == 1),
            r matches Err(e) ==> e is I2c,
    {
        match self.read_bit(ACCEL_CONFIG::ADDR, ACCEL_CONFIG::ZA_ST) {
            Ok(b) => Ok(b != 0),
            Err(e) => Err(e),
        }
    }

    /// Read the accelerometer filter bandwidth currently configured in
    /// the device. A selector pattern outside the defined table is
    /// surfaced as a decoding error, never clamped.
    pub fn get_accel_bandwith(&mut self) -> (r: Result<AccelBw, Mpu6886Error<B::BusErr>>)
        requires
            old(self).wf(),
        ensures
            final(self).wf(),
            Self::config_kept(*old(self), *final(self)),
            final(self).regs() == old(self).regs(),
            r matches Ok(bw) ==> AccelBw::spec_try_from(
                spec_get_bits(old(self).regs()[ACCEL_CONFIG_2::ADDR as int], 0, 4),
            ) == Ok::<AccelBw, SensorError>(bw),
            r matches Err(Mpu6886Error::SensorError(se)) ==> AccelBw::spec_try_from(
                spec_get_bits(old(self).regs()[ACCEL_CONFIG_2::ADDR as int], 0, 4),
            ) == Err::<AccelBw, SensorError>(se),
            r matches Err(e) ==> e is I2c || e is SensorError,
    {
        let f = ACCEL_CONFIG_2::accel_ui_filt_bw();
        let bw_sel = match self.read_bits(ACCEL_CONFIG_2::ADDR, f.bit, f.length) {
            Ok(v) => v,
            Err(e) => { return Err(e) },
        };
        match AccelBw::try_from(bw_sel) {
            Ok(bw) => Ok(bw),
            Err(se) => Err(Mpu6886Error::SensorError(se)),
        }
    }

    /// Write the accelerometer bandwidth selector byte into the two
    /// filter configuration registers.
    pub fn set_accel_bw(&mut self, bw: AccelBw) -> (r: Result<(), Mpu6886Error<B::BusErr>>)
        requires
            old(self).wf(),
        ensures
            final(self).wf(),
            Self::config_kept(*old(self), *final(self)),
            r is Ok ==> final(self).regs() == old(self).regs().update(
                CONFIG::ADDR as int,
                bw.bits(),
            ).update(GYRO_CONFIG::ADDR as int, bw.bits()),
            r is Err ==> final(self).regs() == old(self).regs() || final(self).regs() == old(
                self,
            ).regs().update(CONFIG::ADDR as int, bw.bits()),
            r matches Err(e) ==> e is I2c,
    {
        match self.write_byte(CONFIG::ADDR, bw.bits()) {
            Ok(()) => (),
            Err(e) => { return Err(e) },
        }
        match self.write_byte(GYRO_CONFIG::ADDR, bw.bits()) {
            Ok(()) => (),
            Err(e) => { return Err(e) },
        }
        Ok(())
    }

    /// Read the gyroscope filter bandwidth currently configured in the
    /// device, combining the low pass filter configuration and the
    /// filter bypass selector from their two registers. A combined
    /// pattern outside the defined table is surfaced as a decoding
    /// error, never clamped.
    pub fn get_gyro_bandwith(&mut self) -> (r: Result<GyroBw, Mpu6886Error<B::BusErr>>)
        requires
            old(self).wf(),
        ensures
            final(self).wf(),
            Self::config_kept(*old(self), *final(self)),
            final(self).regs() == old(self).regs(),
            r matches Ok(bw) ==> GyroBw::spec_try_from(spec_gyro_bw_sel(old(self).regs()))
                == Ok::<GyroBw, SensorError>(bw),
            r matches Err(Mpu6886Error::SensorError(se)) ==> GyroBw::spec_try_from(
                spec_gyro_bw_sel(old(self).regs()),
            ) == Err::<GyroBw, SensorError>(se),
            r matches Err(e) ==> e is I2c || e is SensorError,
    {
        let d = CONFIG::dlpf_cfg();
        let bw_sel = match self.read_bits(CONFIG::ADDR, d.bit, d.length) {
            Ok(v) => v,
            Err(e) => { return Err(e) },
        };
        let f = GYRO_CONFIG::fchoice_b();
        let fchoice_b = match self.read_bits(GYRO_CONFIG::ADDR, f.bit, f.length) {
            Ok(v) => v,
            Err(e) => { return Err(e) },
        };
        match GyroBw::try_from(bw_sel | (fchoice_b << 3u8)) {
            Ok(bw) => Ok(bw),
            Err(se) => Err(Mpu6886Error::SensorError(se)),
        }
    }

    /// Setter for the gyroscope filter bandwidth. An acknowledged gap of
    /// the driver, preserved as such: it performs no bus transaction and
    /// changes nothing.
    pub fn set_gyro_bw(&mut self, _bw: GyroBw) -> (r: Result<(), Mpu6886Error<B::BusErr>>)
        requires
            old(self).wf(),
        ensures
            final(self).wf(),
            Self::config_kept(*old(self), *final(self)),
            final(self).regs() == old(self).regs(),
            r is Ok,
    {
        Ok(())
    }

    /// Read six consecutive data bytes starting at `reg` and decode them
    /// as three big-endian signed words of raw LSB counts.
    fn read_rot(&mut self, reg: u8) -> (r: Result<(i32, i32, i32), Mpu6886Error<B::BusErr>>)
        requires
            old(self).wf(),
            reg as int + 6 <= 256,
        ensures
            final(self).wf(),
            Self::config_kept(*old(self), *final(self)),
            final(self).regs() == old(self).regs(),
            r matches Ok(v) ==> {
                &&& v.0 == spec_read_word(
                    old(self).regs()[reg as int],
                    old(self).regs()[reg as int + 1],
                )
                &&& v.1 == spec_read_word(
                    old(self).regs()[reg as int + 2],
                    old(self).regs()[reg as int + 3],
                )
                &&& v.2 == spec_read_word(
                    old(self).regs()[reg as int + 4],
                    old(self).regs()[reg as int + 5],
                )
                &&& -32768 <= v.0 <= 32767
                &&& -32768 <= v.1 <= 32767
                &&& -32768 <= v.2 <= 32767
            },
            r matches Err(e) ==> e is I2c,
    {
        let buf = match self.read_bytes(reg, 6) {
            Ok(b) => b,
            Err(e) => { return Err(e) },
        };
        Ok((read_word(buf[0], buf[1]), read_word(buf[2], buf[3]), read_word(buf[4], buf[5])))
    }

    /// Accelerometer reading as raw LSB counts, one signed word per axis.
    pub fn get_acc_raw(&mut self) -> (r: Result<(i32, i32, i32), Mpu6886Error<B::BusErr>>)
        requires
            old(self).wf(),
        ensures
            final(self).wf(),
            Self::config_kept(*old(self), *final(self)),
            final(self).regs() == old(self).regs(),
            r matches Ok(v) ==> {
                &&& v.0 == spec_read_word(
                    old(self).regs()[ACC_REGX_H as int],
                    old(self).regs()[ACC_REGX_H as int + 1],
                )
                &&& v.1 == spec_read_word(
                    old(self).regs()[ACC_REGX_H as int + 2],
                    old(self).regs()[ACC_REGX_H as int + 3],
                )
                &&& v.2 == spec_read_word(
                    old(self).regs()[ACC_REGX_H as int + 4],
                    old(self).regs()[ACC_REGX_H as int + 5],
                )
                &&& -32768 <= v.0 <= 32767
                &&& -32768 <= v.1 <= 32767
                &&& -32768 <= v.2 <= 32767
            },
            r matches Err(e) ==> e is I2c,
    {
        self.read_rot(ACC_REGX_H)
    }

    /// Gyroscope reading as raw LSB counts, one signed word per axis.
    pub fn get_gyro_raw(&mut self) -> (r: Result<(i32, i32, i32), Mpu6886Error<B::BusErr>>)
        requires
            old(self).wf(),
        ensures
            final(self).wf(),
            Self::config_kept(*old(self), *final(self)),
            final(self).regs() == old(self).regs(),
            r matches Ok(v) ==> {
                &&& v.0 == spec_read_word(
                    old(self).regs()[GYRO_REGX_H as int],
                    old(self).regs()[GYRO_REGX_H as int + 1],
                )
                &&& v.1 == spec_read_word(
                    old(self).regs()[GYRO_REGX_H as int + 2],
                    old(self).regs()[GYRO_REGX_H as int + 3],
                )
                &&& v.2 == spec_read_word(
                    old(self).regs()[GYRO_REGX_H as int + 4],
                    old(self).regs()[GYRO_REGX_H as int + 5],
                )
                &&& -32768 <= v.0 <= 32767
                &&& -32768 <= v.1 <= 32767
                &&& -32768 <= v.2 <= 32767
            },
            r matches Err(e) ==> e is I2c,
    {
        self.read_rot(GYRO_REGX_H)
    }

    /// Temperature reading as a raw signed word of LSB counts.
    pub fn get_temp_raw(&mut self) -> (r: Result<i32, Mpu6886Error<B::BusErr>>)
        requires
            old(self).wf(),
        ensures
            final(self).wf(),
            Self::config_kept(*old(self), *final(self)),
            final(self).regs() == old(self).regs(),
            r matches Ok(w) ==> w == spec_read_word(
                old(self).regs()[TEMP_OUT_H as int],
                old(self).regs()[TEMP_OUT_H as int + 1],
            ) && -32768 <= w <= 32767,
            r matches Err(e) ==> e is I2c,
    {
        let buf = match self.read_bytes(TEMP_OUT_H, 2) {
            Ok(b) => b,
            Err(e) => { return Err(e) },
        };
        Ok(read_word(buf[0], buf[1]))
    }

    /// Accelerometer reading scaled by the cached sensitivity divisor to
    /// thousandths of a g, truncated toward zero.
    pub fn get_acc_milli_g(&mut self) -> (r: Result<(i32, i32, i32), Mpu6886Error<B::BusErr>>)
        requires
            old(self).wf(),
        ensures
            final(self).wf(),
            Self::config_kept(*old(self), *final(self)),
            final(self).regs() == old(self).regs(),
            r matches Ok(v) ==> {
                let sens = old(self).arange().spec_sensitivity() as int;
                &&& v.0 == spec_scale(
                    spec_read_word(
                        old(self).regs()[ACC_REGX_H as int],
                        old(self).regs()[ACC_REGX_H as int + 1],
                    ),
                    1000,
                    sens,
                )
                &&& v.1 == spec_scale(
                    spec_read_word(
                        old(self).regs()[ACC_REGX_H as int + 2],
                        old(self).regs()[ACC_REGX_H as int + 3],
                    ),
                    1000,
                    sens,
                )
                &&& v.2 == spec_scale(
                    spec_read_word(
                        old(self).regs()[ACC_REGX_H as int + 4],
                        old(self).regs()[ACC_REGX_H as int + 5],
                    ),
                    1000,
                    sens,
                )
            },
            r matches Err(e) ==> e is I2c,
    {
        let raw = match self.get_acc_raw() {
            Ok(v) => v,
            Err(e) => { return Err(e) },
        };
        let sens = self.arange.sensitivity() as u32;
        Ok((scale_raw(raw.0, 1000, sens), scale_raw(raw.1, 1000, sens), scale_raw(
            raw.2,
            1000,
            sens,
        )))
    }

    /// Gyroscope reading scaled by the cached sensitivity divisor to
    /// thousandths of a degree per second, truncated toward zero.
    pub fn get_gyro_milli_dps(&mut self) -> (r: Result<(i32, i32, i32), Mpu6886Error<B::BusErr>>)
        requires
            old(self).wf(),
        ensures
            final(self).wf(),
            Self::config_kept(*old(self), *final(self)),
            final(self).regs() == old(self).regs(),
            r matches Ok(v) ==> {
                let tenths = old(self).grange().spec_sensitivity_tenths() as int;
                &&& v.0 == spec_scale(
                    spec_read_word(
                        old(self).regs()[GYRO_REGX_H as int],
                        old(self).regs()[GYRO_REGX_H as int + 1],
                    ),
                    10000,
                    tenths,
                )
                &&& v.1 == spec_scale(
                    spec_read_word(
                        old(self).regs()[GYRO_REGX_H as int + 2],
                        old(self).regs()[GYRO_REGX_H as int + 3],
                    ),
                    10000,
                    tenths,
                )
                &&& v.2 == spec_scale(
                    spec_read_word(
                        old(self).regs()[GYRO_REGX_H as int + 4],
                        old(self).regs()[GYRO_REGX_H as int + 5],
                    ),
                    10000,
                    tenths,
                )
            },
            r matches Err(e) ==> e is I2c,
    {
        let raw = match self.get_gyro_raw() {
            Ok(v) => v,
            Err(e) => { return Err(e) },
        };
        let tenths = self.grange.sensitivity_tenths() as u32;
        Ok((scale_raw(raw.0, 10000, tenths), scale_raw(raw.1, 10000, tenths), scale_raw(
            raw.2,
            10000,
            tenths,
        )))
    }

    /// Temperature in thousandths of a degree Celsius: the raw word
    /// scaled by the fixed sensitivity, truncated toward zero, plus the
    /// fixed offset. A raw word of zero reads as 25000.
    pub fn get_temp_milli_c(&mut self) -> (r: Result<i32, Mpu6886Error<B::BusErr>>)
        requires
            old(self).wf(),
        ensures
            final(self).wf(),
            Self::config_kept(*old(self), *final(self)),
            final(self).regs() == old(self).regs(),
            r matches Ok(t) ==> t == spec_scale(
                spec_read_word(
                    old(self).regs()[TEMP_OUT_H as int],
                    old(self).regs()[TEMP_OUT_H as int + 1],
                ),
                10000,
                TEMP_SENSITIVITY_TENTHS as int,
            ) + TEMP_OFFSET_MILLI_C,
            r matches Err(e) ==> e is I2c,
    {
        let raw = match self.get_temp_raw() {
            Ok(w) => w,
            Err(e) => { return Err(e) },
        };
        Ok(scale_raw(raw, 10000, TEMP_SENSITIVITY_TENTHS) + TEMP_OFFSET_MILLI_C)
    }

    /// Enable writing sensor data to the FIFO: set the accelerometer and
    /// gyroscope FIFO-enable bits as asked, then reset the signal path,
    /// reset the FIFO path, and enable the FIFO, in that order. Must be
    /// called before reading frames. Enabling the gyroscope also enables
    /// temperature batching on the chip.
    pub fn enable_fifo(&mut self, accel: bool, gyro: bool) -> (r: Result<
        (),
        Mpu6886Error<B::BusErr>,
    >)
        requires
            old(self).wf(),
        ensures
            final(self).wf(),
            Self::config_kept(*old(self), *final(self)),
            r is Ok ==> final(self).regs() == spec_rmw_bit(
                spec_rmw_bit(
                    spec_rmw_bit(
                        spec_rmw_bit(
                            spec_rmw_bit(old(self).regs(), FIFO_EN, 3, accel),
                            FIFO_EN,
                            4,
                            gyro,
                        ),
                        USER_CTRL,
                        0,
                        true,
                    ),
                    USER_CTRL,
                    2,
                    true,
                ),
                USER_CTRL,
                6,
                true,
            ),
            r matches Err(e) ==> e is I2c,
    {
        match self.write_bit(FIFO_EN, 3, accel) {
            Ok(()) => (),
            Err(e) => { return Err(e) },
        }
        match self.write_bit(FIFO_EN, 4, gyro) {
            Ok(()) => (),
            Err(e) => { return Err(e) },
        }
        // reset the signal path
        match self.write_bit(USER_CTRL, 0, true) {
            Ok(()) => (),
            Err(e) => { return Err(e) },
        }
        // reset the FIFO path
        match self.write_bit(USER_CTRL, 2, true) {
            Ok(()) => (),
            Err(e) => { return Err(e) },
        }
        // enable the FIFO
        match self.write_bit(USER_CTRL, 6, true) {
            Ok(()) => (),
            Err(e) => { return Err(e) },
        }
        Ok(())
    }

    /// Read one 14-byte frame from the FIFO port and decode it into raw
    /// signed words: accelerometer x, y, z, then temperature, then
    /// gyroscope x, y, z. A frame whose first byte is the hardware's
    /// empty sentinel 0xff fails with the no-data error instead.
    pub fn read_fifo_raw(&mut self) -> (r: Result<FifoFrame, Mpu6886Error<B::BusErr>>)
        requires
            old(self).wf(),
        ensures
            final(self).wf(),
            Self::config_kept(*old(self), *final(self)),
            final(self).regs() == old(self).regs(),
            r matches Ok(f) ==> {
                let buf = old(self).regs().subrange(FIFO_R_W as int, FIFO_R_W as int + 14);
                &&& buf[0] != 0xff
                &&& f.ax == spec_read_word(buf[0], buf[1])
                &&& f.ay == spec_read_word(buf[2], buf[3])
                &&& f.az == spec_read_word(buf[4], buf[5])
                &&& f.temp == spec_read_word(buf[6], buf[7])
                &&& f.gx == spec_read_word(buf[8], buf[9])
                &&& f.gy == spec_read_word(buf[10], buf[11])
                &&& f.gz == spec_read_word(buf[12], buf[13])
            },
            r matches Err(Mpu6886Error::SensorError(se)) ==> se == SensorError::NoFifoData && old(
                self,
            ).regs()[FIFO_R_W as int] == 0xff,
            r matches Err(e) ==> e is I2c || e is SensorError,
    {
        let buf = match self.read_bytes(FIFO_R_W, 14) {
            Ok(b) => b,
            Err(e) => { return Err(e) },
        };
        if buf[0] != 255 {
            Ok(FifoFrame {
                ax: read_word(buf[0], buf[1]),
                ay: read_word(buf[2], buf[3]),
                az: read_word(buf[4], buf[5]),
                temp: read_word(buf[6], buf[7]),
                gx: read_word(buf[8], buf[9]),
                gy: read_word(buf[10], buf[11]),
                gz: read_word(buf[12], buf[13]),
            })
        } else {
            Err(Mpu6886Error::SensorError(SensorError::NoFifoData))
        }
    }

    /// Read one FIFO frame and scale it with the cached sensitivities:
    /// accelerometer axes to thousandths of a g, temperature to
    /// thousandths of a degree Celsius, gyroscope axes to thousandths of
    /// a degree per second; every scaling truncated toward zero.
    pub fn read_fifo_milli(&mut self) -> (r: Result<FifoFrame, Mpu6886Error<B::BusErr>>)
        requires
            old(self).wf(),
        ensures
            final(self).wf(),
            Self::config_kept(*old(self), *final(self)),
            final(self).regs() == old(self).regs(),
            r matches Ok(f) ==> {
                let buf = old(self).regs().subrange(FIFO_R_W as int, FIFO_R_W as int + 14);
                let sens = old(self).arange().spec_sensitivity() as int;
                let tenths = old(self).grange().spec_sensitivity_tenths() as int;
                &&& buf[0] != 0xff
                &&& f.ax == spec_scale(spec_read_word(buf[0], buf[1]), 1000, sens)
                &&& f.ay == spec_scale(spec_read_word(buf[2], buf[3]), 1000, sens)
                &&& f.az == spec_scale(spec_read_word(buf[4], buf[5]), 1000, sens)
                &&& f.temp == spec_scale(
                    spec_read_word(buf[6], buf[7]),
                    10000,
                    TEMP_SENSITIVITY_TENTHS as int,
                ) + TEMP_OFFSET_MILLI_C
                &&& f.gx == spec_scale(spec_read_word(buf[8], buf[9]), 10000, tenths)
                &&& f.gy == spec_scale(spec_read_word(buf[10], buf[11]), 10000, tenths)
                &&& f.gz == spec_scale(spec_read_word(buf[12], buf[13]), 10000, tenths)
            },
            r matches Err(Mpu6886Error::SensorError(se)) ==> se == SensorError::NoFifoData && old(
                self,
            ).regs()[FIFO_R_W as int] == 0xff,
            r matches Err(e) ==> e is I2c || e is SensorError,
    {
        let raw = match self.read_fifo_raw() {
            Ok(f) => f,
            Err(e) => { return Err(e) },
        };
        let sens = self.arange.sensitivity() as u32;
        let tenths = self.grange.sensitivity_tenths() as u32;
        proof {
            lemma_read_word_bounds();
        }
        Ok(FifoFrame {
            ax: scale_raw(raw.ax, 1000, sens),
            ay: scale_raw(raw.ay, 1000, sens),
            az: scale_raw(raw.az, 1000, sens),
            temp: scale_raw(raw.temp, 10000, TEMP_SENSITIVITY_TENTHS) + TEMP_OFFSET_MILLI_C,
            gx: scale_raw(raw.gx, 10000, tenths),
            gy: scale_raw(raw.gy, 10000, tenths),
            gz: scale_raw(raw.gz, 10000, tenths),
        })
    }
}

/// Every assembled sample word lies in the signed 16-bit range.
pub proof fn lemma_read_word_bounds()
    ensures
        forall|high: u8, low: u8| -32768 <= #[trigger] spec_read_word(high, low) <= 32767,
{
}

/// Enabling or disabling the temperature sensor and then reading the
/// setting back yields what was set: after the register write that
/// `set_temp_enabled(enable)` performs, the bit test that
/// `get_temp_enabled` performs returns `enable`, whatever the register
/// held before.
pub proof fn lemma_temp_enabled_round_trip(regs: Seq<u8>, enable: bool)
    requires
        regs.len() == 256,
    ensures
        (spec_get_bit(
            spec_rmw_bit(regs, PWR_MGMT_1::ADDR, PWR_MGMT_1::TEMP_DIS, !enable)[
                PWR_MGMT_1::ADDR as int
            ],
            PWR_MGMT_1::TEMP_DIS,
        ) == 0) == enable,
{
    crate::bits::lemma_set_get_bit(regs[PWR_MGMT_1::ADDR as int], PWR_MGMT_1::TEMP_DIS, !enable);
}

/// Enabling or disabling sleep and then reading the setting back yields
/// what was set, whatever the register held before.
pub proof fn lemma_sleep_round_trip(regs: Seq<u8>, enable: bool)
    requires
        regs.len() == 256,
    ensures
        (spec_get_bit(
            spec_rmw_bit(regs, PWR_MGMT_1::ADDR, PWR_MGMT_1::SLEEP, enable)[
                PWR_MGMT_1::ADDR as int
            ],
            PWR_MGMT_1::SLEEP,
        ) == 1) == enable,
{
    crate::bits::lemma_set_get_bit(regs[PWR_MGMT_1::ADDR as int], PWR_MGMT_1::SLEEP, enable);
}

/// Setting an accelerometer range and then reading it back through the
/// register yields that range: the field write that `set_accel_range`
/// performs decodes back to the range `get_accel_range` reports,
/// whatever the register held before.
pub proof fn lemma_accel_range_register_round_trip(regs: Seq<u8>, range: AccelRange)
    requires
        regs.len() == 256,
    ensures
        AccelRange::spec_from(
            spec_get_bits(
                spec_rmw_bits(regs, ACCEL_CONFIG::ADDR, 3, 2, range.spec_encode())[
                    ACCEL_CONFIG::ADDR as int
                ],
                3,
                2,
            ),
        ) == range,
{
    let v = range.spec_encode();
    assert(v <= 3);
    assert((v as u16) < (1u16 << 2)) by (bit_vector)
        requires
            v <= 3,
    ;
    crate::bits::lemma_set_get_bits(regs[ACCEL_CONFIG::ADDR as int], 3, 2, v);
}

/// Setting a gyroscope range and then reading it back through the
/// register yields that range, whatever the register held before.
pub proof fn lemma_gyro_range_register_round_trip(regs: Seq<u8>, range: GyroRange)
    requires
        regs.len() == 256,
    ensures
        GyroRange::spec_from(
            spec_get_bits(
                spec_rmw_bits(regs, GYRO_CONFIG::ADDR, 3, 2, range.spec_encode())[
                    GYRO_CONFIG::ADDR as int
                ],
                3,
                2,
            ),
        ) == range,
{
    let v = range.spec_encode();
    assert(v <= 3);
    assert((v as u16) < (1u16 << 2)) by (bit_vector)
        requires
            v <= 3,
    ;
    crate::bits::lemma_set_get_bits(regs[GYRO_CONFIG::ADDR as int], 3, 2, v);
}

/// Setting a clock source and then reading it back through the register
/// yields that source, whatever the register held before.
pub proof fn lemma_clock_source_register_round_trip(regs: Seq<u8>, source: CLKSEL)
    requires
        regs.len() == 256,
    ensures
        CLKSEL::spec_from(
            spec_get_bits(
                spec_rmw_bits(regs, PWR_MGMT_1::ADDR, 0, 3, source.spec_encode())[
                    PWR_MGMT_1::ADDR as int
                ],
                0,
                3,
            ),
        ) == source,
{
    let v = source.spec_encode();
    assert(v <= 7);
    assert((v as u16) < (1u16 << 3)) by (bit_vector)
        requires
            v <= 7,
    ;
    crate::bits::lemma_set_get_bits(regs[PWR_MGMT_1::ADDR as int], 0, 3, v);
}

} // verus!

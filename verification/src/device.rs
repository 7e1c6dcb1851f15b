//! Register catalog of the chip, and the typed configuration values that
//! live in single registers.
//!
//! Every physical register used by the driver appears here with its
//! address and the named bit positions or bit ranges of its fields.
//! A multi-bit field is a [`BitBlock`]: the position of its lowest bit
//! plus its width, with `bit + length <= 8`.

use vstd::prelude::*;

verus! {

/// Motion detection threshold register.
pub const MOT_THR: u8 = 0x1f;

/// Motion detection duration register.
pub const MOT_DUR: u8 = 0x20;

/// FIFO enable register.
pub const FIFO_EN: u8 = 0x23;

/// High byte register of the gyroscope x axis.
pub const GYRO_REGX_H: u8 = 0x43;

/// High byte register of the gyroscope y axis.
pub const GYRO_REGY_H: u8 = 0x45;

/// High byte register of the gyroscope z axis.
pub const GYRO_REGZ_H: u8 = 0x47;

/// High byte register of the accelerometer x axis.
pub const ACC_REGX_H: u8 = 0x3b;

/// High byte register of the accelerometer y axis.
pub const ACC_REGY_H: u8 = 0x3d;

/// High byte register of the accelerometer z axis.
pub const ACC_REGZ_H: u8 = 0x3f;

/// High byte register of the temperature sensor.
pub const TEMP_OUT_H: u8 = 0x41;

/// User control register (signal path and FIFO resets, FIFO enable).
pub const USER_CTRL: u8 = 0x6a;

/// FIFO read/write port register.
pub const FIFO_R_W: u8 = 0x74;

/// Default bus address of the chip.
pub const DEFAULT_SLAVE_ADDR: u8 = 0x68;

/// Identity register; it reads back the chip identity constant.
pub const WHOAMI: u8 = 0x75;

/// The identity byte of this chip family, read from [`WHOAMI`].
pub const CHIP_ID: u8 = 0x19;

/// Offset of the temperature formula, in thousandths of a degree
/// Celsius: a raw reading of zero means 25.000 degrees.
pub const TEMP_OFFSET_MILLI_C: i32 = 25000;

/// Sensitivity of the temperature sensor, in tenths of an LSB per
/// degree Celsius (326.8 LSB per degree).
pub const TEMP_SENSITIVITY_TENTHS: u32 = 3268;

/// A multi-bit field within a register: the position of its lowest bit
/// (0 = LSB) and its width in bits.
#[derive(Clone, Copy, Debug, PartialEq, Eq, Structural)]
pub struct BitBlock {
    /// Position of the field's lowest bit, 0 = LSB.
    pub bit: u8,
    /// Width of the field in bits; `bit + length <= 8`.
    pub length: u8,
}

/// Register 26: configuration (FIFO mode, external sync, low-pass filter).
#[allow(non_camel_case_types)]
#[derive(Copy, Clone, Debug)]
pub struct CONFIG;

impl CONFIG {
    /// Base address.
    pub const ADDR: u8 = 0x1a;

    /// When set, the FIFO stops accepting writes when full instead of
    /// replacing the oldest data.
    pub const FIFO_MODE: u8 = 6;

    /// External frame synchronisation bit location selector, bits 5:3.
    pub fn ext_sync_set() -> (b: BitBlock)
        ensures
            b == (BitBlock { bit: 3, length: 3 }),
    {
        BitBlock { bit: 3, length: 3 }
    }

    /// Digital low pass filter configuration, bits 2:0.
    pub fn dlpf_cfg() -> (b: BitBlock)
        ensures
            b == (BitBlock { bit: 0, length: 3 }),
    {
        BitBlock { bit: 0, length: 3 }
    }
}

/// Register 27: gyroscope configuration.
#[allow(non_camel_case_types)]
#[derive(Copy, Clone, Debug)]
pub struct GYRO_CONFIG;

impl GYRO_CONFIG {
    /// Base address.
    pub const ADDR: u8 = 0x1b;

    /// Gyroscope x axis self test bit.
    pub const XG_ST: u8 = 7;

    /// Gyroscope y axis self test bit.
    pub const YG_ST: u8 = 6;

    /// Gyroscope z axis self test bit.
    pub const ZG_ST: u8 = 5;

    /// Gyroscope full scale select, bits 4:3:
    /// 0 = ±250, 1 = ±500, 2 = ±1000, 3 = ±2000 degrees per second.
    pub fn fs_sel() -> (b: BitBlock)
        ensures
            b == (BitBlock { bit: 3, length: 2 }),
    {
        BitBlock { bit: 3, length: 2 }
    }

    /// Low pass filter bypass selector, bits 1:0.
    pub fn fchoice_b() -> (b: BitBlock)
        ensures
            b == (BitBlock { bit: 0, length: 2 }),
    {
        BitBlock { bit: 0, length: 2 }
    }
}

/// Register 28: accelerometer configuration.
#[allow(non_camel_case_types)]
#[derive(Copy, Clone, Debug)]
pub struct ACCEL_CONFIG;

impl ACCEL_CONFIG {
    /// Base address.
    pub const ADDR: u8 = 0x1c;

    /// Accelerometer x axis self test bit.
    pub const XA_ST: u8 = 7;

    /// Accelerometer y axis self test bit.
    pub const YA_ST: u8 = 6;

    /// Accelerometer z axis self test bit.
    pub const ZA_ST: u8 = 5;

    /// Accelerometer full scale select, bits 4:3:
    /// 0 = ±2g, 1 = ±4g, 2 = ±8g, 3 = ±16g.
    pub fn fs_sel() -> (b: BitBlock)
        ensures
            b == (BitBlock { bit: 3, length: 2 }),
    {
        BitBlock { bit: 3, length: 2 }
    }
}

/// Register 29: accelerometer configuration 2 (filter bandwidth).
#[allow(non_camel_case_types)]
#[derive(Copy, Clone, Debug)]
pub struct ACCEL_CONFIG_2;

impl ACCEL_CONFIG_2 {
    /// Base address.
    pub const ADDR: u8 = 0x1d;

    /// Accelerometer filter bandwidth selector: the low pass filter
    /// configuration in bits 2:0 plus the filter bypass bit at bit 3.
    pub fn accel_ui_filt_bw() -> (b: BitBlock)
        ensures
            b == (BitBlock { bit: 0, length: 4 }),
    {
        BitBlock { bit: 0, length: 4 }
    }
}

/// Register 55: interrupt pin / bypass enable configuration.
#[allow(non_camel_case_types)]
#[derive(Copy, Clone, Debug)]
pub struct INT_PIN_CFG;

impl INT_PIN_CFG {
    /// Base address.
    pub const ADDR: u8 = 0x37;

    /// Interrupt pin logic level: 1 = active low, 0 = active high.
    pub const INT_LEVEL: u8 = 7;

    /// Interrupt pin drive: 1 = open drain, 0 = push-pull.
    pub const INT_OPEN: u8 = 6;

    /// Interrupt pulse: 1 = level held until status cleared,
    /// 0 = 50 microsecond pulse.
    pub const LATCH_INT_EN: u8 = 5;

    /// Interrupt clear condition: 1 = any read clears, 0 = only a read
    /// of the interrupt status register clears.
    pub const INT_RD_CLEAR: u8 = 4;

    /// Frame sync pin logic level as interrupt: 1 = active low.
    pub const FSYNC_INT_LEVEL: u8 = 3;

    /// Frame sync pin as interrupt source enable.
    pub const FSYNC_INT_EN: u8 = 2;
}

/// Register 56: interrupt enable.
#[allow(non_camel_case_types)]
#[derive(Copy, Clone, Debug)]
pub struct INT_ENABLE;

impl INT_ENABLE {
    /// Base address.
    pub const ADDR: u8 = 0x38;

    /// Enable wake-on-motion interrupt on the x axis accelerometer.
    pub const WOM_X_INT_EN: u8 = 7;

    /// Enable wake-on-motion interrupt on the y axis accelerometer.
    pub const WOM_Y_INT_EN: u8 = 6;

    /// Enable wake-on-motion interrupt on the z axis accelerometer.
    pub const WOM_Z_INT_EN: u8 = 5;

    /// Generate an interrupt on FIFO buffer overflow.
    pub const FIFO_OFLOW_END: u8 = 4;

    /// Gyroscope drive system ready interrupt enable.
    pub const GDRIVE_INT_EN: u8 = 2;

    /// Data ready interrupt enable.
    pub const DATA_RDY_EN: u8 = 0;
}

/// Register 58: interrupt status. On the physical device the latched
/// bits clear when this register is read.
#[allow(non_camel_case_types)]
#[derive(Copy, Clone, Debug)]
pub struct INT_STATUS;

impl INT_STATUS {
    /// Base address.
    pub const ADDR: u8 = 0x3a;

    /// X axis accelerometer wake-on-motion interrupt status.
    pub const WOM_X_INT: u8 = 7;

    /// Y axis accelerometer wake-on-motion interrupt status.
    pub const WOM_Y_INT: u8 = 6;

    /// Z axis accelerometer wake-on-motion interrupt status.
    pub const WOM_Z_INT: u8 = 5;

    /// FIFO buffer overflow interrupt status.
    pub const FIFO_OFLOW_INT: u8 = 4;

    /// Gyroscope drive system ready interrupt status.
    pub const GDRIVE_INT: u8 = 2;

    /// Data ready interrupt status.
    pub const DATA_RDY_INT: u8 = 0;
}

/// Register 107: power management 1.
#[allow(non_camel_case_types)]
#[derive(Copy, Clone, Debug)]
pub struct PWR_MGMT_1;

impl PWR_MGMT_1 {
    /// Base address.
    pub const ADDR: u8 = 0x6b;

    /// Device reset bit; the chip returns to its power-on defaults,
    /// sleep included.
    pub const DEVICE_RESET: u8 = 7;

    /// Sleep mode bit.
    pub const SLEEP: u8 = 6;

    /// Cycle between sleep and single accelerometer samples.
    pub const CYCLE: u8 = 5;

    /// Gyroscope standby bit.
    pub const GYRO_STANDBY: u8 = 4;

    /// When set, the temperature sensor is disabled. The stored sense is
    /// inverted relative to "temperature enabled".
    pub const TEMP_DIS: u8 = 3;

    /// Clock source select, bits 2:0; see [`CLKSEL`].
    pub fn clksel() -> (b: BitBlock)
        ensures
            b == (BitBlock { bit: 0, length: 3 }),
    {
        BitBlock { bit: 0, length: 3 }
    }
}

/// Register 108: power management 2.
#[allow(non_camel_case_types)]
#[derive(Copy, Clone, Debug)]
pub struct PWR_MGMT_2;

impl PWR_MGMT_2 {
    /// Base address.
    pub const ADDR: u8 = 0x6c;

    /// Put the accelerometer x axis in standby.
    pub const STBY_XA: u8 = 5;

    /// Put the accelerometer y axis in standby.
    pub const STBY_YA: u8 = 4;

    /// Put the accelerometer z axis in standby.
    pub const STBY_ZA: u8 = 3;

    /// Put the gyroscope x axis in standby.
    pub const STBY_XG: u8 = 2;

    /// Put the gyroscope y axis in standby.
    pub const STBY_YG: u8 = 1;

    /// Put the gyroscope z axis in standby.
    pub const STBY_ZG: u8 = 0;
}

/// Clock source select values, stored in bits 2:0 of power management 1.
/// Every value 0..=7 is a defined option, one to one with its pattern.
#[allow(non_camel_case_types)]
#[derive(Copy, Clone, Debug, Eq, PartialEq, Structural)]
pub enum CLKSEL {
    /// Internal 20 MHz oscillator.
    OSCILL,
    /// Auto select the best available clock source, PLL if ready.
    AUTOPLL1,
    /// Auto select the best available clock source, PLL if ready.
    AUTOPLL2,
    /// Auto select the best available clock source, PLL if ready.
    AUTOPLL3,
    /// Auto select the best available clock source, PLL if ready.
    AUTOPLL4,
    /// Auto select the best available clock source, PLL if ready.
    AUTOPLL5,
    /// Internal 20 MHz oscillator.
    OSCILL6,
    /// Stop the clock and hold the timing generator in reset.
    STOP,
}

impl CLKSEL {
    /// The bit pattern of this clock source, one pattern per variant.
    pub open spec fn spec_encode(self) -> u8 {
        match self {
            CLKSEL::OSCILL => 0,
            CLKSEL::AUTOPLL1 => 1,
            CLKSEL::AUTOPLL2 => 2,
            CLKSEL::AUTOPLL3 => 3,
            CLKSEL::AUTOPLL4 => 4,
            CLKSEL::AUTOPLL5 => 5,
            CLKSEL::OSCILL6 => 6,
            CLKSEL::STOP => 7,
        }
    }

    /// Encode this clock source as its bit pattern.
    #[verifier::when_used_as_spec(spec_encode)]
    pub fn encode(self) -> (r: u8)
        ensures
            r == self.spec_encode(),
    {
        match self {
            CLKSEL::OSCILL => 0,
            CLKSEL::AUTOPLL1 => 1,
            CLKSEL::AUTOPLL2 => 2,
            CLKSEL::AUTOPLL3 => 3,
            CLKSEL::AUTOPLL4 => 4,
            CLKSEL::AUTOPLL5 => 5,
            CLKSEL::OSCILL6 => 6,
            CLKSEL::STOP => 7,
        }
    }

    /// The clock source a bit pattern decodes to. Decoding is total: a
    /// pattern above 7 (which a three-bit field cannot hold) falls back
    /// to the first auto-PLL option.
    pub open spec fn spec_from(clk: u8) -> CLKSEL {
        if clk == 0 {
            CLKSEL::OSCILL
        } else if clk == 1 {
            CLKSEL::AUTOPLL1
        } else if clk == 2 {
            CLKSEL::AUTOPLL2
        } else if clk == 3 {
            CLKSEL::AUTOPLL3
        } else if clk == 4 {
            CLKSEL::AUTOPLL4
        } else if clk == 5 {
            CLKSEL::AUTOPLL5
        } else if clk == 6 {
            CLKSEL::OSCILL6
        } else if clk == 7 {
            CLKSEL::STOP
        } else {
            CLKSEL::AUTOPLL1
        }
    }
}

impl From<u8> for CLKSEL {
    /// Decode a bit pattern, clamping undefined patterns to a default.
    fn from(clk: u8) -> (r: CLKSEL) {
        if clk == 0 {
            CLKSEL::OSCILL
        } else if clk == 1 {
            CLKSEL::AUTOPLL1
        } else if clk == 2 {
            CLKSEL::AUTOPLL2
        } else if clk == 3 {
            CLKSEL::AUTOPLL3
        } else if clk == 4 {
            CLKSEL::AUTOPLL4
        } else if clk == 5 {
            CLKSEL::AUTOPLL5
        } else if clk == 6 {
            CLKSEL::OSCILL6
        } else if clk == 7 {
            CLKSEL::STOP
        } else {
            CLKSEL::AUTOPLL1
        }
    }
}

impl vstd::std_specs::convert::FromSpecImpl<u8> for CLKSEL {
    open spec fn obeys_from_spec() -> bool {
        true
    }

    open spec fn from_spec(clk: u8) -> CLKSEL {
        CLKSEL::spec_from(clk)
    }
}

/// Accelerometer full-scale range. Each range carries a fixed
/// sensitivity divisor in LSB per g.
#[derive(Debug, Eq, PartialEq, Copy, Clone, Structural)]
pub enum AccelRange {
    /// ±2g.
    G2,
    /// ±4g.
    G4,
    /// ±8g.
    G8,
    /// ±16g.
    G16,
}

impl AccelRange {
    /// The bit pattern of this range, one pattern per variant.
    pub open spec fn spec_encode(self) -> u8 {
        match self {
            AccelRange::G2 => 0,
            AccelRange::G4 => 1,
            AccelRange::G8 => 2,
            AccelRange::G16 => 3,
        }
    }

    /// Encode this range as its bit pattern.
    #[verifier::when_used_as_spec(spec_encode)]
    pub fn encode(self) -> (r: u8)
        ensures
            r == self.spec_encode(),
    {
        match self {
            AccelRange::G2 => 0,
            AccelRange::G4 => 1,
            AccelRange::G8 => 2,
            AccelRange::G16 => 3,
        }
    }

    /// The range a bit pattern decodes to. Decoding is total: an
    /// undefined pattern clamps to the ±2g default.
    pub open spec fn spec_from(range: u8) -> AccelRange {
        if range == 0 {
            AccelRange::G2
        } else if range == 1 {
            AccelRange::G4
        } else if range == 2 {
            AccelRange::G8
        } else if range == 3 {
            AccelRange::G16
        } else {
            AccelRange::G2
        }
    }

    /// The sensitivity divisor of this range, in LSB per g.
    pub open spec fn spec_sensitivity(&self) -> u16 {
        match self {
            AccelRange::G2 => 16384,
            AccelRange::G4 => 8192,
            AccelRange::G8 => 4096,
            AccelRange::G16 => 2048,
        }
    }

    /// Sensitivity divisor of this range, in LSB per g.
    #[verifier::when_used_as_spec(spec_sensitivity)]
    pub fn sensitivity(&self) -> (r: u16)
        ensures
            r == self.spec_sensitivity(),
    {
        match self {
            AccelRange::G2 => 16384,
            AccelRange::G4 => 8192,
            AccelRange::G8 => 4096,
            AccelRange::G16 => 2048,
        }
    }
}

impl From<u8> for AccelRange {
    /// Decode a bit pattern, clamping undefined patterns to a default.
    fn from(range: u8) -> (r: AccelRange) {
        if range == 0 {
            AccelRange::G2
        } else if range == 1 {
            AccelRange::G4
        } else if range == 2 {
            AccelRange::G8
        } else if range == 3 {
            AccelRange::G16
        } else {
            AccelRange::G2
        }
    }
}

impl vstd::std_specs::convert::FromSpecImpl<u8> for AccelRange {
    open spec fn obeys_from_spec() -> bool {
        true
    }

    open spec fn from_spec(range: u8) -> AccelRange {
        AccelRange::spec_from(range)
    }
}

/// Gyroscope full-scale range. Each range carries a fixed sensitivity
/// divisor in LSB per degree per second.
#[derive(Debug, Eq, PartialEq, Copy, Clone, Structural)]
pub enum GyroRange {
    /// ±250 degrees per second.
    D250,
    /// ±500 degrees per second.
    D500,
    /// ±1000 degrees per second.
    D1000,
    /// ±2000 degrees per second.
    D2000,
}

impl GyroRange {
    /// The bit pattern of this range, one pattern per variant.
    pub open spec fn spec_encode(self) -> u8 {
        match self {
            GyroRange::D250 => 0,
            GyroRange::D500 => 1,
            GyroRange::D1000 => 2,
            GyroRange::D2000 => 3,
        }
    }

    /// Encode this range as its bit pattern.
    #[verifier::when_used_as_spec(spec_encode)]
    pub fn encode(self) -> (r: u8)
        ensures
            r == self.spec_encode(),
    {
        match self {
            GyroRange::D250 => 0,
            GyroRange::D500 => 1,
            GyroRange::D1000 => 2,
            GyroRange::D2000 => 3,
        }
    }

    /// The range a bit pattern decodes to. Decoding is total: an
    /// undefined pattern clamps to the ±250 degrees per second default.
    pub open spec fn spec_from(range: u8) -> GyroRange {
        if range == 0 {
            GyroRange::D250
        } else if range == 1 {
            GyroRange::D500
        } else if range == 2 {
            GyroRange::D1000
        } else if range == 3 {
            GyroRange::D2000
        } else {
            GyroRange::D250
        }
    }

    /// The sensitivity divisor of this range, in tenths of an LSB per
    /// degree per second (131.0, 65.5, 32.8 and 16.4 LSB respectively).
    pub open spec fn spec_sensitivity_tenths(&self) -> u16 {
        match self {
            GyroRange::D250 => 1310,
            GyroRange::D500 => 655,
            GyroRange::D1000 => 328,
            GyroRange::D2000 => 164,
        }
    }

    /// Sensitivity divisor of this range, in tenths of an LSB per degree
    /// per second.
    #[verifier::when_used_as_spec(spec_sensitivity_tenths)]
    pub fn sensitivity_tenths(&self) -> (r: u16)
        ensures
            r == self.spec_sensitivity_tenths(),
    {
        match self {
            GyroRange::D250 => 1310,
            GyroRange::D500 => 655,
            GyroRange::D1000 => 328,
            GyroRange::D2000 => 164,
        }
    }
}

impl From<u8> for GyroRange {
    /// Decode a bit pattern, clamping undefined patterns to a default.
    fn from(range: u8) -> (r: GyroRange) {
        if range == 0 {
            GyroRange::D250
        } else if range == 1 {
            GyroRange::D500
        } else if range == 2 {
            GyroRange::D1000
        } else if range == 3 {
            GyroRange::D2000
        } else {
            GyroRange::D250
        }
    }
}

impl vstd::std_specs::convert::FromSpecImpl<u8> for GyroRange {
    open spec fn obeys_from_spec() -> bool {
        true
    }

    open spec fn from_spec(range: u8) -> GyroRange {
        GyroRange::spec_from(range)
    }
}

/// Decoding the pattern a clock source encodes to yields that clock
/// source again, for every defined variant.
pub proof fn lemma_clksel_round_trip(v: CLKSEL)
    ensures
        CLKSEL::spec_from(v.spec_encode()) == v,
{
}

/// Decoding the pattern an accelerometer range encodes to yields that
/// range again, for every defined variant.
pub proof fn lemma_accel_range_round_trip(v: AccelRange)
    ensures
        AccelRange::spec_from(v.spec_encode()) == v,
{
}

/// Decoding the pattern a gyroscope range encodes to yields that range
/// again, for every defined variant.
pub proof fn lemma_gyro_range_round_trip(v: GyroRange)
    ensures
        GyroRange::spec_from(v.spec_encode()) == v,
{
}

/// Encoding the clock source a pattern decodes to yields that pattern
/// again, for every pattern a three-bit field can hold.
pub proof fn lemma_clksel_encode_decode(x: u8)
    requires
        x <= 7,
    ensures
        CLKSEL::spec_from(x).spec_encode() == x,
{
}

/// Encoding the accelerometer range a pattern decodes to yields that
/// pattern again, for every pattern a two-bit field can hold.
pub proof fn lemma_accel_range_encode_decode(x: u8)
    requires
        x <= 3,
    ensures
        AccelRange::spec_from(x).spec_encode() == x,
{
}

/// Encoding the gyroscope range a pattern decodes to yields that
/// pattern again, for every pattern a two-bit field can hold.
pub proof fn lemma_gyro_range_encode_decode(x: u8)
    requires
        x <= 3,
    ensures
        GyroRange::spec_from(x).spec_encode() == x,
{
}

} // verus!

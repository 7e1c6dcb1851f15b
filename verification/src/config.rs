//! Filter bandwidth configuration values.
//!
//! Each family is a closed set of options mapped one to one to a sparse
//! set of bit patterns. Encoding is total; decoding is partial and
//! rejects any pattern outside the defined table with
//! [`SensorError::InvalidDiscriminant`], never clamping to a default.

use vstd::prelude::*;

use crate::error::SensorError;

verus! {

/// Accelerometer filter bandwidth selection values. The pattern is the
/// low pass filter configuration in bits 2:0 plus the filter bypass bit
/// at bit 3.
#[derive(Clone, Copy, Debug, PartialEq, Eq, Structural)]
pub enum AccelBw {
    /// 1046 Hz, the filter bypassed.
    Hz1046,
    /// 218.1 Hz.
    Hz218,
    /// 99 Hz.
    Hz99,
    /// 44.8 Hz.
    Hz45,
    /// 21.2 Hz.
    Hz21,
    /// 10.2 Hz.
    Hz10,
    /// 5.1 Hz.
    Hz5,
    /// 420 Hz.
    Hz420,
}

impl AccelBw {
    /// The bit pattern of this bandwidth, one pattern per variant.
    pub open spec fn spec_bits(self) -> u8 {
        match self {
            AccelBw::Hz1046 => 0b1000,
            AccelBw::Hz218 => 0b0000,
            AccelBw::Hz99 => 0b0010,
            AccelBw::Hz45 => 0b0011,
            AccelBw::Hz21 => 0b0100,
            AccelBw::Hz10 => 0b0101,
            AccelBw::Hz5 => 0b0110,
            AccelBw::Hz420 => 0b0111,
        }
    }

    /// Bit pattern of this bandwidth, shifted to its field position.
    #[verifier::when_used_as_spec(spec_bits)]
    pub fn bits(self) -> (r: u8)
        ensures
            r == self.spec_bits(),
    {
        match self {
            AccelBw::Hz1046 => 0b1000,
            AccelBw::Hz218 => 0b0000,
            AccelBw::Hz99 => 0b0010,
            AccelBw::Hz45 => 0b0011,
            AccelBw::Hz21 => 0b0100,
            AccelBw::Hz10 => 0b0101,
            AccelBw::Hz5 => 0b0110,
            AccelBw::Hz420 => 0b0111,
        }
    }

    /// The bandwidth a bit pattern decodes to, or
    /// [`SensorError::InvalidDiscriminant`] for a pattern outside the
    /// defined table.
    pub open spec fn spec_try_from(value: u8) -> Result<AccelBw, SensorError> {
        if value == 0b1000 {
            Ok(AccelBw::Hz1046)
        } else if value == 0b0000 {
            Ok(AccelBw::Hz218)
        } else if value == 0b0010 {
            Ok(AccelBw::Hz99)
        } else if value == 0b0011 {
            Ok(AccelBw::Hz45)
        } else if value == 0b0100 {
            Ok(AccelBw::Hz21)
        } else if value == 0b0101 {
            Ok(AccelBw::Hz10)
        } else if value == 0b0110 {
            Ok(AccelBw::Hz5)
        } else if value == 0b0111 {
            Ok(AccelBw::Hz420)
        } else {
            Err(SensorError::InvalidDiscriminant)
        }
    }
}

impl Default for AccelBw {
    /// The power-on default bandwidth.
    fn default() -> (r: AccelBw)
        ensures
            r == AccelBw::Hz218,
    {
        AccelBw::Hz218
    }
}

impl core::convert::TryFrom<u8> for AccelBw {
    type Error = SensorError;

    /// Decode a bit pattern; a pattern outside the defined table is
    /// rejected, never clamped.
    fn try_from(value: u8) -> (r: Result<AccelBw, SensorError>) {
        if value == 0b1000 {
            Ok(AccelBw::Hz1046)
        } else if value == 0b0000 {
            Ok(AccelBw::Hz218)
        } else if value == 0b0010 {
            Ok(AccelBw::Hz99)
        } else if value == 0b0011 {
            Ok(AccelBw::Hz45)
        } else if value == 0b0100 {
            Ok(AccelBw::Hz21)
        } else if value == 0b0101 {
            Ok(AccelBw::Hz10)
        } else if value == 0b0110 {
            Ok(AccelBw::Hz5)
        } else if value == 0b0111 {
            Ok(AccelBw::Hz420)
        } else {
            Err(SensorError::InvalidDiscriminant)
        }
    }
}

impl vstd::std_specs::convert::TryFromSpecImpl<u8> for AccelBw {
    open spec fn obeys_try_from_spec() -> bool {
        true
    }

    open spec fn try_from_spec(value: u8) -> Result<AccelBw, SensorError> {
        AccelBw::spec_try_from(value)
    }
}

/// Gyroscope filter bandwidth selection values. The physical pattern
/// spans two registers: the low pass filter configuration (three bits)
/// and the filter bypass selector (two bits), combined as
/// `dlpf | (fchoice << 3)`.
#[derive(Clone, Copy, Debug, PartialEq, Eq, Structural)]
pub enum GyroBw {
    /// 8173 Hz, the filter bypassed.
    Hz8173,
    /// 250 Hz.
    Hz250,
    /// 176 Hz.
    Hz176,
    /// 92 Hz.
    Hz92,
    /// 41 Hz.
    Hz41,
    /// 20 Hz.
    Hz20,
    /// 10 Hz.
    Hz10,
    /// 5 Hz.
    Hz5,
    /// 3281 Hz.
    Hz3281,
}

impl GyroBw {
    /// The bit pattern of this bandwidth, one pattern per variant.
    pub open spec fn spec_bits(self) -> u8 {
        match self {
            GyroBw::Hz8173 => 0b01000,
            GyroBw::Hz250 => 0b00000,
            GyroBw::Hz176 => 0b00001,
            GyroBw::Hz92 => 0b00010,
            GyroBw::Hz41 => 0b00011,
            GyroBw::Hz20 => 0b00100,
            GyroBw::Hz10 => 0b00101,
            GyroBw::Hz5 => 0b00110,
            GyroBw::Hz3281 => 0b00111,
        }
    }

    /// Bit pattern of this bandwidth, as the combined five-bit selector.
    #[verifier::when_used_as_spec(spec_bits)]
    pub fn bits(self) -> (r: u8)
        ensures
            r == self.spec_bits(),
    {
        match self {
            GyroBw::Hz8173 => 0b01000,
            GyroBw::Hz250 => 0b00000,
            GyroBw::Hz176 => 0b00001,
            GyroBw::Hz92 => 0b00010,
            GyroBw::Hz41 => 0b00011,
            GyroBw::Hz20 => 0b00100,
            GyroBw::Hz10 => 0b00101,
            GyroBw::Hz5 => 0b00110,
            GyroBw::Hz3281 => 0b00111,
        }
    }

    /// The bandwidth a combined bit pattern decodes to, or
    /// [`SensorError::InvalidDiscriminant`] for a pattern outside the
    /// defined table.
    pub open spec fn spec_try_from(value: u8) -> Result<GyroBw, SensorError> {
        if value == 0b01000 {
            Ok(GyroBw::Hz8173)
        } else if value == 0b00000 {
            Ok(GyroBw::Hz250)
        } else if value == 0b00001 {
            Ok(GyroBw::Hz176)
        } else if value == 0b00010 {
            Ok(GyroBw::Hz92)
        } else if value == 0b00011 {
            Ok(GyroBw::Hz41)
        } else if value == 0b00100 {
            Ok(GyroBw::Hz20)
        } else if value == 0b00101 {
            Ok(GyroBw::Hz10)
        } else if value == 0b00110 {
            Ok(GyroBw::Hz5)
        } else if value == 0b00111 {
            Ok(GyroBw::Hz3281)
        } else {
            Err(SensorError::InvalidDiscriminant)
        }
    }
}

impl Default for GyroBw {
    /// The power-on default bandwidth.
    fn default() -> (r: GyroBw)
        ensures
            r == GyroBw::Hz3281,
    {
        GyroBw::Hz3281
    }
}

impl core::convert::TryFrom<u8> for GyroBw {
    type Error = SensorError;

    /// Decode a combined bit pattern; a pattern outside the defined
    /// table is rejected, never clamped.
    fn try_from(value: u8) -> (r: Result<GyroBw, SensorError>) {
        if value == 0b01000 {
            Ok(GyroBw::Hz8173)
        } else if value == 0b00000 {
            Ok(GyroBw::Hz250)
        } else if value == 0b00001 {
            Ok(GyroBw::Hz176)
        } else if value == 0b00010 {
            Ok(GyroBw::Hz92)
        } else if value == 0b00011 {
            Ok(GyroBw::Hz41)
        } else if value == 0b00100 {
            Ok(GyroBw::Hz20)
        } else if value == 0b00101 {
            Ok(GyroBw::Hz10)
        } else if value == 0b00110 {
            Ok(GyroBw::Hz5)
        } else if value == 0b00111 {
            Ok(GyroBw::Hz3281)
        } else {
            Err(SensorError::InvalidDiscriminant)
        }
    }
}

impl vstd::std_specs::convert::TryFromSpecImpl<u8> for GyroBw {
    open spec fn obeys_try_from_spec() -> bool {
        true
    }

    open spec fn try_from_spec(value: u8) -> Result<GyroBw, SensorError> {
        GyroBw::spec_try_from(value)
    }
}

/// Decoding the pattern an accelerometer bandwidth encodes to yields
/// that bandwidth again, for every defined variant.
pub proof fn lemma_accel_bw_round_trip(v: AccelBw)
    ensures
        AccelBw::spec_try_from(v.spec_bits()) == Ok::<AccelBw, SensorError>(v),
{
}

/// Decoding the pattern a gyroscope bandwidth encodes to yields that
/// bandwidth again, for every defined variant.
pub proof fn lemma_gyro_bw_round_trip(v: GyroBw)
    ensures
        GyroBw::spec_try_from(v.spec_bits()) == Ok::<GyroBw, SensorError>(v),
{
}

/// An accelerometer bandwidth pattern outside the defined table decodes
/// to [`SensorError::InvalidDiscriminant`], never to a default value.
pub proof fn lemma_accel_bw_invalid(value: u8)
    requires
        forall|v: AccelBw| value != v.spec_bits(),
    ensures
        AccelBw::spec_try_from(value) == Err::<AccelBw, SensorError>(
            SensorError::InvalidDiscriminant,
        ),
{
    assert(value != AccelBw::Hz1046.spec_bits());
    assert(value != AccelBw::Hz218.spec_bits());
    assert(value != AccelBw::Hz99.spec_bits());
    assert(value != AccelBw::Hz45.spec_bits());
    assert(value != AccelBw::Hz21.spec_bits());
    assert(value != AccelBw::Hz10.spec_bits());
    assert(value != AccelBw::Hz5.spec_bits());
    assert(value != AccelBw::Hz420.spec_bits());
}

/// A gyroscope bandwidth pattern outside the defined table decodes to
/// [`SensorError::InvalidDiscriminant`], never to a default value.
pub proof fn lemma_gyro_bw_invalid(value: u8)
    requires
        forall|v: GyroBw| value != v.spec_bits(),
    ensures
        GyroBw::spec_try_from(value) == Err::<GyroBw, SensorError>(
            SensorError::InvalidDiscriminant,
        ),
{
    assert(value != GyroBw::Hz8173.spec_bits());
    assert(value != GyroBw::Hz250.spec_bits());
    assert(value != GyroBw::Hz176.spec_bits());
    assert(value != GyroBw::Hz92.spec_bits());
    assert(value != GyroBw::Hz41.spec_bits());
    assert(value != GyroBw::Hz20.spec_bits());
    assert(value != GyroBw::Hz10.spec_bits());
    assert(value != GyroBw::Hz5.spec_bits());
    assert(value != GyroBw::Hz3281.spec_bits());
}

/// Encoding the accelerometer bandwidth a pattern decodes to yields that
/// pattern again, for every pattern in the defined table.
pub proof fn lemma_accel_bw_encode_decode(x: u8)
    requires
        AccelBw::spec_try_from(x) is Ok,
    ensures
        AccelBw::spec_try_from(x)->Ok_0.spec_bits() == x,
{
}

/// Encoding the gyroscope bandwidth a pattern decodes to yields that
/// pattern again, for every pattern in the defined table.
pub proof fn lemma_gyro_bw_encode_decode(x: u8)
    requires
        GyroBw::spec_try_from(x) is Ok,
    ensures
        GyroBw::spec_try_from(x)->Ok_0.spec_bits() == x,
{
}

} // verus!

//! Error taxonomy of the driver.
//!
//! Every operation that touches the bus returns a `Result`; failures are
//! surfaced to the caller immediately and never retried.

use vstd::prelude::*;

verus! {

/// A failure detected while interpreting bytes read from the device.
#[derive(Clone, Copy, Debug, PartialEq, Eq, Structural)]
pub enum SensorError {
    /// A sparse bit pattern read from hardware matched no defined
    /// configuration value. It is surfaced, never clamped to a default.
    InvalidDiscriminant,
    /// The FIFO returned the hardware's empty-sentinel frame; the caller
    /// should treat this as "try again later".
    NoFifoData,
}

/// All possible errors of the driver.
#[derive(Debug)]
pub enum Mpu6886Error<E> {
    /// A failure of the bus capability, wrapped verbatim.
    I2c(E),
    /// The identity register held this byte instead of the chip's
    /// identity constant.
    InvalidChipId(u8),
    /// A decoding failure, see [`SensorError`].
    SensorError(SensorError),
}

} // verus!

//! The transport capabilities the driver consumes, and an in-memory bus.
//!
//! [`Bus`] is the byte-oriented register transport: the embedding
//! application supplies an implementation that carries the transactions
//! (an I2C peripheral, typically). Its contract models the device as an
//! image of 256 register bytes: a write stores one byte, a read returns
//! consecutive bytes, and a failed transaction leaves the image as it
//! was. Side effects the physical chip attaches to some accesses
//! (latched interrupt bits clearing on read, the FIFO port popping data)
//! are outside this model; the driver documents them where they matter.
//!
//! [`DelayMs`] is the blocking delay provider used during power-up and
//! reset settling; it is assumed non-failing.

use vstd::prelude::*;

verus! {

/// The byte-oriented register bus the driver drives. One instance is
/// assumed to address exactly one device, exclusively and from a single
/// thread, for the instance's lifetime.
pub trait Bus: Sized {
    /// The transport's own error type, surfaced to the caller verbatim.
    type BusErr;

    /// The image of the device's registers as addressed through this
    /// bus: entry `r` models the register at address `r`. The image is
    /// always 256 bytes long. A verified implementation overrides this
    /// with its own model; an implementation left unverified inherits
    /// the empty default, of which the driver's contracts can promise
    /// nothing.
    open spec fn regs(&self) -> Seq<u8> {
        Seq::empty()
    }

    /// Write `value` to the register at address `reg` of the device at
    /// bus address `addr`. On success exactly that register changes; on
    /// failure the image is unchanged and the error is surfaced.
    fn write_reg(&mut self, addr: u8, reg: u8, value: u8) -> (r: Result<(), Self::BusErr>)
        requires
            old(self).regs().len() == 256,
        ensures
            r is Ok ==> final(self).regs() == old(self).regs().update(reg as int, value),
            r is Err ==> final(self).regs() == old(self).regs(),
    ;

    /// Read `len` consecutive register bytes starting at address `reg`
    /// of the device at bus address `addr`. The image is not changed;
    /// on success the returned buffer holds exactly those bytes.
    fn read_regs(&mut self, addr: u8, reg: u8, len: usize) -> (r: Result<Vec<u8>, Self::BusErr>)
        requires
            old(self).regs().len() == 256,
            reg as int + len as int <= 256,
        ensures
            final(self).regs() == old(self).regs(),
            r matches Ok(buf) ==> buf@ == old(self).regs().subrange(
                reg as int,
                reg as int + len as int,
            ),
    ;
}

/// The blocking delay provider used during power-up and reset settling.
/// It is assumed non-failing; a call simply blocks the calling thread.
pub trait DelayMs {
    /// Block the calling thread for at least `ms` milliseconds.
    fn delay_ms(&mut self, ms: u8);
}

/// A delay provider that returns at once, for simulations and tests.
pub struct NoopDelay;

impl DelayMs for NoopDelay {
    fn delay_ms(&mut self, _ms: u8) {
    }
}

/// The error a failing [`MemBus`] transaction returns.
#[derive(Clone, Copy, Debug, PartialEq, Eq, Structural)]
pub struct MemBusError;

/// An in-memory register file implementing [`Bus`]: writes store bytes
/// and reads return them. A fault switch makes every transaction fail,
/// so error paths can be exercised without hardware.
pub struct MemBus {
    store: Vec<u8>,
    failing: bool,
}

impl MemBus {
    /// Whether the fault switch is on.
    pub closed spec fn spec_failing(&self) -> bool {
        self.failing
    }

    /// A register file with every register zero and the fault switch off.
    pub fn new() -> (r: MemBus)
        ensures
            r.regs().len() == 256,
            forall|i: int| 0 <= i < 256 ==> r.regs()[i] == 0,
            !r.spec_failing(),
    {
        let mut store: Vec<u8> = Vec::new();
        let mut i: usize = 0;
        while i < 256
            invariant
                i <= 256,
                store@.len() == i as int,
                forall|j: int| 0 <= j < i as int ==> store@[j] == 0,
            decreases 256 - i,
        {
            store.push(0);
            i = i + 1;
        }
        MemBus { store, failing: false }
    }

    /// Store `value` at register `reg` directly, without a bus
    /// transaction; for staging fixtures.
    pub fn poke(&mut self, reg: u8, value: u8)
        requires
            old(self).regs().len() == 256,
        ensures
            final(self).regs() == old(self).regs().update(reg as int, value),
            final(self).spec_failing() == old(self).spec_failing(),
    {
        self.store.set(reg as usize, value);
    }

    /// Read the byte at register `reg` directly, without a bus
    /// transaction; for observing effects.
    pub fn peek(&self, reg: u8) -> (r: u8)
        requires
            self.regs().len() == 256,
        ensures
            r == self.regs()[reg as int],
    {
        self.store[reg as usize]
    }

    /// Turn the fault switch on or off. While it is on, every bus
    /// transaction fails and leaves the register image unchanged.
    pub fn set_failing(&mut self, failing: bool)
        ensures
            final(self).regs() == old(self).regs(),
            final(self).spec_failing() == failing,
    {
        self.failing = failing;
    }
}

impl Bus for MemBus {
    type BusErr = MemBusError;

    closed spec fn regs(&self) -> Seq<u8> {
        self.store@
    }

    fn write_reg(&mut self, _addr: u8, reg: u8, value: u8) -> (r: Result<(), MemBusError>) {
        if self.failing {
            return Err(MemBusError);
        }
        self.store.set(reg as usize, value);
        Ok(())
    }

    fn read_regs(&mut self, _addr: u8, reg: u8, len: usize) -> (r: Result<Vec<u8>, MemBusError>) {
        if self.failing {
            return Err(MemBusError);
        }
        let mut buf: Vec<u8> = Vec::new();
        let mut i: usize = 0;
        while i < len
            invariant
                i <= len,
                reg as int + len as int <= 256,
                self.regs().len() == 256,
                self == old(self),
                buf@ == self.regs().subrange(reg as int, reg as int + i as int),
            decreases len - i,
        {
            buf.push(self.store[reg as usize + i]);
            i = i + 1;
            proof {
                assert(buf@ =~= self.regs().subrange(reg as int, reg as int + i as int));
            }
        }
        Ok(buf)
    }
}

} // verus!

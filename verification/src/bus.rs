//! The I²C bus as the driver sees it.
//!
//! A bus implementation provides the blocking primitives that the driver
//! uses. Each bus has a history, a specification-only record of every
//! transfer handed to it: the slave address, the bytes sent, the bytes that
//! came back and what the call returned. The primitives' contracts say that
//! a call appends its own transfer to that history, and that a read leaves
//! the length of the caller's buffer unchanged. They describe the calls
//! themselves, not what the device at the other end does with them. They are
//! believed of every implementation: the implementations live outside the
//! verified code, as the users' buses did with `embedded-hal`.

use vstd::prelude::*;

verus! {

/// One transfer handed to the bus: the slave address, the bytes sent, the
/// bytes that came back, and what the bus call returned.
pub enum Transfer<E> {
    /// A plain write.
    Write { device: u8, sent: Seq<u8>, outcome: Result<(), E> },
    /// A write followed by a read.
    WriteRead { device: u8, sent: Seq<u8>, received: Seq<u8>, outcome: Result<(), E> },
    /// A plain read.
    Read { device: u8, received: Seq<u8>, outcome: Result<(), E> },
}

/// A blocking I²C bus.
pub trait I2cBus {
    /// Error reported by the bus.
    type Error;

    /// Every transfer handed to this bus, oldest first.
    ///
    /// The history is a specification-only notion. The default definition
    /// only lets a bus written outside Verus compile; for the generic bus
    /// that the driver is verified against, Verus knows nothing of the
    /// history beyond what the primitives' contracts say.
    open spec fn history(&self) -> Seq<Transfer<Self::Error>> {
        Seq::empty()
    }
}

/// Blocking write of bytes to a slave.
pub trait I2cWrite: I2cBus {
    /// Sends `bytes` to the slave at the 7-bit `address`.
    fn write(&mut self, address: u8, bytes: &[u8]) -> (r: Result<(), Self::Error>)
        ensures
            final(self).history() == old(self).history().push(
                Transfer::Write { device: address, sent: bytes@, outcome: r },
            ),
    ;
}

/// Blocking write followed by a read, in one bus transaction.
pub trait I2cWriteRead: I2cBus {
    /// Sends `bytes` to the slave at the 7-bit `address`, then reads enough
    /// bytes from it to fill `buffer`.
    fn write_read(&mut self, address: u8, bytes: &[u8], buffer: &mut [u8]) -> (r: Result<(), Self::Error>)
        ensures
            final(buffer)@.len() == old(buffer)@.len(),
            final(self).history() == old(self).history().push(
                Transfer::WriteRead {
                    device: address,
                    sent: bytes@,
                    received: final(buffer)@,
                    outcome: r,
                },
            ),
    ;
}

/// Blocking read from a slave.
pub trait I2cRead: I2cBus {
    /// Reads enough bytes from the slave at the 7-bit `address` to fill `buffer`.
    fn read(&mut self, address: u8, buffer: &mut [u8]) -> (r: Result<(), Self::Error>)
        ensures
            final(buffer)@.len() == old(buffer)@.len(),
            final(self).history() == old(self).history().push(
                Transfer::Read { device: address, received: final(buffer)@, outcome: r },
            ),
    ;
}

} // verus!

//! The EEPROM driver: address validation and the framing of each bus transfer.

use core::marker::PhantomData;
use vstd::prelude::*;
use vstd::slice::slice_subrange;

use crate::addr_size::{One, Two};
use crate::address::SlaveAddr;
use crate::bus::{I2cBus, I2cRead, I2cWrite, I2cWriteRead, Transfer};
use crate::error::Error;

verus! {

/// The masks of the memory-address bits that a device takes in its slave
/// address: none, or the lowest one, two or three bits.
pub open spec fn is_devmask(m: u32) -> bool {
    m == 0 || m == 1 || m == 3 || m == 7
}

/// How many memory addresses a one-byte memory address, extended by the
/// slave-address bits that `devmask` keeps, can tell apart.
pub open spec fn one_byte_reach(devmask: u32) -> int {
    (devmask + 1) * 0x100
}

/// How many memory addresses a two-byte memory address, extended by the
/// slave-address bits that `devmask` keeps, can tell apart.
pub open spec fn two_byte_reach(devmask: u32) -> int {
    (devmask + 1) * 0x1_0000
}

/// The memory address as sent on the bus by a device with one-byte addresses.
pub open spec fn one_byte_memaddr(address: u32) -> Seq<u8> {
    seq![(address & 0xff) as u8]
}

/// The memory address as sent on the bus by a device with two-byte addresses:
/// high byte first.
pub open spec fn two_byte_memaddr(address: u32) -> Seq<u8> {
    seq![((address >> 8) & 0xff) as u8, (address & 0xff) as u8]
}

/// What a write returns for what the bus call returned.
pub open spec fn write_result<E>(outcome: Result<(), E>) -> Result<(), Error<E>> {
    match outcome {
        Ok(()) => Ok(()),
        Err(e) => Err(Error::I2C(e)),
    }
}

/// What a one-byte read returns for what the bus call returned and delivered.
pub open spec fn read_result<E>(outcome: Result<(), E>, received: Seq<u8>) -> Result<u8, Error<E>> {
    match outcome {
        Ok(()) => Ok(received[0]),
        Err(e) => Err(Error::I2C(e)),
    }
}

/// `after` is `before` with one plain write of `sent` to `device` added, and
/// `res` is what the driver returns for that write's outcome.
pub open spec fn one_write<E>(
    before: Seq<Transfer<E>>,
    after: Seq<Transfer<E>>,
    device: u8,
    sent: Seq<u8>,
    res: Result<(), Error<E>>,
) -> bool {
    &&& after == before.push(after.last())
    &&& after.last() matches Transfer::Write { device: d, sent: s, outcome }
    &&& d == device
    &&& s == sent
    &&& res == write_result(outcome)
}

/// `after` is `before` with one write-then-read added: `sent` to `device`,
/// then `received` back, whose length is `len`.
pub open spec fn one_write_read<E>(
    before: Seq<Transfer<E>>,
    after: Seq<Transfer<E>>,
    device: u8,
    sent: Seq<u8>,
    len: nat,
) -> bool {
    &&& after == before.push(after.last())
    &&& after.last() matches Transfer::WriteRead { device: d, sent: s, received, .. }
    &&& d == device
    &&& s == sent
    &&& received.len() == len
}

/// EEPROM24X driver
#[derive(Debug, Default)]
pub struct Eeprom24x<I2C, PS, AS> {
    /// The concrete I²C device implementation.
    i2c: I2C,
    /// The I²C device address.
    address: SlaveAddr,
    /// High memory-address bits that are part of the device address.
    devmask: u32,
    /// Number of bytes of the device's memory.
    size: u32,
    /// Page size marker type.
    _ps: PhantomData<PS>,
    /// Address size marker type.
    _as: PhantomData<AS>,
}

impl<I2C, PS, AS> Eeprom24x<I2C, PS, AS> {
    /// The bus the driver owns.
    pub closed spec fn bus(self) -> I2C {
        self.i2c
    }

    /// The slave address the device was configured with.
    pub closed spec fn slave(self) -> SlaveAddr {
        self.address
    }

    /// The memory-address bits that the device takes in its slave address.
    pub closed spec fn devmask(self) -> u32 {
        self.devmask
    }

    /// Number of bytes of the device's memory: the valid memory addresses
    /// are `0..size`.
    pub closed spec fn size(self) -> u32 {
        self.size
    }

    /// The configuration is the same in both drivers.
    pub open spec fn same_device(self, other: Self) -> bool {
        &&& self.slave() == other.slave()
        &&& self.devmask() == other.devmask()
        &&& self.size() == other.size()
    }

    pub(crate) fn new(i2c: I2C, address: SlaveAddr, devmask: u32, size: u32) -> (e: Self)
        ensures
            e.bus() == i2c,
            e.slave() == address,
            e.devmask() == devmask,
            e.size() == size,
    {
        Eeprom24x {
            i2c,
            address,
            devmask,
            size,
            _ps: PhantomData,
            _as: PhantomData,
        }
    }

    /// Destroy driver instance, return I²C bus instance.
    pub fn destroy(self) -> (r: I2C)
        ensures
            r == self.bus(),
    {
        self.i2c
    }

    fn invalid_address(&self, address: u32) -> (r: bool)
        ensures
            r == (address >= self.size()),
    {
        address >= self.size
    }
}

/// Handing transfers to the bus.
impl<I2C, PS, AS> Eeprom24x<I2C, PS, AS> {
    fn send<E>(&mut self, device: u8, bytes: &[u8]) -> (res: Result<(), Error<E>>)
        where I2C: I2cWrite<Error = E>,
        ensures
            final(self).same_device(*old(self)),
            one_write(old(self).bus().history(), final(self).bus().history(), device, bytes@, res),
    {
        let r = self.i2c.write(device, bytes);
        match r {
            Ok(()) => Ok(()),
            Err(e) => Err(Error::I2C(e)),
        }
    }

    fn send_receive<E>(&mut self, device: u8, bytes: &[u8], buffer: &mut [u8]) -> (res: Result<(), Error<E>>)
        where I2C: I2cWriteRead<Error = E>,
        ensures
            final(self).same_device(*old(self)),
            final(buffer)@.len() == old(buffer)@.len(),
            final(self).bus().history() == old(self).bus().history().push(
                Transfer::WriteRead {
                    device,
                    sent: bytes@,
                    received: final(buffer)@,
                    outcome: final(self).bus().history().last()->WriteRead_outcome,
                },
            ),
            res == write_result(final(self).bus().history().last()->WriteRead_outcome),
    {
        let r = self.i2c.write_read(device, bytes, buffer);
        match r {
            Ok(()) => Ok(()),
            Err(e) => Err(Error::I2C(e)),
        }
    }
}

/// Common methods for 1-byte memory addrs
impl<I2C, E, PS> Eeprom24x<I2C, PS, One> where I2C: I2cWrite<Error = E> + I2cWriteRead<Error = E> {
    /// Write a single byte in an address.
    ///
    /// After writing a byte, the EEPROM enters an internally-timed write cycle
    /// to the nonvolatile memory.
    /// During this time all inputs are disabled and the EEPROM will not
    /// respond until the write is complete.
    pub fn write_byte(&mut self, address: u32, data: u8) -> (res: Result<(), Error<E>>)
        ensures
            old(self).byte_write(*final(self), address, data, res),
    {
        if self.invalid_address(address) {
            return Err(Error::InvalidAddr);
        }
        let devaddr = self.address.devaddr(address, self.devmask, 8);
        assert(address & 0xff <= 0xff) by (bit_vector);
        let payload = [(address & 0xff) as u8, data];
        assert(payload@ == one_byte_memaddr(address).push(data));
        self.send(devaddr, &payload)
    }

    /// Read a single byte from an address.
    pub fn read_byte(&mut self, address: u32) -> (res: Result<u8, Error<E>>)
        ensures
            old(self).byte_read(*final(self), address, res),
    {
        if self.invalid_address(address) {
            return Err(Error::InvalidAddr);
        }
        let devaddr = self.address.devaddr(address, self.devmask, 8);
        assert(address & 0xff <= 0xff) by (bit_vector);
        let memaddr = [(address & 0xff) as u8];
        assert(memaddr@ == one_byte_memaddr(address));
        let mut data = [0u8];
        let r = self.send_receive(devaddr, &memaddr, &mut data);
        match r {
            Ok(()) => Ok(data[0]),
            Err(e) => Err(e),
        }
    }

    /// Read starting in an address as many bytes as necessary to fill the data array provided.
    pub fn read_data(&mut self, address: u32, data: &mut [u8]) -> (res: Result<(), Error<E>>)
        ensures
            old(self).data_read(*final(self), address, old(data)@, final(data)@, res),
    {
        if self.invalid_address(address) {
            return Err(Error::InvalidAddr);
        }
        let devaddr = self.address.devaddr(address, self.devmask, 8);
        assert(address & 0xff <= 0xff) by (bit_vector);
        let memaddr = [(address & 0xff) as u8];
        assert(memaddr@ == one_byte_memaddr(address));
        self.send_receive(devaddr, &memaddr, data)
    }
}

/// Common methods for 2-bytes memory addrs
impl<I2C, E, PS> Eeprom24x<I2C, PS, Two> where I2C: I2cWrite<Error = E> + I2cWriteRead<Error = E> {
    /// Write a single byte in an address.
    ///
    /// After writing a byte, the EEPROM enters an internally-timed write cycle
    /// to the nonvolatile memory.
    /// During this time all inputs are disabled and the EEPROM will not
    /// respond until the write is complete.
    pub fn write_byte(&mut self, address: u32, data: u8) -> (res: Result<(), Error<E>>)
        ensures
            old(self).byte_write(*final(self), address, data, res),
    {
        if self.invalid_address(address) {
            return Err(Error::InvalidAddr);
        }
        let devaddr = self.address.devaddr(address, self.devmask, 16);
        assert(address & 0xff <= 0xff && (address >> 8) & 0xff <= 0xff) by (bit_vector);
        let payload = [((address >> 8) & 0xff) as u8, (address & 0xff) as u8, data];
        assert(payload@ == two_byte_memaddr(address).push(data));
        self.send(devaddr, &payload)
    }

    /// Read a single byte from an address.
    pub fn read_byte(&mut self, address: u32) -> (res: Result<u8, Error<E>>)
        ensures
            old(self).byte_read(*final(self), address, res),
    {
        if self.invalid_address(address) {
            return Err(Error::InvalidAddr);
        }
        let devaddr = self.address.devaddr(address, self.devmask, 16);
        assert(address & 0xff <= 0xff && (address >> 8) & 0xff <= 0xff) by (bit_vector);
        let memaddr = [((address >> 8) & 0xff) as u8, (address & 0xff) as u8];
        assert(memaddr@ == two_byte_memaddr(address));
        let mut data = [0u8];
        let r = self.send_receive(devaddr, &memaddr, &mut data);
        match r {
            Ok(()) => Ok(data[0]),
            Err(e) => Err(e),
        }
    }

    /// Read starting in an address as many bytes as necessary to fill the data array provided.
    pub fn read_data(&mut self, address: u32, data: &mut [u8]) -> (res: Result<(), Error<E>>)
        ensures
            old(self).data_read(*final(self), address, old(data)@, final(data)@, res),
    {
        if self.invalid_address(address) {
            return Err(Error::InvalidAddr);
        }
        let devaddr = self.address.devaddr(address, self.devmask, 16);
        assert(address & 0xff <= 0xff && (address >> 8) & 0xff <= 0xff) by (bit_vector);
        let memaddr = [((address >> 8) & 0xff) as u8, (address & 0xff) as u8];
        assert(memaddr@ == two_byte_memaddr(address));
        self.send_receive(devaddr, &memaddr, data)
    }
}

impl<I2C: I2cBus, PS, AS> Eeprom24x<I2C, PS, AS> {
    /// What `read_current_address` returns and leaves behind: one bus read of
    /// one byte from the slave address, whose byte is returned when the bus
    /// succeeded.
    pub open spec fn current_read<E>(self, after: Self, res: Result<u8, Error<E>>) -> bool
        where I2C: I2cBus<Error = E>,
    {
        &&& after.same_device(self)
        &&& after.bus().history() == self.bus().history().push(after.bus().history().last())
        &&& after.bus().history().last() matches Transfer::Read { device, received, outcome }
            && device == self.slave().spec_addr() && received.len() == 1
            && res == read_result(outcome, received)
    }
}

/// Specialization for platforms which implement a plain bus read
impl<I2C, E, PS, AS> Eeprom24x<I2C, PS, AS> where I2C: I2cRead<Error = E> {
    /// Read the contents of the last address accessed during the last read
    /// or write operation, _incremented by one_.
    ///
    /// Note: This may not be available on your platform.
    pub fn read_current_address(&mut self) -> (res: Result<u8, Error<E>>)
        ensures
            old(self).current_read(*final(self), res),
    {
        let mut data = [0u8];
        let device = self.address.addr();
        let r = self.i2c.read(device, &mut data);
        match r {
            Ok(()) => Ok(data[0]),
            Err(e) => Err(Error::I2C(e)),
        }
    }
}

/// Page writes on devices with 1-byte memory addrs
impl<I2C, PS> Eeprom24x<I2C, PS, One> {
    /// The device's memory fits the addresses that its memory-address bytes
    /// and block-select bits can tell apart.
    pub open spec fn well_placed(self) -> bool {
        &&& is_devmask(self.devmask())
        &&& self.size() <= one_byte_reach(self.devmask())
    }
}

impl<I2C: I2cBus, PS> Eeprom24x<I2C, PS, One> {
    /// What `write_byte` of `data` at `address` returns and leaves behind:
    /// an invalid address leaves the driver untouched; otherwise one bus
    /// write carries the memory address and then `data`.
    pub open spec fn byte_write<E>(self, after: Self, address: u32, data: u8, res: Result<(), Error<E>>) -> bool
        where I2C: I2cBus<Error = E>,
    {
        if address >= self.size() {
            res matches Err(Error::InvalidAddr) && after == self
        } else {
            &&& after.same_device(self)
            &&& one_write(
                self.bus().history(),
                after.bus().history(),
                self.slave().spec_devaddr(address, self.devmask(), 8),
                one_byte_memaddr(address).push(data),
                res,
            )
        }
    }

    /// What `read_byte` at `address` returns and leaves behind: an invalid
    /// address leaves the driver untouched; otherwise one bus write-then-read
    /// sends the memory address and reads one byte, which is returned when
    /// the bus succeeded.
    pub open spec fn byte_read<E>(self, after: Self, address: u32, res: Result<u8, Error<E>>) -> bool
        where I2C: I2cBus<Error = E>,
    {
        if address >= self.size() {
            res matches Err(Error::InvalidAddr) && after == self
        } else {
            &&& after.same_device(self)
            &&& one_write_read(
                self.bus().history(),
                after.bus().history(),
                self.slave().spec_devaddr(address, self.devmask(), 8),
                one_byte_memaddr(address),
                1,
            )
            &&& after.bus().history().last() matches Transfer::WriteRead { received, outcome, .. }
                && res == read_result(outcome, received)
        }
    }

    /// What `read_data` at `address` returns and leaves behind, for the
    /// buffer `data` before the call and `filled` after it: the buffer keeps
    /// its length; an invalid address leaves driver and buffer untouched;
    /// otherwise one bus write-then-read sends the memory address and fills
    /// the whole buffer.
    pub open spec fn data_read<E>(
        self,
        after: Self,
        address: u32,
        data: Seq<u8>,
        filled: Seq<u8>,
        res: Result<(), Error<E>>,
    ) -> bool
        where I2C: I2cBus<Error = E>,
    {
        &&& filled.len() == data.len()
        &&& if address >= self.size() {
            res matches Err(Error::InvalidAddr) && after == self && filled == data
        } else {
            &&& after.same_device(self)
            &&& after.bus().history() == self.bus().history().push(
                Transfer::WriteRead {
                    device: self.slave().spec_devaddr(address, self.devmask(), 8),
                    sent: one_byte_memaddr(address),
                    received: filled,
                    outcome: after.bus().history().last()->WriteRead_outcome,
                },
            )
            &&& res == write_result(after.bus().history().last()->WriteRead_outcome)
        }
    }

    /// What a write of `data` from `address`, on a device whose pages hold
    /// `page_size` bytes, returns and leaves behind: an invalid address, an
    /// empty `data` or one longer than a page leaves the driver untouched;
    /// otherwise one bus write carries the memory address and then `data`.
    pub open spec fn page_write<E>(
        self,
        after: Self,
        address: u32,
        data: Seq<u8>,
        page_size: int,
        res: Result<(), Error<E>>,
    ) -> bool where I2C: I2cBus<Error = E> {
        if address >= self.size() {
            res matches Err(Error::InvalidAddr) && after == self
        } else if data.len() == 0 {
            res is Ok && after == self
        } else if data.len() > page_size {
            res matches Err(Error::TooMuchData) && after == self
        } else {
            &&& after.same_device(self)
            &&& one_write(
                self.bus().history(),
                after.bus().history(),
                self.slave().spec_devaddr(address, self.devmask(), 8),
                one_byte_memaddr(address) + data,
                res,
            )
        }
    }

    /// Writes up to a page, framing it in `payload`, which has room for the
    /// memory address and a full page.
    pub(crate) fn write_page_sized<E>(
        &mut self,
        address: u32,
        data: &[u8],
        page_size: usize,
        payload: &mut [u8],
    ) -> (res: Result<(), Error<E>>)
        where I2C: I2cWrite<Error = E>,
        requires
            old(payload)@.len() == page_size + 1,
        ensures
            old(self).page_write(*final(self), address, data@, page_size as int, res),
    {
        if self.invalid_address(address) {
            return Err(Error::InvalidAddr);
        }
        if data.len() == 0 {
            return Ok(());
        }
        if data.len() > page_size {
            // This would actually be supported by the EEPROM but
            // the data would be overwritten
            return Err(Error::TooMuchData);
        }
        let devaddr = self.address.devaddr(address, self.devmask, 8);
        assert(address & 0xff <= 0xff) by (bit_vector);
        payload[0] = (address & 0xff) as u8;
        assert(payload@.take(1) == one_byte_memaddr(address));
        let len = frame_page(payload, 1, data);
        let frame = slice_subrange(payload, 0, len);
        assert(frame@ == one_byte_memaddr(address) + data@);
        self.send(devaddr, frame)
    }
}

/// Page writes on devices with 2-bytes memory addrs
impl<I2C, PS> Eeprom24x<I2C, PS, Two> {
    /// The device's memory fits the addresses that its memory-address bytes
    /// and block-select bits can tell apart.
    pub open spec fn well_placed(self) -> bool {
        &&& is_devmask(self.devmask())
        &&& self.size() <= two_byte_reach(self.devmask())
    }
}

impl<I2C: I2cBus, PS> Eeprom24x<I2C, PS, Two> {
    /// What `write_byte` of `data` at `address` returns and leaves behind:
    /// an invalid address leaves the driver untouched; otherwise one bus
    /// write carries the memory address and then `data`.
    pub open spec fn byte_write<E>(self, after: Self, address: u32, data: u8, res: Result<(), Error<E>>) -> bool
        where I2C: I2cBus<Error = E>,
    {
        if address >= self.size() {
            res matches Err(Error::InvalidAddr) && after == self
        } else {
            &&& after.same_device(self)
            &&& one_write(
                self.bus().history(),
                after.bus().history(),
                self.slave().spec_devaddr(address, self.devmask(), 16),
                two_byte_memaddr(address).push(data),
                res,
            )
        }
    }

    /// What `read_byte` at `address` returns and leaves behind: an invalid
    /// address leaves the driver untouched; otherwise one bus write-then-read
    /// sends the memory address and reads one byte, which is returned when
    /// the bus succeeded.
    pub open spec fn byte_read<E>(self, after: Self, address: u32, res: Result<u8, Error<E>>) -> bool
        where I2C: I2cBus<Error = E>,
    {
        if address >= self.size() {
            res matches Err(Error::InvalidAddr) && after == self
        } else {
            &&& after.same_device(self)
            &&& one_write_read(
                self.bus().history(),
                after.bus().history(),
                self.slave().spec_devaddr(address, self.devmask(), 16),
                two_byte_memaddr(address),
                1,
            )
            &&& after.bus().history().last() matches Transfer::WriteRead { received, outcome, .. }
                && res == read_result(outcome, received)
        }
    }

    /// What `read_data` at `address` returns and leaves behind, for the
    /// buffer `data` before the call and `filled` after it: the buffer keeps
    /// its length; an invalid address leaves driver and buffer untouched;
    /// otherwise one bus write-then-read sends the memory address and fills
    /// the whole buffer.
    pub open spec fn data_read<E>(
        self,
        after: Self,
        address: u32,
        data: Seq<u8>,
        filled: Seq<u8>,
        res: Result<(), Error<E>>,
    ) -> bool
        where I2C: I2cBus<Error = E>,
    {
        &&& filled.len() == data.len()
        &&& if address >= self.size() {
            res matches Err(Error::InvalidAddr) && after == self && filled == data
        } else {
            &&& after.same_device(self)
            &&& after.bus().history() == self.bus().history().push(
                Transfer::WriteRead {
                    device: self.slave().spec_devaddr(address, self.devmask(), 16),
                    sent: two_byte_memaddr(address),
                    received: filled,
                    outcome: after.bus().history().last()->WriteRead_outcome,
                },
            )
            &&& res == write_result(after.bus().history().last()->WriteRead_outcome)
        }
    }

    /// What a write of `data` from `address`, on a device whose pages hold
    /// `page_size` bytes, returns and leaves behind: an invalid address, an
    /// empty `data` or one longer than a page leaves the driver untouched;
    /// otherwise one bus write carries the memory address and then `data`.
    pub open spec fn page_write<E>(
        self,
        after: Self,
        address: u32,
        data: Seq<u8>,
        page_size: int,
        res: Result<(), Error<E>>,
    ) -> bool where I2C: I2cBus<Error = E> {
        if address >= self.size() {
            res matches Err(Error::InvalidAddr) && after == self
        } else if data.len() == 0 {
            res is Ok && after == self
        } else if data.len() > page_size {
            res matches Err(Error::TooMuchData) && after == self
        } else {
            &&& after.same_device(self)
            &&& one_write(
                self.bus().history(),
                after.bus().history(),
                self.slave().spec_devaddr(address, self.devmask(), 16),
                two_byte_memaddr(address) + data,
                res,
            )
        }
    }

    /// Writes up to a page, framing it in `payload`, which has room for the
    /// memory address and a full page.
    pub(crate) fn write_page_sized<E>(
        &mut self,
        address: u32,
        data: &[u8],
        page_size: usize,
        payload: &mut [u8],
    ) -> (res: Result<(), Error<E>>)
        where I2C: I2cWrite<Error = E>,
        requires
            old(payload)@.len() == page_size + 2,
        ensures
            old(self).page_write(*final(self), address, data@, page_size as int, res),
    {
        if self.invalid_address(address) {
            return Err(Error::InvalidAddr);
        }
        if data.len() == 0 {
            return Ok(());
        }
        if data.len() > page_size {
            // This would actually be supported by the EEPROM but
            // the data would be overwritten
            return Err(Error::TooMuchData);
        }
        let devaddr = self.address.devaddr(address, self.devmask, 16);
        assert(address & 0xff <= 0xff && (address >> 8) & 0xff <= 0xff) by (bit_vector);
        payload[0] = ((address >> 8) & 0xff) as u8;
        payload[1] = (address & 0xff) as u8;
        assert(payload@.take(2) == two_byte_memaddr(address));
        let len = frame_page(payload, 2, data);
        let frame = slice_subrange(payload, 0, len);
        assert(frame@ == two_byte_memaddr(address) + data@);
        self.send(devaddr, frame)
    }
}

/// Copies `data` into `payload` behind its first `start` bytes, and returns
/// how many bytes of `payload` are then in use.
fn frame_page(payload: &mut [u8], start: usize, data: &[u8]) -> (len: usize)
    requires
        start + data@.len() <= old(payload)@.len(),
    ensures
        len == start + data@.len(),
        final(payload)@.len() == old(payload)@.len(),
        final(payload)@.take(len as int) == old(payload)@.take(start as int) + data@,
{
    let n = payload.len();
    let mut i: usize = 0;
    while i < data.len()
        invariant
            n == payload@.len(),
            start + data@.len() <= n,
            payload@.len() == old(payload)@.len(),
            i <= data@.len(),
            payload@.take(start + i) == old(payload)@.take(start as int) + data@.take(i as int),
        decreases data@.len() - i,
    {
        let ghost prev = payload@;
        payload[start + i] = data[i];
        assert(payload@.take(start + i + 1) == prev.take(start + i).push(data@[i as int]));
        assert(data@.take(i + 1) == data@.take(i as int).push(data@[i as int]));
        i += 1;
    }
    assert(data@.take(data@.len() as int) == data@);
    start + data.len()
}

} // verus!

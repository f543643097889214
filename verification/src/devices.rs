//! The supported devices: a constructor for each, with the device's memory
//! size, and page writes for each page size.

use vstd::prelude::*;

use crate::addr_size::{One, Two};
use crate::address::SlaveAddr;
use crate::bus::I2cWrite;
use crate::eeprom::Eeprom24x;
use crate::error::Error;
use crate::page_size::{No, B8, B16, B32, B64, B128, B256};

verus! {

/// Specialization for devices without page access (e.g. 24C00)
impl<I2C> Eeprom24x<I2C, No, One> {
    /// Create a new instance of a 24x00 device (e.g. 24C00), which holds 16 bytes
    pub fn new_24x00(i2c: I2C, address: SlaveAddr) -> (e: Self)
        ensures
            e.bus() == i2c,
            e.slave() == address,
            e.devmask() == 0x0,
            e.size() == 16,
            e.well_placed(),
    {
        Self::new(i2c, address, 0x0, 16)
    }
}

/// Specialization for devices with a page size of 8 bytes.
impl<I2C> Eeprom24x<I2C, B8, One> {
    /// Create a new instance of a 24x01 device (e.g. AT24C01), which holds 128 bytes
    pub fn new_24x01(i2c: I2C, address: SlaveAddr) -> (e: Self)
        ensures
            e.bus() == i2c,
            e.slave() == address,
            e.devmask() == 0b000,
            e.size() == 128,
            e.well_placed(),
    {
        Self::new(i2c, address, 0b000, 128)
    }

    /// Create a new instance of a 24x02 device (e.g. AT24C02), which holds 256 bytes
    pub fn new_24x02(i2c: I2C, address: SlaveAddr) -> (e: Self)
        ensures
            e.bus() == i2c,
            e.slave() == address,
            e.devmask() == 0b000,
            e.size() == 256,
            e.well_placed(),
    {
        Self::new(i2c, address, 0b000, 256)
    }
}

/// Specialization for devices with a page size of 16 bytes.
impl<I2C> Eeprom24x<I2C, B16, One> {
    /// Create a new instance of a 24x04 device (e.g. AT24C04), which holds 512 bytes
    pub fn new_24x04(i2c: I2C, address: SlaveAddr) -> (e: Self)
        ensures
            e.bus() == i2c,
            e.slave() == address,
            e.devmask() == 0b001,
            e.size() == 512,
            e.well_placed(),
    {
        Self::new(i2c, address, 0b001, 512)
    }

    /// Create a new instance of a 24x08 device (e.g. AT24C08), which holds 1024 bytes
    pub fn new_24x08(i2c: I2C, address: SlaveAddr) -> (e: Self)
        ensures
            e.bus() == i2c,
            e.slave() == address,
            e.devmask() == 0b011,
            e.size() == 1024,
            e.well_placed(),
    {
        Self::new(i2c, address, 0b011, 1024)
    }

    /// Create a new instance of a 24x16 device (e.g. AT24C16), which holds 2048 bytes
    pub fn new_24x16(i2c: I2C, address: SlaveAddr) -> (e: Self)
        ensures
            e.bus() == i2c,
            e.slave() == address,
            e.devmask() == 0b111,
            e.size() == 2048,
            e.well_placed(),
    {
        Self::new(i2c, address, 0b111, 2048)
    }
}

/// Specialization for devices with a page size of 32 bytes.
impl<I2C> Eeprom24x<I2C, B32, Two> {
    /// Create a new instance of a 24x32 device (e.g. AT24C32), which holds 4096 bytes
    pub fn new_24x32(i2c: I2C, address: SlaveAddr) -> (e: Self)
        ensures
            e.bus() == i2c,
            e.slave() == address,
            e.devmask() == 0b000,
            e.size() == 4096,
            e.well_placed(),
    {
        Self::new(i2c, address, 0b000, 4096)
    }

    /// Create a new instance of a 24x64 device (e.g. AT24C64), which holds 8192 bytes
    pub fn new_24x64(i2c: I2C, address: SlaveAddr) -> (e: Self)
        ensures
            e.bus() == i2c,
            e.slave() == address,
            e.devmask() == 0b000,
            e.size() == 8192,
            e.well_placed(),
    {
        Self::new(i2c, address, 0b000, 8192)
    }
}

/// Specialization for devices with a page size of 64 bytes.
impl<I2C> Eeprom24x<I2C, B64, Two> {
    /// Create a new instance of a 24x128 device (e.g. AT24C128), which holds 16384 bytes
    pub fn new_24x128(i2c: I2C, address: SlaveAddr) -> (e: Self)
        ensures
            e.bus() == i2c,
            e.slave() == address,
            e.devmask() == 0b000,
            e.size() == 16384,
            e.well_placed(),
    {
        Self::new(i2c, address, 0b000, 16384)
    }

    /// Create a new instance of a 24x256 device (e.g. AT24C256), which holds 32768 bytes
    pub fn new_24x256(i2c: I2C, address: SlaveAddr) -> (e: Self)
        ensures
            e.bus() == i2c,
            e.slave() == address,
            e.devmask() == 0b000,
            e.size() == 32768,
            e.well_placed(),
    {
        Self::new(i2c, address, 0b000, 32768)
    }
}

/// Specialization for devices with a page size of 128 bytes.
impl<I2C> Eeprom24x<I2C, B128, Two> {
    /// Create a new instance of a 24x512 device (e.g. AT24C512), which holds 65536 bytes
    pub fn new_24x512(i2c: I2C, address: SlaveAddr) -> (e: Self)
        ensures
            e.bus() == i2c,
            e.slave() == address,
            e.devmask() == 0b000,
            e.size() == 65536,
            e.well_placed(),
    {
        Self::new(i2c, address, 0b000, 65536)
    }
}

/// Specialization for devices with a page size of 256 bytes.
impl<I2C> Eeprom24x<I2C, B256, Two> {
    /// Create a new instance of a 24xM01 device (e.g. AT24CM01), which holds 131072 bytes
    pub fn new_24xm01(i2c: I2C, address: SlaveAddr) -> (e: Self)
        ensures
            e.bus() == i2c,
            e.slave() == address,
            e.devmask() == 0b001,
            e.size() == 131072,
            e.well_placed(),
    {
        Self::new(i2c, address, 0b001, 131072)
    }

    /// Create a new instance of a 24xM02 device (e.g. AT24CM02), which holds 262144 bytes
    pub fn new_24xm02(i2c: I2C, address: SlaveAddr) -> (e: Self)
        ensures
            e.bus() == i2c,
            e.slave() == address,
            e.devmask() == 0b011,
            e.size() == 262144,
            e.well_placed(),
    {
        Self::new(i2c, address, 0b011, 262144)
    }
}

impl<I2C, AS> Eeprom24x<I2C, B8, AS> {
    /// Number of bytes in one page of the device.
    pub open spec fn page_size() -> int {
        8
    }
}

impl<I2C, AS> Eeprom24x<I2C, B16, AS> {
    /// Number of bytes in one page of the device.
    pub open spec fn page_size() -> int {
        16
    }
}

impl<I2C, AS> Eeprom24x<I2C, B32, AS> {
    /// Number of bytes in one page of the device.
    pub open spec fn page_size() -> int {
        32
    }
}

impl<I2C, AS> Eeprom24x<I2C, B64, AS> {
    /// Number of bytes in one page of the device.
    pub open spec fn page_size() -> int {
        64
    }
}

impl<I2C, AS> Eeprom24x<I2C, B128, AS> {
    /// Number of bytes in one page of the device.
    pub open spec fn page_size() -> int {
        128
    }
}

impl<I2C, AS> Eeprom24x<I2C, B256, AS> {
    /// Number of bytes in one page of the device.
    pub open spec fn page_size() -> int {
        256
    }
}

impl<I2C, E> Eeprom24x<I2C, B8, One> where I2C: I2cWrite<Error = E> {
    /// Write up to a page starting in an address.
    ///
    /// The maximum amount of data that can be written depends on the page
    /// size of the device. If too much data is passed, the error
    /// `Error::TooMuchData` will be returned.
    ///
    /// After writing a byte, the EEPROM enters an internally-timed write cycle
    /// to the nonvolatile memory.
    /// During this time all inputs are disabled and the EEPROM will not
    /// respond until the write is complete.
    pub fn write_page(&mut self, address: u32, data: &[u8]) -> (res: Result<(), Error<E>>)
        ensures
            old(self).page_write(*final(self), address, data@, Self::page_size(), res),
    {
        let mut payload = [0u8; 9];
        self.write_page_sized(address, data, 8, &mut payload)
    }
}

impl<I2C, E> Eeprom24x<I2C, B8, Two> where I2C: I2cWrite<Error = E> {
    /// Write up to a page starting in an address.
    ///
    /// The maximum amount of data that can be written depends on the page
    /// size of the device. If too much data is passed, the error
    /// `Error::TooMuchData` will be returned.
    ///
    /// After writing a byte, the EEPROM enters an internally-timed write cycle
    /// to the nonvolatile memory.
    /// During this time all inputs are disabled and the EEPROM will not
    /// respond until the write is complete.
    pub fn write_page(&mut self, address: u32, data: &[u8]) -> (res: Result<(), Error<E>>)
        ensures
            old(self).page_write(*final(self), address, data@, Self::page_size(), res),
    {
        let mut payload = [0u8; 10];
        self.write_page_sized(address, data, 8, &mut payload)
    }
}

impl<I2C, E> Eeprom24x<I2C, B16, One> where I2C: I2cWrite<Error = E> {
    /// Write up to a page starting in an address.
    ///
    /// The maximum amount of data that can be written depends on the page
    /// size of the device. If too much data is passed, the error
    /// `Error::TooMuchData` will be returned.
    ///
    /// After writing a byte, the EEPROM enters an internally-timed write cycle
    /// to the nonvolatile memory.
    /// During this time all inputs are disabled and the EEPROM will not
    /// respond until the write is complete.
    pub fn write_page(&mut self, address: u32, data: &[u8]) -> (res: Result<(), Error<E>>)
        ensures
            old(self).page_write(*final(self), address, data@, Self::page_size(), res),
    {
        let mut payload = [0u8; 17];
        self.write_page_sized(address, data, 16, &mut payload)
    }
}

impl<I2C, E> Eeprom24x<I2C, B16, Two> where I2C: I2cWrite<Error = E> {
    /// Write up to a page starting in an address.
    ///
    /// The maximum amount of data that can be written depends on the page
    /// size of the device. If too much data is passed, the error
    /// `Error::TooMuchData` will be returned.
    ///
    /// After writing a byte, the EEPROM enters an internally-timed write cycle
    /// to the nonvolatile memory.
    /// During this time all inputs are disabled and the EEPROM will not
    /// respond until the write is complete.
    pub fn write_page(&mut self, address: u32, data: &[u8]) -> (res: Result<(), Error<E>>)
        ensures
            old(self).page_write(*final(self), address, data@, Self::page_size(), res),
    {
        let mut payload = [0u8; 18];
        self.write_page_sized(address, data, 16, &mut payload)
    }
}

impl<I2C, E> Eeprom24x<I2C, B32, One> where I2C: I2cWrite<Error = E> {
    /// Write up to a page starting in an address.
    ///
    /// The maximum amount of data that can be written depends on the page
    /// size of the device. If too much data is passed, the error
    /// `Error::TooMuchData` will be returned.
    ///
    /// After writing a byte, the EEPROM enters an internally-timed write cycle
    /// to the nonvolatile memory.
    /// During this time all inputs are disabled and the EEPROM will not
    /// respond until the write is complete.
    pub fn write_page(&mut self, address: u32, data: &[u8]) -> (res: Result<(), Error<E>>)
        ensures
            old(self).page_write(*final(self), address, data@, Self::page_size(), res),
    {
        let mut payload = [0u8; 33];
        self.write_page_sized(address, data, 32, &mut payload)
    }
}

impl<I2C, E> Eeprom24x<I2C, B32, Two> where I2C: I2cWrite<Error = E> {
    /// Write up to a page starting in an address.
    ///
    /// The maximum amount of data that can be written depends on the page
    /// size of the device. If too much data is passed, the error
    /// `Error::TooMuchData` will be returned.
    ///
    /// After writing a byte, the EEPROM enters an internally-timed write cycle
    /// to the nonvolatile memory.
    /// During this time all inputs are disabled and the EEPROM will not
    /// respond until the write is complete.
    pub fn write_page(&mut self, address: u32, data: &[u8]) -> (res: Result<(), Error<E>>)
        ensures
            old(self).page_write(*final(self), address, data@, Self::page_size(), res),
    {
        let mut payload = [0u8; 34];
        self.write_page_sized(address, data, 32, &mut payload)
    }
}

impl<I2C, E> Eeprom24x<I2C, B64, One> where I2C: I2cWrite<Error = E> {
    /// Write up to a page starting in an address.
    ///
    /// The maximum amount of data that can be written depends on the page
    /// size of the device. If too much data is passed, the error
    /// `Error::TooMuchData` will be returned.
    ///
    /// After writing a byte, the EEPROM enters an internally-timed write cycle
    /// to the nonvolatile memory.
    /// During this time all inputs are disabled and the EEPROM will not
    /// respond until the write is complete.
    pub fn write_page(&mut self, address: u32, data: &[u8]) -> (res: Result<(), Error<E>>)
        ensures
            old(self).page_write(*final(self), address, data@, Self::page_size(), res),
    {
        let mut payload = [0u8; 65];
        self.write_page_sized(address, data, 64, &mut payload)
    }
}

impl<I2C, E> Eeprom24x<I2C, B64, Two> where I2C: I2cWrite<Error = E> {
    /// Write up to a page starting in an address.
    ///
    /// The maximum amount of data that can be written depends on the page
    /// size of the device. If too much data is passed, the error
    /// `Error::TooMuchData` will be returned.
    ///
    /// After writing a byte, the EEPROM enters an internally-timed write cycle
    /// to the nonvolatile memory.
    /// During this time all inputs are disabled and the EEPROM will not
    /// respond until the write is complete.
    pub fn write_page(&mut self, address: u32, data: &[u8]) -> (res: Result<(), Error<E>>)
        ensures
            old(self).page_write(*final(self), address, data@, Self::page_size(), res),
    {
        let mut payload = [0u8; 66];
        self.write_page_sized(address, data, 64, &mut payload)
    }
}

impl<I2C, E> Eeprom24x<I2C, B128, One> where I2C: I2cWrite<Error = E> {
    /// Write up to a page starting in an address.
    ///
    /// The maximum amount of data that can be written depends on the page
    /// size of the device. If too much data is passed, the error
    /// `Error::TooMuchData` will be returned.
    ///
    /// After writing a byte, the EEPROM enters an internally-timed write cycle
    /// to the nonvolatile memory.
    /// During this time all inputs are disabled and the EEPROM will not
    /// respond until the write is complete.
    pub fn write_page(&mut self, address: u32, data: &[u8]) -> (res: Result<(), Error<E>>)
        ensures
            old(self).page_write(*final(self), address, data@, Self::page_size(), res),
    {
        let mut payload = [0u8; 129];
        self.write_page_sized(address, data, 128, &mut payload)
    }
}

impl<I2C, E> Eeprom24x<I2C, B128, Two> where I2C: I2cWrite<Error = E> {
    /// Write up to a page starting in an address.
    ///
    /// The maximum amount of data that can be written depends on the page
    /// size of the device. If too much data is passed, the error
    /// `Error::TooMuchData` will be returned.
    ///
    /// After writing a byte, the EEPROM enters an internally-timed write cycle
    /// to the nonvolatile memory.
    /// During this time all inputs are disabled and the EEPROM will not
    /// respond until the write is complete.
    pub fn write_page(&mut self, address: u32, data: &[u8]) -> (res: Result<(), Error<E>>)
        ensures
            old(self).page_write(*final(self), address, data@, Self::page_size(), res),
    {
        let mut payload = [0u8; 130];
        self.write_page_sized(address, data, 128, &mut payload)
    }
}

impl<I2C, E> Eeprom24x<I2C, B256, One> where I2C: I2cWrite<Error = E> {
    /// Write up to a page starting in an address.
    ///
    /// The maximum amount of data that can be written depends on the page
    /// size of the device. If too much data is passed, the error
    /// `Error::TooMuchData` will be returned.
    ///
    /// After writing a byte, the EEPROM enters an internally-timed write cycle
    /// to the nonvolatile memory.
    /// During this time all inputs are disabled and the EEPROM will not
    /// respond until the write is complete.
    pub fn write_page(&mut self, address: u32, data: &[u8]) -> (res: Result<(), Error<E>>)
        ensures
            old(self).page_write(*final(self), address, data@, Self::page_size(), res),
    {
        let mut payload = [0u8; 257];
        self.write_page_sized(address, data, 256, &mut payload)
    }
}

impl<I2C, E> Eeprom24x<I2C, B256, Two> where I2C: I2cWrite<Error = E> {
    /// Write up to a page starting in an address.
    ///
    /// The maximum amount of data that can be written depends on the page
    /// size of the device. If too much data is passed, the error
    /// `Error::TooMuchData` will be returned.
    ///
    /// After writing a byte, the EEPROM enters an internally-timed write cycle
    /// to the nonvolatile memory.
    /// During this time all inputs are disabled and the EEPROM will not
    /// respond until the write is complete.
    pub fn write_page(&mut self, address: u32, data: &[u8]) -> (res: Result<(), Error<E>>)
        ensures
            old(self).page_write(*final(self), address, data@, Self::page_size(), res),
    {
        let mut payload = [0u8; 258];
        self.write_page_sized(address, data, 256, &mut payload)
    }
}

} // verus!

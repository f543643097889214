//! Slave addresses of the device on the I²C bus.

use vstd::prelude::*;

verus! {

/// The 7-bit address that the devices answer on when A2, A1 and A0 are tied low.
pub const DEFAULT_ADDRESS: u8 = 0b101_0000;

/// Possible slave addresses
#[derive(Debug, Clone, Copy)]
pub enum SlaveAddr {
    /// Default slave address
    Default,
    /// Alternative slave address providing bit values for A2, A1 and A0
    Alternative(bool, bool, bool),
}

/// The value of one address pin as a number.
pub open spec fn pin(b: bool) -> int {
    if b { 1 } else { 0 }
}

impl SlaveAddr {
    /// The 7-bit bus address selected by the pins: the default address with
    /// A2, A1 and A0 as its three lowest bits.
    pub open spec fn spec_addr(self) -> u8 {
        match self {
            SlaveAddr::Default => DEFAULT_ADDRESS,
            SlaveAddr::Alternative(a2, a1, a0) => (DEFAULT_ADDRESS + 4 * pin(a2) + 2 * pin(a1)
                + pin(a0)) as u8,
        }
    }

    /// Get slave address as u8
    pub fn addr(self) -> (r: u8)
        ensures
            r == self.spec_addr(),
    {
        match self {
            SlaveAddr::Default => DEFAULT_ADDRESS,
            SlaveAddr::Alternative(a2, a1, a0) => {
                let b2: u8 = a2 as u8;
                let b1: u8 = a1 as u8;
                let b0: u8 = a0 as u8;
                let r: u8 = DEFAULT_ADDRESS | (b2 << 2) | (b1 << 1) | b0;
                assert(r == 0x50u8 + 4 * b2 + 2 * b1 + b0) by (bit_vector)
                    requires
                        r == 0x50u8 | (b2 << 2) | (b1 << 1) | b0,
                        b2 <= 1,
                        b1 <= 1,
                        b0 <= 1,
                ;
                r
            },
        }
    }

    /// The device address that selects the memory block holding `address`:
    /// the slave address with the memory-address bits from `shift` upward,
    /// kept by `devmask`, merged into its low bits.
    pub open spec fn spec_devaddr(self, address: u32, devmask: u32, shift: u32) -> u8 {
        self.spec_addr() | (((address >> shift) & devmask) as u8)
    }

    /// Device address for an access to memory `address`, where the bits of
    /// `address` from `shift` upward that `devmask` keeps select the block.
    pub fn devaddr(self, address: u32, devmask: u32, shift: u32) -> (r: u8)
        requires
            shift < 32,
        ensures
            r == self.spec_devaddr(address, devmask, shift),
    {
        let hi: u8 = ((address >> shift) & devmask) as u8;
        self.addr() | hi
    }
}

impl core::default::Default for SlaveAddr {
    /// Default slave address
    fn default() -> (r: Self)
        ensures
            r == SlaveAddr::Default,
    {
        SlaveAddr::Default
    }
}

} // verus!

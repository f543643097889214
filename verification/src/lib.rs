//! Driver for the 24x series of serial I²C EEPROMs.
//!
//! The driver validates memory addresses against the device's capacity,
//! composes the I²C device address from the slave address pins and the high
//! memory-address bits, and frames the bytes of every bus transfer. The bus
//! itself is reached through the traits of the `bus` module.

pub mod addr_size;
pub mod address;
pub mod bus;
mod devices;
pub mod eeprom;
pub mod error;
pub mod laws;
pub mod page_size;

pub use address::SlaveAddr;
pub use bus::{I2cBus, I2cRead, I2cWrite, I2cWriteRead, Transfer};
pub use eeprom::Eeprom24x;
pub use error::Error;

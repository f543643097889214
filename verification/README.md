# eeprom24x

A driver for the 24x series of serial I²C EEPROMs (24x00 up to 24xM02),
verified with Verus.

- `src/address.rs`: slave addresses and the device address that selects a
  memory block.
- `src/eeprom.rs`: the driver; address validation and the framing of every
  transfer, stated over the history of transfers that the bus received.
- `src/devices.rs`: one constructor per device, with its memory size, and page
  writes per page size.
- `src/bus.rs`: the bus traits the driver calls, with the history each call
  extends.
- `src/laws.rs`: properties of the addressing scheme, and read-back from an
  ideal memory.
- `app/lib.rs`: adapts `embedded-hal` 0.2 blocking I²C buses to the bus traits.

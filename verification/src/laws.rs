//! Properties of the addressing scheme that hold across all inputs.

use vstd::prelude::*;

use crate::addr_size::{One, Two};
use crate::page_size::{B8, B16, B32, B64, B128, B256};
use crate::address::{pin, SlaveAddr};
use crate::bus::{I2cBus, Transfer};
use crate::eeprom::{
    is_devmask, one_byte_memaddr, one_byte_reach, one_write, one_write_read, read_result,
    two_byte_memaddr, two_byte_reach, Eeprom24x,
};
use crate::error::Error;

verus! {

/// With all three address pins low, the alternative address is the default one.
pub proof fn lemma_pins_low_is_default()
    ensures
        SlaveAddr::Alternative(false, false, false).spec_addr() == SlaveAddr::Default.spec_addr(),
{
}

/// The eight settings of the A2, A1 and A0 pins give eight different bus
/// addresses, all in `0b101_0000..=0b101_0111`: up to eight devices can share
/// one bus.
pub proof fn lemma_pins_select_distinct_addresses(
    a2: bool,
    a1: bool,
    a0: bool,
    b2: bool,
    b1: bool,
    b0: bool,
)
    ensures
        0b101_0000 <= SlaveAddr::Alternative(a2, a1, a0).spec_addr() <= 0b101_0111,
        SlaveAddr::Alternative(a2, a1, a0).spec_addr() == SlaveAddr::Alternative(b2, b1, b0).spec_addr()
            <==> (a2 == b2 && a1 == b1 && a0 == b0),
{
    assert(0 <= pin(a2) <= 1 && 0 <= pin(a1) <= 1 && 0 <= pin(a0) <= 1);
    assert(0 <= pin(b2) <= 1 && 0 <= pin(b1) <= 1 && 0 <= pin(b0) <= 1);
}

/// A device that takes no memory-address bits in its slave address is always
/// reached at its plain slave address.
pub proof fn lemma_no_devmask_keeps_slave_address(slave: SlaveAddr, address: u32, shift: u32)
    ensures
        slave.spec_devaddr(address, 0, shift) == slave.spec_addr(),
{
    let a = slave.spec_addr();
    let hi = address >> shift;
    assert(a | ((hi & 0) as u8) == a) by (bit_vector);
}

/// On a device with one-byte memory addresses, the device address and the
/// memory-address byte that the driver sends for a valid `address` give
/// `address` back, provided that the slave address leaves the block-select
/// bits clear (as the default address does): distinct memory addresses reach
/// distinct memory cells.
pub proof fn lemma_one_byte_address_decodes(slave: SlaveAddr, devmask: u32, address: u32)
    requires
        is_devmask(devmask),
        address < one_byte_reach(devmask),
        slave.spec_addr() & (devmask as u8) == 0,
    ensures
        ((((slave.spec_devaddr(address, devmask, 8) & (devmask as u8)) as u32) << 8)
            | (one_byte_memaddr(address)[0] as u32)) == address,
{
    let a = slave.spec_addr();
    let m = devmask;
    let d = slave.spec_devaddr(address, devmask, 8);
    let lo = one_byte_memaddr(address)[0];
    assert(d == a | (((address >> 8) & m) as u8));
    assert(lo == (address & 0xff) as u8);
    assert((((d & (m as u8)) as u32) << 8) | (lo as u32) == address) by (bit_vector)
        requires
            m == 0 || m == 1 || m == 3 || m == 7,
            address < (m + 1) * 0x100,
            a & (m as u8) == 0,
            d == a | (((address >> 8) & m) as u8),
            lo == (address & 0xff) as u8,
    ;
}

/// On a device with two-byte memory addresses, the device address and the two
/// memory-address bytes that the driver sends for a valid `address` give
/// `address` back, provided that the slave address leaves the block-select
/// bits clear (as the default address does).
pub proof fn lemma_two_byte_address_decodes(slave: SlaveAddr, devmask: u32, address: u32)
    requires
        is_devmask(devmask),
        address < two_byte_reach(devmask),
        slave.spec_addr() & (devmask as u8) == 0,
    ensures
        ((((slave.spec_devaddr(address, devmask, 16) & (devmask as u8)) as u32) << 16)
            | ((two_byte_memaddr(address)[0] as u32) << 8) | (two_byte_memaddr(address)[1] as u32))
            == address,
{
    let a = slave.spec_addr();
    let m = devmask;
    let d = slave.spec_devaddr(address, devmask, 16);
    let hi = two_byte_memaddr(address)[0];
    let lo = two_byte_memaddr(address)[1];
    assert(d == a | (((address >> 16) & m) as u8));
    assert(hi == ((address >> 8) & 0xff) as u8);
    assert(lo == (address & 0xff) as u8);
    assert((((d & (m as u8)) as u32) << 16) | ((hi as u32) << 8) | (lo as u32) == address)
        by (bit_vector)
        requires
            m == 0 || m == 1 || m == 3 || m == 7,
            address < (m + 1) * 0x1_0000,
            a & (m as u8) == 0,
            d == a | (((address >> 16) & m) as u8),
            hi == ((address >> 8) & 0xff) as u8,
            lo == (address & 0xff) as u8,
    ;
}

/// Every memory address that a driver with one-byte memory addresses accepts
/// is sent so that it can be read back from the transfer: the device address
/// and memory-address byte decode to it, when the slave address leaves the
/// block-select bits clear.
pub proof fn lemma_accepted_one_byte_address_decodes<I2C, PS>(
    e: Eeprom24x<I2C, PS, One>,
    address: u32,
)
    requires
        e.well_placed(),
        address < e.size(),
        e.slave().spec_addr() & (e.devmask() as u8) == 0,
    ensures
        ((((e.slave().spec_devaddr(address, e.devmask(), 8) & (e.devmask() as u8)) as u32) << 8)
            | (one_byte_memaddr(address)[0] as u32)) == address,
{
    lemma_one_byte_address_decodes(e.slave(), e.devmask(), address);
}

/// Every memory address that a driver with two-byte memory addresses accepts
/// is sent so that it can be read back from the transfer, when the slave
/// address leaves the block-select bits clear.
pub proof fn lemma_accepted_two_byte_address_decodes<I2C, PS>(
    e: Eeprom24x<I2C, PS, Two>,
    address: u32,
)
    requires
        e.well_placed(),
        address < e.size(),
        e.slave().spec_addr() & (e.devmask() as u8) == 0,
    ensures
        ((((e.slave().spec_devaddr(address, e.devmask(), 16) & (e.devmask() as u8)) as u32) << 16)
            | ((two_byte_memaddr(address)[0] as u32) << 8) | (two_byte_memaddr(address)[1] as u32))
            == address,
{
    lemma_two_byte_address_decodes(e.slave(), e.devmask(), address);
}

/// Two different memory addresses that a driver with one-byte memory
/// addresses accepts are sent to different cells: the device address or the
/// memory-address byte differs, when the slave address leaves the
/// block-select bits clear.
pub proof fn lemma_one_byte_addresses_reach_distinct_cells<I2C, PS>(
    e: Eeprom24x<I2C, PS, One>,
    a: u32,
    b: u32,
)
    requires
        e.well_placed(),
        a < e.size(),
        b < e.size(),
        a != b,
        e.slave().spec_addr() & (e.devmask() as u8) == 0,
    ensures
        e.slave().spec_devaddr(a, e.devmask(), 8) != e.slave().spec_devaddr(b, e.devmask(), 8)
            || one_byte_memaddr(a) != one_byte_memaddr(b),
{
    lemma_accepted_one_byte_address_decodes(e, a);
    lemma_accepted_one_byte_address_decodes(e, b);
    if one_byte_memaddr(a) == one_byte_memaddr(b) {
        assert(one_byte_memaddr(a)[0] == one_byte_memaddr(b)[0]);
    }
}

/// Two different memory addresses that a driver with two-byte memory
/// addresses accepts are sent to different cells, when the slave address
/// leaves the block-select bits clear.
pub proof fn lemma_two_byte_addresses_reach_distinct_cells<I2C, PS>(
    e: Eeprom24x<I2C, PS, Two>,
    a: u32,
    b: u32,
)
    requires
        e.well_placed(),
        a < e.size(),
        b < e.size(),
        a != b,
        e.slave().spec_addr() & (e.devmask() as u8) == 0,
    ensures
        e.slave().spec_devaddr(a, e.devmask(), 16) != e.slave().spec_devaddr(b, e.devmask(), 16)
            || two_byte_memaddr(a) != two_byte_memaddr(b),
{
    lemma_accepted_two_byte_address_decodes(e, a);
    lemma_accepted_two_byte_address_decodes(e, b);
    if two_byte_memaddr(a) == two_byte_memaddr(b) {
        assert(two_byte_memaddr(a)[0] == two_byte_memaddr(b)[0]);
        assert(two_byte_memaddr(a)[1] == two_byte_memaddr(b)[1]);
    }
}

/// The byte that an ideal memory holds at the cell that `device` and the
/// memory-address bytes `memaddr` select, after the transfers `h`: the last
/// byte of the latest successful write of one byte to that cell, if any.
pub open spec fn stored_byte<E>(h: Seq<Transfer<E>>, device: u8, memaddr: Seq<u8>) -> Option<u8>
    decreases h.len(),
{
    if h.len() == 0 {
        None
    } else {
        let t = h.last();
        if t is Write && t->Write_device == device && t->Write_outcome is Ok
            && t->Write_sent.len() == memaddr.len() + 1 && t->Write_sent.take(memaddr.len() as int)
            == memaddr {
            Some(t->Write_sent.last())
        } else {
            stored_byte(h.drop_last(), device, memaddr)
        }
    }
}

/// The last transfer of `h`, if it is a successful one-byte write-then-read,
/// delivered what an ideal memory holds at the cell it addressed.
pub open spec fn answered_from_memory<E>(h: Seq<Transfer<E>>) -> bool {
    h.len() > 0 && (h.last() matches Transfer::WriteRead { device, sent, received, outcome }
        ==> (outcome is Ok && received.len() == 1 && stored_byte(h.drop_last(), device, sent) is Some
        ==> received[0] == stored_byte(h.drop_last(), device, sent)->0))
}

/// A byte written with `write_byte` and then read from the same address with
/// `read_byte` comes back, on a bus that answers reads as an ideal memory
/// (one-byte memory addresses). `before`, `written` and `read` are the driver
/// before the write, after it and after the read; the requirements are the
/// two calls' contracts for a valid address, and that both calls succeeded.
pub proof fn lemma_one_byte_written_byte_is_read_back<I2C: I2cBus<Error = E>, PS, E>(
    before: Eeprom24x<I2C, PS, One>,
    written: Eeprom24x<I2C, PS, One>,
    read: Eeprom24x<I2C, PS, One>,
    address: u32,
    data: u8,
    write_res: Result<(), Error<E>>,
    read_res: Result<u8, Error<E>>,
)
    requires
        address < before.size(),
        written.same_device(before),
        one_write(
            before.bus().history(),
            written.bus().history(),
            before.slave().spec_devaddr(address, before.devmask(), 8),
            one_byte_memaddr(address).push(data),
            write_res,
        ),
        write_res is Ok,
        read.same_device(written),
        one_write_read(
            written.bus().history(),
            read.bus().history(),
            written.slave().spec_devaddr(address, written.devmask(), 8),
            one_byte_memaddr(address),
            1,
        ),
        read.bus().history().last() matches Transfer::WriteRead { received, outcome, .. }
            && read_res == read_result(outcome, received),
        read_res is Ok,
        answered_from_memory(read.bus().history()),
    ensures
        read_res == Ok::<u8, Error<E>>(data),
{
    let h1 = written.bus().history();
    let h2 = read.bus().history();
    let m = one_byte_memaddr(address);
    assert(m.push(data).take(m.len() as int) == m);
    assert(h2.drop_last() == h1);
    assert(stored_byte(h1, before.slave().spec_devaddr(address, before.devmask(), 8), m) == Some(data));
}

/// A byte written with `write_byte` and then read from the same address with
/// `read_byte` comes back, on a bus that answers reads as an ideal memory
/// (two-byte memory addresses).
pub proof fn lemma_two_byte_written_byte_is_read_back<I2C: I2cBus<Error = E>, PS, E>(
    before: Eeprom24x<I2C, PS, Two>,
    written: Eeprom24x<I2C, PS, Two>,
    read: Eeprom24x<I2C, PS, Two>,
    address: u32,
    data: u8,
    write_res: Result<(), Error<E>>,
    read_res: Result<u8, Error<E>>,
)
    requires
        address < before.size(),
        written.same_device(before),
        one_write(
            before.bus().history(),
            written.bus().history(),
            before.slave().spec_devaddr(address, before.devmask(), 16),
            two_byte_memaddr(address).push(data),
            write_res,
        ),
        write_res is Ok,
        read.same_device(written),
        one_write_read(
            written.bus().history(),
            read.bus().history(),
            written.slave().spec_devaddr(address, written.devmask(), 16),
            two_byte_memaddr(address),
            1,
        ),
        read.bus().history().last() matches Transfer::WriteRead { received, outcome, .. }
            && read_res == read_result(outcome, received),
        read_res is Ok,
        answered_from_memory(read.bus().history()),
    ensures
        read_res == Ok::<u8, Error<E>>(data),
{
    let h1 = written.bus().history();
    let h2 = read.bus().history();
    let m = two_byte_memaddr(address);
    assert(m.push(data).take(m.len() as int) == m);
    assert(h2.drop_last() == h1);
    assert(stored_byte(h1, before.slave().spec_devaddr(address, before.devmask(), 16), m) == Some(data));
}

/// The alternative slave address is `0b101_0xyz` with A2 as bit 2, A1 as
/// bit 1 and A0 as bit 0: each pin sets exactly its own bit.
pub proof fn lemma_pins_set_their_own_bits(a2: bool, a1: bool, a0: bool)
    ensures
        SlaveAddr::Alternative(a2, a1, a0).spec_addr() & 0xF8 == 0x50,
        SlaveAddr::Alternative(a2, a1, a0).spec_addr() & 4 == (if a2 { 4u8 } else { 0u8 }),
        SlaveAddr::Alternative(a2, a1, a0).spec_addr() & 2 == (if a1 { 2u8 } else { 0u8 }),
        SlaveAddr::Alternative(a2, a1, a0).spec_addr() & 1 == (if a0 { 1u8 } else { 0u8 }),
{
    let x = SlaveAddr::Alternative(a2, a1, a0).spec_addr();
    let b2: u8 = if a2 { 1 } else { 0 };
    let b1: u8 = if a1 { 1 } else { 0 };
    let b0: u8 = if a0 { 1 } else { 0 };
    assert(x == 0x50 + 4 * b2 + 2 * b1 + b0);
    assert({
        &&& x & 0xF8 == 0x50
        &&& x & 4 == 4 * b2
        &&& x & 2 == 2 * b1
        &&& x & 1 == b0
    }) by (bit_vector)
        requires
            x == 0x50 + 4 * b2 + 2 * b1 + b0,
            b2 <= 1,
            b1 <= 1,
            b0 <= 1,
    ;
}

/// The memory address goes on the bus as its low byte (one-byte addresses),
/// or as its second-lowest byte followed by its low byte (two-byte addresses).
pub proof fn lemma_memory_address_bytes(address: u32)
    ensures
        one_byte_memaddr(address) == seq![(address % 0x100) as u8],
        two_byte_memaddr(address) == seq![((address / 0x100) % 0x100) as u8, (address % 0x100) as u8],
{
    assert(address & 0xff == address % 0x100) by (bit_vector);
    assert((address >> 8) & 0xff == (address / 0x100) % 0x100) by (bit_vector);
}

/// A page write on a device with one-byte memory addresses, at a valid
/// address: nothing happens for empty data; `TooMuchData` comes exactly when
/// the data is longer than a page, wherever in the page the address lies;
/// otherwise exactly one write reaches the bus, made of the memory address's
/// low byte followed by the data in its order and nothing else, and the
/// result is what the bus returned.
pub proof fn lemma_one_byte_page_write_sends_address_then_data<I2C: I2cBus<Error = E>, PS, E>(
    before: Eeprom24x<I2C, PS, One>,
    after: Eeprom24x<I2C, PS, One>,
    address: u32,
    data: Seq<u8>,
    page_size: int,
    res: Result<(), Error<E>>,
)
    requires
        page_size >= 1,
        address < before.size(),
        before.page_write(after, address, data, page_size, res),
    ensures
        data.len() == 0 ==> res is Ok && after == before,
        (res matches Err(Error::TooMuchData)) <==> data.len() > page_size,
        res matches Err(Error::InvalidAddr) ==> false,
        1 <= data.len() <= page_size ==> {
            &&& after.same_device(before)
            &&& after.bus().history().len() == before.bus().history().len() + 1
            &&& after.bus().history().take(before.bus().history().len() as int)
                == before.bus().history()
            &&& after.bus().history().last() matches Transfer::Write { device, sent, outcome }
            &&& device == before.slave().spec_devaddr(address, before.devmask(), 8)
            &&& sent.len() == 1 + data.len()
            &&& sent[0] == (address % 0x100) as u8
            &&& forall|i: int| 0 <= i < data.len() ==> #[trigger] sent[1 + i] == data[i]
            &&& (res is Ok <==> outcome is Ok)
            &&& forall|e: E| outcome == Err::<(), E>(e) ==> res == Err::<(), Error<E>>(Error::I2C(e))
        },
{
    lemma_memory_address_bytes(address);
    if 1 <= data.len() <= page_size {
        let h0 = before.bus().history();
        let h1 = after.bus().history();
        assert(h1.take(h0.len() as int) == h0);
        let sent = one_byte_memaddr(address) + data;
        assert forall|i: int| 0 <= i < data.len() implies #[trigger] sent[1 + i] == data[i] by {
            assert(sent[1 + i] == data[i]);
        }
    }
}

/// A page write on a device with two-byte memory addresses, at a valid
/// address: nothing happens for empty data; `TooMuchData` comes exactly when
/// the data is longer than a page, wherever in the page the address lies;
/// otherwise exactly one write reaches the bus, made of the memory address's
/// high and low bytes followed by the data in its order and nothing else,
/// and the result is what the bus returned.
pub proof fn lemma_two_byte_page_write_sends_address_then_data<I2C: I2cBus<Error = E>, PS, E>(
    before: Eeprom24x<I2C, PS, Two>,
    after: Eeprom24x<I2C, PS, Two>,
    address: u32,
    data: Seq<u8>,
    page_size: int,
    res: Result<(), Error<E>>,
)
    requires
        page_size >= 1,
        address < before.size(),
        before.page_write(after, address, data, page_size, res),
    ensures
        data.len() == 0 ==> res is Ok && after == before,
        (res matches Err(Error::TooMuchData)) <==> data.len() > page_size,
        res matches Err(Error::InvalidAddr) ==> false,
        1 <= data.len() <= page_size ==> {
            &&& after.same_device(before)
            &&& after.bus().history().len() == before.bus().history().len() + 1
            &&& after.bus().history().take(before.bus().history().len() as int)
                == before.bus().history()
            &&& after.bus().history().last() matches Transfer::Write { device, sent, outcome }
            &&& device == before.slave().spec_devaddr(address, before.devmask(), 16)
            &&& sent.len() == 2 + data.len()
            &&& sent[0] == ((address / 0x100) % 0x100) as u8
            &&& sent[1] == (address % 0x100) as u8
            &&& forall|i: int| 0 <= i < data.len() ==> #[trigger] sent[2 + i] == data[i]
            &&& (res is Ok <==> outcome is Ok)
            &&& forall|e: E| outcome == Err::<(), E>(e) ==> res == Err::<(), Error<E>>(Error::I2C(e))
        },
{
    lemma_memory_address_bytes(address);
    if 1 <= data.len() <= page_size {
        let h0 = before.bus().history();
        let h1 = after.bus().history();
        assert(h1.take(h0.len() as int) == h0);
        let sent = two_byte_memaddr(address) + data;
        assert forall|i: int| 0 <= i < data.len() implies #[trigger] sent[2 + i] == data[i] by {
            assert(sent[2 + i] == data[i]);
        }
    }
}

/// `write_byte` on a device with one-byte memory addresses: `InvalidAddr`
/// exactly for addresses at or past the device's size, with nothing sent;
/// otherwise exactly one bus write of the memory address followed by the
/// byte, and the result is what the bus returned.
pub proof fn lemma_one_byte_write_sends_address_then_byte<I2C: I2cBus<Error = E>, PS, E>(
    before: Eeprom24x<I2C, PS, One>,
    after: Eeprom24x<I2C, PS, One>,
    address: u32,
    data: u8,
    res: Result<(), Error<E>>,
)
    requires
        before.byte_write(after, address, data, res),
    ensures
        (res matches Err(Error::InvalidAddr)) <==> address >= before.size(),
        address >= before.size() ==> after == before,
        address < before.size() ==> {
            &&& after.same_device(before)
            &&& after.bus().history().len() == before.bus().history().len() + 1
            &&& after.bus().history().take(before.bus().history().len() as int)
                == before.bus().history()
            &&& after.bus().history().last() matches Transfer::Write { device, sent, outcome }
            &&& device == before.slave().spec_devaddr(address, before.devmask(), 8)
            &&& sent == seq![(address % 0x100) as u8].push(data)
            &&& (res is Ok <==> outcome is Ok)
            &&& forall|e: E| outcome == Err::<(), E>(e) ==> res == Err::<(), Error<E>>(Error::I2C(e))
        },
{
    lemma_memory_address_bytes(address);
    if address < before.size() {
        let h0 = before.bus().history();
        assert(after.bus().history().take(h0.len() as int) == h0);
    }
}

/// `read_byte` on a device with one-byte memory addresses: `InvalidAddr`
/// exactly for addresses at or past the device's size, with nothing sent;
/// otherwise exactly one bus write-then-read that sends the memory address
/// and reads one byte, and the result is that byte when the bus succeeded,
/// else the bus's error.
pub proof fn lemma_one_byte_read_returns_received_byte<I2C: I2cBus<Error = E>, PS, E>(
    before: Eeprom24x<I2C, PS, One>,
    after: Eeprom24x<I2C, PS, One>,
    address: u32,
    res: Result<u8, Error<E>>,
)
    requires
        before.byte_read(after, address, res),
    ensures
        (res matches Err(Error::InvalidAddr)) <==> address >= before.size(),
        address >= before.size() ==> after == before,
        address < before.size() ==> {
            &&& after.same_device(before)
            &&& after.bus().history().len() == before.bus().history().len() + 1
            &&& after.bus().history().take(before.bus().history().len() as int)
                == before.bus().history()
            &&& after.bus().history().last() matches Transfer::WriteRead {
                device,
                sent,
                received,
                outcome,
            }
            &&& device == before.slave().spec_devaddr(address, before.devmask(), 8)
            &&& sent == seq![(address % 0x100) as u8]
            &&& received.len() == 1
            &&& (outcome is Ok ==> res == Ok::<u8, Error<E>>(received[0]))
            &&& forall|e: E| outcome == Err::<(), E>(e) ==> res == Err::<u8, Error<E>>(Error::I2C(e))
        },
{
    lemma_memory_address_bytes(address);
    if address < before.size() {
        let h0 = before.bus().history();
        assert(after.bus().history().take(h0.len() as int) == h0);
    }
}

/// `read_data` on a device with one-byte memory addresses, with buffer
/// `data` before the call and `filled` after it: the buffer keeps its length;
/// `InvalidAddr` exactly for addresses at or past the device's size, with
/// nothing sent and the buffer untouched; otherwise exactly one bus
/// write-then-read that sends the memory address and fills the whole buffer,
/// and the result is what the bus returned.
pub proof fn lemma_one_byte_data_read_fills_buffer<I2C: I2cBus<Error = E>, PS, E>(
    before: Eeprom24x<I2C, PS, One>,
    after: Eeprom24x<I2C, PS, One>,
    address: u32,
    data: Seq<u8>,
    filled: Seq<u8>,
    res: Result<(), Error<E>>,
)
    requires
        before.data_read(after, address, data, filled, res),
    ensures
        filled.len() == data.len(),
        (res matches Err(Error::InvalidAddr)) <==> address >= before.size(),
        address >= before.size() ==> after == before && filled == data,
        address < before.size() ==> {
            &&& after.same_device(before)
            &&& after.bus().history().len() == before.bus().history().len() + 1
            &&& after.bus().history().take(before.bus().history().len() as int)
                == before.bus().history()
            &&& after.bus().history().last() matches Transfer::WriteRead {
                device,
                sent,
                received,
                outcome,
            }
            &&& device == before.slave().spec_devaddr(address, before.devmask(), 8)
            &&& sent == seq![(address % 0x100) as u8]
            &&& received == filled
            &&& (res is Ok <==> outcome is Ok)
            &&& forall|e: E| outcome == Err::<(), E>(e) ==> res == Err::<(), Error<E>>(Error::I2C(e))
        },
{
    lemma_memory_address_bytes(address);
    if address < before.size() {
        let h0 = before.bus().history();
        assert(after.bus().history().take(h0.len() as int) == h0);
    }
}

/// `write_byte` on a device with two-byte memory addresses: `InvalidAddr`
/// exactly for addresses at or past the device's size, with nothing sent;
/// otherwise exactly one bus write of the memory address followed by the
/// byte, and the result is what the bus returned.
pub proof fn lemma_two_byte_write_sends_address_then_byte<I2C: I2cBus<Error = E>, PS, E>(
    before: Eeprom24x<I2C, PS, Two>,
    after: Eeprom24x<I2C, PS, Two>,
    address: u32,
    data: u8,
    res: Result<(), Error<E>>,
)
    requires
        before.byte_write(after, address, data, res),
    ensures
        (res matches Err(Error::InvalidAddr)) <==> address >= before.size(),
        address >= before.size() ==> after == before,
        address < before.size() ==> {
            &&& after.same_device(before)
            &&& after.bus().history().len() == before.bus().history().len() + 1
            &&& after.bus().history().take(before.bus().history().len() as int)
                == before.bus().history()
            &&& after.bus().history().last() matches Transfer::Write { device, sent, outcome }
            &&& device == before.slave().spec_devaddr(address, before.devmask(), 16)
            &&& sent == seq![((address / 0x100) % 0x100) as u8, (address % 0x100) as u8].push(data)
            &&& (res is Ok <==> outcome is Ok)
            &&& forall|e: E| outcome == Err::<(), E>(e) ==> res == Err::<(), Error<E>>(Error::I2C(e))
        },
{
    lemma_memory_address_bytes(address);
    if address < before.size() {
        let h0 = before.bus().history();
        assert(after.bus().history().take(h0.len() as int) == h0);
    }
}

/// `read_byte` on a device with two-byte memory addresses: `InvalidAddr`
/// exactly for addresses at or past the device's size, with nothing sent;
/// otherwise exactly one bus write-then-read that sends the memory address
/// and reads one byte, and the result is that byte when the bus succeeded,
/// else the bus's error.
pub proof fn lemma_two_byte_read_returns_received_byte<I2C: I2cBus<Error = E>, PS, E>(
    before: Eeprom24x<I2C, PS, Two>,
    after: Eeprom24x<I2C, PS, Two>,
    address: u32,
    res: Result<u8, Error<E>>,
)
    requires
        before.byte_read(after, address, res),
    ensures
        (res matches Err(Error::InvalidAddr)) <==> address >= before.size(),
        address >= before.size() ==> after == before,
        address < before.size() ==> {
            &&& after.same_device(before)
            &&& after.bus().history().len() == before.bus().history().len() + 1
            &&& after.bus().history().take(before.bus().history().len() as int)
                == before.bus().history()
            &&& after.bus().history().last() matches Transfer::WriteRead {
                device,
                sent,
                received,
                outcome,
            }
            &&& device == before.slave().spec_devaddr(address, before.devmask(), 16)
            &&& sent == seq![((address / 0x100) % 0x100) as u8, (address % 0x100) as u8]
            &&& received.len() == 1
            &&& (outcome is Ok ==> res == Ok::<u8, Error<E>>(received[0]))
            &&& forall|e: E| outcome == Err::<(), E>(e) ==> res == Err::<u8, Error<E>>(Error::I2C(e))
        },
{
    lemma_memory_address_bytes(address);
    if address < before.size() {
        let h0 = before.bus().history();
        assert(after.bus().history().take(h0.len() as int) == h0);
    }
}

/// `read_data` on a device with two-byte memory addresses, with buffer
/// `data` before the call and `filled` after it: the buffer keeps its length;
/// `InvalidAddr` exactly for addresses at or past the device's size, with
/// nothing sent and the buffer untouched; otherwise exactly one bus
/// write-then-read that sends the memory address and fills the whole buffer,
/// and the result is what the bus returned.
pub proof fn lemma_two_byte_data_read_fills_buffer<I2C: I2cBus<Error = E>, PS, E>(
    before: Eeprom24x<I2C, PS, Two>,
    after: Eeprom24x<I2C, PS, Two>,
    address: u32,
    data: Seq<u8>,
    filled: Seq<u8>,
    res: Result<(), Error<E>>,
)
    requires
        before.data_read(after, address, data, filled, res),
    ensures
        filled.len() == data.len(),
        (res matches Err(Error::InvalidAddr)) <==> address >= before.size(),
        address >= before.size() ==> after == before && filled == data,
        address < before.size() ==> {
            &&& after.same_device(before)
            &&& after.bus().history().len() == before.bus().history().len() + 1
            &&& after.bus().history().take(before.bus().history().len() as int)
                == before.bus().history()
            &&& after.bus().history().last() matches Transfer::WriteRead {
                device,
                sent,
                received,
                outcome,
            }
            &&& device == before.slave().spec_devaddr(address, before.devmask(), 16)
            &&& sent == seq![((address / 0x100) % 0x100) as u8, (address % 0x100) as u8]
            &&& received == filled
            &&& (res is Ok <==> outcome is Ok)
            &&& forall|e: E| outcome == Err::<(), E>(e) ==> res == Err::<(), Error<E>>(Error::I2C(e))
        },
{
    lemma_memory_address_bytes(address);
    if address < before.size() {
        let h0 = before.bus().history();
        assert(after.bus().history().take(h0.len() as int) == h0);
    }
}

/// `read_current_address`: exactly one bus read of one byte from the slave
/// address, and the result is that byte when the bus succeeded, else the
/// bus's error.
pub proof fn lemma_current_read_returns_received_byte<I2C: I2cBus<Error = E>, PS, AS, E>(
    before: Eeprom24x<I2C, PS, AS>,
    after: Eeprom24x<I2C, PS, AS>,
    res: Result<u8, Error<E>>,
)
    requires
        before.current_read(after, res),
    ensures
        after.same_device(before),
        after.bus().history().len() == before.bus().history().len() + 1,
        after.bus().history().take(before.bus().history().len() as int) == before.bus().history(),
        after.bus().history().last() matches Transfer::Read { device, received, outcome } && {
            &&& device == before.slave().spec_addr()
            &&& received.len() == 1
            &&& (outcome is Ok ==> res == Ok::<u8, Error<E>>(received[0]))
            &&& forall|e: E| outcome == Err::<(), E>(e) ==> res == Err::<u8, Error<E>>(Error::I2C(e))
        },
{
    let h0 = before.bus().history();
    assert(after.bus().history().take(h0.len() as int) == h0);
}

/// On a device with one-byte memory addresses, the device address for a
/// memory address within reach is the slave address plus the memory address's
/// block number (its bits from 8 upward), when the slave address leaves the
/// block-select bits clear.
pub proof fn lemma_one_byte_device_address_adds_block(slave: SlaveAddr, devmask: u32, address: u32)
    requires
        is_devmask(devmask),
        address < one_byte_reach(devmask),
        slave.spec_addr() & (devmask as u8) == 0,
    ensures
        slave.spec_devaddr(address, devmask, 8) == slave.spec_addr() + address / 0x100,
{
    let a = slave.spec_addr();
    let m = devmask;
    let d = slave.spec_devaddr(address, devmask, 8);
    assert(d == a | (((address >> 8) & m) as u8));
    assert(d == a + address / 0x100) by (bit_vector)
        requires
            m == 0 || m == 1 || m == 3 || m == 7,
            address < (m + 1) * 0x100,
            a & (m as u8) == 0,
            d == a | (((address >> 8) & m) as u8),
    ;
}

/// On a device with two-byte memory addresses, the device address for a
/// memory address within reach is the slave address plus the memory address's
/// block number (its bits from 16 upward), when the slave address leaves the
/// block-select bits clear.
pub proof fn lemma_two_byte_device_address_adds_block(slave: SlaveAddr, devmask: u32, address: u32)
    requires
        is_devmask(devmask),
        address < two_byte_reach(devmask),
        slave.spec_addr() & (devmask as u8) == 0,
    ensures
        slave.spec_devaddr(address, devmask, 16) == slave.spec_addr() + address / 0x1_0000,
{
    let a = slave.spec_addr();
    let m = devmask;
    let d = slave.spec_devaddr(address, devmask, 16);
    assert(d == a | (((address >> 16) & m) as u8));
    assert(d == a + address / 0x1_0000) by (bit_vector)
        requires
            m == 0 || m == 1 || m == 3 || m == 7,
            address < (m + 1) * 0x1_0000,
            a & (m as u8) == 0,
            d == a | (((address >> 16) & m) as u8),
    ;
}

/// The page sizes of the device families: 8 bytes (24x01, 24x02), 16 bytes
/// (24x04, 24x08, 24x16), 32 bytes (24x32, 24x64), 64 bytes (24x128, 24x256),
/// 128 bytes (24x512) and 256 bytes (24xM01, 24xM02). A page write takes up
/// to that many bytes.
pub proof fn lemma_page_sizes<I2C, AS>()
    ensures
        Eeprom24x::<I2C, B8, AS>::page_size() == 8,
        Eeprom24x::<I2C, B16, AS>::page_size() == 16,
        Eeprom24x::<I2C, B32, AS>::page_size() == 32,
        Eeprom24x::<I2C, B64, AS>::page_size() == 64,
        Eeprom24x::<I2C, B128, AS>::page_size() == 128,
        Eeprom24x::<I2C, B256, AS>::page_size() == 256,
{
}

/// The default slave address leaves every block-select bit clear.
pub proof fn lemma_default_address_leaves_block_bits_clear(devmask: u32)
    requires
        is_devmask(devmask),
    ensures
        SlaveAddr::Default.spec_addr() & (devmask as u8) == 0,
{
    let m = devmask;
    assert(0x50u8 & (m as u8) == 0) by (bit_vector)
        requires
            m == 0 || m == 1 || m == 3 || m == 7,
    ;
}

/// The memory addresses that a driver accepts are those below its size:
/// whenever one address is accepted, so is every lower one.
pub proof fn lemma_valid_addresses_form_prefix<I2C, PS, AS>(
    e: Eeprom24x<I2C, PS, AS>,
    lower: u32,
    upper: u32,
)
    requires
        lower <= upper,
        upper < e.size(),
    ensures
        lower < e.size(),
{
}

/// A page write of a single byte at a valid address hands the bus the same
/// transfer as `write_byte` of that byte (one-byte memory addresses).
pub proof fn lemma_one_byte_page_write_of_one_byte<I2C: I2cBus<Error = E>, PS, E>(
    before: Eeprom24x<I2C, PS, One>,
    after: Eeprom24x<I2C, PS, One>,
    address: u32,
    data: u8,
    page_size: int,
    res: Result<(), Error<E>>,
)
    requires
        page_size >= 1,
        address < before.size(),
        before.page_write(after, address, seq![data], page_size, res),
    ensures
        after.same_device(before),
        one_write(
            before.bus().history(),
            after.bus().history(),
            before.slave().spec_devaddr(address, before.devmask(), 8),
            one_byte_memaddr(address).push(data),
            res,
        ),
{
    assert(one_byte_memaddr(address) + seq![data] == one_byte_memaddr(address).push(data));
}

/// A page write of a single byte at a valid address hands the bus the same
/// transfer as `write_byte` of that byte (two-byte memory addresses).
pub proof fn lemma_two_byte_page_write_of_one_byte<I2C: I2cBus<Error = E>, PS, E>(
    before: Eeprom24x<I2C, PS, Two>,
    after: Eeprom24x<I2C, PS, Two>,
    address: u32,
    data: u8,
    page_size: int,
    res: Result<(), Error<E>>,
)
    requires
        page_size >= 1,
        address < before.size(),
        before.page_write(after, address, seq![data], page_size, res),
    ensures
        after.same_device(before),
        one_write(
            before.bus().history(),
            after.bus().history(),
            before.slave().spec_devaddr(address, before.devmask(), 16),
            two_byte_memaddr(address).push(data),
            res,
        ),
{
    assert(two_byte_memaddr(address) + seq![data] == two_byte_memaddr(address).push(data));
}

} // verus!

use eeprom24x::{Eeprom24x, Error, I2cBus, I2cRead, I2cWrite, I2cWriteRead, SlaveAddr};

#[derive(Debug, PartialEq)]
struct BusFault;

#[derive(Debug, PartialEq)]
enum Op {
    Write(u8, Vec<u8>),
    WriteRead(u8, Vec<u8>, usize),
    Read(u8, usize),
}

#[derive(Debug, Default)]
struct FakeBus {
    ops: Vec<Op>,
    reply: Vec<u8>,
    fail: bool,
}

impl FakeBus {
    fn replying(reply: &[u8]) -> Self {
        FakeBus { ops: Vec::new(), reply: reply.to_vec(), fail: false }
    }
    fn failing() -> Self {
        FakeBus { ops: Vec::new(), reply: Vec::new(), fail: true }
    }
    fn outcome(&self) -> Result<(), BusFault> {
        if self.fail {
            Err(BusFault)
        } else {
            Ok(())
        }
    }
    fn fill(&self, buffer: &mut [u8]) {
        for (i, b) in buffer.iter_mut().enumerate() {
            *b = self.reply.get(i).copied().unwrap_or(0);
        }
    }
}

impl I2cBus for FakeBus {
    type Error = BusFault;
}

impl I2cWrite for FakeBus {
    fn write(&mut self, address: u8, bytes: &[u8]) -> Result<(), BusFault> {
        self.ops.push(Op::Write(address, bytes.to_vec()));
        self.outcome()
    }
}

impl I2cWriteRead for FakeBus {
    fn write_read(&mut self, address: u8, bytes: &[u8], buffer: &mut [u8]) -> Result<(), BusFault> {
        self.ops.push(Op::WriteRead(address, bytes.to_vec(), buffer.len()));
        self.fill(buffer);
        self.outcome()
    }
}

impl I2cRead for FakeBus {
    fn read(&mut self, address: u8, buffer: &mut [u8]) -> Result<(), BusFault> {
        self.ops.push(Op::Read(address, buffer.len()));
        self.fill(buffer);
        self.outcome()
    }
}

#[test]
fn destroy_gives_back_the_bus() {
    let eeprom = Eeprom24x::new_24x256(FakeBus::replying(&[7, 8]), SlaveAddr::default());
    let bus = eeprom.destroy();
    assert_eq!(bus.reply, vec![7, 8]);
    assert!(bus.ops.is_empty());
}

#[test]
fn write_byte_sends_one_byte_address_and_data() {
    let mut eeprom = Eeprom24x::new_24x16(FakeBus::default(), SlaveAddr::default());
    assert!(eeprom.write_byte(0x5AB, 0xCD).is_ok());
    let bus = eeprom.destroy();
    assert_eq!(bus.ops, vec![Op::Write(0b101_0101, vec![0xAB, 0xCD])]);
}

#[test]
fn write_byte_sends_two_byte_address_and_data() {
    let mut eeprom = Eeprom24x::new_24x256(FakeBus::default(), SlaveAddr::Alternative(false, true, false));
    assert!(eeprom.write_byte(0x1234, 0xAB).is_ok());
    let bus = eeprom.destroy();
    assert_eq!(bus.ops, vec![Op::Write(0b101_0010, vec![0x12, 0x34, 0xAB])]);
}

#[test]
fn write_byte_on_multi_block_two_byte_device() {
    let mut eeprom = Eeprom24x::new_24xm02(FakeBus::default(), SlaveAddr::default());
    assert!(eeprom.write_byte(0x3_1234, 0x01).is_ok());
    let bus = eeprom.destroy();
    assert_eq!(bus.ops, vec![Op::Write(0b101_0011, vec![0x12, 0x34, 0x01])]);
}

#[test]
fn out_of_range_addresses_are_refused_without_bus_traffic() {
    let mut small = Eeprom24x::new_24x02(FakeBus::default(), SlaveAddr::default());
    assert!(matches!(small.write_byte(0x100, 1), Err(Error::InvalidAddr)));
    assert!(matches!(small.read_byte(0x100), Err(Error::InvalidAddr)));
    let mut buf = [9u8; 2];
    assert!(matches!(small.read_data(0x100, &mut buf), Err(Error::InvalidAddr)));
    assert_eq!(buf, [9, 9]);
    assert!(matches!(small.write_page(0x100, &[1]), Err(Error::InvalidAddr)));
    assert!(small.destroy().ops.is_empty());

    let mut m02 = Eeprom24x::new_24xm02(FakeBus::default(), SlaveAddr::default());
    assert!(matches!(m02.write_byte(0x4_0000, 1), Err(Error::InvalidAddr)));
    assert!(matches!(m02.write_byte(0xFFFF_FFFF, 1), Err(Error::InvalidAddr)));
    assert!(m02.write_byte(0x3_FFFF, 1).is_ok());
    assert_eq!(m02.destroy().ops.len(), 1);
}

#[test]
fn size_of_each_device() {
    fn last_one_byte<PS>(mut e: Eeprom24x<FakeBus, PS, eeprom24x::addr_size::One>, last: u32) {
        assert!(e.write_byte(last, 0).is_ok());
        assert!(matches!(e.write_byte(last + 1, 0), Err(Error::InvalidAddr)));
        assert!(matches!(e.read_byte(last + 1), Err(Error::InvalidAddr)));
        assert_eq!(e.destroy().ops.len(), 1);
    }
    fn last_two_byte<PS>(mut e: Eeprom24x<FakeBus, PS, eeprom24x::addr_size::Two>, last: u32) {
        assert!(e.write_byte(last, 0).is_ok());
        assert!(matches!(e.write_byte(last + 1, 0), Err(Error::InvalidAddr)));
        assert!(matches!(e.read_byte(last + 1), Err(Error::InvalidAddr)));
        assert_eq!(e.destroy().ops.len(), 1);
    }
    let a = SlaveAddr::default();
    last_one_byte(Eeprom24x::new_24x00(FakeBus::default(), a), 15);
    last_one_byte(Eeprom24x::new_24x01(FakeBus::default(), a), 127);
    last_one_byte(Eeprom24x::new_24x02(FakeBus::default(), a), 255);
    last_one_byte(Eeprom24x::new_24x04(FakeBus::default(), a), 511);
    last_one_byte(Eeprom24x::new_24x08(FakeBus::default(), a), 1023);
    last_one_byte(Eeprom24x::new_24x16(FakeBus::default(), a), 2047);
    last_two_byte(Eeprom24x::new_24x32(FakeBus::default(), a), 4095);
    last_two_byte(Eeprom24x::new_24x64(FakeBus::default(), a), 8191);
    last_two_byte(Eeprom24x::new_24x128(FakeBus::default(), a), 16383);
    last_two_byte(Eeprom24x::new_24x256(FakeBus::default(), a), 32767);
    last_two_byte(Eeprom24x::new_24x512(FakeBus::default(), a), 65535);
    last_two_byte(Eeprom24x::new_24xm01(FakeBus::default(), a), 131071);
    last_two_byte(Eeprom24x::new_24xm02(FakeBus::default(), a), 262143);
}

#[test]
fn read_at_0x10_on_24x00_is_refused() {
    let mut e = Eeprom24x::new_24x00(FakeBus::replying(&[1]), SlaveAddr::default());
    assert!(matches!(e.read_byte(0x10), Err(Error::InvalidAddr)));
    assert!(e.destroy().ops.is_empty());
}

#[test]
fn read_data_hands_the_bus_the_whole_buffer() {
    let mut e = Eeprom24x::new_24x256(FakeBus::replying(&[]), SlaveAddr::default());
    let mut buf = [3u8; 300];
    assert!(e.read_data(0x10, &mut buf).is_ok());
    assert_eq!(e.destroy().ops, vec![Op::WriteRead(0b101_0000, vec![0x00, 0x10], 300)]);
    let mut e = Eeprom24x::new_24x256(FakeBus::replying(&[]), SlaveAddr::default());
    let mut empty: [u8; 0] = [];
    assert!(e.read_data(0x10, &mut empty).is_ok());
    assert_eq!(e.destroy().ops, vec![Op::WriteRead(0b101_0000, vec![0x00, 0x10], 0)]);
}

#[test]
fn read_byte_returns_what_the_bus_delivers() {
    let mut eeprom = Eeprom24x::new_24x08(FakeBus::replying(&[0x42]), SlaveAddr::default());
    assert_eq!(eeprom.read_byte(0x2F0).ok(), Some(0x42));
    let bus = eeprom.destroy();
    assert_eq!(bus.ops, vec![Op::WriteRead(0b101_0010, vec![0xF0], 1)]);
}

#[test]
fn read_byte_two_byte_address() {
    let mut eeprom = Eeprom24x::new_24x512(FakeBus::replying(&[0x99]), SlaveAddr::default());
    assert_eq!(eeprom.read_byte(0xABCD).ok(), Some(0x99));
    let bus = eeprom.destroy();
    assert_eq!(bus.ops, vec![Op::WriteRead(0b101_0000, vec![0xAB, 0xCD], 1)]);
}

#[test]
fn read_data_fills_the_buffer() {
    let mut eeprom = Eeprom24x::new_24x128(FakeBus::replying(&[1, 2, 3]), SlaveAddr::default());
    let mut buf = [0u8; 3];
    assert!(eeprom.read_data(0x0102, &mut buf).is_ok());
    assert_eq!(buf, [1, 2, 3]);
    let bus = eeprom.destroy();
    assert_eq!(bus.ops, vec![Op::WriteRead(0b101_0000, vec![0x01, 0x02], 3)]);

    let mut small = Eeprom24x::new_24x01(FakeBus::replying(&[5, 6]), SlaveAddr::default());
    let mut buf = [0u8; 2];
    assert!(small.read_data(0x10, &mut buf).is_ok());
    assert_eq!(buf, [5, 6]);
    assert_eq!(small.destroy().ops, vec![Op::WriteRead(0b101_0000, vec![0x10], 2)]);
}

#[test]
fn bus_errors_are_passed_on() {
    let mut eeprom = Eeprom24x::new_24x32(FakeBus::failing(), SlaveAddr::default());
    assert!(matches!(eeprom.write_byte(0, 1), Err(Error::I2C(BusFault))));
    assert!(matches!(eeprom.read_byte(0), Err(Error::I2C(BusFault))));
    assert!(matches!(eeprom.read_current_address(), Err(Error::I2C(BusFault))));
    assert!(matches!(eeprom.write_page(0, &[1, 2]), Err(Error::I2C(BusFault))));
    assert_eq!(eeprom.destroy().ops.len(), 4);
}

#[test]
fn write_page_of_nothing_succeeds_without_bus_traffic() {
    let mut eeprom = Eeprom24x::new_24x02(FakeBus::failing(), SlaveAddr::default());
    assert!(eeprom.write_page(0x10, &[]).is_ok());
    assert!(eeprom.destroy().ops.is_empty());
}

#[test]
fn write_page_longer_than_a_page_is_refused() {
    let mut eeprom = Eeprom24x::new_24x02(FakeBus::default(), SlaveAddr::default());
    assert!(matches!(eeprom.write_page(0x10, &[0; 9]), Err(Error::TooMuchData)));
    let mut big = Eeprom24x::new_24x256(FakeBus::default(), SlaveAddr::default());
    assert!(matches!(big.write_page(0x10, &[0; 65]), Err(Error::TooMuchData)));
    assert!(eeprom.destroy().ops.is_empty());
    assert!(big.destroy().ops.is_empty());
}

#[test]
fn write_page_sends_address_then_data() {
    let mut eeprom = Eeprom24x::new_24x04(FakeBus::default(), SlaveAddr::default());
    let data = [1u8, 2, 3, 4, 5, 6, 7, 8, 9, 10, 11, 12, 13, 14, 15, 16];
    assert!(eeprom.write_page(0x110, &data).is_ok());
    let mut expected = vec![0x10];
    expected.extend_from_slice(&data);
    assert_eq!(eeprom.destroy().ops, vec![Op::Write(0b101_0001, expected)]);

    let mut big = Eeprom24x::new_24xm01(FakeBus::default(), SlaveAddr::default());
    let data = [0xABu8; 256];
    assert!(big.write_page(0x1_2340, &data).is_ok());
    let mut expected = vec![0x23, 0x40];
    expected.extend_from_slice(&data);
    assert_eq!(big.destroy().ops, vec![Op::Write(0b101_0001, expected)]);
}

#[test]
fn write_page_limits_per_page_size() {
    let a = SlaveAddr::default();
    let mut b8 = Eeprom24x::new_24x01(FakeBus::default(), a);
    assert!(b8.write_page(0, &[0; 8]).is_ok());
    let mut b16 = Eeprom24x::new_24x16(FakeBus::default(), a);
    assert!(b16.write_page(0, &[0; 16]).is_ok());
    assert!(matches!(b16.write_page(0, &[0; 17]), Err(Error::TooMuchData)));
    let mut b32 = Eeprom24x::new_24x32(FakeBus::default(), a);
    assert!(b32.write_page(0, &[0; 32]).is_ok());
    assert!(matches!(b32.write_page(0, &[0; 33]), Err(Error::TooMuchData)));
    let mut b128 = Eeprom24x::new_24x512(FakeBus::default(), a);
    assert!(b128.write_page(0, &[0; 128]).is_ok());
    assert!(matches!(b128.write_page(0, &[0; 129]), Err(Error::TooMuchData)));
    let mut b256 = Eeprom24x::new_24xm02(FakeBus::default(), a);
    assert!(b256.write_page(0, &[0; 256]).is_ok());
    assert!(matches!(b256.write_page(0, &[0; 257]), Err(Error::TooMuchData)));
}

#[test]
fn read_current_address_reads_one_byte_at_the_slave_address() {
    let mut eeprom = Eeprom24x::new_24x00(FakeBus::replying(&[0x77]), SlaveAddr::Alternative(false, false, true));
    assert_eq!(eeprom.read_current_address().ok(), Some(0x77));
    assert_eq!(eeprom.destroy().ops, vec![Op::Read(0b101_0001, 1)]);
}

#[test]
fn single_byte_page_write_matches_write_byte() {
    let mut a = Eeprom24x::new_24x08(FakeBus::default(), SlaveAddr::default());
    let mut b = Eeprom24x::new_24x08(FakeBus::default(), SlaveAddr::default());
    assert!(a.write_page(0x345, &[0x5A]).is_ok());
    assert!(b.write_byte(0x345, 0x5A).is_ok());
    assert_eq!(a.destroy().ops, b.destroy().ops);

    let mut c = Eeprom24x::new_24x512(FakeBus::default(), SlaveAddr::default());
    let mut d = Eeprom24x::new_24x512(FakeBus::default(), SlaveAddr::default());
    assert!(c.write_page(0xBEEF, &[0x01]).is_ok());
    assert!(d.write_byte(0xBEEF, 0x01).is_ok());
    assert_eq!(c.destroy().ops, d.destroy().ops);
}

#[derive(Default)]
struct MemoryBus {
    cells: Vec<((u8, Vec<u8>), u8)>,
}

impl MemoryBus {
    fn lookup(&self, device: u8, memaddr: &[u8]) -> u8 {
        self.cells
            .iter()
            .rev()
            .find(|((d, m), _)| *d == device && m.as_slice() == memaddr)
            .map(|(_, v)| *v)
            .unwrap_or(0xFF)
    }
}

impl I2cBus for MemoryBus {
    type Error = BusFault;
}

impl I2cWrite for MemoryBus {
    fn write(&mut self, address: u8, bytes: &[u8]) -> Result<(), BusFault> {
        let (last, memaddr) = bytes.split_last().ok_or(BusFault)?;
        self.cells.push(((address, memaddr.to_vec()), *last));
        Ok(())
    }
}

impl I2cWriteRead for MemoryBus {
    fn write_read(&mut self, address: u8, bytes: &[u8], buffer: &mut [u8]) -> Result<(), BusFault> {
        let v = self.lookup(address, bytes);
        for b in buffer.iter_mut() {
            *b = v;
        }
        Ok(())
    }
}

#[test]
fn written_byte_is_read_back_from_an_ideal_memory() {
    let mut e = Eeprom24x::new_24x256(MemoryBus::default(), SlaveAddr::default());
    assert!(e.write_byte(0x1234, 0xAB).is_ok());
    assert_eq!(e.read_byte(0x1234).ok(), Some(0xAB));

    let mut e = Eeprom24x::new_24x16(MemoryBus::default(), SlaveAddr::default());
    assert!(e.write_byte(0x5AB, 0xCD).is_ok());
    assert!(e.write_byte(0x1AB, 0x11).is_ok());
    assert_eq!(e.read_byte(0x5AB).ok(), Some(0xCD));
    assert_eq!(e.read_byte(0x1AB).ok(), Some(0x11));
}

#[test]
fn distinct_addresses_reach_distinct_cells() {
    let mut e = Eeprom24x::new_24xm02(MemoryBus::default(), SlaveAddr::default());
    let addrs = [0x0_1234u32, 0x1_1234, 0x2_1234, 0x3_1234, 0x0_1235];
    for (i, a) in addrs.iter().enumerate() {
        assert!(e.write_byte(*a, i as u8).is_ok());
    }
    for (i, a) in addrs.iter().enumerate() {
        assert_eq!(e.read_byte(*a).ok(), Some(i as u8));
    }
}

#[test]
fn data_read_of_one_byte_makes_the_byte_read_call() {
    let mut a = Eeprom24x::new_24xm02(FakeBus::replying(&[0x5A]), SlaveAddr::default());
    let mut b = Eeprom24x::new_24xm02(FakeBus::replying(&[0x5A]), SlaveAddr::default());
    let mut buf = [0u8; 1];
    assert!(a.read_data(0x3FFFF, &mut buf).is_ok());
    assert_eq!(b.read_byte(0x3FFFF).ok(), Some(buf[0]));
    let ops = a.destroy().ops;
    assert_eq!(ops, vec![Op::WriteRead(0b101_0011, vec![0xFF, 0xFF], 1)]);
    assert_eq!(ops, b.destroy().ops);
}

#[test]
fn single_pin_alternative_on_24x00() {
    let mut e = Eeprom24x::new_24x00(FakeBus::default(), SlaveAddr::Alternative(false, false, true));
    assert!(e.write_byte(0x0A, 0x01).is_ok());
    assert_eq!(e.destroy().ops, vec![Op::Write(0b101_0001, vec![0x0A, 0x01])]);
}

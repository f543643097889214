use eeprom24x::SlaveAddr;

#[test]
fn default_address_is_correct() {
    assert_eq!(0b101_0000, SlaveAddr::default().addr());
}

#[test]
fn can_generate_alternative_addresses() {
    assert_eq!(0b101_0000, SlaveAddr::Alternative(false, false, false).addr());
    assert_eq!(0b101_0001, SlaveAddr::Alternative(false, false, true).addr());
    assert_eq!(0b101_0010, SlaveAddr::Alternative(false, true, false).addr());
    assert_eq!(0b101_0100, SlaveAddr::Alternative(true, false, false).addr());
    assert_eq!(0b101_0111, SlaveAddr::Alternative(true, true, true).addr());
}

#[test]
fn every_pin_setting_gives_a_distinct_address() {
    let mut seen = Vec::new();
    for a2 in [false, true] {
        for a1 in [false, true] {
            for a0 in [false, true] {
                let a = SlaveAddr::Alternative(a2, a1, a0).addr();
                assert!((0b101_0000..=0b101_0111).contains(&a));
                assert!(!seen.contains(&a));
                seen.push(a);
            }
        }
    }
    assert_eq!(seen.len(), 8);
}

#[test]
fn device_address_takes_block_bits_from_memory_address() {
    // one-byte addresses: bits 8.. select the block
    assert_eq!(SlaveAddr::Default.devaddr(0x5AB, 0b111, 8), 0b101_0101);
    assert_eq!(SlaveAddr::Default.devaddr(0x1FF, 0b001, 8), 0b101_0001);
    // two-byte addresses: bits 16.. select the block
    assert_eq!(SlaveAddr::Default.devaddr(0x3_1234, 0b011, 16), 0b101_0011);
    // without a mask the slave address stands alone
    assert_eq!(SlaveAddr::Alternative(true, false, true).devaddr(0xFFFF_FFFF, 0, 8), 0b101_0101);
    // pins and block bits are merged
    assert_eq!(SlaveAddr::Alternative(true, false, false).devaddr(0x300, 0b011, 8), 0b101_0111);
}

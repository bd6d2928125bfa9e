use grideye::bus::{high_byte, low_byte, word};
use grideye::Transfer;

#[test]
fn word_of_two_bytes() {
    assert_eq!(word(0x34, 0x12), 0x1234);
    assert_eq!(word(0x00, 0x00), 0x0000);
    assert_eq!(word(0xFF, 0x00), 0x00FF);
    assert_eq!(word(0x00, 0xFF), 0xFF00);
    assert_eq!(word(0xFF, 0xFF), 0xFFFF);
}

#[test]
fn bytes_of_a_word() {
    assert_eq!(low_byte(0x1234), 0x34);
    assert_eq!(high_byte(0x1234), 0x12);
    assert_eq!(low_byte(0x000A), 0x0A);
    assert_eq!(high_byte(0x000A), 0x00);
    assert_eq!(low_byte(0xFFFF), 0xFF);
    assert_eq!(high_byte(0xFFFF), 0xFF);
}

#[test]
fn word_and_bytes_agree() {
    for value in [0u16, 1, 0x00FF, 0x0100, 0x1234, 0x8C8, 0x7FFF, 0x8000, 0xFFFF] {
        assert_eq!(word(low_byte(value), high_byte(value)), value);
    }
}

#[test]
fn select_writes_the_register_address() {
    let transfer = Transfer::Select { address: 0x69, register: 0x80 };
    assert_eq!(transfer.address(), 0x69);
    assert_eq!(transfer.bytes(), vec![0x80]);
    assert_eq!(transfer.count(), 0);
    assert!(transfer.is_write());
}

#[test]
fn write_writes_address_then_value() {
    let transfer = Transfer::Write { address: 0x68, register: 0x1F, value: 0x50 };
    assert_eq!(transfer.address(), 0x68);
    assert_eq!(transfer.bytes(), vec![0x1F, 0x50]);
    assert_eq!(transfer.count(), 0);
    assert!(transfer.is_write());
}

#[test]
fn read_writes_nothing() {
    let transfer = Transfer::Read { address: 0x69, count: 2 };
    assert_eq!(transfer.address(), 0x69);
    assert_eq!(transfer.bytes(), Vec::<u8>::new());
    assert_eq!(transfer.count(), 2);
    assert!(!transfer.is_write());
}

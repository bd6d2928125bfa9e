use grideye::{Address, Decode, Error, GridEye, Operation, Progress, Reply, Scale, Transfer, Value};

#[test]
fn lengths_of_the_operations() {
    assert_eq!(Operation::Write { register: 0x00, value: 0x00 }.length(), 1);
    assert_eq!(Operation::WritePair { low: 0x08, high: 0x09, word: 0x1234 }.length(), 2);
    assert_eq!(Operation::MovingAverage { enable: true }.length(), 5);
    assert_eq!(Operation::MovingAverage { enable: false }.length(), 5);
    assert_eq!(Operation::Read { register: 0x80, decode: Decode::Word }.length(), 2);
    assert_eq!(Operation::SetBit { register: 0x03, bit: 0, on: true }.length(), 3);
}

#[test]
fn widths_of_the_readings() {
    assert_eq!(Decode::Byte.width(), 1);
    assert_eq!(Decode::Word.width(), 2);
    assert_eq!(Decode::Bit { bit: 7 }.width(), 1);
    assert_eq!(Decode::Rate.width(), 1);
    assert_eq!(Decode::Temperature { scale: Scale::Quarter }.width(), 2);
    assert_eq!(Decode::Temperature { scale: Scale::Sixteenth }.width(), 2);
}

#[test]
fn a_failure_ends_the_transaction_at_once() {
    let transaction = GridEye::new(Address::Standard).enable_moving_average();
    assert_eq!(
        transaction.advance(Reply::Failed("nack")),
        Progress::Finished(Err(Error::I2c("nack")))
    );
}

#[test]
fn the_error_of_the_bus_is_handed_on_unchanged() {
    let transaction = GridEye::new(Address::Standard).get_framerate();
    let next = match transaction.advance(Reply::<(u8, u8)>::Written) {
        Progress::Pending(next) => next,
        Progress::Finished(result) => panic!("over too early: {:?}", result),
    };
    assert_eq!(next.advance(Reply::Failed((4, 2))), Progress::Finished(Err(Error::I2c((4, 2)))));
}

#[test]
fn bit_seven_is_set_in_what_was_read() {
    let device = GridEye::new(Address::Alternate);
    let first = device.disable_interrupt();
    assert_eq!(first.request(), Transfer::Select { address: 0x68, register: 0x03 });
    let second = match first.advance(Reply::<u8>::Written) {
        Progress::Pending(next) => next,
        Progress::Finished(result) => panic!("over too early: {:?}", result),
    };
    assert_eq!(second.request(), Transfer::Read { address: 0x68, count: 1 });
    let third = match second.advance(Reply::<u8>::Bytes(vec![0xFF])) {
        Progress::Pending(next) => next,
        Progress::Finished(result) => panic!("over too early: {:?}", result),
    };
    assert_eq!(third.request(), Transfer::Write { address: 0x68, register: 0x03, value: 0xFE });
    assert_eq!(third.advance(Reply::<u8>::Written), Progress::Finished(Ok(Value::Nothing)));
}

#[test]
fn a_read_of_two_bytes_ends_with_the_word() {
    let device = GridEye::new(Address::Standard);
    let first = device.get_register_as_u16(0x0E);
    let second = match first.advance(Reply::<u8>::Written) {
        Progress::Pending(next) => next,
        Progress::Finished(result) => panic!("over too early: {:?}", result),
    };
    assert_eq!(
        second.advance(Reply::<u8>::Bytes(vec![0x34, 0x12])),
        Progress::Finished(Ok(Value::Word(0x1234)))
    );
}

//! Operations on the sensor as scripts of bus transfers, and the state machine
//! that walks a script.
//!
//! An operation is carried out by a fixed sequence of transfers. The host performs
//! them one after the other and reports each reply; the first failure ends the
//! operation with the bus's error, and no transfer follows it. Only one kind of
//! operation looks at a reply before it is over: changing a single bit of a
//! register reads the register first and writes the changed byte back.

use crate::bits::{bit_of_u8, get_bit_u8, set_bit_u8, with_bit_u8};
use crate::bus::{
    high_byte, low_byte, spec_high_byte, spec_low_byte, spec_word, word, Error, Reply, Transfer,
};
use crate::codec::{decode, spec_decode, Scale, SignedMagnitude};
use crate::registers::{Framerate, Register};
use vstd::prelude::*;

verus! {

/// What a finished operation has brought.
#[derive(Clone, Copy, Debug, PartialEq, Eq)]
pub enum Value {
    /// The operation only wrote.
    Nothing,
    /// The byte of a register.
    Byte(u8),
    /// The 16-bit value of a register pair.
    Word(u16),
    /// One bit of a register.
    Flag(bool),
    /// The sampling rate that the frame-rate register holds.
    Rate(Framerate),
    /// A temperature: sign and magnitude in sensor steps, and the size of a step.
    Temperature { reading: SignedMagnitude, scale: Scale },
}

/// How the bytes read from the sensor are to be understood.
#[derive(Clone, Copy, Debug, PartialEq, Eq)]
pub enum Decode {
    /// One byte, as it is.
    Byte,
    /// Two bytes, the less significant first.
    Word,
    /// One byte, of which the bit at index `bit` is taken.
    Bit { bit: usize },
    /// One byte, as a sampling rate.
    Rate,
    /// Two bytes, the less significant first, as a temperature in steps of `scale`.
    Temperature { scale: Scale },
}

impl Decode {
    /// The number of bytes to read.
    pub open spec fn spec_width(self) -> usize {
        match self {
            Decode::Byte => 1,
            Decode::Word => 2,
            Decode::Bit { .. } => 1,
            Decode::Rate => 1,
            Decode::Temperature { .. } => 2,
        }
    }

    /// The value that the bytes `data` stand for.
    pub open spec fn spec_value(self, data: Seq<u8>) -> Value {
        match self {
            Decode::Byte => Value::Byte(data[0]),
            Decode::Word => Value::Word(spec_word(data[0], data[1])),
            Decode::Bit { bit } => Value::Flag(bit_of_u8(data[0], bit)),
            Decode::Rate => Value::Rate(Framerate::spec_from_register(data[0])),
            Decode::Temperature { scale } => Value::Temperature {
                reading: spec_decode(spec_word(data[0], data[1])),
                scale,
            },
        }
    }

    #[verifier::when_used_as_spec(spec_width)]
    pub fn width(self) -> (count: usize)
        ensures
            count == self.spec_width(),
    {
        match self {
            Decode::Byte => 1,
            Decode::Word => 2,
            Decode::Bit { .. } => 1,
            Decode::Rate => 1,
            Decode::Temperature { .. } => 2,
        }
    }

    /// Interprets the bytes that a read of `self.width()` bytes has brought.
    pub(crate) fn value(self, data: &Vec<u8>) -> (value: Value)
        requires
            data@.len() == self.spec_width(),
            self matches Decode::Bit { bit } ==> bit < 8,
        ensures
            value == self.spec_value(data@),
    {
        match self {
            Decode::Byte => Value::Byte(data[0]),
            Decode::Word => Value::Word(word(data[0], data[1])),
            Decode::Bit { bit } => Value::Flag(get_bit_u8(data[0], bit)),
            Decode::Rate => Value::Rate(Framerate::from_register(data[0])),
            Decode::Temperature { scale } => Value::Temperature {
                reading: decode(word(data[0], data[1])),
                scale,
            },
        }
    }
}

/// The operations that the sensor's registers are worked with.
#[derive(Clone, Copy, Debug, PartialEq, Eq)]
pub enum Operation {
    /// Set one register.
    Write { register: u8, value: u8 },
    /// Set a register pair: the less significant byte of `word` goes to the
    /// register `low`, the more significant to the register `high`, each in a bus
    /// write of its own.
    WritePair { low: u8, high: u8, word: u16 },
    /// Switch the moving average on or off. The average register takes a new value
    /// only between an unlocking sequence of three writes to a reserved register
    /// and a fourth write that locks it again.
    MovingAverage { enable: bool },
    /// Select a register and read from it what `decode` needs.
    Read { register: u8, decode: Decode },
    /// Read a register and write it back with the bit at index `bit` made `on`.
    SetBit { register: u8, bit: usize, on: bool },
}

impl Operation {
    /// Bits are counted within one byte.
    pub open spec fn well_formed(self) -> bool {
        match self {
            Operation::Read { decode: Decode::Bit { bit }, .. } => bit < 8,
            Operation::SetBit { bit, .. } => bit < 8,
            _ => true,
        }
    }

    /// The transfers of the operation on the device at `address`, in their order.
    /// `latch` is the byte that the operation has read from the register whose bit
    /// it sets; other operations do not look at it.
    pub open spec fn script(self, address: u8, latch: u8) -> Seq<Transfer> {
        match self {
            Operation::Write { register, value } => seq![Transfer::Write { address, register, value }],
            Operation::WritePair { low, high, word } => seq![
                Transfer::Write { address, register: low, value: spec_low_byte(word) },
                Transfer::Write { address, register: high, value: spec_high_byte(word) },
            ],
            Operation::MovingAverage { enable } => seq![
                Transfer::Write { address, register: Register::ReservedAverage.spec_address(), value: 0x50 },
                Transfer::Write { address, register: Register::ReservedAverage.spec_address(), value: 0x45 },
                Transfer::Write { address, register: Register::ReservedAverage.spec_address(), value: 0x57 },
                Transfer::Write {
                    address,
                    register: Register::Average.spec_address(),
                    value: if enable { 0x20 } else { 0x00 },
                },
                Transfer::Write { address, register: Register::ReservedAverage.spec_address(), value: 0x00 },
            ],
            Operation::Read { register, decode } => seq![
                Transfer::Select { address, register },
                Transfer::Read { address, count: decode.spec_width() },
            ],
            Operation::SetBit { register, bit, on } => seq![
                Transfer::Select { address, register },
                Transfer::Read { address, count: 1 },
                Transfer::Write { address, register, value: with_bit_u8(latch, bit, on) },
            ],
        }
    }

    /// The number of transfers of the operation.
    pub open spec fn spec_length(self) -> usize {
        match self {
            Operation::Write { .. } => 1,
            Operation::WritePair { .. } => 2,
            Operation::MovingAverage { .. } => 5,
            Operation::Read { .. } => 2,
            Operation::SetBit { .. } => 3,
        }
    }

    /// What the operation brings once its last transfer has gone through, `data`
    /// being the bytes that this transfer has read.
    pub open spec fn spec_result(self, data: Seq<u8>) -> Value {
        match self {
            Operation::Read { decode, .. } => decode.spec_value(data),
            _ => Value::Nothing,
        }
    }

    #[verifier::when_used_as_spec(spec_length)]
    pub fn length(self) -> (count: usize)
        ensures
            count == self.spec_length(),
    {
        match self {
            Operation::Write { .. } => 1,
            Operation::WritePair { .. } => 2,
            Operation::MovingAverage { .. } => 5,
            Operation::Read { .. } => 2,
            Operation::SetBit { .. } => 3,
        }
    }
}

/// The state of a transaction: the device and the operation, how many transfers
/// have gone through, and the byte kept from a read for the write that follows.
pub struct State {
    pub address: u8,
    pub operation: Operation,
    pub completed: usize,
    pub latch: u8,
}

/// Where a transaction stands after a reply: at its next transfer, or at its end
/// with the operation's result.
pub enum Outcome<E> {
    Pending(State),
    Finished(Result<Value, Error<E>>),
}

impl State {
    /// The state in which nothing has been transferred yet.
    pub open spec fn start(address: u8, operation: Operation) -> State {
        State { address, operation, completed: 0, latch: 0 }
    }

    /// A transfer is still to be made.
    pub open spec fn well_formed(self) -> bool {
        &&& self.operation.well_formed()
        &&& self.completed < self.operation.spec_length()
    }

    /// The transfer that is to be made now.
    pub open spec fn request(self) -> Transfer {
        self.operation.script(self.address, self.latch)[self.completed as int]
    }

    /// The state after the transfer that was to be made has gone through and has
    /// read `data`.
    pub open spec fn proceed<E>(self, data: Seq<u8>) -> Outcome<E> {
        if self.completed + 1 == self.operation.spec_length() {
            Outcome::Finished(Ok(self.operation.spec_result(data)))
        } else {
            Outcome::Pending(
                State {
                    address: self.address,
                    operation: self.operation,
                    completed: (self.completed + 1) as usize,
                    latch: if data.len() > 0 {
                        data[0]
                    } else {
                        self.latch
                    },
                },
            )
        }
    }

    /// The state after the bus has answered the transfer that was to be made.
    pub open spec fn advance<E>(self, reply: Reply<E>) -> Outcome<E> {
        match reply {
            Reply::Failed(error) => Outcome::Finished(Err(Error::I2c(error))),
            _ => self.proceed(reply.data()),
        }
    }
}

/// One operation on the sensor under way.
#[derive(Debug, PartialEq, Eq)]
pub struct Transaction {
    address: u8,
    operation: Operation,
    completed: usize,
    latch: u8,
}

/// A transaction after a reply: still under way, or over with its result.
#[derive(Debug, PartialEq, Eq)]
pub enum Progress<E> {
    Pending(Transaction),
    Finished(Result<Value, Error<E>>),
}

impl View for Transaction {
    type V = State;

    closed spec fn view(&self) -> State {
        State {
            address: self.address,
            operation: self.operation,
            completed: self.completed,
            latch: self.latch,
        }
    }
}

impl<E> View for Progress<E> {
    type V = Outcome<E>;

    open spec fn view(&self) -> Outcome<E> {
        match self {
            Progress::Pending(transaction) => Outcome::Pending(transaction@),
            Progress::Finished(result) => Outcome::Finished(*result),
        }
    }
}

impl Transaction {
    #[verifier::type_invariant]
    spec fn still_to_do(self) -> bool {
        self@.well_formed()
    }

    /// Starts `operation` on the device at `address`.
    pub(crate) fn begin(address: u8, operation: Operation) -> (transaction: Transaction)
        requires
            operation.well_formed(),
        ensures
            transaction@ == State::start(address, operation),
    {
        Transaction { address, operation, completed: 0, latch: 0 }
    }

    /// The transfer that the host is to perform now. There always is one: a
    /// transaction that has nothing left to do is over and no longer at hand.
    pub fn request(&self) -> (transfer: Transfer)
        ensures
            self@.well_formed(),
            transfer == self@.request(),
    {
        proof {
            use_type_invariant(self);
        }
        let address: u8 = self.address;
        match self.operation {
            Operation::Write { register, value } => Transfer::Write { address, register, value },
            Operation::WritePair { low, high, word } => {
                if self.completed == 0 {
                    Transfer::Write { address, register: low, value: low_byte(word) }
                } else {
                    Transfer::Write { address, register: high, value: high_byte(word) }
                }
            },
            Operation::MovingAverage { enable } => {
                if self.completed == 0 {
                    Transfer::Write { address, register: Register::ReservedAverage.address(), value: 0x50 }
                } else if self.completed == 1 {
                    Transfer::Write { address, register: Register::ReservedAverage.address(), value: 0x45 }
                } else if self.completed == 2 {
                    Transfer::Write { address, register: Register::ReservedAverage.address(), value: 0x57 }
                } else if self.completed == 3 {
                    let value: u8 = if enable { 0x20 } else { 0x00 };
                    Transfer::Write { address, register: Register::Average.address(), value }
                } else {
                    Transfer::Write { address, register: Register::ReservedAverage.address(), value: 0x00 }
                }
            },
            Operation::Read { register, decode } => {
                if self.completed == 0 {
                    Transfer::Select { address, register }
                } else {
                    Transfer::Read { address, count: decode.width() }
                }
            },
            Operation::SetBit { register, bit, on } => {
                if self.completed == 0 {
                    Transfer::Select { address, register }
                } else if self.completed == 1 {
                    Transfer::Read { address, count: 1 }
                } else {
                    Transfer::Write { address, register, value: set_bit_u8(self.latch, bit, on) }
                }
            },
        }
    }

    /// Takes the bus's reply to the transfer that `request` has named. A failure
    /// ends the transaction with the bus's error. Otherwise the transaction goes on
    /// to its next transfer or, after the last, ends with the operation's result.
    pub fn advance<E>(self, reply: Reply<E>) -> (progress: Progress<E>)
        requires
            reply.answers(self@.request()),
        ensures
            progress@ == self@.advance(reply),
            progress matches Progress::Pending(next) ==> next@.well_formed(),
    {
        proof {
            use_type_invariant(&self);
        }
        match reply {
            Reply::Failed(error) => Progress::Finished(Err(Error::I2c(error))),
            Reply::Written => {
                if self.completed + 1 == self.operation.length() {
                    Progress::Finished(Ok(Value::Nothing))
                } else {
                    Progress::Pending(
                        Transaction {
                            address: self.address,
                            operation: self.operation,
                            completed: self.completed + 1,
                            latch: self.latch,
                        },
                    )
                }
            },
            Reply::Bytes(data) => {
                match self.operation {
                    Operation::Read { decode, .. } => Progress::Finished(Ok(decode.value(&data))),
                    _ => Progress::Pending(
                        Transaction {
                            address: self.address,
                            operation: self.operation,
                            completed: self.completed + 1,
                            latch: data[0],
                        },
                    ),
                }
            },
        }
    }
}

} // verus!

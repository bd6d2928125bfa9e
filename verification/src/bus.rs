//! The two-wire bus as the driver sees it: the transfers it asks for and the
//! replies it is given.
//!
//! The sensor's registers are reached by plain bus writes and reads. A write of two
//! bytes, register address and value, sets a register. A write of the register
//! address alone selects the register that the next read starts at.

use vstd::prelude::*;

verus! {

/// The one kind of failure: the bus could not carry out a transfer. It holds the
/// bus's own error value.
#[derive(Debug, PartialEq, Eq)]
pub enum Error<E> {
    I2c(E),
}

/// One transfer on the bus, for the host to perform.
#[derive(Clone, Copy, Debug, PartialEq, Eq)]
pub enum Transfer {
    /// A bus write of one byte, the register's address.
    Select { address: u8, register: u8 },
    /// A bus write of two bytes: the register's address, then the value.
    Write { address: u8, register: u8, value: u8 },
    /// A bus read of `count` bytes.
    Read { address: u8, count: usize },
}

impl Transfer {
    /// The 7-bit address of the device that the transfer goes to.
    pub open spec fn spec_address(self) -> u8 {
        match self {
            Transfer::Select { address, .. } => address,
            Transfer::Write { address, .. } => address,
            Transfer::Read { address, .. } => address,
        }
    }

    /// The bytes that the transfer writes, in the order they go out; none for a
    /// read.
    pub open spec fn spec_bytes(self) -> Seq<u8> {
        match self {
            Transfer::Select { register, .. } => seq![register],
            Transfer::Write { register, value, .. } => seq![register, value],
            Transfer::Read { .. } => Seq::empty(),
        }
    }

    /// The number of bytes that the transfer reads; zero for a write.
    pub open spec fn spec_count(self) -> usize {
        match self {
            Transfer::Select { .. } => 0,
            Transfer::Write { .. } => 0,
            Transfer::Read { count, .. } => count,
        }
    }

    /// Whether the transfer is a bus write.
    pub open spec fn spec_is_write(self) -> bool {
        !(self is Read)
    }

    #[verifier::when_used_as_spec(spec_address)]
    pub fn address(self) -> (address: u8)
        ensures
            address == self.spec_address(),
    {
        match self {
            Transfer::Select { address, .. } => address,
            Transfer::Write { address, .. } => address,
            Transfer::Read { address, .. } => address,
        }
    }

    pub fn bytes(self) -> (bytes: Vec<u8>)
        ensures
            bytes@ == self.spec_bytes(),
    {
        match self {
            Transfer::Select { register, .. } => vec![register],
            Transfer::Write { register, value, .. } => vec![register, value],
            Transfer::Read { .. } => Vec::new(),
        }
    }

    #[verifier::when_used_as_spec(spec_count)]
    pub fn count(self) -> (count: usize)
        ensures
            count == self.spec_count(),
    {
        match self {
            Transfer::Select { .. } => 0,
            Transfer::Write { .. } => 0,
            Transfer::Read { count, .. } => count,
        }
    }

    #[verifier::when_used_as_spec(spec_is_write)]
    pub fn is_write(self) -> (write: bool)
        ensures
            write == self.spec_is_write(),
    {
        match self {
            Transfer::Select { .. } => true,
            Transfer::Write { .. } => true,
            Transfer::Read { .. } => false,
        }
    }
}

/// What the bus made of one transfer.
#[derive(Debug, PartialEq, Eq)]
pub enum Reply<E> {
    /// The write went through.
    Written,
    /// The read went through and brought these bytes.
    Bytes(Vec<u8>),
    /// The transfer failed with this error.
    Failed(E),
}

impl<E> Reply<E> {
    /// Whether the reply is one that the bus can give to `transfer`: a failure to
    /// any transfer, `Written` to a write, and to a read as many bytes as it asked
    /// for.
    pub open spec fn answers(self, transfer: Transfer) -> bool {
        match self {
            Reply::Written => transfer.spec_is_write(),
            Reply::Bytes(data) => !transfer.spec_is_write() && data@.len() == transfer.spec_count(),
            Reply::Failed(_) => true,
        }
    }

    /// The bytes that the reply brings; none unless it is the reply to a read.
    pub open spec fn data(self) -> Seq<u8> {
        match self {
            Reply::Bytes(data) => data@,
            _ => Seq::empty(),
        }
    }

    /// Whether the reply says that `transfer` has gone through.
    pub open spec fn completes(self, transfer: Transfer) -> bool {
        !(self is Failed) && self.answers(transfer)
    }
}

/// The 16-bit value of two bytes read from a register pair: the first byte is the
/// less significant.
pub open spec fn spec_word(low: u8, high: u8) -> u16 {
    (low as u16) | ((high as u16) << 8)
}

/// The less significant byte of a 16-bit value: the one that goes to the first
/// register of a pair.
pub open spec fn spec_low_byte(value: u16) -> u8 {
    (value & 0xFF) as u8
}

/// The more significant byte of a 16-bit value: the one that goes to the second
/// register of a pair.
pub open spec fn spec_high_byte(value: u16) -> u8 {
    (value >> 8) as u8
}

#[verifier::when_used_as_spec(spec_word)]
pub fn word(low: u8, high: u8) -> (value: u16)
    ensures
        value == spec_word(low, high),
        value == low + 256 * high,
{
    assert(((high as u16) << 8) + (low as u16) == (low as u16) | ((high as u16) << 8)) by (bit_vector);
    assert(((high as u16) << 8) == 256 * (high as u16)) by (bit_vector);
    ((high as u16) << 8) + (low as u16)
}

#[verifier::when_used_as_spec(spec_low_byte)]
pub fn low_byte(value: u16) -> (byte: u8)
    ensures
        byte == spec_low_byte(value),
        byte == value % 256,
{
    assert(value & 0xFF == value % 256) by (bit_vector);
    (value & 0xFF) as u8
}

#[verifier::when_used_as_spec(spec_high_byte)]
pub fn high_byte(value: u16) -> (byte: u8)
    ensures
        byte == spec_high_byte(value),
        byte == value / 256,
{
    assert(value >> 8 == value / 256) by (bit_vector);
    (value >> 8) as u8
}

/// Splitting a 16-bit value into its two bytes and putting them together again
/// gives the value; so does the other way round.
pub proof fn word_of_bytes(value: u16, low: u8, high: u8)
    ensures
        spec_word(spec_low_byte(value), spec_high_byte(value)) == value,
        spec_low_byte(spec_word(low, high)) == low,
        spec_high_byte(spec_word(low, high)) == high,
{
    assert((((value & 0xFF) as u8) as u16) | ((((value >> 8) as u8) as u16) << 8) == value)
        by (bit_vector);
    assert((((low as u16) | ((high as u16) << 8)) & 0xFF) as u8 == low) by (bit_vector);
    assert((((low as u16) | ((high as u16) << 8)) >> 8) as u8 == high) by (bit_vector);
}

} // verus!

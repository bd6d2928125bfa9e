//! The sensor's operations by name.
//!
//! Every method starts one operation and hands back its [`Transaction`]; nothing
//! has gone over the bus at that point. The host performs the transfers that the
//! transaction asks for. No register value is kept between operations.

use crate::bits::{bit_written_is_bit_read, with_bit_u8};
use crate::bus::{spec_high_byte, spec_low_byte, Error, Reply, Transfer};
use crate::codec::{encode, spec_encode, Scale, SignedMagnitude};
use crate::registers::{Address, Framerate, Power, Register};
use crate::run::{read_back, run_to_a_failure, run_to_the_end};
use crate::transaction::{Decode, Operation, State, Transaction, Value};
use vstd::prelude::*;

verus! {

/// The sensor at one bus address.
pub struct GridEye {
    address: Address,
}

impl GridEye {
    /// The bus address that the driver was made for. It never changes.
    pub closed spec fn address(&self) -> Address {
        self.address
    }

    /// Where `operation` on this sensor starts.
    pub open spec fn starts(&self, operation: Operation) -> State {
        State::start(self.address().spec_value(), operation)
    }

    /// The register that holds the less significant byte of a pixel's temperature.
    /// The more significant byte is in the register after it.
    pub open spec fn pixel_register(pixel: u8) -> u8 {
        (Register::TemperatureStart.spec_address() + 2 * pixel) as u8
    }

    /// The register of the interrupt table that holds a pixel's bit: one register
    /// for every eight pixels.
    pub open spec fn pixel_interrupt_register(pixel: u8) -> u8 {
        (Register::IntTableInt0.spec_address() + pixel / 8) as u8
    }

    /// Creates a driver for the sensor at `address`.
    pub fn new(address: Address) -> (device: GridEye)
        ensures
            device.address() == address,
    {
        GridEye { address }
    }

    fn start(&self, operation: Operation) -> (transaction: Transaction)
        requires
            operation.well_formed(),
        ensures
            transaction@ == self.starts(operation),
    {
        Transaction::begin(self.address.value(), operation)
    }

    // ---- registers ------------------------------------------------------------------------------
    /// Sets a register: one bus write of the register's address and the value.
    pub fn set_register(&self, register: Register, value: u8) -> (transaction: Transaction)
        ensures
            transaction@ == self.starts(
                Operation::Write { register: register.spec_address(), value },
            ),
    {
        self.start(Operation::Write { register: register.address(), value })
    }

    /// Reads one register: a bus write of the register's address, then a bus read
    /// of one byte. The result is `Value::Byte`.
    pub fn get_register(&self, register: u8) -> (transaction: Transaction)
        ensures
            transaction@ == self.starts(Operation::Read { register, decode: Decode::Byte }),
    {
        self.start(Operation::Read { register, decode: Decode::Byte })
    }

    /// Reads a register pair: a bus write of the first register's address, then a
    /// bus read of two bytes, of which the first is the less significant. The result
    /// is `Value::Word`.
    pub fn get_register_as_u16(&self, register: u8) -> (transaction: Transaction)
        ensures
            transaction@ == self.starts(Operation::Read { register, decode: Decode::Word }),
    {
        self.start(Operation::Read { register, decode: Decode::Word })
    }

    // ---- sensor array ---------------------------------------------------------------------------
    /// Reads the temperature of a pixel, 0 to 63, as the sensor holds it. The
    /// result is `Value::Word`.
    pub fn get_pixel_temperature_raw(&self, pixel: u8) -> (transaction: Transaction)
        requires
            pixel < 64,
        ensures
            transaction@ == self.starts(
                Operation::Read { register: Self::pixel_register(pixel), decode: Decode::Word },
            ),
    {
        let pixel_low: u8 = Register::TemperatureStart.address() + (2 * pixel);
        self.get_register_as_u16(pixel_low)
    }

    /// Reads the temperature of a pixel, 0 to 63, in steps of a quarter of a degree
    /// Celsius. The result is `Value::Temperature`.
    pub fn get_pixel_temperature_celsius(&self, pixel: u8) -> (transaction: Transaction)
        requires
            pixel < 64,
        ensures
            transaction@ == self.starts(
                Operation::Read {
                    register: Self::pixel_register(pixel),
                    decode: Decode::Temperature { scale: Scale::Quarter },
                },
            ),
    {
        let pixel_low: u8 = Register::TemperatureStart.address() + (2 * pixel);
        self.start(
            Operation::Read {
                register: pixel_low,
                decode: Decode::Temperature { scale: Scale::Quarter },
            },
        )
    }

    // ---- device temperature ---------------------------------------------------------------------
    /// Reads the temperature of the sensor's thermistor as the sensor holds it. The
    /// result is `Value::Word`.
    pub fn get_device_temperature_raw(&self) -> (transaction: Transaction)
        ensures
            transaction@ == self.starts(
                Operation::Read {
                    register: Register::ThermistorLsb.spec_address(),
                    decode: Decode::Word,
                },
            ),
    {
        self.get_register_as_u16(Register::ThermistorLsb.address())
    }

    /// Reads the temperature of the sensor's thermistor in steps of a sixteenth of
    /// a degree Celsius. The result is `Value::Temperature`.
    pub fn get_device_temperature_celsius(&self) -> (transaction: Transaction)
        ensures
            transaction@ == self.starts(
                Operation::Read {
                    register: Register::ThermistorLsb.spec_address(),
                    decode: Decode::Temperature { scale: Scale::Sixteenth },
                },
            ),
    {
        self.start(
            Operation::Read {
                register: Register::ThermistorLsb.address(),
                decode: Decode::Temperature { scale: Scale::Sixteenth },
            },
        )
    }

    // ---- framerate ------------------------------------------------------------------------------
    /// Sets the sampling rate.
    pub fn set_framerate(&self, framerate: Framerate) -> (transaction: Transaction)
        ensures
            transaction@ == self.starts(
                Operation::Write {
                    register: Register::Framerate.spec_address(),
                    value: framerate.spec_value(),
                },
            ),
    {
        self.set_register(Register::Framerate, framerate.value())
    }

    /// Reads the sampling rate. The result is `Value::Rate`: ten frames each second
    /// where the register holds zero, one frame otherwise.
    pub fn get_framerate(&self) -> (transaction: Transaction)
        ensures
            transaction@ == self.starts(
                Operation::Read {
                    register: Register::Framerate.spec_address(),
                    decode: Decode::Rate,
                },
            ),
    {
        self.start(
            Operation::Read { register: Register::Framerate.address(), decode: Decode::Rate },
        )
    }

    // ---- other ----------------------------------------------------------------------------------
    /// Puts the sensor into an operating mode. Any mode may follow any other.
    pub fn power(&self, power: Power) -> (transaction: Transaction)
        ensures
            transaction@ == self.starts(
                Operation::Write {
                    register: Register::PowerControl.spec_address(),
                    value: power.spec_value(),
                },
            ),
    {
        self.set_register(Register::PowerControl, power.value())
    }

    // ---- interrupt ------------------------------------------------------------------------------
    fn change_interrupt_control(&self, bit: usize, on: bool) -> (transaction: Transaction)
        requires
            bit < 8,
        ensures
            transaction@ == self.starts(
                Operation::SetBit { register: Register::IntControl.spec_address(), bit, on },
            ),
    {
        self.start(Operation::SetBit { register: Register::IntControl.address(), bit, on })
    }

    fn read_bit(&self, register: u8, bit: usize) -> (transaction: Transaction)
        requires
            bit < 8,
        ensures
            transaction@ == self.starts(Operation::Read { register, decode: Decode::Bit { bit } }),
    {
        self.start(Operation::Read { register, decode: Decode::Bit { bit } })
    }

    /// Switches the interrupt output on: sets bit 0 of the interrupt-control
    /// register and keeps its other bits.
    pub fn enable_interrupt(&self) -> (transaction: Transaction)
        ensures
            transaction@ == self.starts(
                Operation::SetBit {
                    register: Register::IntControl.spec_address(),
                    bit: 0,
                    on: true,
                },
            ),
    {
        self.change_interrupt_control(0, true)
    }

    /// Switches the interrupt output off: clears bit 0 of the interrupt-control
    /// register and keeps its other bits.
    pub fn disable_interrupt(&self) -> (transaction: Transaction)
        ensures
            transaction@ == self.starts(
                Operation::SetBit {
                    register: Register::IntControl.spec_address(),
                    bit: 0,
                    on: false,
                },
            ),
    {
        self.change_interrupt_control(0, false)
    }

    /// Reads whether the interrupt output is on: the enable bit, bit 0 of the
    /// interrupt-control register, which `enable_interrupt` sets and
    /// `disable_interrupt` clears. The result is `Value::Flag`.
    pub fn interrupt_enabled(&self) -> (transaction: Transaction)
        ensures
            transaction@ == self.starts(
                Operation::Read {
                    register: Register::IntControl.spec_address(),
                    decode: Decode::Bit { bit: 0 },
                },
            ),
    {
        self.read_bit(Register::IntControl.address(), 0)
    }

    /// Selects the interrupt mode that compares with absolute values: sets bit 1 of
    /// the interrupt-control register and keeps its other bits.
    pub fn interrupt_mode_absolut(&self) -> (transaction: Transaction)
        ensures
            transaction@ == self.starts(
                Operation::SetBit {
                    register: Register::IntControl.spec_address(),
                    bit: 1,
                    on: true,
                },
            ),
    {
        self.change_interrupt_control(1, true)
    }

    /// Selects the interrupt mode that compares with differences. It sets bit 1 of
    /// the interrupt-control register, as `interrupt_mode_absolut` does: the two
    /// operations are the same on the bus.
    pub fn interrupt_mode_difference(&self) -> (transaction: Transaction)
        ensures
            transaction@ == self.starts(
                Operation::SetBit {
                    register: Register::IntControl.spec_address(),
                    bit: 1,
                    on: true,
                },
            ),
    {
        self.change_interrupt_control(1, true)
    }

    // ---- status ---------------------------------------------------------------------------------
    /// Reads the interrupt flag: bit 1 of the interrupt-control register. The
    /// status register is not read. The result is `Value::Flag`.
    pub fn interrupt_flag_set(&self) -> (transaction: Transaction)
        ensures
            transaction@ == self.starts(
                Operation::Read {
                    register: Register::IntControl.spec_address(),
                    decode: Decode::Bit { bit: 1 },
                },
            ),
    {
        self.read_bit(Register::IntControl.address(), 1)
    }

    /// Reads the pixel overflow flag: bit 2 of the interrupt-control register. The
    /// status register is not read. The result is `Value::Flag`.
    pub fn pixel_temperature_out_ok(&self) -> (transaction: Transaction)
        ensures
            transaction@ == self.starts(
                Operation::Read {
                    register: Register::IntControl.spec_address(),
                    decode: Decode::Bit { bit: 2 },
                },
            ),
    {
        self.read_bit(Register::IntControl.address(), 2)
    }

    /// Reads the thermistor overflow flag: bit 3 of the interrupt-control register.
    /// The status register is not read. The result is `Value::Flag`.
    pub fn device_temperature_out_ok(&self) -> (transaction: Transaction)
        ensures
            transaction@ == self.starts(
                Operation::Read {
                    register: Register::IntControl.spec_address(),
                    decode: Decode::Bit { bit: 3 },
                },
            ),
    {
        self.read_bit(Register::IntControl.address(), 3)
    }

    /// Clears the interrupt flag.
    pub fn clear_interrupt_flag(&self) -> (transaction: Transaction)
        ensures
            transaction@ == self.starts(
                Operation::Write { register: Register::StatusClear.spec_address(), value: 0x02 },
            ),
    {
        self.set_register(Register::StatusClear, 0x02)
    }

    /// Clears the pixel overflow flag.
    pub fn clear_pixel_temperatur_overflow(&self) -> (transaction: Transaction)
        ensures
            transaction@ == self.starts(
                Operation::Write { register: Register::StatusClear.spec_address(), value: 0x04 },
            ),
    {
        self.set_register(Register::StatusClear, 0x04)
    }

    /// Clears the thermistor overflow flag.
    pub fn clear_device_temperature_overflow(&self) -> (transaction: Transaction)
        ensures
            transaction@ == self.starts(
                Operation::Write { register: Register::StatusClear.spec_address(), value: 0x08 },
            ),
    {
        self.set_register(Register::StatusClear, 0x08)
    }

    /// Clears both overflow flags.
    pub fn clear_all_overflow(&self) -> (transaction: Transaction)
        ensures
            transaction@ == self.starts(
                Operation::Write { register: Register::StatusClear.spec_address(), value: 0x0C },
            ),
    {
        self.set_register(Register::StatusClear, 0x0C)
    }

    /// Clears the interrupt flag and both overflow flags.
    pub fn clear_all_status(&self) -> (transaction: Transaction)
        ensures
            transaction@ == self.starts(
                Operation::Write { register: Register::StatusClear.spec_address(), value: 0x0E },
            ),
    {
        self.set_register(Register::StatusClear, 0x0E)
    }

    // ---- pixel interrupt ------------------------------------------------------------------------
    /// Reads whether a pixel has raised the interrupt: bit `pixel % 8` of the
    /// pixel's register in the interrupt table. The result is `Value::Flag`.
    pub fn pixel_interrupt_enabled(&self, pixel: u8) -> (transaction: Transaction)
        ensures
            transaction@ == self.starts(
                Operation::Read {
                    register: Self::pixel_interrupt_register(pixel),
                    decode: Decode::Bit { bit: (pixel % 8) as usize },
                },
            ),
    {
        let intreg: u8 = Register::IntTableInt0.address() + (pixel / 8);
        let pos: u8 = pixel % 8;
        self.read_bit(intreg, pos as usize)
    }

    // ---- average --------------------------------------------------------------------------------
    /// Switches the moving average on.
    pub fn enable_moving_average(&self) -> (transaction: Transaction)
        ensures
            transaction@ == self.starts(Operation::MovingAverage { enable: true }),
    {
        self.start(Operation::MovingAverage { enable: true })
    }

    /// Switches the moving average off.
    pub fn disable_moving_average(&self) -> (transaction: Transaction)
        ensures
            transaction@ == self.starts(Operation::MovingAverage { enable: false }),
    {
        self.start(Operation::MovingAverage { enable: false })
    }

    /// Reads whether the moving average is on: bit 5 of the average register. The
    /// result is `Value::Flag`.
    pub fn moving_average_enabled(&self) -> (transaction: Transaction)
        ensures
            transaction@ == self.starts(
                Operation::Read {
                    register: Register::Average.spec_address(),
                    decode: Decode::Bit { bit: 5 },
                },
            ),
    {
        self.read_bit(Register::Average.address(), 5)
    }

    // ---- interrupt value ------------------------------------------------------------------------
    fn set_pair(&self, low: Register, high: Register, word: u16) -> (transaction: Transaction)
        ensures
            transaction@ == self.starts(
                Operation::WritePair {
                    low: low.spec_address(),
                    high: high.spec_address(),
                    word,
                },
            ),
    {
        self.start(Operation::WritePair { low: low.address(), high: high.address(), word })
    }

    fn get_temperature(&self, register: Register) -> (transaction: Transaction)
        ensures
            transaction@ == self.starts(
                Operation::Read {
                    register: register.spec_address(),
                    decode: Decode::Temperature { scale: Scale::Quarter },
                },
            ),
    {
        self.start(
            Operation::Read {
                register: register.address(),
                decode: Decode::Temperature { scale: Scale::Quarter },
            },
        )
    }

    /// Sets the upper interrupt threshold from whole degrees Celsius, given as sign
    /// and magnitude.
    pub fn set_upper_int_value_celsius(&self, celsius: SignedMagnitude) -> (transaction:
        Transaction)
        ensures
            transaction@ == self.starts(
                Operation::WritePair {
                    low: Register::IntLevelUpperLsb.spec_address(),
                    high: Register::IntLevelUpperMsb.spec_address(),
                    word: spec_encode(celsius),
                },
            ),
    {
        self.set_upper_int_value_raw(encode(celsius))
    }

    /// Sets the upper interrupt threshold to a raw value.
    pub fn set_upper_int_value_raw(&self, value: u16) -> (transaction: Transaction)
        ensures
            transaction@ == self.starts(
                Operation::WritePair {
                    low: Register::IntLevelUpperLsb.spec_address(),
                    high: Register::IntLevelUpperMsb.spec_address(),
                    word: value,
                },
            ),
    {
        self.set_pair(Register::IntLevelUpperLsb, Register::IntLevelUpperMsb, value)
    }

    /// Sets the lower interrupt threshold from whole degrees Celsius, given as sign
    /// and magnitude.
    pub fn set_lower_int_value_celsius(&self, celsius: SignedMagnitude) -> (transaction:
        Transaction)
        ensures
            transaction@ == self.starts(
                Operation::WritePair {
                    low: Register::IntLevelLowerLsb.spec_address(),
                    high: Register::IntLevelLowerMsb.spec_address(),
                    word: spec_encode(celsius),
                },
            ),
    {
        self.set_lower_int_value_raw(encode(celsius))
    }

    /// Sets the lower interrupt threshold to a raw value.
    pub fn set_lower_int_value_raw(&self, value: u16) -> (transaction: Transaction)
        ensures
            transaction@ == self.starts(
                Operation::WritePair {
                    low: Register::IntLevelLowerLsb.spec_address(),
                    high: Register::IntLevelLowerMsb.spec_address(),
                    word: value,
                },
            ),
    {
        self.set_pair(Register::IntLevelLowerLsb, Register::IntLevelLowerMsb, value)
    }

    /// Sets the interrupt hysteresis from whole degrees Celsius, given as sign and
    /// magnitude.
    pub fn set_int_hysteresis_celsius(&self, celsius: SignedMagnitude) -> (transaction:
        Transaction)
        ensures
            transaction@ == self.starts(
                Operation::WritePair {
                    low: Register::IntLevelHystLsb.spec_address(),
                    high: Register::IntLevelHystMsb.spec_address(),
                    word: spec_encode(celsius),
                },
            ),
    {
        self.set_int_hysteresis_raw(encode(celsius))
    }

    /// Sets the interrupt hysteresis to a raw value.
    pub fn set_int_hysteresis_raw(&self, value: u16) -> (transaction: Transaction)
        ensures
            transaction@ == self.starts(
                Operation::WritePair {
                    low: Register::IntLevelHystLsb.spec_address(),
                    high: Register::IntLevelHystMsb.spec_address(),
                    word: value,
                },
            ),
    {
        self.set_pair(Register::IntLevelHystLsb, Register::IntLevelHystMsb, value)
    }

    /// Reads the upper interrupt threshold in steps of a quarter of a degree
    /// Celsius. The result is `Value::Temperature`.
    pub fn upper_int_value_celsius(&self) -> (transaction: Transaction)
        ensures
            transaction@ == self.starts(
                Operation::Read {
                    register: Register::IntLevelUpperLsb.spec_address(),
                    decode: Decode::Temperature { scale: Scale::Quarter },
                },
            ),
    {
        self.get_temperature(Register::IntLevelUpperLsb)
    }

    /// Reads the upper interrupt threshold as the sensor holds it. The result is
    /// `Value::Word`.
    pub fn upper_int_value_raw(&self) -> (transaction: Transaction)
        ensures
            transaction@ == self.starts(
                Operation::Read {
                    register: Register::IntLevelUpperLsb.spec_address(),
                    decode: Decode::Word,
                },
            ),
    {
        self.get_register_as_u16(Register::IntLevelUpperLsb.address())
    }

    /// Reads the lower interrupt threshold in steps of a quarter of a degree
    /// Celsius. The result is `Value::Temperature`.
    pub fn lower_int_value_celsius(&self) -> (transaction: Transaction)
        ensures
            transaction@ == self.starts(
                Operation::Read {
                    register: Register::IntLevelLowerLsb.spec_address(),
                    decode: Decode::Temperature { scale: Scale::Quarter },
                },
            ),
    {
        self.get_temperature(Register::IntLevelLowerLsb)
    }

    /// Reads the lower interrupt threshold as the sensor holds it. The result is
    /// `Value::Word`.
    pub fn lower_int_value_raw(&self) -> (transaction: Transaction)
        ensures
            transaction@ == self.starts(
                Operation::Read {
                    register: Register::IntLevelLowerLsb.spec_address(),
                    decode: Decode::Word,
                },
            ),
    {
        self.get_register_as_u16(Register::IntLevelLowerLsb.address())
    }

    /// Reads the interrupt hysteresis in steps of a quarter of a degree Celsius.
    /// The result is `Value::Temperature`.
    pub fn hysteresis_int_value_celsius(&self) -> (transaction: Transaction)
        ensures
            transaction@ == self.starts(
                Operation::Read {
                    register: Register::IntLevelHystLsb.spec_address(),
                    decode: Decode::Temperature { scale: Scale::Quarter },
                },
            ),
    {
        self.get_temperature(Register::IntLevelHystLsb)
    }

    /// Reads the interrupt hysteresis as the sensor holds it. The result is
    /// `Value::Word`.
    pub fn hysteresis_int_value_raw(&self) -> (transaction: Transaction)
        ensures
            transaction@ == self.starts(
                Operation::Read {
                    register: Register::IntLevelHystLsb.spec_address(),
                    decode: Decode::Word,
                },
            ),
    {
        self.get_register_as_u16(Register::IntLevelHystLsb.address())
    }
}

/// Setting a register is one bus write of two bytes, the register's address and
/// the value, and nothing else, whether the write goes through or fails. Every
/// operation that sets one register is of this kind: the power mode, the sampling
/// rate and the clearing of flags.
pub proof fn write_is_one_transfer<E>(
    device: GridEye,
    register: Register,
    value: u8,
    replies: Seq<Reply<E>>,
)
    requires
        replies.len() >= 1,
        replies[0] is Written || replies[0] is Failed,
    ensures
        ({
            let state = device.starts(Operation::Write { register: register.spec_address(), value });
            let write = Transfer::Write {
                address: device.address().spec_value(),
                register: register.spec_address(),
                value,
            };
            &&& state.performed(replies) == seq![write]
            &&& write.spec_bytes() == seq![register.spec_address(), value]
            &&& replies[0] is Written ==> state.concluded(replies) == Some(
                Ok::<Value, Error<E>>(Value::Nothing),
            )
            &&& replies[0] matches Reply::Failed(error) ==> state.concluded(replies) == Some(
                Err::<Value, Error<E>>(Error::I2c(error)),
            )
        }),
{
    let operation = Operation::Write { register: register.spec_address(), value };
    let address = device.address().spec_value();
    let script = operation.script(address, read_back(replies));
    if replies[0] is Written {
        run_to_the_end(address, operation, replies);
    } else {
        run_to_a_failure(address, operation, replies, 0);
        assert(script.subrange(0, 1) =~= script);
    }
    assert(script =~= seq![Transfer::Write { address, register: register.spec_address(), value }]);
}

/// Reading from the sensor is a bus write of one byte, the register's address,
/// and then a bus read from the same device. When both go through, the operation
/// brings what the bytes read stand for.
pub proof fn read_is_select_then_read<E>(
    device: GridEye,
    register: u8,
    decode: Decode,
    replies: Seq<Reply<E>>,
)
    requires
        decode matches Decode::Bit { bit } ==> bit < 8,
        replies.len() >= 2,
        replies[0] is Written,
        replies[1] is Bytes,
        replies[1].data().len() == decode.spec_width(),
    ensures
        ({
            let state = device.starts(Operation::Read { register, decode });
            let address = device.address().spec_value();
            &&& state.performed(replies) == seq![
                Transfer::Select { address, register },
                Transfer::Read { address, count: decode.spec_width() },
            ]
            &&& (Transfer::Select { address, register }).spec_bytes() == seq![register]
            &&& state.concluded(replies) == Some(
                Ok::<Value, Error<E>>(decode.spec_value(replies[1].data())),
            )
        }),
{
    let operation = Operation::Read { register, decode };
    let address = device.address().spec_value();
    let script = operation.script(address, read_back(replies));
    assert(script =~= seq![
        Transfer::Select { address, register },
        Transfer::Read { address, count: decode.spec_width() },
    ]);
    assert forall|i: int| 0 <= i < operation.spec_length() implies (#[trigger] replies[i]).completes(
        script[i],
    ) by {
        if i == 0 {
        } else {
            assert(i == 1);
        }
    }
    run_to_the_end(address, operation, replies);
}

/// A read fails with the bus's error when either of its two transfers fails: the
/// write of the register's address, after which nothing is read, or the read.
pub proof fn read_fails_in_either_phase<E>(
    device: GridEye,
    register: u8,
    decode: Decode,
    replies: Seq<Reply<E>>,
)
    requires
        decode matches Decode::Bit { bit } ==> bit < 8,
        replies.len() >= 2,
        replies[0] is Written || replies[0] is Failed,
        replies[1] is Failed,
    ensures
        ({
            let state = device.starts(Operation::Read { register, decode });
            let address = device.address().spec_value();
            &&& replies[0] matches Reply::Failed(error) ==> {
                &&& state.performed(replies) == seq![Transfer::Select { address, register }]
                &&& state.concluded(replies) == Some(Err::<Value, Error<E>>(Error::I2c(error)))
            }
            &&& replies[0] is Written ==> {
                &&& state.performed(replies) == seq![
                    Transfer::Select { address, register },
                    Transfer::Read { address, count: decode.spec_width() },
                ]
                &&& state.concluded(replies) == Some(
                    Err::<Value, Error<E>>(Error::I2c(replies[1]->Failed_0)),
                )
            }
        }),
{
    let operation = Operation::Read { register, decode };
    let address = device.address().spec_value();
    let script = operation.script(address, read_back(replies));
    assert(script =~= seq![
        Transfer::Select { address, register },
        Transfer::Read { address, count: decode.spec_width() },
    ]);
    if replies[0] is Failed {
        run_to_a_failure(address, operation, replies, 0);
        assert(script.subrange(0, 1) =~= seq![Transfer::Select { address, register }]);
    } else {
        run_to_a_failure(address, operation, replies, 1);
        assert(script.subrange(0, 2) =~= script);
    }
}

/// Setting a register pair is two bus writes of two bytes each: first the less
/// significant byte of the value to the first register, then the more significant
/// byte to the second. When the first write fails the second is not made.
pub proof fn pair_is_written_low_byte_first<E>(
    device: GridEye,
    low: Register,
    high: Register,
    word: u16,
    replies: Seq<Reply<E>>,
)
    requires
        replies.len() >= 2,
        replies[0] is Written || replies[0] is Failed,
        replies[1] is Written || replies[1] is Failed,
    ensures
        ({
            let state = device.starts(
                Operation::WritePair { low: low.spec_address(), high: high.spec_address(), word },
            );
            let address = device.address().spec_value();
            let first = Transfer::Write {
                address,
                register: low.spec_address(),
                value: spec_low_byte(word),
            };
            let second = Transfer::Write {
                address,
                register: high.spec_address(),
                value: spec_high_byte(word),
            };
            &&& replies[0] is Failed ==> state.performed(replies) == seq![first]
            &&& replies[0] is Written ==> state.performed(replies) == seq![first, second]
            &&& state.concluded(replies) == Some(
                if replies[0] is Failed {
                    Err::<Value, Error<E>>(Error::I2c(replies[0]->Failed_0))
                } else if replies[1] is Failed {
                    Err::<Value, Error<E>>(Error::I2c(replies[1]->Failed_0))
                } else {
                    Ok::<Value, Error<E>>(Value::Nothing)
                },
            )
        }),
{
    let operation = Operation::WritePair { low: low.spec_address(), high: high.spec_address(), word };
    let address = device.address().spec_value();
    let script = operation.script(address, read_back(replies));
    let first = Transfer::Write { address, register: low.spec_address(), value: spec_low_byte(word) };
    let second = Transfer::Write {
        address,
        register: high.spec_address(),
        value: spec_high_byte(word),
    };
    assert(script =~= seq![first, second]);
    if replies[0] is Failed {
        run_to_a_failure(address, operation, replies, 0);
        assert(script.subrange(0, 1) =~= seq![first]);
    } else if replies[1] is Failed {
        run_to_a_failure(address, operation, replies, 1);
        assert(script.subrange(0, 2) =~= script);
    } else {
        assert forall|i: int| 0 <= i < operation.spec_length() implies (
        #[trigger] replies[i]).completes(script[i]) by {
            if i == 0 {
            } else {
                assert(i == 1);
            }
        }
        run_to_the_end(address, operation, replies);
    }
}

/// Switching the moving average is five bus writes in this order, and nothing
/// between them: 0x50, 0x45 and 0x57 to the reserved register 0x1F, then 0x20 to
/// switch on or 0x00 to switch off to the average register 0x07, then 0x00 to the
/// reserved register.
pub proof fn moving_average_is_five_writes<E>(device: GridEye, enable: bool, replies: Seq<Reply<E>>)
    requires
        replies.len() >= 5,
        forall|i: int| 0 <= i < 5 ==> #[trigger] replies[i] is Written,
    ensures
        ({
            let state = device.starts(Operation::MovingAverage { enable });
            let address = device.address().spec_value();
            &&& state.performed(replies) == seq![
                Transfer::Write { address, register: 0x1F, value: 0x50 },
                Transfer::Write { address, register: 0x1F, value: 0x45 },
                Transfer::Write { address, register: 0x1F, value: 0x57 },
                Transfer::Write { address, register: 0x07, value: if enable { 0x20 } else { 0x00 } },
                Transfer::Write { address, register: 0x1F, value: 0x00 },
            ]
            &&& state.concluded(replies) == Some(Ok::<Value, Error<E>>(Value::Nothing))
        }),
{
    let operation = Operation::MovingAverage { enable };
    let address = device.address().spec_value();
    let script = operation.script(address, read_back(replies));
    assert(script =~= seq![
        Transfer::Write { address, register: 0x1F, value: 0x50 },
        Transfer::Write { address, register: 0x1F, value: 0x45 },
        Transfer::Write { address, register: 0x1F, value: 0x57 },
        Transfer::Write { address, register: 0x07, value: if enable { 0x20 } else { 0x00 } },
        Transfer::Write { address, register: 0x1F, value: 0x00 },
    ]);
    assert forall|i: int| 0 <= i < operation.spec_length() implies (#[trigger] replies[i]).completes(
        script[i],
    ) by {
        assert(replies[i] is Written);
    }
    run_to_the_end(address, operation, replies);
}

/// Changing a bit of a register reads the register and writes back the byte that
/// was read with that one bit changed: three transfers, of which the last depends
/// on what the second has brought.
pub proof fn bit_is_changed_in_what_was_read<E>(
    device: GridEye,
    register: u8,
    bit: usize,
    on: bool,
    replies: Seq<Reply<E>>,
)
    requires
        bit < 8,
        replies.len() >= 3,
        replies[0] is Written,
        replies[1] is Bytes,
        replies[1].data().len() == 1,
        replies[2] is Written,
    ensures
        ({
            let state = device.starts(Operation::SetBit { register, bit, on });
            let address = device.address().spec_value();
            &&& state.performed(replies) == seq![
                Transfer::Select { address, register },
                Transfer::Read { address, count: 1 },
                Transfer::Write {
                    address,
                    register,
                    value: with_bit_u8(replies[1].data()[0], bit, on),
                },
            ]
            &&& state.concluded(replies) == Some(Ok::<Value, Error<E>>(Value::Nothing))
        }),
{
    let operation = Operation::SetBit { register, bit, on };
    let address = device.address().spec_value();
    let script = operation.script(address, read_back(replies));
    assert(script =~= seq![
        Transfer::Select { address, register },
        Transfer::Read { address, count: 1 },
        Transfer::Write { address, register, value: with_bit_u8(replies[1].data()[0], bit, on) },
    ]);
    assert forall|i: int| 0 <= i < operation.spec_length() implies (#[trigger] replies[i]).completes(
        script[i],
    ) by {
        if i == 0 {
        } else if i == 1 {
        } else {
            assert(i == 2);
        }
    }
    run_to_the_end(address, operation, replies);
}

/// The query of the interrupt enable reads the bit that switching the interrupt
/// output writes: of the byte that `enable_interrupt` writes back it gives true, of
/// the byte that `disable_interrupt` writes back false, whatever was read before.
pub proof fn interrupt_enable_is_read_as_written(read: u8)
    ensures
        (Decode::Bit { bit: 0 }).spec_value(seq![with_bit_u8(read, 0, true)]) == Value::Flag(true),
        (Decode::Bit { bit: 0 }).spec_value(seq![with_bit_u8(read, 0, false)]) == Value::Flag(
            false,
        ),
{
    bit_written_is_bit_read(read, 0, true);
    bit_written_is_bit_read(read, 0, false);
}

} // verus!

//! Register-level driver core for the Panasonic AMG88xx "Grid-EYE" 8x8 thermal sensor.
//!
//! The crate holds the decisions of the driver and none of its I/O. Every operation
//! of [`GridEye`] hands back a [`Transaction`]: a small state machine that names the
//! next transfer to perform on the two-wire bus and, given the bus's reply, either
//! the transfer after it or the operation's result. The host owns the bus and runs
//! the loop.

pub mod bits;
pub mod codec;
pub mod registers;
pub mod bus;
pub mod transaction;
pub mod driver;
pub mod run;

pub use crate::bus::{Error, Reply, Transfer};
pub use crate::codec::{Scale, SignedMagnitude};
pub use crate::driver::GridEye;
pub use crate::registers::{Address, Framerate, Power, Register};
pub use crate::transaction::{Decode, Operation, Progress, Transaction, Value};

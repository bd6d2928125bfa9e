//! The sensor's register map and the values of its control registers.

use vstd::prelude::*;

verus! {

/// The two bus addresses the sensor answers to, chosen by its address pin.
#[derive(Clone, Copy, Debug, PartialEq, Eq)]
pub enum Address {
    Standard,
    Alternate,
}

impl Address {
    /// The 7-bit address on the bus.
    pub open spec fn spec_value(self) -> u8 {
        match self {
            Address::Standard => 0x69,
            Address::Alternate => 0x68,
        }
    }

    #[verifier::when_used_as_spec(spec_value)]
    pub fn value(self) -> (byte: u8)
        ensures
            byte == self.spec_value(),
    {
        match self {
            Address::Standard => 0x69,
            Address::Alternate => 0x68,
        }
    }
}

/// The sensor's registers by name.
#[derive(Clone, Copy, Debug, PartialEq, Eq)]
pub enum Register {
    PowerControl,
    Reset,
    Framerate,
    IntControl,
    Status,
    StatusClear,
    Average,
    IntLevelUpperLsb,
    IntLevelUpperMsb,
    IntLevelLowerLsb,
    IntLevelLowerMsb,
    IntLevelHystLsb,
    IntLevelHystMsb,
    ThermistorLsb,
    ThermistorMsb,
    IntTableInt0,
    ReservedAverage,
    TemperatureStart,
}

impl Register {
    /// The register's one-byte address.
    pub open spec fn spec_address(self) -> u8 {
        match self {
            Register::PowerControl => 0x00,
            Register::Reset => 0x01,
            Register::Framerate => 0x02,
            Register::IntControl => 0x03,
            Register::Status => 0x04,
            Register::StatusClear => 0x05,
            Register::Average => 0x07,
            Register::IntLevelUpperLsb => 0x08,
            Register::IntLevelUpperMsb => 0x09,
            Register::IntLevelLowerLsb => 0x0A,
            Register::IntLevelLowerMsb => 0x0B,
            Register::IntLevelHystLsb => 0x0C,
            Register::IntLevelHystMsb => 0x0D,
            Register::ThermistorLsb => 0x0E,
            Register::ThermistorMsb => 0x0F,
            Register::IntTableInt0 => 0x10,
            Register::ReservedAverage => 0x1F,
            Register::TemperatureStart => 0x80,
        }
    }

    #[verifier::when_used_as_spec(spec_address)]
    pub fn address(self) -> (byte: u8)
        ensures
            byte == self.spec_address(),
    {
        match self {
            Register::PowerControl => 0x00,
            Register::Reset => 0x01,
            Register::Framerate => 0x02,
            Register::IntControl => 0x03,
            Register::Status => 0x04,
            Register::StatusClear => 0x05,
            Register::Average => 0x07,
            Register::IntLevelUpperLsb => 0x08,
            Register::IntLevelUpperMsb => 0x09,
            Register::IntLevelLowerLsb => 0x0A,
            Register::IntLevelLowerMsb => 0x0B,
            Register::IntLevelHystLsb => 0x0C,
            Register::IntLevelHystMsb => 0x0D,
            Register::ThermistorLsb => 0x0E,
            Register::ThermistorMsb => 0x0F,
            Register::IntTableInt0 => 0x10,
            Register::ReservedAverage => 0x1F,
            Register::TemperatureStart => 0x80,
        }
    }
}

/// The operating modes that the power-control register accepts.
#[derive(Clone, Copy, Debug, PartialEq, Eq)]
pub enum Power {
    Wakeup,
    Sleep,
    Standby60Seconds,
    Standby10Seconds,
}

impl Power {
    /// The byte written to the power-control register for this mode.
    pub open spec fn spec_value(self) -> u8 {
        match self {
            Power::Wakeup => 0x00,
            Power::Sleep => 0x10,
            Power::Standby60Seconds => 0x20,
            Power::Standby10Seconds => 0x21,
        }
    }

    #[verifier::when_used_as_spec(spec_value)]
    pub fn value(self) -> (byte: u8)
        ensures
            byte == self.spec_value(),
    {
        match self {
            Power::Wakeup => 0x00,
            Power::Sleep => 0x10,
            Power::Standby60Seconds => 0x20,
            Power::Standby10Seconds => 0x21,
        }
    }
}

/// The sensor's sampling rate: ten frames or one frame each second.
#[derive(Clone, Copy, Debug, PartialEq, Eq)]
pub enum Framerate {
    Fps10,
    Fps1,
}

impl Framerate {
    /// The byte written to the frame-rate register for this rate.
    pub open spec fn spec_value(self) -> u8 {
        match self {
            Framerate::Fps10 => 0x00,
            Framerate::Fps1 => 0x01,
        }
    }

    #[verifier::when_used_as_spec(spec_value)]
    pub fn value(self) -> (byte: u8)
        ensures
            byte == self.spec_value(),
    {
        match self {
            Framerate::Fps10 => 0x00,
            Framerate::Fps1 => 0x01,
        }
    }

    /// The rate that a byte read from the frame-rate register stands for: zero is
    /// ten frames each second, every other byte one.
    pub open spec fn spec_from_register(byte: u8) -> Framerate {
        if byte == 0 {
            Framerate::Fps10
        } else {
            Framerate::Fps1
        }
    }

    #[verifier::when_used_as_spec(spec_from_register)]
    pub fn from_register(byte: u8) -> (rate: Framerate)
        ensures
            rate == Framerate::spec_from_register(byte),
    {
        if byte == 0 {
            Framerate::Fps10
        } else {
            Framerate::Fps1
        }
    }
}

/// Writing a rate and reading the written byte back gives the rate.
pub proof fn framerate_survives_register(rate: Framerate)
    ensures
        Framerate::spec_from_register(rate.spec_value()) == rate,
{
}

} // verus!

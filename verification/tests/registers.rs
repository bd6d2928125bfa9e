use grideye::{Address, Framerate, Power, Register};

#[test]
fn device_addresses() {
    assert_eq!(Address::Standard.value(), 0x69);
    assert_eq!(Address::Alternate.value(), 0x68);
}

#[test]
fn register_map() {
    assert_eq!(Register::PowerControl.address(), 0x00);
    assert_eq!(Register::Reset.address(), 0x01);
    assert_eq!(Register::Framerate.address(), 0x02);
    assert_eq!(Register::IntControl.address(), 0x03);
    assert_eq!(Register::Status.address(), 0x04);
    assert_eq!(Register::StatusClear.address(), 0x05);
    assert_eq!(Register::Average.address(), 0x07);
    assert_eq!(Register::IntLevelUpperLsb.address(), 0x08);
    assert_eq!(Register::IntLevelUpperMsb.address(), 0x09);
    assert_eq!(Register::IntLevelLowerLsb.address(), 0x0A);
    assert_eq!(Register::IntLevelLowerMsb.address(), 0x0B);
    assert_eq!(Register::IntLevelHystLsb.address(), 0x0C);
    assert_eq!(Register::IntLevelHystMsb.address(), 0x0D);
    assert_eq!(Register::ThermistorLsb.address(), 0x0E);
    assert_eq!(Register::ThermistorMsb.address(), 0x0F);
    assert_eq!(Register::IntTableInt0.address(), 0x10);
    assert_eq!(Register::ReservedAverage.address(), 0x1F);
    assert_eq!(Register::TemperatureStart.address(), 0x80);
}

#[test]
fn power_modes() {
    assert_eq!(Power::Wakeup.value(), 0x00);
    assert_eq!(Power::Sleep.value(), 0x10);
    assert_eq!(Power::Standby60Seconds.value(), 0x20);
    assert_eq!(Power::Standby10Seconds.value(), 0x21);
}

#[test]
fn framerate_values() {
    assert_eq!(Framerate::Fps10.value(), 0x00);
    assert_eq!(Framerate::Fps1.value(), 0x01);
}

#[test]
fn framerate_from_register() {
    assert_eq!(Framerate::from_register(0), Framerate::Fps10);
    assert_eq!(Framerate::from_register(1), Framerate::Fps1);
    assert_eq!(Framerate::from_register(2), Framerate::Fps1);
    assert_eq!(Framerate::from_register(0xFF), Framerate::Fps1);
}

#[test]
fn framerate_survives_the_register() {
    assert_eq!(Framerate::from_register(Framerate::Fps10.value()), Framerate::Fps10);
    assert_eq!(Framerate::from_register(Framerate::Fps1.value()), Framerate::Fps1);
}

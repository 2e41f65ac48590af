use i2cdev::linux::LinuxI2CError;
use touchpad_i2c::bus::device_path;
use touchpad_i2c::text::decimal_string;
use touchpad_i2c::{Brightness, OpenError, OpenErrorKind, WriteError};

#[test]
fn decimal_rendering_matches_the_usual_notation() {
    assert_eq!(decimal_string(0), "0");
    assert_eq!(decimal_string(7), "7");
    assert_eq!(decimal_string(10), "10");
    assert_eq!(decimal_string(105), "105");
    assert_eq!(decimal_string(u32::MAX), "4294967295");
}

#[test]
fn device_path_follows_the_node_convention() {
    assert_eq!(device_path(0), "/dev/i2c-0");
    assert_eq!(device_path(2), "/dev/i2c-2");
    assert_eq!(device_path(13), "/dev/i2c-13");
}

#[test]
fn missing_device_node_classifies_as_not_found_with_module_guidance() {
    let cause = LinuxI2CError::Io(std::io::Error::new(
        std::io::ErrorKind::NotFound,
        "no such device node",
    ));
    let err = OpenError::from_cause(77, cause);
    assert_eq!(err.kind, OpenErrorKind::NotFound);
    assert_eq!(
        err.message,
        "Unable to open Touchpad I2C at /dev/i2c-77. Is i2c-dev kernel module loaded?"
    );
    assert!(err.message.contains("Is i2c-dev kernel module loaded?"));
    assert!(matches!(
        &err.cause,
        LinuxI2CError::Io(e) if e.kind() == std::io::ErrorKind::NotFound
    ));
}

#[test]
fn opening_a_missing_bus_gives_not_found_guidance() {
    let result = i2cdev::linux::LinuxI2CDevice::new("/dev/i2c-200", 0x15);
    let cause = result.err().expect("bus 200 should not exist here");
    let err = OpenError::from_cause(200, cause);
    assert_eq!(err.kind, OpenErrorKind::NotFound);
    assert_eq!(
        err.message,
        "Unable to open Touchpad I2C at /dev/i2c-200. Is i2c-dev kernel module loaded?"
    );
}

#[test]
fn forbidden_device_node_classifies_as_permission_denied_with_rights_guidance() {
    let cause = LinuxI2CError::Io(std::io::Error::new(
        std::io::ErrorKind::PermissionDenied,
        "access denied",
    ));
    let err = OpenError::from_cause(1, cause);
    assert_eq!(err.kind, OpenErrorKind::PermissionDenied);
    assert_eq!(
        err.message,
        "Unable to open Touchpad I2C at /dev/i2c-1. Do you have the permission to read /dev/i2c-*?"
    );
    assert!(err
        .message
        .contains("Do you have the permission to read /dev/i2c-*?"));
}

#[test]
fn other_io_failure_gets_the_base_message_alone() {
    let cause = LinuxI2CError::Io(std::io::Error::new(
        std::io::ErrorKind::TimedOut,
        "bus timed out",
    ));
    let err = OpenError::from_cause(3, cause);
    assert_eq!(err.kind, OpenErrorKind::Other);
    assert_eq!(err.message, "Unable to open Touchpad I2C at /dev/i2c-3");
}

#[test]
fn low_level_bus_failure_gets_the_base_message_alone() {
    let err = OpenError::from_cause(5, LinuxI2CError::Errno(16));
    assert_eq!(err.kind, OpenErrorKind::Other);
    assert_eq!(err.message, "Unable to open Touchpad I2C at /dev/i2c-5");
    assert!(matches!(&err.cause, LinuxI2CError::Errno(16)));
}

#[test]
fn failed_write_names_the_level_and_keeps_the_cause() {
    let cause = LinuxI2CError::Io(std::io::Error::new(
        std::io::ErrorKind::BrokenPipe,
        "write rejected",
    ));
    let err = WriteError::from_cause(Brightness::Full, cause);
    assert_eq!(err.level, Brightness::Full);
    assert_eq!(err.message, "Could not set touchpad brightness to Full");
    assert!(matches!(
        &err.cause,
        LinuxI2CError::Io(e) if e.kind() == std::io::ErrorKind::BrokenPipe
    ));
}

#[test]
fn every_level_names_itself_in_the_write_message() {
    for (level, expected) in [
        (Brightness::Off, "Could not set touchpad brightness to Off"),
        (Brightness::On, "Could not set touchpad brightness to On"),
        (Brightness::Low, "Could not set touchpad brightness to Low"),
        (Brightness::Half, "Could not set touchpad brightness to Half"),
        (Brightness::Full, "Could not set touchpad brightness to Full"),
    ] {
        let err = WriteError::from_cause(level, LinuxI2CError::Errno(5));
        assert_eq!(err.message, expected);
    }
}

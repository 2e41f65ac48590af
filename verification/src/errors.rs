//! The error values an open or a write can produce, with their human-readable
//! messages and the underlying bus error kept as the cause.

use vstd::prelude::*;

use i2cdev::linux::LinuxI2CError;

use crate::brightness::{spec_name, Brightness};
use crate::bus::{device_path, spec_device_path};

verus! {

/// Relies on `i2cdev::linux::LinuxI2CError` being the error type of every
/// fallible call into the bus library. The value is carried through opaquely
/// as the cause of the library's own error values.
#[verifier::external_type_specification]
#[verifier::external_body]
pub struct ExLinuxI2CError(LinuxI2CError);

/// How an open failure is classified, which decides the guidance appended to
/// its message.
#[derive(Debug, Clone, Copy, PartialEq, Eq, Structural)]
pub enum OpenErrorKind {
    /// The device node does not exist.
    NotFound,
    /// The caller lacks rights to the device node.
    PermissionDenied,
    /// Any other low-level bus or I/O failure.
    Other,
}

/// Relies on `i2cdev::linux::LinuxI2CError`'s two variants and on
/// `std::io::Error::kind`: an `Io` cause of kind `NotFound` or
/// `PermissionDenied` classifies accordingly; every other cause, the `Errno`
/// variant included, is `Other`.
#[verifier::external_body]
fn classify_cause(cause: &LinuxI2CError) -> OpenErrorKind {
    match cause {
        LinuxI2CError::Io(e) => match e.kind() {
            std::io::ErrorKind::NotFound => OpenErrorKind::NotFound,
            std::io::ErrorKind::PermissionDenied => OpenErrorKind::PermissionDenied,
            _ => OpenErrorKind::Other,
        },
        LinuxI2CError::Errno(_) => OpenErrorKind::Other,
    }
}

/// The message of an open failure before any guidance is appended.
pub open spec fn open_base_message(i2c_id: u32) -> Seq<char> {
    "Unable to open Touchpad I2C at "@ + spec_device_path(i2c_id)
}

/// The full message of an open failure: the base message, and guidance for
/// the kinds that have some. An `Other` failure gets the base message alone.
pub open spec fn open_message(i2c_id: u32, kind: OpenErrorKind) -> Seq<char> {
    match kind {
        OpenErrorKind::NotFound => open_base_message(i2c_id)
            + ". Is i2c-dev kernel module loaded?"@,
        OpenErrorKind::PermissionDenied => open_base_message(i2c_id)
            + ". Do you have the permission to read /dev/i2c-*?"@,
        OpenErrorKind::Other => open_base_message(i2c_id),
    }
}

/// The message of a write failure, naming the level that was being set.
pub open spec fn write_message(level: Brightness) -> Seq<char> {
    "Could not set touchpad brightness to "@ + spec_name(level)
}

/// A failure to open the bus device node.
pub struct OpenError {
    /// The classification that decided the guidance in the message.
    pub kind: OpenErrorKind,
    /// The human-readable message, naming the attempted path.
    pub message: String,
    /// The underlying bus error, kept for diagnostic chaining.
    pub cause: LinuxI2CError,
}

/// A failure to write the brightness command.
pub struct WriteError {
    /// The level that was being set when the write failed.
    pub level: Brightness,
    /// The human-readable message, naming the level.
    pub message: String,
    /// The underlying bus error, kept for diagnostic chaining.
    pub cause: LinuxI2CError,
}

impl OpenError {
    /// Wraps the bus error of a failed open of bus `i2c_id`: classifies it and
    /// builds the message that the classification calls for.
    pub fn from_cause(i2c_id: u32, cause: LinuxI2CError) -> (r: OpenError)
        ensures
            r.message@ == open_message(i2c_id, r.kind),
            r.cause == cause,
    {
        let kind = classify_cause(&cause);
        let mut message = String::from_str("Unable to open Touchpad I2C at ");
        let path = device_path(i2c_id);
        message.append(path.as_str());
        match kind {
            OpenErrorKind::NotFound => message.append(". Is i2c-dev kernel module loaded?"),
            OpenErrorKind::PermissionDenied => message.append(
                ". Do you have the permission to read /dev/i2c-*?",
            ),
            OpenErrorKind::Other => (),
        }
        OpenError { kind, message, cause }
    }
}

impl WriteError {
    /// Wraps the bus error of a failed write of the command for `level` into
    /// a message that names the level.
    pub fn from_cause(level: Brightness, cause: LinuxI2CError) -> (r: WriteError)
        ensures
            r.level == level,
            r.message@ == write_message(level),
            r.cause == cause,
    {
        let mut message = String::from_str("Could not set touchpad brightness to ");
        message.append(level.name());
        WriteError { level, message, cause }
    }
}

} // verus!

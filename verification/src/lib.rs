//! Control of a touchpad-integrated LED backlight over an I2C bus.
//!
//! The library holds everything that can be stated and proved: the brightness
//! levels and their cycling order, the wire codes and the fixed 13-byte
//! command, and the construction and classification of the error values that
//! an open or a write can produce. The actual device open and the raw write
//! are left to the thin unverified layer around the library, which hands any
//! failure back in as a `LinuxI2CError` cause.

pub mod brightness;
pub mod bus;
pub mod command;
pub mod errors;
pub mod text;

pub use brightness::Brightness;
pub use errors::{OpenError, OpenErrorKind, WriteError};

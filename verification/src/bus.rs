//! The bus-level conventions: the device node path and the peripheral address.

use vstd::prelude::*;

use crate::text::{decimal_string, spec_decimal};

verus! {

/// The fixed 7-bit address of the touchpad peripheral on the bus.
pub const TOUCHPAD_ADDR: u16 = 0x15;

/// The device node path for a bus index: `/dev/i2c-<index>`.
pub open spec fn spec_device_path(i2c_id: u32) -> Seq<char> {
    "/dev/i2c-"@ + spec_decimal(i2c_id as nat)
}

/// Builds the device node path for the given bus index.
pub fn device_path(i2c_id: u32) -> (s: String)
    ensures
        s@ == spec_device_path(i2c_id),
{
    let mut s = String::from_str("/dev/i2c-");
    let dec = decimal_string(i2c_id);
    s.append(dec.as_str());
    s
}

} // verus!

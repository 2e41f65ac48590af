//! The fixed 13-byte wire command that sets the LED brightness.

use vstd::prelude::*;

use crate::brightness::{spec_code, Brightness};

verus! {

/// The index of the one byte of the command that varies with the level.
pub const CODE_INDEX: usize = 11;

/// The full 13-byte command for a given level: a fixed preamble and trailer
/// understood by the peripheral's firmware, with the level's wire code at
/// index [`CODE_INDEX`]. The fixed bytes are an opaque protocol constant.
pub open spec fn spec_command(level: Brightness) -> Seq<u8> {
    seq![0x05u8, 0x00u8, 0x3du8, 0x03u8, 0x06u8, 0x00u8, 0x07u8, 0x00u8, 0x0du8, 0x14u8, 0x03u8,
        spec_code(level), 0xadu8]
}

/// Builds the 13-byte command buffer that sets the given brightness level.
pub fn brightness_command(level: Brightness) -> (msg: Vec<u8>)
    ensures
        msg@ == spec_command(level),
        msg@.len() == 13,
        msg@[CODE_INDEX as int] == spec_code(level),
{
    let msg: Vec<u8> = vec![0x05, 0x00, 0x3d, 0x03, 0x06, 0x00, 0x07, 0x00, 0x0d, 0x14, 0x03,
        level.code(), 0xad];
    proof {
        assert(msg@ =~= spec_command(level));
    }
    msg
}

/// Only the byte at [`CODE_INDEX`] depends on the level: every other byte of
/// the command is the same for all levels.
pub proof fn lemma_command_fixed_bytes(a: Brightness, b: Brightness)
    ensures
        forall|i: int|
            0 <= i < 13 && i != CODE_INDEX ==> spec_command(a)[i] == spec_command(b)[i],
{
}

} // verus!

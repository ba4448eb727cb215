//! Commands to a device behind a port, written to the data register.

use vstd::prelude::*;

pub mod keyboard;
pub mod mouse;

verus! {

/// A command that every PS/2 device understands, without data.
#[derive(Copy, Clone, Debug, PartialEq, Eq, Structural)]
pub enum Command {
    SetDefaults,
    Reset,
    /// Answered with the identity of the device.
    IdentifyDevice,
    /// Answered with the echo byte.
    Echo,
    ResetEcho,
}

impl Command {
    /// The byte that stands for the command on the wire.
    pub open spec fn spec_opcode(self) -> u8 {
        match self {
            Command::SetDefaults => 0xF6,
            Command::Reset => 0xFF,
            Command::IdentifyDevice => 0xF2,
            Command::Echo => 0xEE,
            Command::ResetEcho => 0xEC,
        }
    }

    /// The byte that stands for the command on the wire.
    #[verifier::when_used_as_spec(spec_opcode)]
    pub fn opcode(self) -> (byte: u8)
        ensures
            byte == self.spec_opcode(),
    {
        match self {
            Command::SetDefaults => 0xF6,
            Command::Reset => 0xFF,
            Command::IdentifyDevice => 0xF2,
            Command::Echo => 0xEE,
            Command::ResetEcho => 0xEC,
        }
    }
}

} // verus!

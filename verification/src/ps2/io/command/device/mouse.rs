//! Commands that only a mouse understands.

use vstd::prelude::*;

verus! {

/// A mouse command without data.
#[derive(Copy, Clone, Debug, PartialEq, Eq, Structural)]
pub enum Command {
    SetRemoteMode,
    SetWrapMode,
    SetStreamMode,
    StatusRequest,
    RequestSinglePacket,
}

impl Command {
    /// The byte that stands for the command on the wire.
    pub open spec fn spec_opcode(self) -> u8 {
        match self {
            Command::SetRemoteMode => 0xF0,
            Command::SetWrapMode => 0xEE,
            Command::SetStreamMode => 0xEA,
            Command::StatusRequest => 0xE9,
            Command::RequestSinglePacket => 0xEB,
        }
    }

    /// The byte that stands for the command on the wire.
    #[verifier::when_used_as_spec(spec_opcode)]
    pub fn opcode(self) -> (byte: u8)
        ensures
            byte == self.spec_opcode(),
    {
        match self {
            Command::SetRemoteMode => 0xF0,
            Command::SetWrapMode => 0xEE,
            Command::SetStreamMode => 0xEA,
            Command::StatusRequest => 0xE9,
            Command::RequestSinglePacket => 0xEB,
        }
    }
}

/// A mouse command that is followed by one byte of data.
#[derive(Copy, Clone, Debug, PartialEq, Eq, Structural)]
pub enum DataCommand {
    SetSampleRate,
    SetResolution,
}

impl DataCommand {
    /// The byte that stands for the command on the wire.
    pub open spec fn spec_opcode(self) -> u8 {
        match self {
            DataCommand::SetSampleRate => 0xF3,
            DataCommand::SetResolution => 0xE8,
        }
    }

    /// The byte that stands for the command on the wire.
    #[verifier::when_used_as_spec(spec_opcode)]
    pub fn opcode(self) -> (byte: u8)
        ensures
            byte == self.spec_opcode(),
    {
        match self {
            DataCommand::SetSampleRate => 0xF3,
            DataCommand::SetResolution => 0xE8,
        }
    }
}

} // verus!

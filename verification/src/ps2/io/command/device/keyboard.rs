//! Commands that only a keyboard understands.

use vstd::prelude::*;

verus! {

/// A keyboard command without data. All four belong to scanset 3.
#[derive(Copy, Clone, Debug, PartialEq, Eq, Structural)]
pub enum Command {
    SetAllKeysToRepeatingOnly,
    SetAllKeysToMakeReleaseOnly,
    SetAllKeysToMakeOnly,
    SetAllKeysToRepeatingMakeRelease,
}

impl Command {
    /// The byte that stands for the command on the wire.
    pub open spec fn spec_opcode(self) -> u8 {
        match self {
            Command::SetAllKeysToRepeatingOnly => 0xF7,
            Command::SetAllKeysToMakeReleaseOnly => 0xF8,
            Command::SetAllKeysToMakeOnly => 0xF9,
            Command::SetAllKeysToRepeatingMakeRelease => 0xFA,
        }
    }

    /// The byte that stands for the command on the wire.
    #[verifier::when_used_as_spec(spec_opcode)]
    pub fn opcode(self) -> (byte: u8)
        ensures
            byte == self.spec_opcode(),
    {
        match self {
            Command::SetAllKeysToRepeatingOnly => 0xF7,
            Command::SetAllKeysToMakeReleaseOnly => 0xF8,
            Command::SetAllKeysToMakeOnly => 0xF9,
            Command::SetAllKeysToRepeatingMakeRelease => 0xFA,
        }
    }
}

/// A keyboard command that is followed by one byte of data.
#[derive(Copy, Clone, Debug, PartialEq, Eq, Structural)]
pub enum DataCommand {
    SetLeds,
    SetTypematicOptions,
    /// Scanset 3 only.
    SetKeyRepeatingOnly,
    /// Scanset 3 only.
    SetKeyMakeReleaseOnly,
    /// Scanset 3 only.
    SetKeyMakeOnly,
    /// Sets the scanset, or with data 0 asks for the one in use.
    SetGetScancode,
}

impl DataCommand {
    /// The byte that stands for the command on the wire.
    pub open spec fn spec_opcode(self) -> u8 {
        match self {
            DataCommand::SetLeds => 0xED,
            DataCommand::SetTypematicOptions => 0xF3,
            DataCommand::SetKeyRepeatingOnly => 0xFB,
            DataCommand::SetKeyMakeReleaseOnly => 0xFC,
            DataCommand::SetKeyMakeOnly => 0xFD,
            DataCommand::SetGetScancode => 0xF0,
        }
    }

    /// The byte that stands for the command on the wire.
    #[verifier::when_used_as_spec(spec_opcode)]
    pub fn opcode(self) -> (byte: u8)
        ensures
            byte == self.spec_opcode(),
    {
        match self {
            DataCommand::SetLeds => 0xED,
            DataCommand::SetTypematicOptions => 0xF3,
            DataCommand::SetKeyRepeatingOnly => 0xFB,
            DataCommand::SetKeyMakeReleaseOnly => 0xFC,
            DataCommand::SetKeyMakeOnly => 0xFD,
            DataCommand::SetGetScancode => 0xF0,
        }
    }
}

} // verus!

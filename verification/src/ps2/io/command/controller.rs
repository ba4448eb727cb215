//! Commands to the controller itself, written to its command register.

use vstd::prelude::*;

verus! {

/// A controller command without data.
#[derive(Copy, Clone, Debug, PartialEq, Eq, Structural)]
pub enum Command {
    DisablePort2,
    EnablePort2,
    DisablePort1,
    EnablePort1,
    /// Routes the next data byte to the device on the second port.
    WriteCommandPort2,
    /// Answered with the configuration byte.
    ReadConfig,
    /// Answered with the result of the controller's self-test.
    TestController,
    /// Answered with the result of the test of the first port.
    TestPort1,
    /// Answered with the result of the test of the second port.
    TestPort2,
}

impl Command {
    /// The byte that stands for the command on the wire.
    pub open spec fn spec_opcode(self) -> u8 {
        match self {
            Command::DisablePort2 => 0xA7,
            Command::EnablePort2 => 0xA8,
            Command::DisablePort1 => 0xAD,
            Command::EnablePort1 => 0xAE,
            Command::WriteCommandPort2 => 0xD4,
            Command::ReadConfig => 0x20,
            Command::TestController => 0xAA,
            Command::TestPort1 => 0xAB,
            Command::TestPort2 => 0xA9,
        }
    }

    /// The byte that stands for the command on the wire.
    #[verifier::when_used_as_spec(spec_opcode)]
    pub fn opcode(self) -> (byte: u8)
        ensures
            byte == self.spec_opcode(),
    {
        match self {
            Command::DisablePort2 => 0xA7,
            Command::EnablePort2 => 0xA8,
            Command::DisablePort1 => 0xAD,
            Command::EnablePort1 => 0xAE,
            Command::WriteCommandPort2 => 0xD4,
            Command::ReadConfig => 0x20,
            Command::TestController => 0xAA,
            Command::TestPort1 => 0xAB,
            Command::TestPort2 => 0xA9,
        }
    }
}

/// A controller command that is followed by one byte of data.
#[derive(Copy, Clone, Debug, PartialEq, Eq, Structural)]
pub enum DataCommand {
    WriteConfig,
}

impl DataCommand {
    /// The byte that stands for the command on the wire.
    pub open spec fn spec_opcode(self) -> u8 {
        match self {
            DataCommand::WriteConfig => 0x60,
        }
    }

    /// The byte that stands for the command on the wire.
    #[verifier::when_used_as_spec(spec_opcode)]
    pub fn opcode(self) -> (byte: u8)
        ensures
            byte == self.spec_opcode(),
    {
        match self {
            DataCommand::WriteConfig => 0x60,
        }
    }
}

} // verus!

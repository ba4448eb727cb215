//! The mouse behind a PS/2 port.

use vstd::prelude::*;
use crate::ps2::{PortHolder, Ps2Error};
use crate::ps2::device::{
    command_data_guarded, command_guarded, guarded_data_next, guarded_next, guarded_ops, CommandRaw,
    CommandRawData, Device, PortType,
};
use crate::ps2::io::Step;
use crate::ps2::io::command::device::mouse::{Command, DataCommand};

verus! {

/// A handle to a device that was identified as a mouse.
#[derive(Copy, Clone, Debug, PartialEq, Eq, Structural)]
pub struct Mouse {
    internal: PortType,
}

impl Mouse {
    /// The mouse on the given port.
    pub closed spec fn spec_new(internal: PortType) -> Mouse {
        Mouse { internal }
    }

    /// The mouse on the given port.
    #[verifier::when_used_as_spec(spec_new)]
    pub fn new(internal: PortType) -> (mouse: Self)
        ensures
            mouse == Self::spec_new(internal),
            mouse.on_port() == internal,
    {
        Mouse { internal }
    }

    /// Sends a mouse command. A mouse without a port is not sent anything:
    /// the command ends with `DeviceUnavailable`. Nor is one whose port is
    /// not enabled: the command ends with `DeviceDisabled`.
    pub fn command_mouse(&self, ports: &PortHolder, cmd: Command) -> (step: Step<CommandRaw, Result<(), Ps2Error>>)
        ensures
            step.is_step(
                guarded_ops(ports.slot(self.on_port()), cmd.opcode()),
                guarded_next(ports.slot(self.on_port()), cmd.opcode()),
            ),
    {
        command_guarded(self.port(ports), cmd.opcode())
    }

    /// Sends a mouse command with data, under the same conditions.
    pub fn command_mouse_data(&self, ports: &PortHolder, cmd: DataCommand, data: u8) -> (step: Step<
        CommandRawData,
        Result<(), Ps2Error>,
    >)
        ensures
            step.is_step(
                guarded_ops(ports.slot(self.on_port()), cmd.opcode()),
                guarded_data_next(ports.slot(self.on_port()), cmd.opcode(), data),
            ),
    {
        command_data_guarded(self.port(ports), cmd.opcode(), data)
    }
}

impl Device for Mouse {
    closed spec fn on_port(&self) -> PortType {
        self.internal
    }

    fn port_type(&self) -> (port_type: PortType) {
        self.internal
    }

    open spec fn mouse(&self) -> bool {
        true
    }

    open spec fn keyboard(&self) -> bool {
        false
    }

    fn is_mouse(&self) -> (mouse: bool) {
        true
    }

    fn is_keyboard(&self) -> (keyboard: bool) {
        false
    }
}

/// A handle sits on the port that it was made for.
pub proof fn lemma_mouse_sits_on_its_port(port_type: PortType)
    ensures
        Mouse::spec_new(port_type).on_port() == port_type,
        Mouse::spec_new(port_type).mouse(),
        !Mouse::spec_new(port_type).keyboard(),
{
}

} // verus!

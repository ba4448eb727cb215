//! The PS/2 controller: bring-up, port bookkeeping and device handles.

use vstd::prelude::*;
use self::device::{
    exchange_ops, CommandPort, Device, DevicePort, DeviceType, Identify, InternalDevice, Ping, PortTest,
    PortType,
};
use self::device::keyboard::Keyboard;
use self::device::mouse::Mouse;
use self::io::{chain, command, command_data, command_data_ops, command_ops, Next, Op, Step};
use self::io::command::{controller, device as device_command};

pub mod device;
pub mod io;

verus! {

/// An error of the PS/2 protocol layer.
#[derive(Copy, Clone, Debug, PartialEq, Eq, Structural)]
pub enum Ps2Error {
    /// A device kept asking for the command again until the retries ran out.
    RetriesExceeded,
    /// The requested handle has no port behind it.
    DeviceUnavailable,
    /// A command was sent to a port that is not enabled.
    DeviceDisabled,
    /// The device answered with a byte that the protocol does not allow here.
    UnexpectedResponse(u8),
    /// A response was expected but none arrived in time.
    ExpectedResponse,
    /// A non-blocking write found the controller's input buffer full.
    WriteUnavailable,
    ControllerTestFailed,
    /// Bring-up of the controller failed.
    InitializationError(InitializationError),
    /// A command was sent through a handle of the wrong device type.
    WrongDeviceType,
}

/// What went wrong while the controller was brought up.
#[derive(Copy, Clone, Debug, PartialEq, Eq, Structural)]
pub enum InitializationError {
    /// The controller's self-test answered with this byte instead of success.
    ControllerTestFailed(u8),
}

/// What is known of the two ports: of each, the port if it was found to
/// exist.
pub type Ports = (Option<DevicePort>, Option<DevicePort>);

/// The devices on the two ports, as far as a ping has found them.
pub type Devices = (Option<InternalDevice>, Option<InternalDevice>);

/// The entry of a pair that belongs to a port.
pub open spec fn of_port<T>(pair: (Option<T>, Option<T>), port_type: PortType) -> Option<T> {
    match port_type {
        PortType::Port1 => pair.0,
        PortType::Port2 => pair.1,
    }
}

/// A pair with the entry of one port replaced.
pub open spec fn with_port<T>(pair: (Option<T>, Option<T>), port_type: PortType, entry: Option<T>) -> (
    Option<T>,
    Option<T>,
) {
    match port_type {
        PortType::Port1 => (entry, pair.1),
        PortType::Port2 => (pair.0, entry),
    }
}

/// The ports with one of them marked as dirty or clean, if it exists.
pub open spec fn marked(ports: Ports, port_type: PortType, dirty: bool) -> Ports {
    match of_port(ports, port_type) {
        Some(port) => with_port(ports, port_type, Some(port.with_dirty(dirty))),
        None => ports,
    }
}

/// The ports with one of them enabled or disabled, if it exists.
pub open spec fn switched(ports: Ports, port_type: PortType, enabled: bool) -> Ports {
    match of_port(ports, port_type) {
        Some(port) => with_port(ports, port_type, Some(port.with_enabled(enabled))),
        None => ports,
    }
}

/// The register operations that enable or disable a port, if it exists.
pub open spec fn switching_ops(ports: Ports, port_type: PortType, enabled: bool) -> Seq<Op> {
    match of_port(ports, port_type) {
        Some(port) => command_ops(
            if enabled {
                port.port_type().enable_command()
            } else {
                port.port_type().disable_command()
            },
        ),
        None => Seq::empty(),
    }
}

/// The controller's two ports, each present or not.
pub struct PortHolder {
    first: Option<DevicePort>,
    second: Option<DevicePort>,
}

impl PortHolder {
    /// What is known of the two ports.
    pub closed spec fn view(&self) -> Ports {
        (self.first, self.second)
    }

    /// What is known of a port: `None` while it was not found to exist.
    pub open spec fn slot(&self, port_type: PortType) -> Option<DevicePort> {
        of_port(self@, port_type)
    }

    /// A holder without ports.
    pub fn new() -> (holder: Self)
        ensures
            holder@ == (None::<DevicePort>, None::<DevicePort>),
    {
        PortHolder { first: None, second: None }
    }

    /// Replaces both ports.
    pub fn set(&mut self, ports: (Option<DevicePort>, Option<DevicePort>))
        ensures
            final(self)@ == ports,
    {
        self.first = ports.0;
        self.second = ports.1;
    }

    /// What is known of a port.
    pub fn port(&self, port_type: PortType) -> (slot: &Option<DevicePort>)
        ensures
            *slot == self.slot(port_type),
    {
        match port_type {
            PortType::Port1 => &self.first,
            PortType::Port2 => &self.second,
        }
    }

    /// Enables a port, if it exists: answers with the register operations
    /// that do so, and from now on the port takes commands. Nothing is sent
    /// for a port that does not exist.
    pub fn enable(&mut self, port_type: PortType) -> (ops: Vec<Op>)
        ensures
            final(self)@ == switched(old(self)@, port_type, true),
            ops@ == switching_ops(old(self)@, port_type, true),
    {
        match port_type {
            PortType::Port1 => {
                if let Some(mut port) = self.first {
                    let ops = port.enable();
                    self.first = Some(port);
                    return ops;
                }
            },
            PortType::Port2 => {
                if let Some(mut port) = self.second {
                    let ops = port.enable();
                    self.second = Some(port);
                    return ops;
                }
            },
        }
        Vec::new()
    }

    /// Disables a port, if it exists: answers with the register operations
    /// that do so, and from now on the port rejects commands.
    pub fn disable(&mut self, port_type: PortType) -> (ops: Vec<Op>)
        ensures
            final(self)@ == switched(old(self)@, port_type, false),
            ops@ == switching_ops(old(self)@, port_type, false),
    {
        match port_type {
            PortType::Port1 => {
                if let Some(mut port) = self.first {
                    let ops = port.disable();
                    self.first = Some(port);
                    return ops;
                }
            },
            PortType::Port2 => {
                if let Some(mut port) = self.second {
                    let ops = port.disable();
                    self.second = Some(port);
                    return ops;
                }
            },
        }
        Vec::new()
    }

    /// Marks a port as dirty or clean, if it exists.
    pub fn set_dirty(&mut self, port_type: PortType, dirty: bool)
        ensures
            final(self)@ == marked(old(self)@, port_type, dirty),
    {
        match port_type {
            PortType::Port1 => {
                if let Some(mut port) = self.first {
                    port.set_dirty(dirty);
                    self.first = Some(port);
                }
            },
            PortType::Port2 => {
                if let Some(mut port) = self.second {
                    port.set_dirty(dirty);
                    self.second = Some(port);
                }
            },
        }
    }
}

/// The controller's configuration byte.
#[derive(Copy, Clone, Debug, PartialEq, Eq, Structural)]
pub struct ConfigFlags {
    bits: u8,
}

impl ConfigFlags {
    /// Interrupts for the first port are enabled.
    pub const PORT_INTERRUPT_1: u8 = 0x01;

    /// Interrupts for the second port are enabled.
    pub const PORT_INTERRUPT_2: u8 = 0x02;

    /// The clock of the first port is disabled.
    pub const PORT_CLOCK_1: u8 = 0x10;

    /// The clock of the second port is disabled.
    pub const PORT_CLOCK_2: u8 = 0x20;

    /// The controller translates scanset 2 into scanset 1.
    pub const PORT_TRANSLATION_1: u8 = 0x40;

    /// Every bit that has a meaning here.
    pub const ALL: u8 = 0x73;

    /// The flags as a bit pattern.
    pub closed spec fn view(self) -> u8 {
        self.bits
    }

    /// The flags of a raw byte; bits without a meaning are dropped.
    pub closed spec fn spec_from_bits_truncate(raw: u8) -> ConfigFlags {
        ConfigFlags { bits: raw & Self::ALL }
    }

    /// The flags with the bits of `mask` set or cleared.
    pub closed spec fn with(self, mask: u8, value: bool) -> ConfigFlags {
        ConfigFlags {
            bits: if value {
                self.bits | mask
            } else {
                self.bits & !mask
            },
        }
    }

    /// Whether every bit of `mask` is set.
    pub open spec fn has(self, mask: u8) -> bool {
        self@ & mask == mask
    }

    /// The bit patterns of the flags that the two spec functions make.
    pub proof fn lemma_views(self, raw: u8, mask: u8, value: bool)
        ensures
            Self::spec_from_bits_truncate(raw)@ == raw & Self::ALL,
            self.with(mask, value)@ == (if value {
                self@ | mask
            } else {
                self@ & !mask
            }),
    {
    }

    /// The flags of a raw byte; bits without a meaning are dropped.
    #[verifier::when_used_as_spec(spec_from_bits_truncate)]
    pub fn from_bits_truncate(raw: u8) -> (flags: Self)
        ensures
            flags == Self::spec_from_bits_truncate(raw),
            flags@ == raw & Self::ALL,
    {
        ConfigFlags { bits: raw & Self::ALL }
    }

    /// The flags as a bit pattern.
    pub fn bits(&self) -> (bits: u8)
        ensures
            bits == self@,
    {
        self.bits
    }

    /// Whether every bit of `mask` is set.
    pub fn contains(&self, mask: u8) -> (found: bool)
        ensures
            found == self.has(mask),
    {
        self.bits & mask == mask
    }

    /// Sets or clears the bits of `mask`.
    pub fn set(&mut self, mask: u8, value: bool)
        ensures
            *final(self) == old(self).with(mask, value),
            final(self)@ == (if value {
                old(self)@ | mask
            } else {
                old(self)@ & !mask
            }),
    {
        if value {
            self.bits = self.bits | mask;
        } else {
            self.bits = self.bits & !mask;
        }
    }
}

/// What a read of the configuration says: the flags of the byte that came,
/// or an error if none came.
pub open spec fn config_of(response: Option<u8>) -> Result<ConfigFlags, Ps2Error> {
    match response {
        Some(byte) => Ok(ConfigFlags::from_bits_truncate(byte)),
        None => Err(Ps2Error::ExpectedResponse),
    }
}

/// A read of the configuration under way.
#[derive(Copy, Clone, Debug, PartialEq, Eq, Structural)]
pub struct ReadConfig;

impl ReadConfig {
    /// Ends the read with the controller's answer.
    pub fn step(self, response: Option<u8>) -> (step: Step<ReadConfig, Result<ConfigFlags, Ps2Error>>)
        ensures
            step.is_step(Seq::empty(), Next::Done(config_of(response))),
    {
        match response {
            Some(byte) => Step::done(Ok(ConfigFlags::from_bits_truncate(byte))),
            None => Step::done(Err(Ps2Error::ExpectedResponse)),
        }
    }
}

/// The configuration that bring-up starts from: interrupts of both ports
/// and the translation of the first port switched off.
pub open spec fn quiet(config: ConfigFlags) -> ConfigFlags {
    config.with(ConfigFlags::PORT_INTERRUPT_1, false).with(ConfigFlags::PORT_INTERRUPT_2, false).with(
        ConfigFlags::PORT_TRANSLATION_1,
        false,
    )
}

/// The configuration that bring-up ends with: interrupts of both ports
/// switched on.
pub open spec fn interrupting(config: ConfigFlags) -> ConfigFlags {
    config.with(ConfigFlags::PORT_INTERRUPT_1, true).with(ConfigFlags::PORT_INTERRUPT_2, true)
}

/// The initialization of the configuration under way: the configuration has
/// been asked for.
#[derive(Copy, Clone, Debug, PartialEq, Eq, Structural)]
pub struct InitializeConfig;

impl InitializeConfig {
    /// How the initialization ends: with the configuration that was written
    /// back, or with the error of the read.
    pub open spec fn outcome(response: Option<u8>) -> Result<ConfigFlags, Ps2Error> {
        match config_of(response) {
            Ok(config) => Ok(quiet(config)),
            Err(error) => Err(error),
        }
    }

    /// What is sent after the read: the configuration that bring-up starts
    /// from, if there is one to start from.
    pub open spec fn sends(response: Option<u8>) -> Seq<Op> {
        match Self::outcome(response) {
            Ok(config) => command_data_ops(controller::DataCommand::WriteConfig, config@),
            Err(_) => Seq::empty(),
        }
    }

    /// Ends the initialization with the controller's answer.
    pub fn step(self, response: Option<u8>) -> (step: Step<InitializeConfig, Result<ConfigFlags, Ps2Error>>)
        ensures
            step.is_step(Self::sends(response), Next::Done(Self::outcome(response))),
    {
        match response {
            Some(byte) => {
                let mut config = ConfigFlags::from_bits_truncate(byte);
                config.set(ConfigFlags::PORT_INTERRUPT_1, false);
                config.set(ConfigFlags::PORT_INTERRUPT_2, false);
                config.set(ConfigFlags::PORT_TRANSLATION_1, false);
                Step { ops: set_config_ops(config), next: Next::Done(Ok(config)) }
            },
            None => Step::done(Err(Ps2Error::ExpectedResponse)),
        }
    }
}

/// The register operations that write a configuration.
fn set_config_ops(config: ConfigFlags) -> (ops: Vec<Op>)
    ensures
        ops@ == command_data_ops(controller::DataCommand::WriteConfig, config@),
{
    command_data(controller::DataCommand::WriteConfig, config.bits())
}

/// The controller's self-test under way: the command is out.
#[derive(Copy, Clone, Debug, PartialEq, Eq, Structural)]
pub struct ControllerTest;

impl ControllerTest {
    /// What the controller's answer says: the success byte is a controller
    /// that works, any other byte a failed bring-up that carries the byte,
    /// and no answer is an error.
    pub open spec fn outcome(response: Option<u8>) -> Result<(), Ps2Error> {
        match response {
            Some(byte) => if byte == io::CONTROLLER_TEST_SUCCESS {
                Ok(())
            } else {
                Err(Ps2Error::InitializationError(InitializationError::ControllerTestFailed(byte)))
            },
            None => Err(Ps2Error::ExpectedResponse),
        }
    }

    /// Ends the test with the controller's answer.
    pub fn step(self, response: Option<u8>) -> (step: Step<ControllerTest, Result<(), Ps2Error>>)
        ensures
            step.is_step(Seq::empty(), Next::Done(Self::outcome(response))),
    {
        match response {
            Some(byte) => {
                if byte == io::CONTROLLER_TEST_SUCCESS {
                    Step::done(Ok(()))
                } else {
                    Step::done(
                        Err(Ps2Error::InitializationError(InitializationError::ControllerTestFailed(byte))),
                    )
                }
            },
            None => Step::done(Err(Ps2Error::ExpectedResponse)),
        }
    }
}

/// Where the test of the ports stands.
#[derive(Copy, Clone, Debug, PartialEq, Eq, Structural)]
pub enum TestPorts {
    /// The second port was enabled to see whether the controller has one,
    /// and the configuration is asked for again.
    SecondPortConfig,
    /// The test of the first port is out; the configuration is the one
    /// last read.
    First(ConfigFlags),
    /// The test of the second port is out; the flag is the first port's
    /// result.
    Second(bool),
}

impl TestPorts {
    /// The ports that a result of the tests stands for: a port that works
    /// is there, as new.
    pub open spec fn found(supported: (bool, bool)) -> Ports {
        (
            if supported.0 {
                Some(DevicePort::new(PortType::Port1))
            } else {
                None
            },
            if supported.1 {
                Some(DevicePort::new(PortType::Port2))
            } else {
                None
            },
        )
    }

    /// What the tests begin with, by the configuration: if the clock of
    /// the second port is off, the port is enabled and the configuration
    /// read again; else the first port is tested at once.
    pub open spec fn first(config: ConfigFlags) -> TestPorts {
        if config.has(ConfigFlags::PORT_CLOCK_2) {
            TestPorts::SecondPortConfig
        } else {
            TestPorts::First(config)
        }
    }

    /// What the tests send first.
    pub open spec fn begin_ops(config: ConfigFlags) -> Seq<Op> {
        if config.has(ConfigFlags::PORT_CLOCK_2) {
            command_ops(controller::Command::EnablePort2) + command_ops(controller::Command::ReadConfig)
        } else {
            command_ops(controller::Command::TestPort1)
        }
    }

    /// How the tests go on after a response. The second port is tested
    /// only if the configuration last read has its clock on.
    pub open spec fn next(self, response: Option<u8>) -> Next<TestPorts, Result<(bool, bool), Ps2Error>> {
        match self {
            TestPorts::SecondPortConfig => match config_of(response) {
                Ok(config) => Next::Await(TestPorts::First(config)),
                Err(error) => Next::Done(Err(error)),
            },
            TestPorts::First(config) => match PortTest::outcome(response) {
                Ok(first) => if !config.has(ConfigFlags::PORT_CLOCK_2) {
                    Next::Await(TestPorts::Second(first))
                } else {
                    Next::Done(Ok((first, false)))
                },
                Err(error) => Next::Done(Err(error)),
            },
            TestPorts::Second(first) => match PortTest::outcome(response) {
                Ok(second) => Next::Done(Ok((first, second))),
                Err(error) => Next::Done(Err(error)),
            },
        }
    }

    /// What is sent after a response.
    pub open spec fn sends(self, response: Option<u8>) -> Seq<Op> {
        match self {
            TestPorts::SecondPortConfig => if config_of(response) is Ok {
                command_ops(controller::Command::DisablePort2) + command_ops(controller::Command::TestPort1)
            } else {
                Seq::empty()
            },
            TestPorts::First(_) => if self.next(response) is Await {
                command_ops(controller::Command::TestPort2)
            } else {
                Seq::empty()
            },
            TestPorts::Second(_) => Seq::empty(),
        }
    }

    /// The ports after a response: those that the tests found, once both
    /// results are in, and until then the ports as they were.
    pub open spec fn ports_after(self, ports: Ports, response: Option<u8>) -> Ports {
        match self.next(response) {
            Next::Done(Ok(supported)) => Self::found(supported),
            _ => ports,
        }
    }

    /// Resumes the tests with the response that was read. When both results
    /// are in, they replace what the holder knew of the ports.
    pub fn step(self, ports: &mut PortHolder, response: Option<u8>) -> (step: Step<
        TestPorts,
        Result<(bool, bool), Ps2Error>,
    >)
        ensures
            step.is_step(self.sends(response), self.next(response)),
            final(ports)@ == self.ports_after(old(ports)@, response),
    {
        match self {
            TestPorts::SecondPortConfig => match response {
                Some(byte) => {
                    let config = ConfigFlags::from_bits_truncate(byte);
                    let ops = chain(PortType::Port2.disable(), command(controller::Command::TestPort1));
                    Step::wait(ops, TestPorts::First(config))
                },
                None => Step::done(Err(Ps2Error::ExpectedResponse)),
            },
            TestPorts::First(config) => match response {
                Some(byte) => {
                    let first = byte == 0;
                    if !config.contains(ConfigFlags::PORT_CLOCK_2) {
                        Step::wait(command(controller::Command::TestPort2), TestPorts::Second(first))
                    } else {
                        Self::finish(ports, (first, false))
                    }
                },
                None => Step::done(Err(Ps2Error::ExpectedResponse)),
            },
            TestPorts::Second(first) => match response {
                Some(byte) => Self::finish(ports, (first, byte == 0)),
                None => Step::done(Err(Ps2Error::ExpectedResponse)),
            },
        }
    }

    /// Records the ports that were found and ends the tests.
    fn finish(ports: &mut PortHolder, supported: (bool, bool)) -> (step: Step<
        TestPorts,
        Result<(bool, bool), Ps2Error>,
    >)
        ensures
            step.is_step(Seq::empty(), Next::Done(Ok(supported))),
            final(ports)@ == Self::found(supported),
    {
        ports.set(
            (
                if supported.0 {
                    Some(DevicePort::new(PortType::Port1))
                } else {
                    None
                },
                if supported.1 {
                    Some(DevicePort::new(PortType::Port2))
                } else {
                    None
                },
            ),
        );
        Step::done(Ok(supported))
    }
}

/// Where a command to every port stands.
#[derive(Copy, Clone, Debug, PartialEq, Eq, Structural)]
pub enum PerformPort {
    /// The command to the first port is out. The rest is what it takes to
    /// go on: the command, and the second port.
    First(CommandPort, device_command::Command, Option<DevicePort>),
    /// The command to the second port is out. The flag says whether the
    /// first port exists, and so has taken the command.
    Second(CommandPort, bool),
}

impl PerformPort {
    /// The outcome of a port that exists, and that of one that does not.
    pub open spec fn performed(exists: bool) -> Option<()> {
        if exists {
            Some(())
        } else {
            None
        }
    }

    /// How it goes on with the second port, once the first is done with.
    pub open spec fn second_next(second: Option<DevicePort>, cmd: device_command::Command, first: bool) -> Next<
        PerformPort,
        Result<(Option<()>, Option<()>), Ps2Error>,
    > {
        match second {
            Some(port) => Next::Await(PerformPort::Second(CommandPort::first(port.port_type(), cmd), first)),
            None => Next::Done(Ok((Self::performed(first), None))),
        }
    }

    /// What is sent to the second port.
    pub open spec fn second_ops(second: Option<DevicePort>, cmd: device_command::Command) -> Seq<Op> {
        match second {
            Some(port) => exchange_ops(port.port_type(), cmd.opcode()),
            None => Seq::empty(),
        }
    }

    /// What a command to every port begins with: the command to the first
    /// port that exists.
    pub open spec fn begin_next(ports: Ports, cmd: device_command::Command) -> Next<
        PerformPort,
        Result<(Option<()>, Option<()>), Ps2Error>,
    > {
        match ports.0 {
            Some(port) => Next::Await(
                PerformPort::First(CommandPort::first(port.port_type(), cmd), cmd, ports.1),
            ),
            None => Self::second_next(ports.1, cmd, false),
        }
    }

    /// What a command to every port sends first.
    pub open spec fn begin_ops(ports: Ports, cmd: device_command::Command) -> Seq<Op> {
        match ports.0 {
            Some(port) => exchange_ops(port.port_type(), cmd.opcode()),
            None => Self::second_ops(ports.1, cmd),
        }
    }

    /// How it goes on after a response: an error ends it at once, and the
    /// second port is not sent anything after an error of the first.
    pub open spec fn next(self, response: Option<u8>) -> Next<
        PerformPort,
        Result<(Option<()>, Option<()>), Ps2Error>,
    > {
        match self {
            PerformPort::First(command, cmd, second) => match command.next(response) {
                Next::Await(command) => Next::Await(PerformPort::First(command, cmd, second)),
                Next::Done(Ok(_)) => Self::second_next(second, cmd, true),
                Next::Done(Err(error)) => Next::Done(Err(error)),
            },
            PerformPort::Second(command, first) => match command.next(response) {
                Next::Await(command) => Next::Await(PerformPort::Second(command, first)),
                Next::Done(Ok(_)) => Next::Done(Ok((Self::performed(first), Some(())))),
                Next::Done(Err(error)) => Next::Done(Err(error)),
            },
        }
    }

    /// What is sent after a response.
    pub open spec fn sends(self, response: Option<u8>) -> Seq<Op> {
        match self {
            PerformPort::First(command, cmd, second) => match command.next(response) {
                Next::Await(_) => command.sends(response),
                Next::Done(Ok(_)) => Self::second_ops(second, cmd),
                Next::Done(Err(_)) => Seq::empty(),
            },
            PerformPort::Second(command, _) => command.sends(response),
        }
    }

    /// Goes on with the second port.
    fn second(second: Option<DevicePort>, cmd: device_command::Command, first: bool) -> (step: Step<
        PerformPort,
        Result<(Option<()>, Option<()>), Ps2Error>,
    >)
        ensures
            step.is_step(Self::second_ops(second, cmd), Self::second_next(second, cmd, first)),
    {
        match second {
            Some(port) => {
                let (ops, command) = port.command_port(cmd).awaited();
                Step::wait(ops, PerformPort::Second(command, first))
            },
            None => Step::done(Ok((Self::outcome(first), None))),
        }
    }

    /// The outcome of a port that exists, and that of one that does not.
    fn outcome(exists: bool) -> (outcome: Option<()>)
        ensures
            outcome == Self::performed(exists),
    {
        if exists {
            Some(())
        } else {
            None
        }
    }

    /// Resumes with the response that was read.
    pub fn step(self, response: Option<u8>) -> (step: Step<
        PerformPort,
        Result<(Option<()>, Option<()>), Ps2Error>,
    >)
        ensures
            step.is_step(self.sends(response), self.next(response)),
    {
        match self {
            PerformPort::First(command, cmd, second) => {
                let Step { ops, next } = command.step(response);
                match next {
                    Next::Await(command) => Step::wait(ops, PerformPort::First(command, cmd, second)),
                    Next::Done(Ok(_)) => Self::second(second, cmd, true),
                    Next::Done(Err(error)) => Step { ops, next: Next::Done(Err(error)) },
                }
            },
            PerformPort::Second(command, first) => {
                let Step { ops, next } = command.step(response);
                match next {
                    Next::Await(command) => Step::wait(ops, PerformPort::Second(command, first)),
                    Next::Done(Ok(_)) => Step { ops, next: Next::Done(Ok((Self::outcome(first), Some(())))) },
                    Next::Done(Err(error)) => Step { ops, next: Next::Done(Err(error)) },
                }
            },
        }
    }
}

impl PortHolder {
    /// Sends a device command to every port that exists, the first port
    /// first. A port's outcome is `Some` in the result, an absent port's is
    /// `None`. That no device takes the command is no error; any other error
    /// ends the whole at once.
    pub fn perform_port(&self, cmd: device_command::Command) -> (step: Step<
        PerformPort,
        Result<(Option<()>, Option<()>), Ps2Error>,
    >)
        ensures
            step.is_step(PerformPort::begin_ops(self@, cmd), PerformPort::begin_next(self@, cmd)),
    {
        match self.first {
            Some(port) => {
                let (ops, command) = port.command_port(cmd).awaited();
                Step::wait(ops, PerformPort::First(command, cmd, self.second))
            },
            None => PerformPort::second(self.second, cmd, false),
        }
    }
}

/// The PS/2 controller: its ports, and the devices that were found on them.
pub struct Controller {
    ports: PortHolder,
    devices: (Option<InternalDevice>, Option<InternalDevice>),
}

/// Where the bring-up of the controller stands.
#[derive(Copy, Clone, Debug, PartialEq, Eq, Structural)]
pub enum Setup {
    /// Both ports are disabled and the configuration is asked for.
    Config,
    /// The configuration is written back without interrupts and
    /// translation, and the controller tests itself.
    Controller(ConfigFlags),
    /// The controller works, and the ports are tested.
    Ports(TestPorts),
    /// The ports are known, and the configuration is asked for again.
    Interrupts,
    /// The interrupts are back on, and the devices are reset.
    Reset(PerformPort),
}

impl Setup {
    /// What bring-up sends first: both ports are disabled, stray output is
    /// flushed, and the configuration is asked for.
    pub open spec fn begin_ops() -> Seq<Op> {
        command_ops(controller::Command::DisablePort1) + command_ops(controller::Command::DisablePort2)
            + seq![Op::Flush] + command_ops(controller::Command::ReadConfig)
    }

    /// How bring-up ends once the devices are reset.
    pub open spec fn reset_next(reset: Next<PerformPort, Result<(Option<()>, Option<()>), Ps2Error>>) -> Next<
        Setup,
        Result<(), Ps2Error>,
    > {
        match reset {
            Next::Await(reset) => Next::Await(Setup::Reset(reset)),
            Next::Done(Ok(_)) => Next::Done(Ok(())),
            Next::Done(Err(error)) => Next::Done(Err(error)),
        }
    }

    /// The flush that ends a bring-up that went through.
    pub open spec fn last_ops(reset: Next<PerformPort, Result<(Option<()>, Option<()>), Ps2Error>>) -> Seq<Op> {
        match reset {
            Next::Done(Ok(_)) => seq![Op::Flush],
            _ => Seq::empty(),
        }
    }

    /// How bring-up goes on after a response, given the ports as they are
    /// known. The stages follow each other strictly; the first error ends
    /// bring-up with that error.
    pub open spec fn next(self, ports: Ports, response: Option<u8>) -> Next<Setup, Result<(), Ps2Error>> {
        match self {
            Setup::Config => match InitializeConfig::outcome(response) {
                Ok(config) => Next::Await(Setup::Controller(config)),
                Err(error) => Next::Done(Err(error)),
            },
            Setup::Controller(config) => match ControllerTest::outcome(response) {
                Ok(_) => Next::Await(Setup::Ports(TestPorts::first(config))),
                Err(error) => Next::Done(Err(error)),
            },
            Setup::Ports(tests) => match tests.next(response) {
                Next::Await(tests) => Next::Await(Setup::Ports(tests)),
                Next::Done(Ok(_)) => Next::Await(Setup::Interrupts),
                Next::Done(Err(error)) => Next::Done(Err(error)),
            },
            Setup::Interrupts => match config_of(response) {
                Ok(_) => Self::reset_next(PerformPort::begin_next(ports, device_command::Command::Reset)),
                Err(error) => Next::Done(Err(error)),
            },
            Setup::Reset(reset) => Self::reset_next(reset.next(response)),
        }
    }

    /// What is sent after a response.
    pub open spec fn sends(self, ports: Ports, response: Option<u8>) -> Seq<Op> {
        match self {
            Setup::Config => if InitializeConfig::outcome(response) is Ok {
                InitializeConfig::sends(response) + command_ops(controller::Command::TestController)
            } else {
                Seq::empty()
            },
            Setup::Controller(config) => if ControllerTest::outcome(response) is Ok {
                TestPorts::begin_ops(config)
            } else {
                Seq::empty()
            },
            Setup::Ports(tests) => if tests.next(response) matches Next::Done(Ok(_)) {
                tests.sends(response) + command_ops(controller::Command::ReadConfig)
            } else {
                tests.sends(response)
            },
            Setup::Interrupts => match config_of(response) {
                Ok(config) => command_data_ops(controller::DataCommand::WriteConfig, interrupting(config)@)
                    + PerformPort::begin_ops(ports, device_command::Command::Reset) + Self::last_ops(
                    PerformPort::begin_next(ports, device_command::Command::Reset),
                ),
                Err(_) => Seq::empty(),
            },
            Setup::Reset(reset) => reset.sends(response) + Self::last_ops(reset.next(response)),
        }
    }

    /// The ports after a response: the tests of the ports record what they
    /// found, and nothing else touches the ports.
    pub open spec fn ports_after(self, ports: Ports, response: Option<u8>) -> Ports {
        match self {
            Setup::Ports(tests) => tests.ports_after(ports, response),
            _ => ports,
        }
    }

    /// Ends bring-up, or goes on with the reset of the devices.
    fn reset(ops: Vec<Op>, reset: Step<PerformPort, Result<(Option<()>, Option<()>), Ps2Error>>) -> (step: Step<
        Setup,
        Result<(), Ps2Error>,
    >)
        ensures
            step.is_step(ops@ + reset.ops@ + Self::last_ops(reset.next), Self::reset_next(reset.next)),
    {
        let Step { ops: sent, next } = reset;
        let mut ops = chain(ops, sent);
        let ghost before = ops@;
        match next {
            Next::Await(reset) => {
                assert(ops@ =~= ops@ + Seq::<Op>::empty());
                Step::wait(ops, Setup::Reset(reset))
            },
            Next::Done(Ok(_)) => {
                // Bring-up may have left something in the output buffer.
                ops.push(Op::Flush);
                assert(ops@ =~= before + seq![Op::Flush]);
                Step { ops, next: Next::Done(Ok(())) }
            },
            Next::Done(Err(error)) => {
                assert(ops@ =~= ops@ + Seq::<Op>::empty());
                Step { ops, next: Next::Done(Err(error)) }
            },
        }
    }

    /// Resumes bring-up with the response that was read.
    pub fn step(self, controller: &mut Controller, response: Option<u8>) -> (step: Step<
        Setup,
        Result<(), Ps2Error>,
    >)
        ensures
            step.is_step(
                self.sends(old(controller).known_ports(), response),
                self.next(old(controller).known_ports(), response),
            ),
            final(controller).known_ports() == self.ports_after(old(controller).known_ports(), response),
            final(controller).known_devices() == old(controller).known_devices(),
    {
        match self {
            Setup::Config => {
                let (ops, initialized) = InitializeConfig.step(response).finished();
                match initialized {
                    Ok(config) => {
                        let (test, _) = controller.test_controller().awaited();
                        Step::wait(chain(ops, test), Setup::Controller(config))
                    },
                    Err(error) => Step::done(Err(error)),
                }
            },
            Setup::Controller(config) => {
                let (_, tested) = ControllerTest.step(response).finished();
                match tested {
                    Ok(_) => {
                        let (ops, tests) = controller.test_ports(config).awaited();
                        Step::wait(ops, Setup::Ports(tests))
                    },
                    Err(error) => Step::done(Err(error)),
                }
            },
            Setup::Ports(tests) => {
                let Step { ops, next } = tests.step(&mut controller.ports, response);
                match next {
                    Next::Await(tests) => Step::wait(ops, Setup::Ports(tests)),
                    Next::Done(Ok(_)) => Step::wait(
                        chain(ops, command(controller::Command::ReadConfig)),
                        Setup::Interrupts,
                    ),
                    Next::Done(Err(error)) => Step { ops, next: Next::Done(Err(error)) },
                }
            },
            Setup::Interrupts => match response {
                Some(byte) => {
                    // Everything is set up: the interrupts can come back.
                    let mut config = ConfigFlags::from_bits_truncate(byte);
                    config.set(ConfigFlags::PORT_INTERRUPT_1, true);
                    config.set(ConfigFlags::PORT_INTERRUPT_2, true);
                    Self::reset(
                        controller.set_config(config),
                        controller.ports.perform_port(device_command::Command::Reset),
                    )
                },
                None => Step::done(Err(Ps2Error::ExpectedResponse)),
            },
            Setup::Reset(reset) => {
                let step = Self::reset(Vec::new(), reset.step(response));
                assert(Seq::<Op>::empty() + reset.sends(response) =~= reset.sends(response));
                step
            },
        }
    }
}

/// The refresh of a port under way: the port is pinged.
#[derive(Copy, Clone, Debug, PartialEq, Eq, Structural)]
pub struct RefreshPort {
    pub ping: Ping,
}

impl RefreshPort {
    /// Whether a port has to be refreshed: it exists and is dirty.
    pub open spec fn due(slot: Option<DevicePort>) -> bool {
        slot matches Some(port) && port.is_dirty()
    }

    /// What the refresh of a port begins with: the ping, if the refresh is
    /// due, and else the end of it.
    pub open spec fn begin_next(ports: Ports, port_type: PortType) -> Next<RefreshPort, Result<bool, Ps2Error>> {
        let slot = of_port(ports, port_type);
        if Self::due(slot) {
            Next::Await(RefreshPort { ping: Ping::first(slot->0.port_type()) })
        } else {
            Next::Done(Ok(false))
        }
    }

    /// What the refresh of a port sends first.
    pub open spec fn begin_ops(ports: Ports, port_type: PortType) -> Seq<Op> {
        let slot = of_port(ports, port_type);
        if Self::due(slot) {
            exchange_ops(slot->0.port_type(), device_command::Command::Echo.opcode())
        } else {
            Seq::empty()
        }
    }

    /// How the refresh goes on after a response: it ends as the ping does.
    pub open spec fn next(self, response: Option<u8>) -> Next<RefreshPort, Result<bool, Ps2Error>> {
        match self.ping.next(response) {
            Next::Await(ping) => Next::Await(RefreshPort { ping }),
            Next::Done(outcome) => Next::Done(outcome),
        }
    }

    /// What is sent after a response.
    pub open spec fn sends(self, response: Option<u8>) -> Seq<Op> {
        self.ping.sends(response)
    }

    /// The device on the port after a response: a ping that was answered
    /// leaves a device that is still to be identified, one that was not
    /// leaves none, and until the ping has ended, or if it fails, the device
    /// stays what it was.
    pub open spec fn device_after(self, device: Option<InternalDevice>, response: Option<u8>) -> Option<
        InternalDevice,
    > {
        match self.ping.next(response) {
            Next::Done(Ok(alive)) => if alive {
                Some(InternalDevice::new(self.ping.port_type))
            } else {
                None
            },
            _ => device,
        }
    }

    /// Resumes the refresh with the response that was read.
    pub fn step(self, device: &mut Option<InternalDevice>, response: Option<u8>) -> (step: Step<
        RefreshPort,
        Result<bool, Ps2Error>,
    >)
        ensures
            step.is_step(self.sends(response), self.next(response)),
            *final(device) == self.device_after(*old(device), response),
    {
        let Step { ops, next } = self.ping.step(response);
        match next {
            Next::Await(ping) => Step::wait(ops, RefreshPort { ping }),
            Next::Done(Ok(alive)) => {
                *device = if alive {
                    Some(InternalDevice::new(self.ping.port_type))
                } else {
                    None
                };
                Step { ops, next: Next::Done(Ok(alive)) }
            },
            Next::Done(Err(error)) => Step { ops, next: Next::Done(Err(error)) },
        }
    }
}

/// Begins the refresh of a port: a port that is dirty is pinged, and the
/// device on it will be replaced by what the ping finds. The result says
/// whether a device answered. A port that is clean or absent is left alone,
/// with the result `false`. The port stays dirty here: it is marked clean
/// only once the device that answered has been identified.
pub fn refresh_port(ports: &mut PortHolder, port_type: PortType) -> (step: Step<
    RefreshPort,
    Result<bool, Ps2Error>,
>)
    ensures
        step.is_step(
            RefreshPort::begin_ops(old(ports)@, port_type),
            RefreshPort::begin_next(old(ports)@, port_type),
        ),
        final(ports)@ == old(ports)@,
{
    let slot = *ports.port(port_type);
    if let Some(port) = slot {
        if port.is_dirty() {
            let mut port = port;
            let (ops, ping) = port.ping().awaited();
            return Step::wait(ops, RefreshPort { ping });
        }
    }
    Step::done(Ok(false))
}

/// What the refresh of the controller's state turns to next.
#[derive(Copy, Clone, Debug, PartialEq, Eq, Structural)]
pub enum Stage {
    /// The refresh of a port.
    Refresh(PortType),
    /// The identification of the device on a port.
    Init(PortType),
    /// Nothing: both ports are done with.
    Finished,
}

impl Stage {
    /// What comes after a port is done with.
    pub open spec fn spec_after(port_type: PortType) -> Stage {
        match port_type {
            PortType::Port1 => Stage::Refresh(PortType::Port2),
            PortType::Port2 => Stage::Finished,
        }
    }

    /// What comes after the ping of a port: the identification of a device
    /// that answered, and else what comes after the port.
    pub open spec fn spec_after_ping(port_type: PortType, alive: bool) -> Stage {
        if alive {
            Stage::Init(port_type)
        } else {
            Self::spec_after(port_type)
        }
    }

    /// How many stages are still to come.
    pub open spec fn rank(self) -> nat {
        match self {
            Stage::Refresh(PortType::Port1) => 4,
            Stage::Init(PortType::Port1) => 3,
            Stage::Refresh(PortType::Port2) => 2,
            Stage::Init(PortType::Port2) => 1,
            Stage::Finished => 0,
        }
    }

    /// What comes after a port is done with.
    #[verifier::when_used_as_spec(spec_after)]
    pub fn after(port_type: PortType) -> (stage: Stage)
        ensures
            stage == Self::spec_after(port_type),
    {
        match port_type {
            PortType::Port1 => Stage::Refresh(PortType::Port2),
            PortType::Port2 => Stage::Finished,
        }
    }

    /// What comes after the ping of a port.
    #[verifier::when_used_as_spec(spec_after_ping)]
    pub fn after_ping(port_type: PortType, alive: bool) -> (stage: Stage)
        ensures
            stage == Self::spec_after_ping(port_type, alive),
    {
        if alive {
            Stage::Init(port_type)
        } else {
            Self::after(port_type)
        }
    }
}

/// The devices once the device on a port, if there is one, has taken over
/// the outcome of its identification.
pub open spec fn devices_identified(devices: Devices, port_type: PortType, outcome: Result<DeviceType, Ps2Error>) -> Devices {
    match of_port(devices, port_type) {
        Some(device) => with_port(devices, port_type, Some(device.identified(outcome))),
        None => devices,
    }
}

/// The ports once the identification of the device on a port has ended: a
/// device that was identified leaves its port clean, and a failed
/// identification leaves the port as dirty as it was.
pub open spec fn ports_identified(
    ports: Ports,
    devices: Devices,
    port_type: PortType,
    outcome: Result<DeviceType, Ps2Error>,
) -> Ports {
    if of_port(devices, port_type) is Some && outcome is Ok {
        marked(ports, port_type, false)
    } else {
        ports
    }
}

/// Where the refresh of the controller's state has come to rest: the ports
/// and devices as they are then, what is to be sent, and how it goes on.
pub ghost struct Settled {
    pub ports: Ports,
    pub devices: Devices,
    pub ops: Seq<Op>,
    pub next: Next<RefreshState, Result<(), Ps2Error>>,
}

/// Where the refresh of the controller's state stands.
#[derive(Copy, Clone, Debug, PartialEq, Eq, Structural)]
pub enum RefreshState {
    /// A port is pinged.
    Ping(PortType, RefreshPort),
    /// The device on a port is asked what it is.
    Identify(PortType, Identify),
}

impl RefreshState {
    /// Runs through the stages from `stage` on until one needs a response,
    /// or all are done. First one port wholly, then the other: a port is
    /// refreshed if that is due, and if its device answered the ping, the
    /// device is identified. Only a device that was identified leaves its
    /// port clean. An identification that is refused outright leaves device
    /// and port as they are and does not hold up the rest.
    pub open spec fn settle(ports: Ports, devices: Devices, stage: Stage) -> Settled
        decreases stage.rank(),
    {
        match stage {
            Stage::Finished => Settled { ports, devices, ops: Seq::empty(), next: Next::Done(Ok(())) },
            Stage::Refresh(port_type) => match RefreshPort::begin_next(ports, port_type) {
                Next::Await(refresh) => Settled {
                    ports,
                    devices,
                    ops: RefreshPort::begin_ops(ports, port_type),
                    next: Next::Await(RefreshState::Ping(port_type, refresh)),
                },
                _ => Self::settle(ports, devices, Stage::after(port_type)),
            },
            Stage::Init(port_type) => match of_port(devices, port_type) {
                Some(device) => {
                    let slot = of_port(ports, device.on_port());
                    match InternalDevice::identify_next(slot) {
                        Next::Await(identify) => Settled {
                            ports,
                            devices,
                            ops: device::guarded_ops(slot, device_command::Command::IdentifyDevice.opcode()),
                            next: Next::Await(RefreshState::Identify(port_type, identify)),
                        },
                        Next::Done(outcome) => Self::settle(
                            ports_identified(ports, devices, port_type, outcome),
                            devices_identified(devices, port_type, outcome),
                            Stage::after(port_type),
                        ),
                    }
                },
                None => Self::settle(ports, devices, Stage::after(port_type)),
            },
        }
    }

    /// What a response leads to: the stage that is under way goes on, or it
    /// ends and the stages after it are run through.
    pub open spec fn resumed(self, ports: Ports, devices: Devices, response: Option<u8>) -> Settled {
        match self {
            RefreshState::Ping(port_type, refresh) => {
                let devices = with_port(
                    devices,
                    port_type,
                    refresh.device_after(of_port(devices, port_type), response),
                );
                match refresh.next(response) {
                    Next::Await(pinging) => Settled {
                        ports,
                        devices,
                        ops: refresh.sends(response),
                        next: Next::Await(RefreshState::Ping(port_type, pinging)),
                    },
                    Next::Done(Ok(alive)) => Self::after_sending(
                        refresh.sends(response),
                        Self::settle(ports, devices, Stage::after_ping(port_type, alive)),
                    ),
                    Next::Done(Err(error)) => Settled {
                        ports,
                        devices,
                        ops: refresh.sends(response),
                        next: Next::Done(Err(error)),
                    },
                }
            },
            RefreshState::Identify(port_type, identify) => match identify.next(response) {
                Next::Await(asked) => Settled {
                    ports,
                    devices,
                    ops: identify.sends(response),
                    next: Next::Await(RefreshState::Identify(port_type, asked)),
                },
                Next::Done(outcome) => Self::after_sending(
                    identify.sends(response),
                    Self::settle(
                        ports_identified(ports, devices, port_type, outcome),
                        devices_identified(devices, port_type, outcome),
                        Stage::after(port_type),
                    ),
                ),
            },
        }
    }

    /// A rest that is come to after `ops` were sent.
    pub open spec fn after_sending(ops: Seq<Op>, settled: Settled) -> Settled {
        Settled { ports: settled.ports, devices: settled.devices, ops: ops + settled.ops, next: settled.next }
    }

    /// Resumes the refresh with the response that was read.
    pub fn step(self, controller: &mut Controller, response: Option<u8>) -> (step: Step<
        RefreshState,
        Result<(), Ps2Error>,
    >)
        ensures
            ({
                let settled = self.resumed(
                    old(controller).known_ports(),
                    old(controller).known_devices(),
                    response,
                );
                &&& step.is_step(settled.ops, settled.next)
                &&& final(controller).known_ports() == settled.ports
                &&& final(controller).known_devices() == settled.devices
            }),
    {
        match self {
            RefreshState::Ping(port_type, refresh) => {
                let mut device = controller.device(port_type);
                let Step { ops, next } = refresh.step(&mut device, response);
                controller.set_device(port_type, device);
                match next {
                    Next::Await(refresh) => Step::wait(ops, RefreshState::Ping(port_type, refresh)),
                    Next::Done(Ok(alive)) => {
                        let Step { ops: rest, next } = controller.advance(Stage::after_ping(port_type, alive));
                        Step { ops: chain(ops, rest), next }
                    },
                    Next::Done(Err(error)) => Step { ops, next: Next::Done(Err(error)) },
                }
            },
            RefreshState::Identify(port_type, identify) => {
                let Step { ops, next } = identify.step(response);
                match next {
                    Next::Await(identify) => Step::wait(ops, RefreshState::Identify(port_type, identify)),
                    Next::Done(outcome) => {
                        controller.init_device(port_type, outcome);
                        let Step { ops: rest, next } = controller.advance(Stage::after(port_type));
                        Step { ops: chain(ops, rest), next }
                    },
                }
            },
        }
    }
}

/// The handle to the first device, the first port's before the second's,
/// that was identified as a keyboard.
pub open spec fn first_keyboard(devices: Devices) -> Result<Keyboard, Ps2Error> {
    match (narrowed_keyboard(devices.0), narrowed_keyboard(devices.1)) {
        (Some(handle), _) => Ok(handle),
        (None, Some(handle)) => Ok(handle),
        (None, None) => Err(Ps2Error::DeviceUnavailable),
    }
}

/// The keyboard that a device is, if there is a device and it was identified
/// as one.
pub open spec fn narrowed_keyboard(device: Option<InternalDevice>) -> Option<Keyboard> {
    match device {
        Some(device) => if device.identity() is Keyboard {
            Some(Keyboard::new(device.on_port()))
        } else {
            None
        },
        None => None,
    }
}

/// The handle to the first device, the first port's before the second's,
/// that was identified as a mouse.
pub open spec fn first_mouse(devices: Devices) -> Result<Mouse, Ps2Error> {
    match (narrowed_mouse(devices.0), narrowed_mouse(devices.1)) {
        (Some(handle), _) => Ok(handle),
        (None, Some(handle)) => Ok(handle),
        (None, None) => Err(Ps2Error::DeviceUnavailable),
    }
}

/// The mouse that a device is, if there is a device and it was identified
/// as one.
pub open spec fn narrowed_mouse(device: Option<InternalDevice>) -> Option<Mouse> {
    match device {
        Some(device) => if device.identity() is Mouse {
            Some(Mouse::new(device.on_port()))
        } else {
            None
        },
        None => None,
    }
}

impl Controller {
    /// What the controller knows of its ports.
    pub closed spec fn known_ports(&self) -> Ports {
        self.ports@
    }

    /// The devices that the controller has found.
    pub closed spec fn known_devices(&self) -> Devices {
        self.devices
    }

    /// A controller that knows of no port and no device.
    pub fn new() -> (controller: Self)
        ensures
            controller.known_ports() == (None::<DevicePort>, None::<DevicePort>),
            controller.known_devices() == (None::<InternalDevice>, None::<InternalDevice>),
    {
        Controller { ports: PortHolder::new(), devices: (None, None) }
    }

    /// Enables a port, if the controller has it: answers with the register
    /// operations that do so, and from now on the port takes the commands
    /// that go through a handle.
    pub fn enable_port(&mut self, port_type: PortType) -> (ops: Vec<Op>)
        ensures
            final(self).known_ports() == switched(old(self).known_ports(), port_type, true),
            final(self).known_devices() == old(self).known_devices(),
            ops@ == switching_ops(old(self).known_ports(), port_type, true),
    {
        self.ports.enable(port_type)
    }

    /// Disables a port, if the controller has it.
    pub fn disable_port(&mut self, port_type: PortType) -> (ops: Vec<Op>)
        ensures
            final(self).known_ports() == switched(old(self).known_ports(), port_type, false),
            final(self).known_devices() == old(self).known_devices(),
            ops@ == switching_ops(old(self).known_ports(), port_type, false),
    {
        self.ports.disable(port_type)
    }

    /// The controller's ports, for the commands that go through a handle.
    pub fn ports(&self) -> (ports: &PortHolder)
        ensures
            ports@ == self.known_ports(),
    {
        &self.ports
    }

    /// Brings the controller up. What it knew of the ports is forgotten.
    /// Then, each stage only after the one before went through: both ports
    /// are disabled and stray output flushed; the configuration is read and
    /// written back with interrupts and translation off; the controller
    /// tests itself; the ports are tested, and those that work are recorded
    /// as new; the configuration is read again and written back with
    /// interrupts on; the device on each port that exists is reset, where no
    /// device answering is no error; and the output is flushed once more.
    pub fn setup(&mut self) -> (step: Step<Setup, Result<(), Ps2Error>>)
        ensures
            step.is_step(Setup::begin_ops(), Next::Await(Setup::Config)),
            final(self).known_ports() == (None::<DevicePort>, None::<DevicePort>),
            final(self).known_devices() == old(self).known_devices(),
    {
        // The ports are not tested yet: none is known to exist.
        self.ports.set((None, None));

        let mut ops = chain(PortType::Port1.disable(), PortType::Port2.disable());
        // Nothing that the devices have queued up may be taken for an answer.
        ops.push(Op::Flush);
        let (config, _) = self.initialize_config().awaited();
        let ops = chain(ops, config);
        assert(ops@ =~= Setup::begin_ops());
        Step::wait(ops, Setup::Config)
    }

    /// Initializes the configuration: reads it, and writes it back with the
    /// interrupts of both ports and the translation of the first port off.
    pub fn initialize_config(&self) -> (step: Step<InitializeConfig, Result<ConfigFlags, Ps2Error>>)
        ensures
            step.is_step(command_ops(controller::Command::ReadConfig), Next::Await(InitializeConfig)),
    {
        Step::wait(command(controller::Command::ReadConfig), InitializeConfig)
    }

    /// Has the controller test itself. Any answer but the success byte
    /// fails bring-up, and is not tried again.
    pub fn test_controller(&mut self) -> (step: Step<ControllerTest, Result<(), Ps2Error>>)
        ensures
            step.is_step(command_ops(controller::Command::TestController), Next::Await(ControllerTest)),
            *final(self) == *old(self),
    {
        Step::wait(command(controller::Command::TestController), ControllerTest)
    }

    /// Tests which ports the controller has. The first port is tested in
    /// any case. If the configuration has the clock of the second port off,
    /// that port is enabled, the configuration read again, and the port
    /// disabled; and the second port is tested only if the configuration
    /// last read has its clock on. When the tests have ended, the ports that
    /// work replace what the controller knew.
    pub fn test_ports(&mut self, config: ConfigFlags) -> (step: Step<TestPorts, Result<(bool, bool), Ps2Error>>)
        ensures
            step.is_step(TestPorts::begin_ops(config), Next::Await(TestPorts::first(config))),
            *final(self) == *old(self),
    {
        // Whether the controller has a second port shows in its clock bit.
        if config.contains(ConfigFlags::PORT_CLOCK_2) {
            Step::wait(
                chain(PortType::Port2.enable(), command(controller::Command::ReadConfig)),
                TestPorts::SecondPortConfig,
            )
        } else {
            Step::wait(command(controller::Command::TestPort1), TestPorts::First(config))
        }
    }

    /// Reads the configuration.
    pub fn config(&self) -> (step: Step<ReadConfig, Result<ConfigFlags, Ps2Error>>)
        ensures
            step.is_step(command_ops(controller::Command::ReadConfig), Next::Await(ReadConfig)),
    {
        Step::wait(command(controller::Command::ReadConfig), ReadConfig)
    }

    /// The register operations that write the configuration.
    pub fn set_config(&self, config: ConfigFlags) -> (ops: Vec<Op>)
        ensures
            ops@ == command_data_ops(controller::DataCommand::WriteConfig, config@),
    {
        command_data(controller::DataCommand::WriteConfig, config.bits())
    }

    /// The handle to the keyboard, after a refresh of the controller's
    /// state has ended with `refreshed`. An error of the refresh is handed
    /// on. Else the first device that was identified as a keyboard is
    /// narrowed to one, and if there is none the error is
    /// `DeviceUnavailable`.
    pub fn keyboard(&self, refreshed: Result<(), Ps2Error>) -> (handle: Result<Keyboard, Ps2Error>)
        ensures
            handle == match refreshed {
                Ok(_) => first_keyboard(self.known_devices()),
                Err(error) => Err(error),
            },
    {
        if let Err(error) = refreshed {
            return Err(error);
        }
        let keyboards = (
            match &self.devices.0 {
                Some(device) => device.as_keyboard(),
                None => None,
            },
            match &self.devices.1 {
                Some(device) => device.as_keyboard(),
                None => None,
            },
        );
        match keyboards.0 {
            Some(keyboard) => Ok(keyboard),
            None => match keyboards.1 {
                Some(keyboard) => Ok(keyboard),
                None => Err(Ps2Error::DeviceUnavailable),
            },
        }
    }

    /// The handle to the mouse, after a refresh of the controller's state
    /// has ended with `refreshed`; as for the keyboard.
    pub fn mouse(&self, refreshed: Result<(), Ps2Error>) -> (handle: Result<Mouse, Ps2Error>)
        ensures
            handle == match refreshed {
                Ok(_) => first_mouse(self.known_devices()),
                Err(error) => Err(error),
            },
    {
        if let Err(error) = refreshed {
            return Err(error);
        }
        let mice = (
            match &self.devices.0 {
                Some(device) => device.as_mouse(),
                None => None,
            },
            match &self.devices.1 {
                Some(device) => device.as_mouse(),
                None => None,
            },
        );
        match mice.0 {
            Some(mouse) => Ok(mouse),
            None => match mice.1 {
                Some(mouse) => Ok(mouse),
                None => Err(Ps2Error::DeviceUnavailable),
            },
        }
    }

    /// Brings what the controller knows of the devices up to date: each
    /// port that is dirty is pinged, the first port first, and a device that
    /// answers is identified anew. A port is marked clean once its device
    /// has been identified; where the ping or the identification fails it
    /// stays dirty and is looked at again the next time. Ports that are
    /// clean are left alone, so that a controller without dirty ports is
    /// done at once and sends nothing.
    pub fn refresh_state(&mut self) -> (step: Step<RefreshState, Result<(), Ps2Error>>)
        ensures
            ({
                let settled = RefreshState::settle(
                    old(self).known_ports(),
                    old(self).known_devices(),
                    Stage::Refresh(PortType::Port1),
                );
                &&& step.is_step(settled.ops, settled.next)
                &&& final(self).known_ports() == settled.ports
                &&& final(self).known_devices() == settled.devices
            }),
    {
        self.advance(Stage::Refresh(PortType::Port1))
    }

    /// Runs through the stages of a refresh from `stage` on, until one
    /// needs a response or all are done.
    fn advance(&mut self, stage: Stage) -> (step: Step<RefreshState, Result<(), Ps2Error>>)
        ensures
            ({
                let settled = RefreshState::settle(old(self).known_ports(), old(self).known_devices(), stage);
                &&& step.is_step(settled.ops, settled.next)
                &&& final(self).known_ports() == settled.ports
                &&& final(self).known_devices() == settled.devices
            }),
        decreases stage.rank(),
    {
        match stage {
            Stage::Finished => Step::done(Ok(())),
            Stage::Refresh(port_type) => {
                let Step { ops, next } = refresh_port(&mut self.ports, port_type);
                match next {
                    Next::Await(refresh) => Step::wait(ops, RefreshState::Ping(port_type, refresh)),
                    Next::Done(_) => self.advance(Stage::after(port_type)),
                }
            },
            Stage::Init(port_type) => match self.device(port_type) {
                Some(device) => {
                    let Step { ops, next } = device.identify(&self.ports);
                    match next {
                        Next::Await(identify) => Step::wait(ops, RefreshState::Identify(port_type, identify)),
                        Next::Done(outcome) => {
                            self.init_device(port_type, outcome);
                            self.advance(Stage::after(port_type))
                        },
                    }
                },
                None => self.advance(Stage::after(port_type)),
            },
        }
    }

    /// The device that was found on a port.
    pub fn device(&self, port_type: PortType) -> (device: Option<InternalDevice>)
        ensures
            device == of_port(self.known_devices(), port_type),
    {
        match port_type {
            PortType::Port1 => self.devices.0,
            PortType::Port2 => self.devices.1,
        }
    }

    /// Replaces the device on a port.
    fn set_device(&mut self, port_type: PortType, device: Option<InternalDevice>)
        ensures
            final(self).known_ports() == old(self).known_ports(),
            final(self).known_devices() == with_port(old(self).known_devices(), port_type, device),
    {
        match port_type {
            PortType::Port1 => {
                self.devices.0 = device;
            },
            PortType::Port2 => {
                self.devices.1 = device;
            },
        }
    }

    /// Hands the outcome of an identification to the device on a port, if
    /// there is one. A device that was identified leaves its port clean.
    fn init_device(&mut self, port_type: PortType, outcome: Result<DeviceType, Ps2Error>)
        ensures
            final(self).known_ports() == ports_identified(
                old(self).known_ports(),
                old(self).known_devices(),
                port_type,
                outcome,
            ),
            final(self).known_devices() == devices_identified(old(self).known_devices(), port_type, outcome),
    {
        if let Some(mut device) = self.device(port_type) {
            device.init(outcome);
            self.set_device(port_type, Some(device));
            if outcome.is_ok() {
                self.ports.set_dirty(port_type, false);
            }
        }
    }
}

/// A failed self-test is fatal to bring-up: whatever the controller answers
/// in place of the success byte ends bring-up at once with that byte, and
/// nothing more is sent.
pub proof fn lemma_failed_self_test_ends_setup(config: ConfigFlags, ports: Ports, answer: u8)
    requires
        answer != io::CONTROLLER_TEST_SUCCESS,
    ensures
        Setup::Controller(config).next(ports, Some(answer)) == Next::<Setup, Result<(), Ps2Error>>::Done(
            Err(Ps2Error::InitializationError(InitializationError::ControllerTestFailed(answer))),
        ),
        Setup::Controller(config).sends(ports, Some(answer)) == Seq::<Op>::empty(),
        Setup::Controller(config).ports_after(ports, Some(answer)) == ports,
{
}

/// Bring-up records a port only if its test passed: the ports that the
/// tests leave behind are new ones, the first exactly if the controller
/// answered its test with 0, and the second exactly if it was tested and
/// answered with 0.
pub proof fn lemma_tests_record_working_ports(first: bool, second: bool)
    ensures
        TestPorts::found((first, second)).0 is Some <==> first,
        TestPorts::found((first, second)).1 is Some <==> second,
        first ==> TestPorts::found((first, second)).0 == Some(DevicePort::new(PortType::Port1)),
        second ==> TestPorts::found((first, second)).1 == Some(DevicePort::new(PortType::Port2)),
{
}

/// A controller whose ports are all clean or absent has nothing to refresh:
/// the refresh is done at once, sends nothing and changes nothing.
pub proof fn lemma_clean_ports_need_no_refresh(ports: Ports, devices: Devices)
    requires
        !RefreshPort::due(ports.0),
        !RefreshPort::due(ports.1),
    ensures
        RefreshState::settle(ports, devices, Stage::Refresh(PortType::Port1)) == (Settled {
            ports,
            devices,
            ops: Seq::empty(),
            next: Next::Done(Ok(())),
        }),
{
    reveal_with_fuel(RefreshState::settle, 3);
}

/// A port stays dirty until its device has been identified. Where the ping
/// finds no device, or fails, the refresh leaves the port as it was, so that
/// the next refresh looks at it again.
pub proof fn lemma_unanswered_ping_leaves_port_dirty(
    port_type: PortType,
    refresh: RefreshPort,
    ports: Ports,
    devices: Devices,
    response: Option<u8>,
)
    requires
        refresh.next(response) is Done,
        refresh.next(response) != Next::<RefreshPort, Result<bool, Ps2Error>>::Done(Ok(true)),
    ensures
        of_port(RefreshState::Ping(port_type, refresh).resumed(ports, devices, response).ports, port_type)
            == of_port(ports, port_type),
{
    reveal_with_fuel(RefreshState::settle, 4);
}

/// The identification decides whether a port is clean: where it ends with
/// the device's identity the port is marked clean, and where it fails the
/// port is left as it was.
pub proof fn lemma_identification_cleans_port(
    port_type: PortType,
    identify: Identify,
    ports: Ports,
    devices: Devices,
    response: Option<u8>,
)
    requires
        identify.next(response) is Done,
    ensures
        of_port(
            RefreshState::Identify(port_type, identify).resumed(ports, devices, response).ports,
            port_type,
        ) == match (identify.next(response), of_port(devices, port_type), of_port(ports, port_type)) {
            (Next::Done(Ok(_)), Some(_), Some(port)) => Some(port.with_dirty(false)),
            _ => of_port(ports, port_type),
        },
{
    reveal_with_fuel(RefreshState::settle, 4);
}

} // verus!

//! Ports of the controller and the devices attached to them.
//!
//! A device command is an exchange: the command byte goes out and one byte
//! comes back. A device that asks for the byte again gets it again, a bounded
//! number of times; any other unexpected byte is an error at once.

use vstd::prelude::*;
use crate::ps2::{marked, PortHolder, Ps2Error};
use crate::ps2::io;
use crate::ps2::io::{Next, Op, Step};
use crate::ps2::io::command::{controller, device};

pub mod keyboard;
pub mod mouse;

verus! {

/// Which of the controller's two channels a device sits on.
#[derive(Copy, Clone, Debug, PartialEq, Eq, Structural)]
pub enum PortType {
    Port1,
    Port2,
}

/// What the identification of a device has found.
#[derive(Copy, Clone, Debug, PartialEq, Eq, Structural)]
pub enum DeviceType {
    Unknown,
    Keyboard(KeyboardType),
    Mouse(MouseType),
}

#[derive(Copy, Clone, Debug, PartialEq, Eq, Structural)]
pub enum KeyboardType {
    Unknown,
    TranslatedAtKeyboard,
    Mf2Keyboard,
    Mf2TranslatedKeyboard,
}

#[derive(Copy, Clone, Debug, PartialEq, Eq, Structural)]
pub enum MouseType {
    Mouse,
    MouseWithScrollWheel,
    FiveButtonMouse,
}

/// The register operations of one exchange with a device, up to the read of
/// its response: for a device on the second port the controller is first told
/// to route the next byte there; then the output buffer is flushed and the
/// command byte written.
pub open spec fn exchange_ops(port_type: PortType, cmd: u8) -> Seq<Op> {
    let send = seq![Op::Flush, Op::Write(io::DATA_PORT, cmd)];
    if port_type == PortType::Port2 {
        io::command_ops(controller::Command::WriteCommandPort2) + send
    } else {
        send
    }
}

/// The register operations of one exchange with a device.
pub fn exchange(port_type: PortType, cmd: u8) -> (ops: Vec<Op>)
    ensures
        ops@ == exchange_ops(port_type, cmd),
{
    let mut ops = match port_type {
        PortType::Port1 => Vec::new(),
        PortType::Port2 => io::command(controller::Command::WriteCommandPort2),
    };
    ops.push(Op::Flush);
    ops.push(Op::Write(io::DATA_PORT, cmd));
    assert(ops@ =~= exchange_ops(port_type, cmd));
    ops
}

/// A device command under way: the command byte is out and the response is
/// awaited.
#[derive(Copy, Clone, Debug, PartialEq, Eq, Structural)]
pub struct CommandRaw {
    pub port_type: PortType,
    pub cmd: u8,
    /// How often the command may go out in all, the time it is out now
    /// included.
    pub attempts: usize,
}

impl CommandRaw {
    /// The exchange as it stands after the command went out the first time.
    pub open spec fn first(port_type: PortType, cmd: u8) -> CommandRaw {
        CommandRaw { port_type, cmd, attempts: io::COMMAND_RETRIES }
    }

    /// How the exchange goes on after a response, or after none came.
    pub open spec fn next(self, response: Option<u8>) -> Next<CommandRaw, Result<(), Ps2Error>> {
        match response {
            Some(byte) => if byte == io::ACK || byte == io::ECHO {
                Next::Done(Ok(()))
            } else if byte == io::RESEND {
                if self.attempts > 1 {
                    Next::Await(
                        CommandRaw {
                            port_type: self.port_type,
                            cmd: self.cmd,
                            attempts: (self.attempts - 1) as usize,
                        },
                    )
                } else {
                    Next::Done(Err(Ps2Error::RetriesExceeded))
                }
            } else {
                Next::Done(Err(Ps2Error::UnexpectedResponse(byte)))
            },
            None => Next::Done(Err(Ps2Error::ExpectedResponse)),
        }
    }

    /// What is sent after a response: the whole exchange again if the
    /// command is retried, else nothing.
    pub open spec fn sends(self, response: Option<u8>) -> Seq<Op> {
        if self.next(response) is Await {
            exchange_ops(self.port_type, self.cmd)
        } else {
            Seq::empty()
        }
    }

    /// How the exchange stands after a run of responses. Once it has ended,
    /// further responses change nothing.
    pub open spec fn run(self, responses: Seq<Option<u8>>) -> Next<CommandRaw, Result<(), Ps2Error>>
        decreases responses.len(),
    {
        if responses.len() == 0 {
            Next::Await(self)
        } else {
            match self.run(responses.drop_last()) {
                Next::Await(waiting) => waiting.next(responses.last()),
                ended => ended,
            }
        }
    }

    /// Resumes the exchange with the response that was read, or with `None`
    /// if none came in time.
    pub fn step(self, response: Option<u8>) -> (step: Step<CommandRaw, Result<(), Ps2Error>>)
        ensures
            step.is_step(self.sends(response), self.next(response)),
    {
        match response {
            Some(byte) => {
                if byte == io::ACK || byte == io::ECHO {
                    Step::done(Ok(()))
                } else if byte == io::RESEND {
                    if self.attempts > 1 {
                        Step::wait(
                            exchange(self.port_type, self.cmd),
                            CommandRaw { port_type: self.port_type, cmd: self.cmd, attempts: self.attempts - 1 },
                        )
                    } else {
                        Step::done(Err(Ps2Error::RetriesExceeded))
                    }
                } else {
                    Step::done(Err(Ps2Error::UnexpectedResponse(byte)))
                }
            },
            None => Step::done(Err(Ps2Error::ExpectedResponse)),
        }
    }
}

/// Sends a command byte to the device on a port and awaits its response.
/// `ACK` or `ECHO` is success. `RESEND` has the whole exchange done again, up
/// to `COMMAND_RETRIES` times in all; after that the error is
/// `RetriesExceeded`. Any other byte is `UnexpectedResponse`, and no byte in
/// time is `ExpectedResponse`.
pub fn command_raw(port: &DevicePort, cmd: u8) -> (step: Step<CommandRaw, Result<(), Ps2Error>>)
    ensures
        step.is_step(exchange_ops(port.port_type(), cmd), Next::Await(CommandRaw::first(port.port_type(), cmd))),
{
    Step::wait(
        exchange(port.port_type, cmd),
        CommandRaw { port_type: port.port_type, cmd, attempts: io::COMMAND_RETRIES },
    )
}

/// The retry bound: a device that answers every time with `RESEND` has the
/// command sent `COMMAND_RETRIES` times and no more. Up to the last of these
/// the exchange is still under way; the last `RESEND` ends it with
/// `RetriesExceeded`.
pub proof fn lemma_resends_are_bounded(port_type: PortType, cmd: u8, responses: Seq<Option<u8>>)
    requires
        forall|i: int| 0 <= i < responses.len() ==> #[trigger] responses[i] == Some(io::RESEND),
    ensures
        responses.len() < io::COMMAND_RETRIES ==> CommandRaw::first(port_type, cmd).run(responses)
            == Next::<CommandRaw, Result<(), Ps2Error>>::Await(
            CommandRaw { port_type, cmd, attempts: (io::COMMAND_RETRIES - responses.len()) as usize },
        ),
        responses.len() >= io::COMMAND_RETRIES ==> CommandRaw::first(port_type, cmd).run(responses)
            == Next::<CommandRaw, Result<(), Ps2Error>>::Done(Err(Ps2Error::RetriesExceeded)),
    decreases responses.len(),
{
    if responses.len() > 0 {
        lemma_resends_are_bounded(port_type, cmd, responses.drop_last());
    }
}

/// A port of the controller that was found to exist.
#[derive(Copy, Clone, Debug, PartialEq, Eq, Structural)]
pub struct DevicePort {
    pub port_type: PortType,
    enabled: bool,
    dirty: bool,
}

impl DevicePort {
    /// Which channel the port is.
    pub closed spec fn spec_port_type(&self) -> PortType {
        self.port_type
    }

    /// Whether the port has been enabled and not disabled since.
    pub closed spec fn spec_is_enabled(&self) -> bool {
        self.enabled
    }

    /// Whether the device behind the port has to be looked at again.
    pub closed spec fn spec_is_dirty(&self) -> bool {
        self.dirty
    }

    /// The port as it is found: not enabled yet, its device still to be
    /// looked at.
    pub closed spec fn spec_new(port: PortType) -> DevicePort {
        DevicePort { port_type: port, enabled: false, dirty: true }
    }

    /// The port marked as dirty or clean.
    pub closed spec fn with_dirty(self, dirty: bool) -> DevicePort {
        DevicePort { port_type: self.port_type, enabled: self.enabled, dirty }
    }

    /// The port enabled or disabled.
    pub closed spec fn with_enabled(self, enabled: bool) -> DevicePort {
        DevicePort { port_type: self.port_type, enabled, dirty: self.dirty }
    }

    /// What the three ways to make a port do to what can be asked of it.
    pub proof fn lemma_made(self, port: PortType, flag: bool)
        ensures
            Self::spec_new(port).port_type() == port,
            !Self::spec_new(port).is_enabled(),
            Self::spec_new(port).is_dirty(),
            self.with_dirty(flag).port_type() == self.port_type(),
            self.with_dirty(flag).is_enabled() == self.is_enabled(),
            self.with_dirty(flag).is_dirty() == flag,
            self.with_enabled(flag).port_type() == self.port_type(),
            self.with_enabled(flag).is_enabled() == flag,
            self.with_enabled(flag).is_dirty() == self.is_dirty(),
    {
    }

    /// A port that is not enabled yet and whose device is still to be
    /// looked at.
    #[verifier::when_used_as_spec(spec_new)]
    pub fn new(port: PortType) -> (created: Self)
        ensures
            created == Self::spec_new(port),
            created.port_type() == port,
            !created.is_enabled(),
            created.is_dirty(),
    {
        DevicePort { port_type: port, enabled: false, dirty: true }
    }

    /// Which channel the port is.
    #[verifier::when_used_as_spec(spec_port_type)]
    pub fn port_type(&self) -> (port_type: PortType)
        ensures
            port_type == self.spec_port_type(),
    {
        self.port_type
    }

    #[verifier::when_used_as_spec(spec_is_enabled)]
    pub fn is_enabled(&self) -> (enabled: bool)
        ensures
            enabled == self.spec_is_enabled(),
    {
        self.enabled
    }

    #[verifier::when_used_as_spec(spec_is_dirty)]
    pub fn is_dirty(&self) -> (dirty: bool)
        ensures
            dirty == self.spec_is_dirty(),
    {
        self.dirty
    }

    pub fn set_dirty(&mut self, dirty: bool)
        ensures
            *final(self) == old(self).with_dirty(dirty),
            final(self).is_dirty() == dirty,
            final(self).is_enabled() == old(self).is_enabled(),
            final(self).port_type() == old(self).port_type(),
    {
        self.dirty = dirty;
    }
}

impl PortType {
    /// The controller command that tests the port.
    pub open spec fn test_command(self) -> controller::Command {
        match self {
            PortType::Port1 => controller::Command::TestPort1,
            PortType::Port2 => controller::Command::TestPort2,
        }
    }

    /// The controller command that enables the port.
    pub open spec fn enable_command(self) -> controller::Command {
        match self {
            PortType::Port1 => controller::Command::EnablePort1,
            PortType::Port2 => controller::Command::EnablePort2,
        }
    }

    /// The controller command that disables the port.
    pub open spec fn disable_command(self) -> controller::Command {
        match self {
            PortType::Port1 => controller::Command::DisablePort1,
            PortType::Port2 => controller::Command::DisablePort2,
        }
    }

    /// The name of the port as it is written in messages.
    pub open spec fn spec_name(self) -> Seq<char> {
        match self {
            PortType::Port1 => "port 1"@,
            PortType::Port2 => "port 2"@,
        }
    }

    /// The name of the port as it is written in messages.
    pub fn name(&self) -> (name: &'static str)
        ensures
            name@ == self.spec_name(),
    {
        match *self {
            PortType::Port1 => "port 1",
            PortType::Port2 => "port 2",
        }
    }

    /// Asks the controller to test the port. The test has passed if the
    /// controller answers with 0.
    pub fn test(&self) -> (step: Step<PortTest, Result<bool, Ps2Error>>)
        ensures
            step.is_step(io::command_ops(self.test_command()), Next::Await(PortTest)),
    {
        let cmd = match *self {
            PortType::Port1 => controller::Command::TestPort1,
            PortType::Port2 => controller::Command::TestPort2,
        };
        Step::wait(io::command(cmd), PortTest)
    }

    /// The register operations that enable the port.
    pub fn enable(&self) -> (ops: Vec<Op>)
        ensures
            ops@ == io::command_ops(self.enable_command()),
    {
        match *self {
            PortType::Port1 => io::command(controller::Command::EnablePort1),
            PortType::Port2 => io::command(controller::Command::EnablePort2),
        }
    }

    /// The register operations that disable the port.
    pub fn disable(&self) -> (ops: Vec<Op>)
        ensures
            ops@ == io::command_ops(self.disable_command()),
    {
        match *self {
            PortType::Port1 => io::command(controller::Command::DisablePort1),
            PortType::Port2 => io::command(controller::Command::DisablePort2),
        }
    }
}

/// A port test under way: the command is out and the result is awaited.
#[derive(Copy, Clone, Debug, PartialEq, Eq, Structural)]
pub struct PortTest;

impl PortTest {
    /// What the controller's answer says: 0 is a port that works, any other
    /// byte one that does not, and no answer is an error.
    pub open spec fn outcome(response: Option<u8>) -> Result<bool, Ps2Error> {
        match response {
            Some(byte) => Ok(byte == 0),
            None => Err(Ps2Error::ExpectedResponse),
        }
    }

    /// Ends the test with the controller's answer.
    pub fn step(self, response: Option<u8>) -> (step: Step<PortTest, Result<bool, Ps2Error>>)
        ensures
            step.is_step(Seq::empty(), Next::Done(Self::outcome(response))),
    {
        match response {
            Some(byte) => Step::done(Ok(byte == 0)),
            None => Step::done(Err(Ps2Error::ExpectedResponse)),
        }
    }
}

/// The outcome of a command to a port, as opposed to one to a device: that
/// no device took the command is no failure of the port.
pub open spec fn port_outcome(result: Result<(), Ps2Error>) -> Result<(), Ps2Error> {
    match result {
        Err(Ps2Error::DeviceUnavailable) | Err(Ps2Error::RetriesExceeded) => Ok(()),
        other => other,
    }
}

/// A command to a port under way.
#[derive(Copy, Clone, Debug, PartialEq, Eq, Structural)]
pub struct CommandPort {
    pub exchange: CommandRaw,
}

impl CommandPort {
    /// The command as it stands after it went out the first time.
    pub open spec fn first(port_type: PortType, cmd: device::Command) -> CommandPort {
        CommandPort { exchange: CommandRaw::first(port_type, cmd.opcode()) }
    }

    /// How the command goes on after a response.
    pub open spec fn next(self, response: Option<u8>) -> Next<CommandPort, Result<(), Ps2Error>> {
        match self.exchange.next(response) {
            Next::Await(exchange) => Next::Await(CommandPort { exchange }),
            Next::Done(result) => Next::Done(port_outcome(result)),
        }
    }

    /// What is sent after a response.
    pub open spec fn sends(self, response: Option<u8>) -> Seq<Op> {
        self.exchange.sends(response)
    }

    /// Resumes the command with the response that was read.
    pub fn step(self, response: Option<u8>) -> (step: Step<CommandPort, Result<(), Ps2Error>>)
        ensures
            step.is_step(self.sends(response), self.next(response)),
    {
        let Step { ops, next } = self.exchange.step(response);
        match next {
            Next::Await(exchange) => Step::wait(ops, CommandPort { exchange }),
            Next::Done(result) => {
                let result = match result {
                    Err(Ps2Error::DeviceUnavailable) | Err(Ps2Error::RetriesExceeded) => Ok(()),
                    other => other,
                };
                Step { ops, next: Next::Done(result) }
            },
        }
    }
}

/// Where a ping stands.
#[derive(Copy, Clone, Debug, PartialEq, Eq, Structural)]
pub enum PingPhase {
    /// An echo is out.
    Echo(CommandRaw),
    /// The echo came back, and the second port is told to stop echoing.
    ResetEcho(CommandPort),
}

/// A ping of a port under way.
#[derive(Copy, Clone, Debug, PartialEq, Eq, Structural)]
pub struct Ping {
    pub port_type: PortType,
    /// How many echoes may still fail, the one that is out included.
    pub tries: usize,
    pub phase: PingPhase,
}

impl Ping {
    /// How often an echo is tried before the device counts as absent.
    pub const TRIES: usize = 3;

    /// The ping as it stands after the first echo went out.
    pub open spec fn first(port_type: PortType) -> Ping {
        Ping {
            port_type,
            tries: Self::TRIES,
            phase: PingPhase::Echo(CommandRaw::first(port_type, device::Command::Echo.opcode())),
        }
    }

    /// The ping as it stands once an echo has come back.
    pub open spec fn echoed(self) -> Next<Ping, Result<bool, Ps2Error>> {
        if self.port_type == PortType::Port2 {
            Next::Await(
                Ping {
                    port_type: self.port_type,
                    tries: self.tries,
                    phase: PingPhase::ResetEcho(
                        CommandPort::first(self.port_type, device::Command::ResetEcho),
                    ),
                },
            )
        } else {
            Next::Done(Ok(true))
        }
    }

    /// The ping as it stands once an echo has failed.
    pub open spec fn failed(self) -> Next<Ping, Result<bool, Ps2Error>> {
        if self.tries > 1 {
            Next::Await(
                Ping {
                    port_type: self.port_type,
                    tries: (self.tries - 1) as usize,
                    phase: PingPhase::Echo(
                        CommandRaw::first(self.port_type, device::Command::Echo.opcode()),
                    ),
                },
            )
        } else {
            Next::Done(Ok(false))
        }
    }

    /// How the ping goes on after a response.
    pub open spec fn next(self, response: Option<u8>) -> Next<Ping, Result<bool, Ps2Error>> {
        match self.phase {
            PingPhase::Echo(exchange) => match exchange.next(response) {
                Next::Await(exchange) => Next::Await(
                    Ping { port_type: self.port_type, tries: self.tries, phase: PingPhase::Echo(exchange) },
                ),
                Next::Done(Ok(_)) => self.echoed(),
                Next::Done(Err(_)) => self.failed(),
            },
            PingPhase::ResetEcho(command) => match command.next(response) {
                Next::Await(command) => Next::Await(
                    Ping { port_type: self.port_type, tries: self.tries, phase: PingPhase::ResetEcho(command) },
                ),
                Next::Done(Ok(_)) => Next::Done(Ok(true)),
                Next::Done(Err(error)) => Next::Done(Err(error)),
            },
        }
    }

    /// What is sent after a response.
    pub open spec fn sends(self, response: Option<u8>) -> Seq<Op> {
        match self.phase {
            PingPhase::Echo(exchange) => match exchange.next(response) {
                Next::Await(_) => exchange.sends(response),
                Next::Done(Ok(_)) => if self.echoed() is Await {
                    exchange_ops(self.port_type, device::Command::ResetEcho.opcode())
                } else {
                    Seq::empty()
                },
                Next::Done(Err(_)) => if self.failed() is Await {
                    exchange_ops(self.port_type, device::Command::Echo.opcode())
                } else {
                    Seq::empty()
                },
            },
            PingPhase::ResetEcho(command) => command.sends(response),
        }
    }

    /// Resumes the ping with the response that was read.
    pub fn step(self, response: Option<u8>) -> (step: Step<Ping, Result<bool, Ps2Error>>)
        ensures
            step.is_step(self.sends(response), self.next(response)),
    {
        match self.phase {
            PingPhase::Echo(exchange) => {
                let Step { ops, next } = exchange.step(response);
                match next {
                    Next::Await(exchange) => Step::wait(
                        ops,
                        Ping { port_type: self.port_type, tries: self.tries, phase: PingPhase::Echo(exchange) },
                    ),
                    Next::Done(Ok(_)) => {
                        // The second port goes on echoing every byte unless told to stop.
                        if self.port_type == PortType::Port2 {
                            Step::wait(
                                exchange_of(self.port_type, device::Command::ResetEcho),
                                Ping {
                                    port_type: self.port_type,
                                    tries: self.tries,
                                    phase: PingPhase::ResetEcho(
                                        CommandPort {
                                            exchange: CommandRaw {
                                                port_type: self.port_type,
                                                cmd: device::Command::ResetEcho.opcode(),
                                                attempts: io::COMMAND_RETRIES,
                                            },
                                        },
                                    ),
                                },
                            )
                        } else {
                            Step::done(Ok(true))
                        }
                    },
                    Next::Done(Err(_)) => {
                        if self.tries > 1 {
                            Step::wait(
                                exchange_of(self.port_type, device::Command::Echo),
                                Ping {
                                    port_type: self.port_type,
                                    tries: self.tries - 1,
                                    phase: PingPhase::Echo(
                                        CommandRaw {
                                            port_type: self.port_type,
                                            cmd: device::Command::Echo.opcode(),
                                            attempts: io::COMMAND_RETRIES,
                                        },
                                    ),
                                },
                            )
                        } else {
                            Step::done(Ok(false))
                        }
                    },
                }
            },
            PingPhase::ResetEcho(command) => {
                let Step { ops, next } = command.step(response);
                match next {
                    Next::Await(command) => Step::wait(
                        ops,
                        Ping { port_type: self.port_type, tries: self.tries, phase: PingPhase::ResetEcho(command) },
                    ),
                    Next::Done(Ok(_)) => Step { ops, next: Next::Done(Ok(true)) },
                    Next::Done(Err(error)) => Step { ops, next: Next::Done(Err(error)) },
                }
            },
        }
    }
}

/// The register operations of one exchange of a device command.
fn exchange_of(port_type: PortType, cmd: device::Command) -> (ops: Vec<Op>)
    ensures
        ops@ == exchange_ops(port_type, cmd.opcode()),
{
    exchange(port_type, cmd.opcode())
}

impl DevicePort {
    /// Whether a status byte says that a byte from this port waits: the
    /// output buffer is full, and what it holds is from the keyboard for the
    /// first port and from the mouse for the second.
    pub open spec fn readable(&self, status: u8) -> bool {
        io::output_full(status) && match self.port_type() {
            PortType::Port1 => !io::mouse_output(status),
            PortType::Port2 => io::mouse_output(status),
        }
    }

    /// Asks the controller to test the port.
    pub fn test(&self) -> (step: Step<PortTest, Result<bool, Ps2Error>>)
        ensures
            step.is_step(io::command_ops(self.port_type().test_command()), Next::Await(PortTest)),
    {
        self.port_type.test()
    }

    /// Resets the device behind the port. That no device answers is no
    /// error.
    pub fn reset(&self) -> (step: Step<CommandPort, Result<(), Ps2Error>>)
        ensures
            step.is_step(
                exchange_ops(self.port_type(), device::Command::Reset.opcode()),
                Next::Await(CommandPort::first(self.port_type(), device::Command::Reset)),
            ),
    {
        self.command_port(device::Command::Reset)
    }

    /// Enables the port: answers with the register operations that do so,
    /// and from now on the port takes commands.
    pub fn enable(&mut self) -> (ops: Vec<Op>)
        ensures
            ops@ == io::command_ops(old(self).port_type().enable_command()),
            *final(self) == old(self).with_enabled(true),
            final(self).is_enabled(),
            final(self).is_dirty() == old(self).is_dirty(),
            final(self).port_type() == old(self).port_type(),
    {
        let ops = self.port_type.enable();
        self.enabled = true;
        ops
    }

    /// Disables the port: answers with the register operations that do so,
    /// and from now on the port rejects commands.
    pub fn disable(&mut self) -> (ops: Vec<Op>)
        ensures
            ops@ == io::command_ops(old(self).port_type().disable_command()),
            *final(self) == old(self).with_enabled(false),
            !final(self).is_enabled(),
            final(self).is_dirty() == old(self).is_dirty(),
            final(self).port_type() == old(self).port_type(),
    {
        let ops = self.port_type.disable();
        self.enabled = false;
        ops
    }

    /// Pings the device behind the port: up to three echo commands, the
    /// first that comes back ends the ping with `true`, and if none does the
    /// ping ends with `false`. On the second port an echo that came back is
    /// followed by the command that stops the echoing; an error of that
    /// command is the error of the ping.
    pub fn ping(&mut self) -> (step: Step<Ping, Result<bool, Ps2Error>>)
        ensures
            *final(self) == *old(self),
            step.is_step(
                exchange_ops(old(self).port_type(), device::Command::Echo.opcode()),
                Next::Await(Ping::first(old(self).port_type())),
            ),
    {
        Step::wait(
            exchange_of(self.port_type, device::Command::Echo),
            Ping {
                port_type: self.port_type,
                tries: Ping::TRIES,
                phase: PingPhase::Echo(
                    CommandRaw {
                        port_type: self.port_type,
                        cmd: device::Command::Echo.opcode(),
                        attempts: io::COMMAND_RETRIES,
                    },
                ),
            },
        )
    }

    /// Sends a command to the port. That no device takes it is no error.
    pub fn command_port(&self, cmd: device::Command) -> (step: Step<CommandPort, Result<(), Ps2Error>>)
        ensures
            step.is_step(
                exchange_ops(self.port_type(), cmd.opcode()),
                Next::Await(CommandPort::first(self.port_type(), cmd)),
            ),
    {
        let (ops, exchange) = command_raw(self, cmd.opcode()).awaited();
        Step::wait(ops, CommandPort { exchange })
    }

    /// Whether the status byte that was just read says that a byte from
    /// this port waits.
    pub fn can_read(&self, status: u8) -> (readable: bool)
        ensures
            readable == self.readable(status),
    {
        io::can_read(status) && match self.port_type {
            PortType::Port1 => io::can_read_keyboard(status),
            PortType::Port2 => io::can_read_mouse(status),
        }
    }
}

/// Where a command with data stands.
#[derive(Copy, Clone, Debug, PartialEq, Eq, Structural)]
pub enum CommandRawData {
    /// The command byte is out.
    Command(CommandRaw, u8),
    /// The command was taken and the data byte is out.
    Data,
}

impl CommandRawData {
    /// The command as it stands after the command byte went out the first
    /// time.
    pub open spec fn first(port_type: PortType, cmd: u8, data: u8) -> CommandRawData {
        CommandRawData::Command(CommandRaw::first(port_type, cmd), data)
    }

    /// How the command goes on after a response.
    pub open spec fn next(self, response: Option<u8>) -> Next<CommandRawData, Result<(), Ps2Error>> {
        match self {
            CommandRawData::Command(exchange, data) => match exchange.next(response) {
                Next::Await(exchange) => Next::Await(CommandRawData::Command(exchange, data)),
                Next::Done(Ok(_)) => Next::Await(CommandRawData::Data),
                Next::Done(Err(error)) => Next::Done(Err(error)),
            },
            CommandRawData::Data => match response {
                Some(byte) => if byte == io::ACK {
                    Next::Done(Ok(()))
                } else {
                    Next::Done(Err(Ps2Error::UnexpectedResponse(byte)))
                },
                None => Next::Done(Err(Ps2Error::ExpectedResponse)),
            },
        }
    }

    /// What is sent after a response: the command again if the device asked
    /// for it, the data byte once the command was taken.
    pub open spec fn sends(self, response: Option<u8>) -> Seq<Op> {
        match self {
            CommandRawData::Command(exchange, data) => match exchange.next(response) {
                Next::Await(_) => exchange.sends(response),
                Next::Done(Ok(_)) => seq![Op::Write(io::DATA_PORT, data)],
                Next::Done(Err(_)) => Seq::empty(),
            },
            CommandRawData::Data => Seq::empty(),
        }
    }

    /// Resumes the command with the response that was read.
    pub fn step(self, response: Option<u8>) -> (step: Step<CommandRawData, Result<(), Ps2Error>>)
        ensures
            step.is_step(self.sends(response), self.next(response)),
    {
        match self {
            CommandRawData::Command(exchange, data) => {
                let Step { ops, next } = exchange.step(response);
                match next {
                    Next::Await(exchange) => Step::wait(ops, CommandRawData::Command(exchange, data)),
                    Next::Done(Ok(_)) => {
                        let mut ops = ops;
                        ops.push(Op::Write(io::DATA_PORT, data));
                        assert(ops@ =~= seq![Op::Write(io::DATA_PORT, data)]);
                        Step::wait(ops, CommandRawData::Data)
                    },
                    Next::Done(Err(error)) => Step { ops, next: Next::Done(Err(error)) },
                }
            },
            CommandRawData::Data => match response {
                Some(byte) => {
                    if byte == io::ACK {
                        Step::done(Ok(()))
                    } else {
                        Step::done(Err(Ps2Error::UnexpectedResponse(byte)))
                    }
                },
                None => Step::done(Err(Ps2Error::ExpectedResponse)),
            },
        }
    }
}

/// Sends a command byte to the device on a port as `command_raw` does, and
/// once the device has taken it the data byte, which the device has to
/// answer with `ACK`: any other byte is `UnexpectedResponse`, and no byte in
/// time is `ExpectedResponse`. If the command fails, no data is sent.
pub fn command_raw_data(port: &DevicePort, cmd: u8, data: u8) -> (step: Step<
    CommandRawData,
    Result<(), Ps2Error>,
>)
    ensures
        step.is_step(
            exchange_ops(port.port_type(), cmd),
            Next::Await(CommandRawData::first(port.port_type(), cmd, data)),
        ),
{
    let (ops, exchange) = command_raw(port, cmd).awaited();
    Step::wait(ops, CommandRawData::Command(exchange, data))
}

/// The device that answers an identification in a given way. `multi_byte`
/// says whether the answer began with the lead byte of a two-byte identity,
/// `terminal` is the byte that ended it. No answer at all is the mark of a
/// translated AT keyboard, the one device that keeps silent.
pub open spec fn identity_of(multi_byte: bool, terminal: Option<u8>) -> DeviceType {
    match terminal {
        None => DeviceType::Keyboard(KeyboardType::TranslatedAtKeyboard),
        Some(byte) => if multi_byte {
            if byte == 0x41 || byte == 0xC1 {
                DeviceType::Keyboard(KeyboardType::Mf2TranslatedKeyboard)
            } else if byte == 0x83 {
                DeviceType::Keyboard(KeyboardType::Mf2Keyboard)
            } else {
                DeviceType::Keyboard(KeyboardType::Unknown)
            }
        } else {
            if byte == 0x00 {
                DeviceType::Mouse(MouseType::Mouse)
            } else if byte == 0x03 {
                DeviceType::Mouse(MouseType::MouseWithScrollWheel)
            } else if byte == 0x04 {
                DeviceType::Mouse(MouseType::FiveButtonMouse)
            } else {
                DeviceType::Unknown
            }
        },
    }
}

/// The lead byte of a two-byte identity.
pub const IDENTITY_LEAD: u8 = 0xAB;

/// Where an identification stands.
#[derive(Copy, Clone, Debug, PartialEq, Eq, Structural)]
pub enum Identify {
    /// The identify command is out.
    Command(CommandRaw),
    /// The command was taken and the identity is awaited. The flag says
    /// whether the lead byte of a two-byte identity has come.
    Identity(bool),
}

impl Identify {
    /// The device that an answer stands for.
    pub fn device_type(multi_byte: bool, terminal: Option<u8>) -> (identity: DeviceType)
        ensures
            identity == identity_of(multi_byte, terminal),
    {
        match terminal {
            None => DeviceType::Keyboard(KeyboardType::TranslatedAtKeyboard),
            Some(byte) => {
                if multi_byte {
                    match byte {
                        0x41 | 0xC1 => DeviceType::Keyboard(KeyboardType::Mf2TranslatedKeyboard),
                        0x83 => DeviceType::Keyboard(KeyboardType::Mf2Keyboard),
                        _ => DeviceType::Keyboard(KeyboardType::Unknown),
                    }
                } else {
                    match byte {
                        0x00 => DeviceType::Mouse(MouseType::Mouse),
                        0x03 => DeviceType::Mouse(MouseType::MouseWithScrollWheel),
                        0x04 => DeviceType::Mouse(MouseType::FiveButtonMouse),
                        _ => DeviceType::Unknown,
                    }
                }
            },
        }
    }

    /// How the identification goes on after a response.
    pub open spec fn next(self, response: Option<u8>) -> Next<Identify, Result<DeviceType, Ps2Error>> {
        match self {
            Identify::Command(exchange) => match exchange.next(response) {
                Next::Await(exchange) => Next::Await(Identify::Command(exchange)),
                Next::Done(Ok(_)) => Next::Await(Identify::Identity(false)),
                Next::Done(Err(error)) => Next::Done(Err(error)),
            },
            Identify::Identity(multi_byte) => if response == Some(IDENTITY_LEAD) && !multi_byte {
                Next::Await(Identify::Identity(true))
            } else {
                Next::Done(Ok(identity_of(multi_byte, response)))
            },
        }
    }

    /// What is sent after a response: the command again if the device asked
    /// for it, else nothing.
    pub open spec fn sends(self, response: Option<u8>) -> Seq<Op> {
        match self {
            Identify::Command(exchange) => exchange.sends(response),
            Identify::Identity(_) => Seq::empty(),
        }
    }

    /// How the identification stands after a run of responses.
    pub open spec fn run(self, responses: Seq<Option<u8>>) -> Next<Identify, Result<DeviceType, Ps2Error>>
        decreases responses.len(),
    {
        if responses.len() == 0 {
            Next::Await(self)
        } else {
            match self.run(responses.drop_last()) {
                Next::Await(waiting) => waiting.next(responses.last()),
                ended => ended,
            }
        }
    }

    /// Resumes the identification with the response that was read.
    pub fn step(self, response: Option<u8>) -> (step: Step<Identify, Result<DeviceType, Ps2Error>>)
        ensures
            step.is_step(self.sends(response), self.next(response)),
    {
        match self {
            Identify::Command(exchange) => {
                let Step { ops, next } = exchange.step(response);
                match next {
                    Next::Await(exchange) => Step::wait(ops, Identify::Command(exchange)),
                    Next::Done(Ok(_)) => Step::wait(ops, Identify::Identity(false)),
                    Next::Done(Err(error)) => Step { ops, next: Next::Done(Err(error)) },
                }
            },
            Identify::Identity(multi_byte) => match response {
                Some(byte) => {
                    if byte == IDENTITY_LEAD && !multi_byte {
                        Step::wait(Vec::new(), Identify::Identity(true))
                    } else {
                        Step::done(Ok(Self::device_type(multi_byte, response)))
                    }
                },
                None => Step::done(Ok(Self::device_type(multi_byte, response))),
            },
        }
    }
}

/// Whether a port exists and is enabled.
pub open spec fn takes_commands(slot: Option<DevicePort>) -> bool {
    slot matches Some(port) && port.is_enabled()
}

/// Why a port takes no commands: there is none, or it is not enabled.
pub open spec fn refusal(slot: Option<DevicePort>) -> Ps2Error {
    match slot {
        Some(_) => Ps2Error::DeviceDisabled,
        None => Ps2Error::DeviceUnavailable,
    }
}

/// What a device command through a handle begins with: the exchange, if the
/// handle's port exists and is enabled, and else the refusal.
pub open spec fn guarded_next(slot: Option<DevicePort>, cmd: u8) -> Next<CommandRaw, Result<(), Ps2Error>> {
    if takes_commands(slot) {
        Next::Await(CommandRaw::first(slot->0.port_type(), cmd))
    } else {
        Next::Done(Err(refusal(slot)))
    }
}

/// What a device command through a handle sends first.
pub open spec fn guarded_ops(slot: Option<DevicePort>, cmd: u8) -> Seq<Op> {
    if takes_commands(slot) {
        exchange_ops(slot->0.port_type(), cmd)
    } else {
        Seq::empty()
    }
}

/// What a device command with data through a handle begins with.
pub open spec fn guarded_data_next(slot: Option<DevicePort>, cmd: u8, data: u8) -> Next<
    CommandRawData,
    Result<(), Ps2Error>,
> {
    if takes_commands(slot) {
        Next::Await(CommandRawData::first(slot->0.port_type(), cmd, data))
    } else {
        Next::Done(Err(refusal(slot)))
    }
}

/// Sends a command byte through a handle whose port is `slot`. A handle
/// without a port is refused with `DeviceUnavailable`, and one whose port is
/// not enabled with `DeviceDisabled`; nothing is sent in either case.
pub fn command_guarded(slot: &Option<DevicePort>, cmd: u8) -> (step: Step<CommandRaw, Result<(), Ps2Error>>)
    ensures
        step.is_step(guarded_ops(*slot, cmd), guarded_next(*slot, cmd)),
{
    match slot {
        Some(port) => {
            if port.is_enabled() {
                command_raw(port, cmd)
            } else {
                Step::done(Err(Ps2Error::DeviceDisabled))
            }
        },
        None => Step::done(Err(Ps2Error::DeviceUnavailable)),
    }
}

/// Sends a command byte and a data byte through a handle whose port is
/// `slot`, under the same conditions.
pub fn command_data_guarded(slot: &Option<DevicePort>, cmd: u8, data: u8) -> (step: Step<
    CommandRawData,
    Result<(), Ps2Error>,
>)
    ensures
        step.is_step(guarded_ops(*slot, cmd), guarded_data_next(*slot, cmd, data)),
{
    match slot {
        Some(port) => {
            if port.is_enabled() {
                command_raw_data(port, cmd, data)
            } else {
                Step::done(Err(Ps2Error::DeviceDisabled))
            }
        },
        None => Step::done(Err(Ps2Error::DeviceUnavailable)),
    }
}

/// What keyboard, mouse and the not yet narrowed device have in common: a
/// port, and the commands that go through it.
pub trait Device: Sized {
    /// Which port the device sits on.
    spec fn on_port(&self) -> PortType;

    /// Which port the device sits on.
    fn port_type(&self) -> (port_type: PortType)
        ensures
            port_type == self.on_port(),
    ;

    /// Whether the device is known to be a mouse.
    spec fn mouse(&self) -> bool;

    /// Whether the device is known to be a keyboard.
    spec fn keyboard(&self) -> bool;

    fn is_mouse(&self) -> (mouse: bool)
        ensures
            mouse == self.mouse(),
    ;

    fn is_keyboard(&self) -> (keyboard: bool)
        ensures
            keyboard == self.keyboard(),
    ;

    /// The device's port among the controller's ports.
    fn port<'a>(&self, ports: &'a PortHolder) -> (slot: &'a Option<DevicePort>)
        ensures
            *slot == ports.slot(self.on_port()),
    {
        ports.port(self.port_type())
    }

    /// Sends a command to the device. A device without a port is not sent
    /// anything: the command ends with `DeviceUnavailable`. Nor is one whose
    /// port is not enabled: the command ends with `DeviceDisabled`.
    fn command_device(&self, ports: &PortHolder, cmd: device::Command) -> (step: Step<
        CommandRaw,
        Result<(), Ps2Error>,
    >)
        ensures
            step.is_step(
                guarded_ops(ports.slot(self.on_port()), cmd.opcode()),
                guarded_next(ports.slot(self.on_port()), cmd.opcode()),
            ),
    {
        command_guarded(self.port(ports), cmd.opcode())
    }

    /// Whether the device's port exists and is enabled.
    fn is_enabled(&self, ports: &PortHolder) -> (enabled: bool)
        ensures
            enabled == takes_commands(ports.slot(self.on_port())),
    {
        if let Some(port) = self.port(ports) {
            port.is_enabled()
        } else {
            false
        }
    }

    /// Marks the device's port as dirty or clean, if it exists.
    fn set_port_dirty(&mut self, ports: &mut PortHolder, dirty: bool)
        ensures
            *final(self) == *old(self),
            final(ports)@ == marked(old(ports)@, old(self).on_port(), dirty),
    {
        ports.set_dirty(self.port_type(), dirty);
    }
}

/// A device on a port, as far as it has been identified.
#[derive(Copy, Clone, Debug, PartialEq, Eq, Structural)]
pub struct InternalDevice {
    port_type: PortType,
    identity: DeviceType,
}

impl InternalDevice {
    /// What the device was last identified as.
    pub closed spec fn spec_identity(&self) -> DeviceType {
        self.identity
    }

    /// The device on a port before it is identified.
    pub closed spec fn spec_new(port_type: PortType) -> InternalDevice {
        InternalDevice { port_type, identity: DeviceType::Unknown }
    }

    /// The device after an identification: a failed one leaves it as what
    /// it was identified as before.
    pub closed spec fn identified(self, outcome: Result<DeviceType, Ps2Error>) -> InternalDevice {
        InternalDevice {
            port_type: self.port_type,
            identity: match outcome {
                Ok(identity) => identity,
                Err(_) => self.identity,
            },
        }
    }

    /// What the two ways to make a device do to what can be asked of it.
    pub proof fn lemma_made(self, port_type: PortType, outcome: Result<DeviceType, Ps2Error>)
        ensures
            Self::spec_new(port_type).on_port() == port_type,
            Self::spec_new(port_type).identity() == DeviceType::Unknown,
            self.identified(outcome).on_port() == self.on_port(),
            self.identified(outcome).identity() == match outcome {
                Ok(identity) => identity,
                Err(_) => self.identity(),
            },
    {
    }

    /// A device that is not identified yet.
    #[verifier::when_used_as_spec(spec_new)]
    pub fn new(port_type: PortType) -> (device: Self)
        ensures
            device == Self::spec_new(port_type),
            device.on_port() == port_type,
            device.identity() == DeviceType::Unknown,
    {
        InternalDevice { port_type, identity: DeviceType::Unknown }
    }

    /// What the device was last identified as.
    #[verifier::when_used_as_spec(spec_identity)]
    pub fn identity(&self) -> (identity: DeviceType)
        ensures
            identity == self.spec_identity(),
    {
        self.identity
    }

    /// Takes over the outcome of an identification. A failed one leaves the
    /// device as what it was identified as before.
    pub fn init(&mut self, identified: Result<DeviceType, Ps2Error>)
        ensures
            *final(self) == old(self).identified(identified),
            final(self).on_port() == old(self).on_port(),
            final(self).identity() == match identified {
                Ok(identity) => identity,
                Err(_) => old(self).identity(),
            },
    {
        match identified {
            Ok(identity) => {
                self.identity = identity;
            },
            Err(_) => {},
        }
    }

    /// The keyboard that the device is, if it was identified as one.
    pub fn as_keyboard(&self) -> (handle: Option<keyboard::Keyboard>)
        ensures
            handle == if self.identity() is Keyboard {
                Some(keyboard::Keyboard::new(self.on_port()))
            } else {
                None
            },
    {
        if self.is_keyboard() {
            Some(keyboard::Keyboard::new(self.port_type))
        } else {
            None
        }
    }

    /// The mouse that the device is, if it was identified as one.
    pub fn as_mouse(&self) -> (handle: Option<mouse::Mouse>)
        ensures
            handle == if self.identity() is Mouse {
                Some(mouse::Mouse::new(self.on_port()))
            } else {
                None
            },
    {
        if self.is_mouse() {
            Some(mouse::Mouse::new(self.port_type))
        } else {
            None
        }
    }

    /// What an identification begins with.
    pub open spec fn identify_next(slot: Option<DevicePort>) -> Next<Identify, Result<DeviceType, Ps2Error>> {
        match guarded_next(slot, device::Command::IdentifyDevice.opcode()) {
            Next::Await(exchange) => Next::Await(Identify::Command(exchange)),
            Next::Done(Ok(_)) => Next::Await(Identify::Identity(false)),
            Next::Done(Err(error)) => Next::Done(Err(error)),
        }
    }

    /// Asks the device what it is. The identify command goes out; once it is
    /// taken the identity is read. The lead byte of a two-byte identity, if
    /// it comes first, is noted and the next byte read; the byte that ends
    /// the answer, with that note, names the device. No answer names the
    /// translated AT keyboard.
    pub fn identify(&self, ports: &PortHolder) -> (step: Step<Identify, Result<DeviceType, Ps2Error>>)
        ensures
            step.is_step(
                guarded_ops(ports.slot(self.on_port()), device::Command::IdentifyDevice.opcode()),
                Self::identify_next(ports.slot(self.on_port())),
            ),
    {
        let Step { ops, next } = self.command_device(ports, device::Command::IdentifyDevice);
        match next {
            Next::Await(exchange) => Step::wait(ops, Identify::Command(exchange)),
            Next::Done(Ok(_)) => Step::wait(ops, Identify::Identity(false)),
            Next::Done(Err(error)) => Step { ops, next: Next::Done(Err(error)) },
        }
    }
}

impl Device for InternalDevice {
    closed spec fn on_port(&self) -> PortType {
        self.port_type
    }

    fn port_type(&self) -> (port_type: PortType) {
        self.port_type
    }

    open spec fn mouse(&self) -> bool {
        self.identity() is Mouse
    }

    open spec fn keyboard(&self) -> bool {
        self.identity() is Keyboard
    }

    fn is_mouse(&self) -> (mouse: bool) {
        match self.identity {
            DeviceType::Mouse(_) => true,
            _ => false,
        }
    }

    fn is_keyboard(&self) -> (keyboard: bool) {
        match self.identity {
            DeviceType::Keyboard(_) => true,
            _ => false,
        }
    }
}

/// A port that does not exist, or that is disabled, rejects commands: a
/// command through a handle ends at once, with `DeviceUnavailable` where
/// there is no port and with `DeviceDisabled` where the port is not enabled,
/// with or without data, and not a byte is sent.
pub proof fn lemma_unusable_port_rejects_commands(slot: Option<DevicePort>, cmd: u8, data: u8)
    requires
        !takes_commands(slot),
    ensures
        guarded_next(slot, cmd) == Next::<CommandRaw, Result<(), Ps2Error>>::Done(Err(refusal(slot))),
        guarded_data_next(slot, cmd, data) == Next::<CommandRawData, Result<(), Ps2Error>>::Done(
            Err(refusal(slot)),
        ),
        guarded_ops(slot, cmd) == Seq::<Op>::empty(),
        slot is None ==> refusal(slot) == Ps2Error::DeviceUnavailable,
        slot is Some ==> refusal(slot) == Ps2Error::DeviceDisabled,
{
}

/// The first response that is not `RESEND` decides a command, if it comes
/// before the retries run out: `ACK` and `ECHO` are success, any other byte
/// is `UnexpectedResponse` with that byte, and silence is `ExpectedResponse`.
pub proof fn lemma_first_other_response_decides(
    port_type: PortType,
    cmd: u8,
    resends: Seq<Option<u8>>,
    last: Option<u8>,
)
    requires
        resends.len() < io::COMMAND_RETRIES,
        forall|i: int| 0 <= i < resends.len() ==> #[trigger] resends[i] == Some(io::RESEND),
        last != Some(io::RESEND),
    ensures
        CommandRaw::first(port_type, cmd).run(resends.push(last)) == Next::<
            CommandRaw,
            Result<(), Ps2Error>,
        >::Done(
            match last {
                Some(byte) => if byte == io::ACK || byte == io::ECHO {
                    Ok(())
                } else {
                    Err(Ps2Error::UnexpectedResponse(byte))
                },
                None => Err(Ps2Error::ExpectedResponse),
            },
        ),
{
    lemma_resends_are_bounded(port_type, cmd, resends);
    assert(resends.push(last).drop_last() =~= resends);
}

/// A two-byte identity is read as one: after the command was taken, the
/// lead byte is only noted, and the byte after it names the keyboard.
/// Silence after the command names the translated AT keyboard.
pub proof fn lemma_identity_answers(terminal: u8)
    ensures
        Identify::Identity(false).run(seq![Some(IDENTITY_LEAD), Some(terminal)]) == Next::<
            Identify,
            Result<DeviceType, Ps2Error>,
        >::Done(Ok(identity_of(true, Some(terminal)))),
        identity_of(true, Some(terminal)) is Keyboard,
        Identify::Identity(false).run(seq![None]) == Next::<Identify, Result<DeviceType, Ps2Error>>::Done(
            Ok(DeviceType::Keyboard(KeyboardType::TranslatedAtKeyboard)),
        ),
{
    let answer = seq![Some(IDENTITY_LEAD), Some(terminal)];
    assert(answer.drop_last() =~= seq![Some(IDENTITY_LEAD)]);
    assert(answer.drop_last().drop_last() =~= Seq::<Option<u8>>::empty());
    reveal_with_fuel(Identify::run, 3);
    let silence = seq![None::<u8>];
    assert(silence.drop_last() =~= Seq::<Option<u8>>::empty());
}

} // verus!

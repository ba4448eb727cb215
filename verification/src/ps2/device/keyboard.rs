//! The keyboard behind a PS/2 port: its commands and its scancodes.

use vstd::prelude::*;
use crate::ps2::{PortHolder, Ps2Error};
use crate::ps2::device::{
    command_data_guarded, command_guarded, guarded_data_next, guarded_next, guarded_ops, CommandRaw,
    CommandRawData, Device, DevicePort, PortType,
};
use crate::ps2::io::{Next, Op, Step};
use crate::ps2::io::command::device::keyboard::{Command, DataCommand};

verus! {

/// A scanset a PS/2 keyboard can speak.
#[derive(Copy, Clone, Debug, PartialEq, Eq, Structural)]
pub enum Scanset {
    One,
    Two,
    Three,
}

impl Scanset {
    /// The number that stands for the scanset on the wire.
    pub open spec fn spec_number(self) -> u8 {
        match self {
            Scanset::One => 1,
            Scanset::Two => 2,
            Scanset::Three => 3,
        }
    }

    /// The scanset that a number stands for, if it stands for one.
    pub open spec fn of_number(number: u8) -> Option<Scanset> {
        if number == 1 {
            Some(Scanset::One)
        } else if number == 2 {
            Some(Scanset::Two)
        } else if number == 3 {
            Some(Scanset::Three)
        } else {
            None
        }
    }

    /// The number that stands for the scanset on the wire.
    #[verifier::when_used_as_spec(spec_number)]
    pub fn number(self) -> (number: u8)
        ensures
            number == self.spec_number(),
    {
        match self {
            Scanset::One => 1,
            Scanset::Two => 2,
            Scanset::Three => 3,
        }
    }
}

/// The lights of a keyboard.
#[derive(Copy, Clone, Debug, PartialEq, Eq, Structural)]
pub struct LedFlags {
    bits: u8,
}

impl LedFlags {
    /// Scroll lock is active.
    pub const SCROLL_LOCK: u8 = 0x01;

    /// Number lock is active.
    pub const NUMBER_LOCK: u8 = 0x02;

    /// Caps lock is active.
    pub const CAPS_LOCK: u8 = 0x04;

    /// Every bit that has a meaning here.
    pub const ALL: u8 = 0x07;

    /// The flags as a bit pattern.
    pub closed spec fn view(self) -> u8 {
        self.bits
    }

    /// The flags of a raw byte; bits without a meaning are dropped.
    pub fn from_bits_truncate(raw: u8) -> (flags: Self)
        ensures
            flags@ == raw & Self::ALL,
    {
        LedFlags { bits: raw & Self::ALL }
    }

    /// The flags as a bit pattern.
    pub fn bits(&self) -> (bits: u8)
        ensures
            bits == self@,
    {
        self.bits
    }

    /// Whether every bit of `mask` is set.
    pub fn contains(&self, mask: u8) -> (found: bool)
        ensures
            found == (self@ & mask == mask),
    {
        self.bits & mask == mask
    }
}

/// The prefix of a key outside the plain table.
pub const EXTENDED_PREFIX: u8 = 0xE0;

/// The prefix that the pause key uses in place of `EXTENDED_PREFIX`.
pub const EXTENDED_PREFIX_PAUSE: u8 = 0xE1;

/// The prefix of a key that was released.
pub const BREAK_PREFIX: u8 = 0xF0;

/// One decoded unit of scanset-2 transmission.
#[derive(Copy, Clone, Debug, PartialEq, Eq, Structural)]
pub struct Scancode {
    /// The terminal data byte.
    pub code: u8,
    /// Whether the byte came after the extended-key prefix.
    pub extended: bool,
    /// `false` if the byte came after the break prefix.
    pub make: bool,
}

impl Scancode {
    pub fn new(scancode: u8, extended: bool, make: bool) -> (s: Self)
        ensures
            s == (Scancode { code: scancode, extended, make }),
    {
        Scancode { code: scancode, extended, make }
    }
}

/// A handle to a device that was identified as a keyboard.
#[derive(Copy, Clone, Debug, PartialEq, Eq, Structural)]
pub struct Keyboard {
    internal: PortType,
}

impl Keyboard {
    /// The keyboard on the given port.
    pub closed spec fn spec_new(internal: PortType) -> Keyboard {
        Keyboard { internal }
    }

    /// The keyboard on the given port.
    #[verifier::when_used_as_spec(spec_new)]
    pub fn new(internal: PortType) -> (keyboard: Self)
        ensures
            keyboard == Self::spec_new(internal),
            keyboard.on_port() == internal,
    {
        Keyboard { internal }
    }

    /// Sends a keyboard command. A keyboard without a port is not sent
    /// anything: the command ends with `DeviceUnavailable`. Nor is one whose
    /// port is not enabled: the command ends with `DeviceDisabled`.
    pub fn command_keyboard(&self, ports: &PortHolder, cmd: Command) -> (step: Step<
        CommandRaw,
        Result<(), Ps2Error>,
    >)
        ensures
            step.is_step(
                guarded_ops(ports.slot(self.on_port()), cmd.opcode()),
                guarded_next(ports.slot(self.on_port()), cmd.opcode()),
            ),
    {
        command_guarded(self.port(ports), cmd.opcode())
    }

    /// Sends a keyboard command with data, under the same conditions.
    pub fn command_keyboard_data(&self, ports: &PortHolder, cmd: DataCommand, data: u8) -> (step: Step<
        CommandRawData,
        Result<(), Ps2Error>,
    >)
        ensures
            step.is_step(
                guarded_ops(ports.slot(self.on_port()), cmd.opcode()),
                guarded_data_next(ports.slot(self.on_port()), cmd.opcode(), data),
            ),
    {
        command_data_guarded(self.port(ports), cmd.opcode(), data)
    }
}

impl Device for Keyboard {
    closed spec fn on_port(&self) -> PortType {
        self.internal
    }

    fn port_type(&self) -> (port_type: PortType) {
        self.internal
    }

    open spec fn mouse(&self) -> bool {
        false
    }

    open spec fn keyboard(&self) -> bool {
        true
    }

    fn is_mouse(&self) -> (mouse: bool) {
        false
    }

    fn is_keyboard(&self) -> (keyboard: bool) {
        true
    }
}

impl Keyboard {
    /// Tells the keyboard which scanset to speak.
    pub fn set_scanset(&self, ports: &PortHolder, scanset: Scanset) -> (step: Step<
        CommandRawData,
        Result<(), Ps2Error>,
    >)
        ensures
            step.is_step(
                guarded_ops(ports.slot(self.on_port()), DataCommand::SetGetScancode.opcode()),
                guarded_data_next(
                    ports.slot(self.on_port()),
                    DataCommand::SetGetScancode.opcode(),
                    scanset.number(),
                ),
            ),
    {
        self.command_keyboard_data(ports, DataCommand::SetGetScancode, scanset.number())
    }

    /// What asking for the scanset begins with.
    pub open spec fn get_scanset_next(slot: Option<DevicePort>) -> Next<GetScanset, Result<Scanset, Ps2Error>> {
        match guarded_data_next(slot, DataCommand::SetGetScancode.opcode(), 0) {
            Next::Await(command) => Next::Await(GetScanset::Command(command)),
            Next::Done(Ok(_)) => Next::Await(GetScanset::Answer),
            Next::Done(Err(error)) => Next::Done(Err(error)),
        }
    }

    /// Asks the keyboard which scanset it speaks: the scanset command with
    /// data 0, and once the keyboard has taken both, one more byte, which
    /// has to be 1, 2 or 3.
    pub fn get_scanset(&self, ports: &PortHolder) -> (step: Step<GetScanset, Result<Scanset, Ps2Error>>)
        ensures
            step.is_step(
                guarded_ops(ports.slot(self.on_port()), DataCommand::SetGetScancode.opcode()),
                Self::get_scanset_next(ports.slot(self.on_port())),
            ),
    {
        let Step { ops, next } = self.command_keyboard_data(ports, DataCommand::SetGetScancode, 0);
        match next {
            Next::Await(command) => Step::wait(ops, GetScanset::Command(command)),
            Next::Done(Ok(_)) => Step::wait(ops, GetScanset::Answer),
            Next::Done(Err(error)) => Step { ops, next: Next::Done(Err(error)) },
        }
    }

    /// Sets the keyboard's lights.
    pub fn set_leds(&self, ports: &PortHolder, leds: LedFlags) -> (step: Step<
        CommandRawData,
        Result<(), Ps2Error>,
    >)
        ensures
            step.is_step(
                guarded_ops(ports.slot(self.on_port()), DataCommand::SetLeds.opcode()),
                guarded_data_next(ports.slot(self.on_port()), DataCommand::SetLeds.opcode(), leds@),
            ),
    {
        self.command_keyboard_data(ports, DataCommand::SetLeds, leds.bits())
    }

    /// What reading a scancode begins with, given the status byte.
    pub open spec fn read_scancode_next(slot: Option<DevicePort>, status: u8) -> Next<
        ReadScancode,
        Result<Option<Scancode>, Ps2Error>,
    > {
        match slot {
            Some(port) => if port.readable(status) {
                Next::Await(ReadScancode::first())
            } else {
                Next::Done(Ok(None))
            },
            None => Next::Done(Err(Ps2Error::DeviceUnavailable)),
        }
    }

    /// Reads a scancode, if the status byte that was just read says that a
    /// byte from the keyboard's port waits; if not, there is no scancode.
    /// Then byte after byte is read: an extended prefix and a break prefix
    /// are noted, and the first other byte ends the scancode. That byte
    /// being 0 means no event. A byte that does not come in time is
    /// `ExpectedResponse`, and a keyboard without port `DeviceUnavailable`.
    /// Nothing is sent.
    pub fn read_scancode(&self, ports: &PortHolder, status: u8) -> (step: Step<
        ReadScancode,
        Result<Option<Scancode>, Ps2Error>,
    >)
        ensures
            step.is_step(Seq::empty(), Self::read_scancode_next(ports.slot(self.on_port()), status)),
    {
        match self.port(ports) {
            Some(port) => {
                if port.can_read(status) {
                    Step::wait(Vec::new(), ReadScancode { extended: false, make: true })
                } else {
                    Step::done(Ok(None))
                }
            },
            None => Step::done(Err(Ps2Error::DeviceUnavailable)),
        }
    }
}

/// Where asking for the scanset stands.
#[derive(Copy, Clone, Debug, PartialEq, Eq, Structural)]
pub enum GetScanset {
    /// The command or its data byte is out.
    Command(CommandRawData),
    /// Both were taken and the scanset's number is awaited.
    Answer,
}

impl GetScanset {
    /// What the keyboard's answer says.
    pub open spec fn outcome(response: Option<u8>) -> Result<Scanset, Ps2Error> {
        match response {
            Some(byte) => match Scanset::of_number(byte) {
                Some(scanset) => Ok(scanset),
                None => Err(Ps2Error::UnexpectedResponse(byte)),
            },
            None => Err(Ps2Error::ExpectedResponse),
        }
    }

    /// How it goes on after a response.
    pub open spec fn next(self, response: Option<u8>) -> Next<GetScanset, Result<Scanset, Ps2Error>> {
        match self {
            GetScanset::Command(command) => match command.next(response) {
                Next::Await(command) => Next::Await(GetScanset::Command(command)),
                Next::Done(Ok(_)) => Next::Await(GetScanset::Answer),
                Next::Done(Err(error)) => Next::Done(Err(error)),
            },
            GetScanset::Answer => Next::Done(Self::outcome(response)),
        }
    }

    /// What is sent after a response.
    pub open spec fn sends(self, response: Option<u8>) -> Seq<Op> {
        match self {
            GetScanset::Command(command) => command.sends(response),
            GetScanset::Answer => Seq::empty(),
        }
    }

    /// Resumes with the response that was read.
    pub fn step(self, response: Option<u8>) -> (step: Step<GetScanset, Result<Scanset, Ps2Error>>)
        ensures
            step.is_step(self.sends(response), self.next(response)),
    {
        match self {
            GetScanset::Command(command) => {
                let Step { ops, next } = command.step(response);
                match next {
                    Next::Await(command) => Step::wait(ops, GetScanset::Command(command)),
                    Next::Done(Ok(_)) => Step::wait(ops, GetScanset::Answer),
                    Next::Done(Err(error)) => Step { ops, next: Next::Done(Err(error)) },
                }
            },
            GetScanset::Answer => match response {
                Some(byte) => match byte {
                    1 => Step::done(Ok(Scanset::One)),
                    2 => Step::done(Ok(Scanset::Two)),
                    3 => Step::done(Ok(Scanset::Three)),
                    v => Step::done(Err(Ps2Error::UnexpectedResponse(v))),
                },
                None => Step::done(Err(Ps2Error::ExpectedResponse)),
            },
        }
    }
}

/// A handle sits on the port that it was made for.
pub proof fn lemma_keyboard_sits_on_its_port(port_type: PortType)
    ensures
        Keyboard::spec_new(port_type).on_port() == port_type,
        Keyboard::spec_new(port_type).keyboard(),
        !Keyboard::spec_new(port_type).mouse(),
{
}

/// Whether a byte is a prefix that marks a scancode as extended.
pub open spec fn is_extended_prefix(byte: u8) -> bool {
    byte == EXTENDED_PREFIX || byte == EXTENDED_PREFIX_PAUSE
}

/// Whether a byte is a prefix, that is, does not end a scancode.
pub open spec fn is_prefix(byte: u8) -> bool {
    is_extended_prefix(byte) || byte == BREAK_PREFIX
}

/// A scancode that is being read: what its prefixes have said so far.
#[derive(Copy, Clone, Debug, PartialEq, Eq, Structural)]
pub struct ReadScancode {
    pub extended: bool,
    pub make: bool,
}

impl ReadScancode {
    /// The scancode before any of its bytes was read.
    pub open spec fn first() -> ReadScancode {
        ReadScancode { extended: false, make: true }
    }

    /// The scancode that a terminal byte ends; 0 ends none.
    pub open spec fn ended_by(self, terminal: u8) -> Option<Scancode> {
        if terminal != 0 {
            Some(Scancode { code: terminal, extended: self.extended, make: self.make })
        } else {
            None
        }
    }

    /// How the read goes on after a byte, or after none came.
    pub open spec fn next(self, response: Option<u8>) -> Next<ReadScancode, Result<Option<Scancode>, Ps2Error>> {
        match response {
            Some(byte) => if is_extended_prefix(byte) {
                Next::Await(ReadScancode { extended: true, make: self.make })
            } else if byte == BREAK_PREFIX {
                Next::Await(ReadScancode { extended: self.extended, make: false })
            } else {
                Next::Done(Ok(self.ended_by(byte)))
            },
            None => Next::Done(Err(Ps2Error::ExpectedResponse)),
        }
    }

    /// How the read stands after a run of bytes.
    pub open spec fn run(self, responses: Seq<Option<u8>>) -> Next<
        ReadScancode,
        Result<Option<Scancode>, Ps2Error>,
    >
        decreases responses.len(),
    {
        if responses.len() == 0 {
            Next::Await(self)
        } else {
            match self.run(responses.drop_last()) {
                Next::Await(waiting) => waiting.next(responses.last()),
                ended => ended,
            }
        }
    }

    /// Resumes the read with the byte that was read.
    pub fn step(self, response: Option<u8>) -> (step: Step<ReadScancode, Result<Option<Scancode>, Ps2Error>>)
        ensures
            step.is_step(Seq::empty(), self.next(response)),
    {
        match response {
            Some(byte) => {
                if byte == EXTENDED_PREFIX || byte == EXTENDED_PREFIX_PAUSE {
                    Step::wait(Vec::new(), ReadScancode { extended: true, make: self.make })
                } else if byte == BREAK_PREFIX {
                    Step::wait(Vec::new(), ReadScancode { extended: self.extended, make: false })
                } else if byte != 0 {
                    Step::done(Ok(Some(Scancode::new(byte, self.extended, self.make))))
                } else {
                    Step::done(Ok(None))
                }
            },
            None => Step::done(Err(Ps2Error::ExpectedResponse)),
        }
    }
}

/// Whether a frame of prefixes holds one that marks the scancode as
/// extended.
pub open spec fn has_extended_prefix(prefixes: Seq<u8>) -> bool {
    exists|i: int| 0 <= i < prefixes.len() && is_extended_prefix(#[trigger] prefixes[i])
}

/// Whether a frame of prefixes holds the break prefix.
pub open spec fn has_break_prefix(prefixes: Seq<u8>) -> bool {
    exists|i: int| 0 <= i < prefixes.len() && #[trigger] prefixes[i] == BREAK_PREFIX
}

/// The bytes of a frame as the responses that the read is resumed with.
pub open spec fn arrived(bytes: Seq<u8>) -> Seq<Option<u8>> {
    Seq::new(bytes.len(), |i: int| Some(bytes[i]))
}

/// After any number of prefixes the read still waits, and knows of each
/// kind of prefix whether one has come.
pub proof fn lemma_prefixes_accumulate(prefixes: Seq<u8>)
    requires
        forall|i: int| 0 <= i < prefixes.len() ==> is_prefix(#[trigger] prefixes[i]),
    ensures
        ReadScancode::first().run(arrived(prefixes)) == Next::<
            ReadScancode,
            Result<Option<Scancode>, Ps2Error>,
        >::Await(
            ReadScancode { extended: has_extended_prefix(prefixes), make: !has_break_prefix(prefixes) },
        ),
    decreases prefixes.len(),
{
    if prefixes.len() > 0 {
        let front = prefixes.drop_last();
        let last = prefixes.last();
        lemma_prefixes_accumulate(front);
        assert(arrived(prefixes).drop_last() =~= arrived(front));
        assert(arrived(prefixes).last() == Some(last));
        assert(has_extended_prefix(prefixes) == (has_extended_prefix(front) || is_extended_prefix(last))) by {
            if has_extended_prefix(front) {
                let i = choose|i: int| 0 <= i < front.len() && is_extended_prefix(#[trigger] front[i]);
                assert(is_extended_prefix(prefixes[i]));
            }
            if is_extended_prefix(last) {
                assert(is_extended_prefix(prefixes[prefixes.len() - 1]));
            }
            if has_extended_prefix(prefixes) {
                let i = choose|i: int| 0 <= i < prefixes.len() && is_extended_prefix(#[trigger] prefixes[i]);
                if i < front.len() {
                    assert(is_extended_prefix(front[i]));
                }
            }
        }
        assert(has_break_prefix(prefixes) == (has_break_prefix(front) || last == BREAK_PREFIX)) by {
            if has_break_prefix(front) {
                let i = choose|i: int| 0 <= i < front.len() && #[trigger] front[i] == BREAK_PREFIX;
                assert(prefixes[i] == BREAK_PREFIX);
            }
            if last == BREAK_PREFIX {
                assert(prefixes[prefixes.len() - 1] == BREAK_PREFIX);
            }
            if has_break_prefix(prefixes) {
                let i = choose|i: int| 0 <= i < prefixes.len() && #[trigger] prefixes[i] == BREAK_PREFIX;
                if i < front.len() {
                    assert(front[i] == BREAK_PREFIX);
                }
            }
        }
    } else {
        assert(!has_extended_prefix(prefixes));
        assert(!has_break_prefix(prefixes));
    }
}

/// Decoding is a function of the frame alone: a frame of prefixes and a
/// terminal byte gives the scancode with that byte as its code, extended if
/// an extended prefix is among the prefixes, and a break if the break prefix
/// is. Every read starts afresh, so what was read before, which keys are held
/// and which port the keyboard sits on do not enter into it, and the same
/// frame always gives the same scancode.
pub proof fn lemma_frame_decides_scancode(prefixes: Seq<u8>, terminal: u8)
    requires
        forall|i: int| 0 <= i < prefixes.len() ==> is_prefix(#[trigger] prefixes[i]),
        !is_prefix(terminal),
    ensures
        ReadScancode::first().run(arrived(prefixes.push(terminal))) == Next::<
            ReadScancode,
            Result<Option<Scancode>, Ps2Error>,
        >::Done(
            Ok(
                if terminal != 0 {
                    Some(
                        Scancode {
                            code: terminal,
                            extended: has_extended_prefix(prefixes),
                            make: !has_break_prefix(prefixes),
                        },
                    )
                } else {
                    None
                },
            ),
        ),
{
    lemma_prefixes_accumulate(prefixes);
    let frame = prefixes.push(terminal);
    assert(arrived(frame).drop_last() =~= arrived(prefixes));
    assert(arrived(frame).last() == Some(terminal));
}

} // verus!

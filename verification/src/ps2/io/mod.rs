//! Low-level I/O with the PS/2 controller.
//!
//! The controller has two 8-bit registers: a data register, and one that
//! reads as status and is written as command. The functions here decide what
//! is done with them; the host performs it. A primitive takes the status byte
//! that the host has just read and answers with the register access to
//! perform, if any. The blocking primitives poll: they are handed one status
//! byte after the other until the controller is ready or their budget of
//! polls is spent.
//!
//! Above the primitives every exchange with the controller has the same
//! shape, a [`Step`]: some writes, each after a flush or not, and then either
//! the end of the operation or one blocking read of the data register whose
//! outcome resumes it.

use vstd::prelude::*;
use crate::ps2::Ps2Error;
use self::command::controller;

pub mod command;

verus! {

/// The response of a device that wants the last byte sent again.
pub const RESEND: u8 = 0xFE;

/// The response of a device that has taken a byte.
pub const ACK: u8 = 0xFA;

/// The response of the controller to a self-test that passed.
pub const CONTROLLER_TEST_SUCCESS: u8 = 0x55;

/// The response of a device to the echo command.
pub const ECHO: u8 = 0xEE;

/// How often a device command is sent before the device is given up.
pub const COMMAND_RETRIES: usize = 16;

/// How often the status register is polled before a blocking access gives up.
pub const IO_ITERATIONS: usize = 1000000;

/// The address of the register that carries data to and from the controller.
pub const DATA_PORT: u16 = 0x60;

/// The address of the register that reads as the controller's status and
/// takes its commands.
pub const CONTROLLER_PORT: u16 = 0x64;

/// The bits of the status register that the driver looks at.
#[derive(Copy, Clone, Debug, PartialEq, Eq, Structural)]
pub struct StatusFlags {
    bits: u8,
}

impl StatusFlags {
    /// The controller's output buffer is full: data can be read.
    pub const OUTPUT_FULL: u8 = 0x01;

    /// The controller's input buffer is full: nothing can be written.
    pub const INPUT_FULL: u8 = 0x02;

    /// The byte in the output buffer comes from the second port.
    pub const MOUSE_OUTPUT_FULL: u8 = 0x20;

    /// Every bit that has a meaning here.
    pub const ALL: u8 = 0x23;

    /// The flags as a bit pattern.
    pub closed spec fn view(self) -> u8 {
        self.bits
    }

    /// The flags of a raw byte; bits without a meaning are dropped.
    pub fn from_bits_truncate(raw: u8) -> (flags: Self)
        ensures
            flags@ == raw & Self::ALL,
    {
        StatusFlags { bits: raw & Self::ALL }
    }

    /// The flags as a bit pattern.
    pub fn bits(&self) -> (bits: u8)
        ensures
            bits == self@,
    {
        self.bits
    }

    /// Whether every bit of `mask` is set.
    pub fn contains(&self, mask: u8) -> (found: bool)
        ensures
            found == (self@ & mask == mask),
    {
        self.bits & mask == mask
    }
}

/// Whether a status byte says that data waits to be read.
pub open spec fn output_full(status: u8) -> bool {
    status & StatusFlags::OUTPUT_FULL == StatusFlags::OUTPUT_FULL
}

/// Whether a status byte says that the controller cannot take a byte.
pub open spec fn input_full(status: u8) -> bool {
    status & StatusFlags::INPUT_FULL == StatusFlags::INPUT_FULL
}

/// Whether a status byte says that the waiting data is from the second port.
pub open spec fn mouse_output(status: u8) -> bool {
    status & StatusFlags::MOUSE_OUTPUT_FULL == StatusFlags::MOUSE_OUTPUT_FULL
}

/// Dropping the bits without meaning changes none of the three flags.
proof fn lemma_truncation_keeps_flags(status: u8)
    ensures
        ((status & 0x23) & 0x01 == 0x01) == (status & 0x01 == 0x01),
        ((status & 0x23) & 0x02 == 0x02) == (status & 0x02 == 0x02),
        ((status & 0x23) & 0x20 == 0x20) == (status & 0x20 == 0x20),
{
    assert(((status & 0x23) & 0x01 == 0x01) == (status & 0x01 == 0x01) && ((status & 0x23) & 0x02 == 0x02)
        == (status & 0x02 == 0x02) && ((status & 0x23) & 0x20 == 0x20) == (status & 0x20 == 0x20))
        by (bit_vector);
}

/// The flags of a byte read from the status register.
pub fn read_status(status: u8) -> (flags: StatusFlags)
    ensures
        flags@ == status & StatusFlags::ALL,
{
    StatusFlags::from_bits_truncate(status)
}

/// Returns true if the controller can take a byte.
pub fn can_write(status: u8) -> (free: bool)
    ensures
        free == !input_full(status),
{
    proof {
        lemma_truncation_keeps_flags(status);
    }
    !read_status(status).contains(StatusFlags::INPUT_FULL)
}

/// Returns true if the controller holds a byte to read.
pub fn can_read(status: u8) -> (full: bool)
    ensures
        full == output_full(status),
{
    proof {
        lemma_truncation_keeps_flags(status);
    }
    read_status(status).contains(StatusFlags::OUTPUT_FULL)
}

/// Returns true if the next byte read will come from the keyboard.
pub fn can_read_keyboard(status: u8) -> (keyboard: bool)
    ensures
        keyboard == !mouse_output(status),
{
    proof {
        lemma_truncation_keeps_flags(status);
    }
    !read_status(status).contains(StatusFlags::MOUSE_OUTPUT_FULL)
}

/// Returns true if the next byte read will come from the mouse.
pub fn can_read_mouse(status: u8) -> (mouse: bool)
    ensures
        mouse == mouse_output(status),
{
    proof {
        lemma_truncation_keeps_flags(status);
    }
    read_status(status).contains(StatusFlags::MOUSE_OUTPUT_FULL)
}

/// One access to a register, by the register's address.
#[derive(Copy, Clone, Debug, PartialEq, Eq, Structural)]
pub enum Access {
    /// Read the register.
    Read(u16),
    /// Write the byte to the register.
    Write(u16, u8),
}

/// Writes to the given port if the controller can take a byte just now:
/// answers with the write to perform, or with an error if it cannot.
pub fn write(status: u8, port: u16, value: u8) -> (access: Result<Access, Ps2Error>)
    ensures
        access == if input_full(status) {
            Err::<Access, Ps2Error>(Ps2Error::WriteUnavailable)
        } else {
            Ok::<Access, Ps2Error>(Access::Write(port, value))
        },
{
    if can_write(status) {
        Ok(Access::Write(port, value))
    } else {
        Err(Ps2Error::WriteUnavailable)
    }
}

/// Reads from the given port if the controller holds a byte just now:
/// answers with the read to perform, or with `None` if there is nothing.
pub fn read(status: u8, port: u16) -> (access: Option<Access>)
    ensures
        access == if output_full(status) {
            Some(Access::Read(port))
        } else {
            None
        },
{
    if can_read(status) {
        return Some(Access::Read(port));
    }
    None
}

/// Flushes the controller's output buffer. As long as the status says that
/// a byte waits, the answer is the read that takes it out; the byte is
/// thrown away and the status is looked at again. `None` ends the flush.
pub fn flush_output(status: u8) -> (discard: Option<Access>)
    ensures
        discard == if output_full(status) {
            Some(Access::Read(DATA_PORT))
        } else {
            None
        },
{
    if can_read(status) {
        Some(Access::Read(DATA_PORT))
    } else {
        None
    }
}

/// An access that waits for the controller to be ready for it.
#[derive(Copy, Clone, Debug, PartialEq, Eq, Structural)]
pub struct Blocking {
    /// The access to perform once the controller is ready.
    pub access: Access,
    /// How many polls of the status register are left.
    pub polls: usize,
}

/// What a poll of the status register means for a blocking access.
#[derive(Copy, Clone, Debug, PartialEq, Eq, Structural)]
pub enum Poll {
    /// The controller is ready: perform the access.
    Ready(Access),
    /// Not ready: read the status again and poll with it.
    Pending(Blocking),
    /// The budget of polls is spent.
    TimedOut,
}

impl Blocking {
    /// Whether a status byte lets the access go ahead.
    pub open spec fn ready(self, status: u8) -> bool {
        match self.access {
            Access::Read(_) => output_full(status),
            Access::Write(_, _) => !input_full(status),
        }
    }

    /// What one poll gives.
    pub open spec fn polled(self, status: u8) -> Poll {
        if self.ready(status) {
            Poll::Ready(self.access)
        } else if self.polls > 1 {
            Poll::Pending(Blocking { access: self.access, polls: (self.polls - 1) as usize })
        } else {
            Poll::TimedOut
        }
    }

    /// What polling with one status byte after the other gives. Once the
    /// access is ready or timed out, further bytes change nothing.
    pub open spec fn run(self, statuses: Seq<u8>) -> Poll
        decreases statuses.len(),
    {
        if statuses.len() == 0 {
            Poll::Pending(self)
        } else {
            match self.run(statuses.drop_last()) {
                Poll::Pending(waiting) => waiting.polled(statuses.last()),
                ended => ended,
            }
        }
    }

    /// Polls with the status byte that was just read.
    pub fn poll(self, status: u8) -> (poll: Poll)
        ensures
            poll == self.polled(status),
    {
        let ready = match self.access {
            Access::Read(_) => can_read(status),
            Access::Write(_, _) => can_write(status),
        };
        if ready {
            Poll::Ready(self.access)
        } else if self.polls > 1 {
            Poll::Pending(Blocking { access: self.access, polls: self.polls - 1 })
        } else {
            Poll::TimedOut
        }
    }
}

/// Writes to the given port once the controller can take a byte. The write
/// is the answer to the first poll that finds the input buffer empty. If
/// `IO_ITERATIONS` polls find it full, the controller is stuck, and the host
/// has nothing left but to halt.
pub fn write_blocking(port: u16, value: u8) -> (waiting: Blocking)
    ensures
        waiting == (Blocking { access: Access::Write(port, value), polls: IO_ITERATIONS }),
{
    Blocking { access: Access::Write(port, value), polls: IO_ITERATIONS }
}

/// Reads from the given port once the controller holds a byte. The read is
/// the answer to the first poll that finds the output buffer full. If
/// `IO_ITERATIONS` polls find it empty, no response has arrived in time.
pub fn read_blocking(port: u16) -> (waiting: Blocking)
    ensures
        waiting == (Blocking { access: Access::Read(port), polls: IO_ITERATIONS }),
{
    Blocking { access: Access::Read(port), polls: IO_ITERATIONS }
}

/// A blocking access never waits forever. While the controller is not ready,
/// each poll takes one from the budget, and the poll that finds the budget
/// spent times out; so a controller that is never ready is given up after
/// exactly as many polls as the budget held.
pub proof fn lemma_polling_is_bounded(waiting: Blocking, statuses: Seq<u8>)
    requires
        waiting.polls >= 1,
        forall|i: int| 0 <= i < statuses.len() ==> !waiting.ready(#[trigger] statuses[i]),
    ensures
        statuses.len() < waiting.polls ==> waiting.run(statuses) == Poll::Pending(
            Blocking { access: waiting.access, polls: (waiting.polls - statuses.len()) as usize },
        ),
        statuses.len() >= waiting.polls ==> waiting.run(statuses) == Poll::TimedOut,
    decreases statuses.len(),
{
    if statuses.len() > 0 {
        lemma_polling_is_bounded(waiting, statuses.drop_last());
    }
}

/// The access goes ahead at the first poll that finds the controller ready,
/// if the budget reaches that far.
pub proof fn lemma_first_ready_poll_wins(waiting: Blocking, statuses: Seq<u8>)
    requires
        0 < statuses.len() <= waiting.polls,
        forall|i: int| 0 <= i < statuses.len() - 1 ==> !waiting.ready(#[trigger] statuses[i]),
        waiting.ready(statuses.last()),
    ensures
        waiting.run(statuses) == Poll::Ready(waiting.access),
{
    lemma_polling_is_bounded(waiting, statuses.drop_last());
}

/// What the host does on the controller's registers without an answer.
#[derive(Copy, Clone, Debug, PartialEq, Eq, Structural)]
pub enum Op {
    /// Flush the output buffer.
    Flush,
    /// Write the byte to the register at the address, blocking.
    Write(u16, u8),
}

/// How an operation goes on after the host has performed a step's writes.
#[derive(Debug, PartialEq, Eq)]
pub enum Next<M, T> {
    /// Read the data register, blocking, and resume with the outcome.
    Await(M),
    /// The operation has ended with this result.
    Done(T),
}

/// One step of an operation: what to send, and how to go on.
#[derive(Debug)]
pub struct Step<M, T> {
    /// What the host performs first, in this order.
    pub ops: Vec<Op>,
    pub next: Next<M, T>,
}

impl<M, T> Step<M, T> {
    /// Whether the step sends `ops` and goes on with `next`.
    pub open spec fn is_step(self, ops: Seq<Op>, next: Next<M, T>) -> bool {
        self.ops@ == ops && self.next == next
    }

    /// The step that sends nothing and ends the operation.
    pub fn done(result: T) -> (step: Self)
        ensures
            step.is_step(Seq::empty(), Next::Done(result)),
    {
        Step { ops: Vec::new(), next: Next::Done(result) }
    }

    /// The step that sends `ops` and then waits for a byte.
    pub fn wait(ops: Vec<Op>, machine: M) -> (step: Self)
        ensures
            step.is_step(ops@, Next::Await(machine)),
    {
        Step { ops, next: Next::Await(machine) }
    }

    /// The parts of a step that waits for a byte.
    pub fn awaited(self) -> (parts: (Vec<Op>, M))
        requires
            self.next is Await,
        ensures
            self.is_step(parts.0@, Next::Await(parts.1)),
    {
        match self.next {
            Next::Await(machine) => (self.ops, machine),
            Next::Done(_) => unreached(),
        }
    }

    /// The parts of a step that ends the operation.
    pub fn finished(self) -> (parts: (Vec<Op>, T))
        requires
            self.next is Done,
        ensures
            self.is_step(parts.0@, Next::Done(parts.1)),
    {
        match self.next {
            Next::Await(_) => unreached(),
            Next::Done(result) => (self.ops, result),
        }
    }
}

/// The register operations of a controller command.
pub open spec fn command_ops(cmd: controller::Command) -> Seq<Op> {
    seq![Op::Flush, Op::Write(CONTROLLER_PORT, cmd.opcode())]
}

/// The register operations of a controller command with data.
pub open spec fn command_data_ops(cmd: controller::DataCommand, data: u8) -> Seq<Op> {
    seq![Op::Flush, Op::Write(CONTROLLER_PORT, cmd.opcode()), Op::Write(DATA_PORT, data)]
}

/// Sends a controller command: a flush, then the opcode to the command
/// register.
pub fn command(cmd: controller::Command) -> (ops: Vec<Op>)
    ensures
        ops@ == command_ops(cmd),
{
    let mut ops = Vec::new();
    ops.push(Op::Flush);
    ops.push(Op::Write(CONTROLLER_PORT, cmd.opcode()));
    assert(ops@ =~= command_ops(cmd));
    ops
}

/// Sends a controller command with data: a flush, the opcode to the command
/// register, then the data byte to the data register.
pub fn command_data(cmd: controller::DataCommand, data: u8) -> (ops: Vec<Op>)
    ensures
        ops@ == command_data_ops(cmd, data),
{
    let mut ops = Vec::new();
    ops.push(Op::Flush);
    ops.push(Op::Write(CONTROLLER_PORT, cmd.opcode()));
    ops.push(Op::Write(DATA_PORT, data));
    assert(ops@ =~= command_data_ops(cmd, data));
    ops
}

/// One sequence of register operations after another.
pub fn chain(first: Vec<Op>, second: Vec<Op>) -> (ops: Vec<Op>)
    ensures
        ops@ == first@ + second@,
{
    let mut ops = first;
    let mut i: usize = 0;
    while i < second.len()
        invariant
            i <= second.len(),
            ops@ == first@ + second@.take(i as int),
        decreases second.len() - i,
    {
        ops.push(second[i]);
        i = i + 1;
        assert(ops@ =~= first@ + second@.take(i as int));
    }
    assert(second@.take(i as int) =~= second@);
    ops
}

} // verus!

use ps2_input::ps2::io;
use ps2_input::ps2::io::command::{controller, device};
use ps2_input::ps2::io::{
    can_read, can_read_keyboard, can_read_mouse, can_write, command, command_data, flush_output, read,
    read_blocking, read_status, write_blocking, Access, Blocking, Op, Poll, StatusFlags, CONTROLLER_PORT,
    DATA_PORT, IO_ITERATIONS,
};
use ps2_input::ps2::Ps2Error;

#[test]
fn status_bits_are_read_one_by_one() {
    assert!(can_read(0x01));
    assert!(!can_read(0x02));
    assert!(can_write(0x01));
    assert!(!can_write(0x02));
    assert!(!can_write(0xFF));
    assert!(can_read_keyboard(0x01));
    assert!(!can_read_keyboard(0x21));
    assert!(can_read_mouse(0x20));
    assert!(!can_read_mouse(0xDF));
}

#[test]
fn read_status_drops_bits_without_meaning() {
    assert_eq!(read_status(0xFF).bits(), 0x23);
    assert_eq!(read_status(0xDC).bits(), 0x00);
    assert!(read_status(0x21).contains(StatusFlags::OUTPUT_FULL | StatusFlags::MOUSE_OUTPUT_FULL));
    assert!(!read_status(0x21).contains(StatusFlags::INPUT_FULL));
}

#[test]
fn write_is_refused_while_input_is_full() {
    assert_eq!(io::write(0x00, DATA_PORT, 0xF2), Ok(Access::Write(0x60, 0xF2)));
    assert_eq!(io::write(0x01, CONTROLLER_PORT, 0xAA), Ok(Access::Write(0x64, 0xAA)));
    assert_eq!(io::write(0x02, DATA_PORT, 0xF2), Err(Ps2Error::WriteUnavailable));
}

#[test]
fn read_gives_nothing_while_output_is_empty() {
    assert_eq!(read(0x01, DATA_PORT), Some(Access::Read(0x60)));
    assert_eq!(read(0x00, DATA_PORT), None);
    assert_eq!(read(0x22, DATA_PORT), None);
}

#[test]
fn flush_drains_until_output_is_empty() {
    assert_eq!(flush_output(0x01), Some(Access::Read(DATA_PORT)));
    assert_eq!(flush_output(0x21), Some(Access::Read(DATA_PORT)));
    assert_eq!(flush_output(0x00), None);
}

#[test]
fn blocking_write_goes_ahead_at_the_first_free_poll() {
    let waiting = write_blocking(DATA_PORT, 0xEE);
    assert_eq!(waiting, Blocking { access: Access::Write(0x60, 0xEE), polls: IO_ITERATIONS });
    let waiting = match waiting.poll(0x02) {
        Poll::Pending(waiting) => waiting,
        other => panic!("{:?}", other),
    };
    assert_eq!(waiting.polls, IO_ITERATIONS - 1);
    assert_eq!(waiting.poll(0x00), Poll::Ready(Access::Write(0x60, 0xEE)));
}

#[test]
fn blocking_read_times_out_after_the_budget() {
    let mut waiting = read_blocking(DATA_PORT);
    let mut polls = 0usize;
    let outcome = loop {
        polls += 1;
        match waiting.poll(0x00) {
            Poll::Pending(next) => waiting = next,
            other => break other,
        }
    };
    assert_eq!(outcome, Poll::TimedOut);
    assert_eq!(polls, IO_ITERATIONS);
    assert_eq!(polls, 1_000_000);
}

#[test]
fn blocking_read_goes_ahead_at_the_last_poll() {
    let last = Blocking { access: Access::Read(DATA_PORT), polls: 1 };
    assert_eq!(last.poll(0x01), Poll::Ready(Access::Read(DATA_PORT)));
    assert_eq!(last.poll(0x00), Poll::TimedOut);
}

#[test]
fn controller_command_is_flush_then_opcode() {
    assert_eq!(command(controller::Command::ReadConfig), vec![Op::Flush, Op::Write(0x64, 0x20)]);
    assert_eq!(command(controller::Command::DisablePort1), vec![Op::Flush, Op::Write(0x64, 0xAD)]);
    assert_eq!(command(controller::Command::WriteCommandPort2), vec![Op::Flush, Op::Write(0x64, 0xD4)]);
    assert_eq!(
        command_data(controller::DataCommand::WriteConfig, 0x31),
        vec![Op::Flush, Op::Write(0x64, 0x60), Op::Write(0x60, 0x31)]
    );
}

#[test]
fn opcodes_are_as_the_protocol_has_them() {
    assert_eq!(controller::Command::DisablePort2.opcode(), 0xA7);
    assert_eq!(controller::Command::EnablePort2.opcode(), 0xA8);
    assert_eq!(controller::Command::EnablePort1.opcode(), 0xAE);
    assert_eq!(controller::Command::TestController.opcode(), 0xAA);
    assert_eq!(controller::Command::TestPort1.opcode(), 0xAB);
    assert_eq!(controller::Command::TestPort2.opcode(), 0xA9);
    assert_eq!(device::Command::Reset.opcode(), 0xFF);
    assert_eq!(device::Command::IdentifyDevice.opcode(), 0xF2);
    assert_eq!(device::Command::Echo.opcode(), 0xEE);
    assert_eq!(device::Command::ResetEcho.opcode(), 0xEC);
    assert_eq!(device::Command::SetDefaults.opcode(), 0xF6);
    assert_eq!(device::keyboard::DataCommand::SetGetScancode.opcode(), 0xF0);
    assert_eq!(device::keyboard::DataCommand::SetLeds.opcode(), 0xED);
    assert_eq!(device::keyboard::Command::SetAllKeysToMakeOnly.opcode(), 0xF9);
    assert_eq!(device::mouse::Command::SetStreamMode.opcode(), 0xEA);
    assert_eq!(device::mouse::DataCommand::SetSampleRate.opcode(), 0xF3);
}

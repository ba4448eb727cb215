use ps2_input::ps2::device::keyboard::{Keyboard, LedFlags, ReadScancode, Scancode, Scanset};
use ps2_input::ps2::device::mouse::Mouse;
use ps2_input::ps2::device::{
    command_raw, command_raw_data, Device, DevicePort, DeviceType, Identify, InternalDevice, KeyboardType,
    MouseType, PortType,
};
use ps2_input::ps2::io::command::device::Command;
use ps2_input::ps2::io::{Next, Op, Step, ACK, COMMAND_RETRIES, ECHO, RESEND};
use ps2_input::ps2::{PortHolder, Ps2Error};

fn enabled(port_type: PortType) -> DevicePort {
    let mut port = DevicePort::new(port_type);
    port.enable();
    port
}

fn holder(first: Option<DevicePort>, second: Option<DevicePort>) -> PortHolder {
    let mut ports = PortHolder::new();
    ports.set((first, second));
    ports
}

fn run_command(port: &DevicePort, cmd: u8, responses: &[Option<u8>]) -> (Result<(), Ps2Error>, usize, usize) {
    let Step { ops, mut next } = command_raw(port, cmd);
    let mut sent = ops.iter().filter(|op| **op == Op::Write(0x60, cmd)).count();
    let mut used = 0;
    loop {
        match next {
            Next::Done(result) => return (result, sent, used),
            Next::Await(exchange) => {
                let step = exchange.step(responses[used]);
                used += 1;
                sent += step.ops.iter().filter(|op| **op == Op::Write(0x60, cmd)).count();
                next = step.next;
            }
        }
    }
}

#[test]
fn new_port_is_disabled_and_dirty() {
    let port = DevicePort::new(PortType::Port2);
    assert_eq!(port.port_type, PortType::Port2);
    assert!(!port.is_enabled());
    assert!(port.is_dirty());
}

#[test]
fn enable_disable_and_dirty_are_kept_apart() {
    let mut port = DevicePort::new(PortType::Port1);
    assert_eq!(port.enable(), vec![Op::Flush, Op::Write(0x64, 0xAE)]);
    assert!(port.is_enabled() && port.is_dirty());
    port.set_dirty(false);
    assert!(port.is_enabled() && !port.is_dirty());
    assert_eq!(port.disable(), vec![Op::Flush, Op::Write(0x64, 0xAD)]);
    assert!(!port.is_enabled() && !port.is_dirty());
    let mut second = DevicePort::new(PortType::Port2);
    assert_eq!(second.enable(), vec![Op::Flush, Op::Write(0x64, 0xA8)]);
    assert_eq!(second.disable(), vec![Op::Flush, Op::Write(0x64, 0xA7)]);
    assert_eq!(PortType::Port1.enable(), vec![Op::Flush, Op::Write(0x64, 0xAE)]);
    assert_eq!(PortType::Port2.disable(), vec![Op::Flush, Op::Write(0x64, 0xA7)]);
}

#[test]
fn port_can_read_only_its_own_bytes() {
    let first = DevicePort::new(PortType::Port1);
    let second = DevicePort::new(PortType::Port2);
    assert!(first.can_read(0x01));
    assert!(!first.can_read(0x21));
    assert!(!first.can_read(0x00));
    assert!(second.can_read(0x21));
    assert!(!second.can_read(0x01));
    assert!(!second.can_read(0x20));
}

#[test]
fn command_to_first_port_is_flush_and_write() {
    let step = command_raw(&DevicePort::new(PortType::Port1), 0xF2);
    assert_eq!(step.ops, vec![Op::Flush, Op::Write(0x60, 0xF2)]);
}

#[test]
fn command_to_second_port_is_routed_first() {
    let step = command_raw(&DevicePort::new(PortType::Port2), 0xF2);
    assert_eq!(step.ops, vec![Op::Flush, Op::Write(0x64, 0xD4), Op::Flush, Op::Write(0x60, 0xF2)]);
}

#[test]
fn ack_and_echo_are_success() {
    let port = DevicePort::new(PortType::Port1);
    assert_eq!(run_command(&port, 0xFF, &[Some(ACK)]), (Ok(()), 1, 1));
    assert_eq!(run_command(&port, 0xEE, &[Some(ECHO)]), (Ok(()), 1, 1));
}

#[test]
fn resend_twice_then_ack() {
    let port = DevicePort::new(PortType::Port1);
    assert_eq!(run_command(&port, 0xF2, &[Some(RESEND), Some(RESEND), Some(ACK)]), (Ok(()), 3, 3));
}

#[test]
fn resend_every_time_exceeds_retries() {
    let port = DevicePort::new(PortType::Port2);
    let responses = [Some(RESEND); 32];
    assert_eq!(run_command(&port, 0xF2, &responses), (Err(Ps2Error::RetriesExceeded), 16, 16));
    assert_eq!(COMMAND_RETRIES, 16);
}

#[test]
fn ack_after_fifteen_resends_is_still_success() {
    let port = DevicePort::new(PortType::Port1);
    let mut responses = vec![Some(RESEND); 15];
    responses.push(Some(ACK));
    assert_eq!(run_command(&port, 0xF2, &responses), (Ok(()), 16, 16));
}

#[test]
fn other_byte_and_silence_are_errors_at_once() {
    let port = DevicePort::new(PortType::Port1);
    assert_eq!(run_command(&port, 0xF2, &[Some(0x00)]), (Err(Ps2Error::UnexpectedResponse(0x00)), 1, 1));
    assert_eq!(
        run_command(&port, 0xF2, &[Some(RESEND), Some(0x55)]),
        (Err(Ps2Error::UnexpectedResponse(0x55)), 2, 2)
    );
    assert_eq!(run_command(&port, 0xF2, &[None]), (Err(Ps2Error::ExpectedResponse), 1, 1));
}

#[test]
fn data_follows_only_a_command_that_was_taken() {
    let port = DevicePort::new(PortType::Port1);
    let Step { ops, next } = command_raw_data(&port, 0xF0, 0x02);
    assert_eq!(ops, vec![Op::Flush, Op::Write(0x60, 0xF0)]);
    let Next::Await(command) = next else { panic!() };
    let step = command.step(Some(ACK));
    assert_eq!(step.ops, vec![Op::Write(0x60, 0x02)]);
    let Next::Await(data) = step.next else { panic!() };
    assert_eq!(data.step(Some(ACK)).next, Next::Done(Ok(())));
    assert_eq!(data.step(Some(ECHO)).next, Next::Done(Err(Ps2Error::UnexpectedResponse(ECHO))));
    assert_eq!(data.step(None).next, Next::Done(Err(Ps2Error::ExpectedResponse)));
    let failed = command.step(Some(0x01));
    assert!(failed.ops.is_empty());
    assert_eq!(failed.next, Next::Done(Err(Ps2Error::UnexpectedResponse(0x01))));
}

#[test]
fn port_test_passes_on_zero() {
    let Step { ops, next } = PortType::Port1.test();
    assert_eq!(ops, vec![Op::Flush, Op::Write(0x64, 0xAB)]);
    let Next::Await(test) = next else { panic!() };
    assert_eq!(test.step(Some(0x00)).next, Next::Done(Ok(true)));
    assert_eq!(test.step(Some(0x01)).next, Next::Done(Ok(false)));
    assert_eq!(test.step(None).next, Next::Done(Err(Ps2Error::ExpectedResponse)));
    assert_eq!(DevicePort::new(PortType::Port2).test().ops, vec![Op::Flush, Op::Write(0x64, 0xA9)]);
}

#[test]
fn reset_does_not_mind_an_absent_device() {
    let port = DevicePort::new(PortType::Port1);
    let Step { ops, mut next } = port.reset();
    assert_eq!(ops, vec![Op::Flush, Op::Write(0x60, 0xFF)]);
    let mut resends = 0;
    let result = loop {
        match next {
            Next::Await(command) => {
                resends += 1;
                next = command.step(Some(RESEND)).next;
            }
            Next::Done(result) => break result,
        }
    };
    assert_eq!(result, Ok(()));
    assert_eq!(resends, 16);
    let Next::Await(command) = port.command_port(Command::Reset).next else { panic!() };
    assert_eq!(command.step(None).next, Next::Done(Err(Ps2Error::ExpectedResponse)));
    assert_eq!(command.step(Some(0x12)).next, Next::Done(Err(Ps2Error::UnexpectedResponse(0x12))));
}

#[test]
fn ping_on_first_port_ends_with_the_echo() {
    let mut port = DevicePort::new(PortType::Port1);
    let Step { ops, next } = port.ping();
    assert_eq!(ops, vec![Op::Flush, Op::Write(0x60, 0xEE)]);
    let Next::Await(ping) = next else { panic!() };
    let step = ping.step(Some(ECHO));
    assert!(step.ops.is_empty());
    assert_eq!(step.next, Next::Done(Ok(true)));
}

#[test]
fn ping_on_second_port_stops_the_echoing() {
    let mut port = DevicePort::new(PortType::Port2);
    let Next::Await(ping) = port.ping().next else { panic!() };
    let step = ping.step(Some(ECHO));
    assert_eq!(step.ops, vec![Op::Flush, Op::Write(0x64, 0xD4), Op::Flush, Op::Write(0x60, 0xEC)]);
    let Next::Await(reset_echo) = step.next else { panic!() };
    assert_eq!(reset_echo.step(Some(ACK)).next, Next::Done(Ok(true)));
    assert_eq!(reset_echo.step(Some(0x33)).next, Next::Done(Err(Ps2Error::UnexpectedResponse(0x33))));
    assert_eq!(reset_echo.step(None).next, Next::Done(Err(Ps2Error::ExpectedResponse)));
}

#[test]
fn ping_gives_up_after_three_echoes() {
    let mut port = DevicePort::new(PortType::Port1);
    let Step { ops, mut next } = port.ping();
    let mut echoes = ops.iter().filter(|op| **op == Op::Write(0x60, 0xEE)).count();
    let result = loop {
        match next {
            Next::Await(ping) => {
                let step = ping.step(None);
                echoes += step.ops.iter().filter(|op| **op == Op::Write(0x60, 0xEE)).count();
                next = step.next;
            }
            Next::Done(result) => break result,
        }
    };
    assert_eq!(result, Ok(false));
    assert_eq!(echoes, 3);
}

#[test]
fn identity_bytes_name_the_device() {
    assert_eq!(Identify::device_type(true, Some(0x41)), DeviceType::Keyboard(KeyboardType::Mf2TranslatedKeyboard));
    assert_eq!(Identify::device_type(true, Some(0xC1)), DeviceType::Keyboard(KeyboardType::Mf2TranslatedKeyboard));
    assert_eq!(Identify::device_type(true, Some(0x83)), DeviceType::Keyboard(KeyboardType::Mf2Keyboard));
    assert_eq!(Identify::device_type(true, Some(0x00)), DeviceType::Keyboard(KeyboardType::Unknown));
    assert_eq!(Identify::device_type(false, Some(0x00)), DeviceType::Mouse(MouseType::Mouse));
    assert_eq!(Identify::device_type(false, Some(0x03)), DeviceType::Mouse(MouseType::MouseWithScrollWheel));
    assert_eq!(Identify::device_type(false, Some(0x04)), DeviceType::Mouse(MouseType::FiveButtonMouse));
    assert_eq!(Identify::device_type(false, Some(0x83)), DeviceType::Unknown);
    assert_eq!(Identify::device_type(false, None), DeviceType::Keyboard(KeyboardType::TranslatedAtKeyboard));
    assert_eq!(Identify::device_type(true, None), DeviceType::Keyboard(KeyboardType::TranslatedAtKeyboard));
}

fn identify(responses: &[Option<u8>]) -> Result<DeviceType, Ps2Error> {
    let ports = holder(Some(enabled(PortType::Port1)), None);
    let device = InternalDevice::new(PortType::Port1);
    let Step { ops, mut next } = device.identify(&ports);
    assert_eq!(ops, vec![Op::Flush, Op::Write(0x60, 0xF2)]);
    let mut used = 0;
    loop {
        match next {
            Next::Await(identify) => {
                next = identify.step(responses[used]).next;
                used += 1;
            }
            Next::Done(result) => {
                assert_eq!(used, responses.len());
                return result;
            }
        }
    }
}

#[test]
fn two_byte_identity() {
    assert_eq!(identify(&[Some(ACK), Some(0xAB), Some(0x83)]), Ok(DeviceType::Keyboard(KeyboardType::Mf2Keyboard)));
    assert_eq!(
        identify(&[Some(RESEND), Some(ACK), Some(0xAB), Some(0x41)]),
        Ok(DeviceType::Keyboard(KeyboardType::Mf2TranslatedKeyboard))
    );
    assert_eq!(identify(&[Some(ACK), Some(0xAB), Some(0xAB)]), Ok(DeviceType::Keyboard(KeyboardType::Unknown)));
}

#[test]
fn silence_is_a_translated_at_keyboard() {
    assert_eq!(identify(&[Some(ACK), None]), Ok(DeviceType::Keyboard(KeyboardType::TranslatedAtKeyboard)));
}

#[test]
fn identification_of_mice_and_errors() {
    assert_eq!(identify(&[Some(ACK), Some(0x03)]), Ok(DeviceType::Mouse(MouseType::MouseWithScrollWheel)));
    assert_eq!(identify(&[Some(ACK), Some(0x7F)]), Ok(DeviceType::Unknown));
    assert_eq!(identify(&[None]), Err(Ps2Error::ExpectedResponse));
    assert_eq!(identify(&[Some(0x10)]), Err(Ps2Error::UnexpectedResponse(0x10)));
}

#[test]
fn disabled_port_refuses_commands() {
    let device = InternalDevice::new(PortType::Port1);
    let ports = holder(Some(DevicePort::new(PortType::Port1)), None);
    assert!(!device.is_enabled(&ports));
    let step = device.command_device(&ports, Command::Reset);
    assert!(step.ops.is_empty());
    assert_eq!(step.next, Next::Done(Err(Ps2Error::DeviceDisabled)));
    let step = device.identify(&ports);
    assert!(step.ops.is_empty());
    assert_eq!(step.next, Next::Done(Err(Ps2Error::DeviceDisabled)));
    let step = Keyboard::new(PortType::Port1).set_scanset(&ports, Scanset::Two);
    assert!(step.ops.is_empty());
    assert_eq!(step.next, Next::Done(Err(Ps2Error::DeviceDisabled)));
    let step = Keyboard::new(PortType::Port1).get_scanset(&ports);
    assert!(step.ops.is_empty());
    assert_eq!(step.next, Next::Done(Err(Ps2Error::DeviceDisabled)));
}

#[test]
fn handle_without_port_is_unavailable() {
    let device = InternalDevice::new(PortType::Port1);
    // The other port being there and enabled does not help.
    let ports = holder(None, Some(enabled(PortType::Port2)));
    assert!(!device.is_enabled(&ports));
    let step = device.command_device(&ports, Command::Reset);
    assert!(step.ops.is_empty());
    assert_eq!(step.next, Next::Done(Err(Ps2Error::DeviceUnavailable)));
    let step = device.identify(&ports);
    assert!(step.ops.is_empty());
    assert_eq!(step.next, Next::Done(Err(Ps2Error::DeviceUnavailable)));
    let step = Keyboard::new(PortType::Port1).set_leds(&ports, LedFlags::from_bits_truncate(0));
    assert!(step.ops.is_empty());
    assert_eq!(step.next, Next::Done(Err(Ps2Error::DeviceUnavailable)));
    let step = Mouse::new(PortType::Port1)
        .command_mouse(&ports, ps2_input::ps2::io::command::device::mouse::Command::SetStreamMode);
    assert!(step.ops.is_empty());
    assert_eq!(step.next, Next::Done(Err(Ps2Error::DeviceUnavailable)));
    let step = Mouse::new(PortType::Port1)
        .command_mouse_data(&ports, ps2_input::ps2::io::command::device::mouse::DataCommand::SetSampleRate, 40);
    assert!(step.ops.is_empty());
    assert_eq!(step.next, Next::Done(Err(Ps2Error::DeviceUnavailable)));
}

#[test]
fn enabled_port_takes_commands() {
    let device = InternalDevice::new(PortType::Port1);
    let ports = holder(Some(enabled(PortType::Port1)), None);
    assert!(device.is_enabled(&ports));
    assert_eq!(device.command_device(&ports, Command::Reset).ops, vec![Op::Flush, Op::Write(0x60, 0xFF)]);
}

#[test]
fn init_keeps_the_identity_on_failure() {
    let mut device = InternalDevice::new(PortType::Port2);
    assert_eq!(device.identity(), DeviceType::Unknown);
    assert!(device.as_keyboard().is_none() && device.as_mouse().is_none());
    device.init(Ok(DeviceType::Mouse(MouseType::Mouse)));
    assert!(device.is_mouse() && !device.is_keyboard());
    assert_eq!(device.as_mouse(), Some(Mouse::new(PortType::Port2)));
    assert_eq!(device.as_keyboard(), None);
    device.init(Err(Ps2Error::ExpectedResponse));
    assert_eq!(device.identity(), DeviceType::Mouse(MouseType::Mouse));
    device.init(Ok(DeviceType::Keyboard(KeyboardType::Mf2Keyboard)));
    assert_eq!(device.as_keyboard(), Some(Keyboard::new(PortType::Port2)));
    assert_eq!(device.port_type(), PortType::Port2);
}

#[test]
fn handles_know_what_they_are() {
    let keyboard = Keyboard::new(PortType::Port1);
    let mouse = Mouse::new(PortType::Port2);
    assert!(keyboard.is_keyboard() && !keyboard.is_mouse());
    assert!(mouse.is_mouse() && !mouse.is_keyboard());
    let mut ports = holder(Some(enabled(PortType::Port1)), Some(DevicePort::new(PortType::Port2)));
    assert_eq!(keyboard.port(&ports), &Some(enabled(PortType::Port1)));
    let mut mouse = mouse;
    mouse.set_port_dirty(&mut ports, false);
    assert_eq!(ports.port(PortType::Port2).unwrap().is_dirty(), false);
    assert_eq!(ports.port(PortType::Port1).unwrap().is_dirty(), true);
}

fn read_scancode(bytes: &[u8]) -> Result<Option<Scancode>, Ps2Error> {
    let ports = holder(Some(DevicePort::new(PortType::Port1)), None);
    let Step { ops, mut next } = Keyboard::new(PortType::Port1).read_scancode(&ports, 0x01);
    assert!(ops.is_empty());
    let mut responses = bytes.iter();
    loop {
        match next {
            Next::Await(read) => {
                let step = read.step(responses.next().copied());
                assert!(step.ops.is_empty());
                next = step.next;
            }
            Next::Done(result) => return result,
        }
    }
}

#[test]
fn plain_frame() {
    assert_eq!(read_scancode(&[0x1C]), Ok(Some(Scancode { code: 0x1C, extended: false, make: true })));
}

#[test]
fn break_frame() {
    assert_eq!(read_scancode(&[0xF0, 0x1C]), Ok(Some(Scancode { code: 0x1C, extended: false, make: false })));
}

#[test]
fn prefixes_accumulate_in_any_order() {
    let extended_break = Ok(Some(Scancode::new(0x11, true, false)));
    assert_eq!(read_scancode(&[0xE0, 0xF0, 0x11]), extended_break);
    assert_eq!(read_scancode(&[0xF0, 0xE0, 0x11]), extended_break);
    assert_eq!(read_scancode(&[0xE1, 0xE0, 0xF0, 0xF0, 0x11]), extended_break);
    assert_eq!(read_scancode(&[0xE1, 0x14]), Ok(Some(Scancode::new(0x14, true, true))));
}

#[test]
fn same_frame_gives_the_same_scancode() {
    let frame = [0xE0, 0xF0, 0x6C];
    let first = read_scancode(&frame);
    read_scancode(&[0x12]).unwrap();
    read_scancode(&[0xF0, 0x1C]).unwrap();
    assert_eq!(read_scancode(&frame), first);
    let resumed = ReadScancode { extended: false, make: true }.step(Some(0xE0));
    assert_eq!(resumed.next, Next::Await(ReadScancode { extended: true, make: true }));
}

#[test]
fn zero_byte_is_no_event_and_silence_an_error() {
    assert_eq!(read_scancode(&[0x00]), Ok(None));
    assert_eq!(read_scancode(&[0xE0, 0x00]), Ok(None));
    assert_eq!(read_scancode(&[]), Err(Ps2Error::ExpectedResponse));
    assert_eq!(read_scancode(&[0xE0, 0xF0]), Err(Ps2Error::ExpectedResponse));
}

#[test]
fn nothing_is_read_unless_the_keyboard_has_a_byte() {
    let keyboard = Keyboard::new(PortType::Port1);
    let ports = holder(Some(DevicePort::new(PortType::Port1)), None);
    assert_eq!(keyboard.read_scancode(&ports, 0x00).next, Next::Done(Ok(None)));
    assert_eq!(keyboard.read_scancode(&ports, 0x21).next, Next::Done(Ok(None)));
    assert_eq!(
        keyboard.read_scancode(&holder(None, None), 0x01).next,
        Next::Done(Err(Ps2Error::DeviceUnavailable))
    );
}

#[test]
fn scanset_is_set_and_asked_for() {
    let keyboard = Keyboard::new(PortType::Port1);
    let ports = holder(Some(enabled(PortType::Port1)), None);
    let Step { ops, next } = keyboard.set_scanset(&ports, Scanset::Two);
    assert_eq!(ops, vec![Op::Flush, Op::Write(0x60, 0xF0)]);
    let Next::Await(command) = next else { panic!() };
    assert_eq!(command.step(Some(ACK)).ops, vec![Op::Write(0x60, 0x02)]);

    let Next::Await(asking) = keyboard.get_scanset(&ports).next else { panic!() };
    let step = asking.step(Some(ACK));
    assert_eq!(step.ops, vec![Op::Write(0x60, 0x00)]);
    let Next::Await(asking) = step.next else { panic!() };
    let Next::Await(answer) = asking.step(Some(ACK)).next else { panic!() };
    assert_eq!(answer.step(Some(1)).next, Next::Done(Ok(Scanset::One)));
    assert_eq!(answer.step(Some(2)).next, Next::Done(Ok(Scanset::Two)));
    assert_eq!(answer.step(Some(3)).next, Next::Done(Ok(Scanset::Three)));
    assert_eq!(answer.step(Some(4)).next, Next::Done(Err(Ps2Error::UnexpectedResponse(4))));
    assert_eq!(answer.step(None).next, Next::Done(Err(Ps2Error::ExpectedResponse)));
}

#[test]
fn leds_go_out_as_data() {
    let keyboard = Keyboard::new(PortType::Port2);
    let ports = holder(None, Some(enabled(PortType::Port2)));
    let leds = LedFlags::from_bits_truncate(0xFF);
    assert_eq!(leds.bits(), 0x07);
    assert!(leds.contains(LedFlags::CAPS_LOCK | LedFlags::NUMBER_LOCK | LedFlags::SCROLL_LOCK));
    let Step { ops, next } = keyboard.set_leds(&ports, LedFlags::from_bits_truncate(LedFlags::CAPS_LOCK));
    assert_eq!(ops, vec![Op::Flush, Op::Write(0x64, 0xD4), Op::Flush, Op::Write(0x60, 0xED)]);
    let Next::Await(command) = next else { panic!() };
    assert_eq!(command.step(Some(ACK)).ops, vec![Op::Write(0x60, 0x04)]);
}

#[test]
fn ports_are_named_in_messages() {
    assert_eq!(PortType::Port1.name(), "port 1");
    assert_eq!(PortType::Port2.name(), "port 2");
}

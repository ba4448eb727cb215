use ps2_input::keyboard::keymap::codes;
use ps2_input::keyboard::{KeyEventType, ModifierFlags, Ps2Keyboard};
use ps2_input::ps2::device::keyboard::{Keyboard, Scancode};
use ps2_input::ps2::device::{DevicePort, PortType};
use ps2_input::ps2::io::{Next, Op, ACK};
use ps2_input::ps2::{PortHolder, Ps2Error};

fn feed(keyboard: &mut Ps2Keyboard, code: u8, extended: bool, make: bool) -> Option<ps2_input::keyboard::KeyEvent> {
    keyboard.read_event(Ok(Some(Scancode::new(code, extended, make)))).unwrap()
}

#[test]
fn from_modifiers_sets_each_flag() {
    assert_eq!(ModifierFlags::from_modifiers(false, false, false).bits(), 0);
    assert_eq!(ModifierFlags::from_modifiers(true, false, false).bits(), ModifierFlags::CTRL);
    assert_eq!(ModifierFlags::from_modifiers(false, true, false).bits(), ModifierFlags::ALT);
    assert_eq!(ModifierFlags::from_modifiers(false, false, true).bits(), ModifierFlags::SHIFT);
    let all = ModifierFlags::from_modifiers(true, true, true);
    assert_eq!(all.bits(), ModifierFlags::CTRL | ModifierFlags::ALT | ModifierFlags::SHIFT);
    assert_eq!(all.bits(), 7);
    assert!(all.contains(ModifierFlags::ALT));
    assert!(!ModifierFlags::from_modifiers(true, false, true).contains(ModifierFlags::ALT));
    assert_eq!(ModifierFlags::empty(), ModifierFlags::from_modifiers(false, false, false));
}

#[test]
fn modifier_set_and_clear() {
    let mut flags = ModifierFlags::empty();
    flags.set(ModifierFlags::SHIFT, true);
    assert_eq!(flags.bits(), 4);
    flags.set(ModifierFlags::CTRL, true);
    assert_eq!(flags.bits(), 5);
    flags.set(ModifierFlags::SHIFT, false);
    assert_eq!(flags.bits(), 1);
}

#[test]
fn new_keyboard_holds_no_key() {
    let keyboard = Ps2Keyboard::new();
    for keycode in 0u8..=255 {
        assert!(!keyboard.pressed(keycode));
    }
}

#[test]
fn plain_make() {
    let mut keyboard = Ps2Keyboard::new();
    let event = feed(&mut keyboard, 0x1C, false, true).unwrap();
    assert_eq!(event.keycode, codes::A);
    assert_eq!(event.event_type, KeyEventType::Make);
    assert_eq!(event.char, Some('a'));
    assert_eq!(event.modifiers, ModifierFlags::empty());
    assert!(keyboard.pressed(codes::A));
}

#[test]
fn shift_then_letter() {
    let mut keyboard = Ps2Keyboard::new();
    let shift = feed(&mut keyboard, 0x12, false, true).unwrap();
    assert_eq!(shift.keycode, codes::LEFT_SHIFT);
    assert_eq!(shift.event_type, KeyEventType::Make);
    assert_eq!(shift.char, None);
    assert_eq!(shift.modifiers.bits(), 0);
    assert!(keyboard.pressed(codes::LEFT_SHIFT));
    let event = feed(&mut keyboard, 0x1C, false, true).unwrap();
    assert_eq!(event.event_type, KeyEventType::Make);
    assert_eq!(event.char, Some('A'));
    assert_eq!(event.modifiers.bits(), ModifierFlags::SHIFT);
}

#[test]
fn break_of_held_key() {
    let mut keyboard = Ps2Keyboard::new();
    feed(&mut keyboard, 0x1C, false, true);
    let event = feed(&mut keyboard, 0x1C, false, false).unwrap();
    assert_eq!(event.keycode, codes::A);
    assert_eq!(event.event_type, KeyEventType::Break);
    assert_eq!(event.char, Some('a'));
    assert!(!keyboard.pressed(codes::A));
}

#[test]
fn make_repeat_break() {
    let mut keyboard = Ps2Keyboard::new();
    assert_eq!(feed(&mut keyboard, 0x15, false, true).unwrap().event_type, KeyEventType::Make);
    assert_eq!(feed(&mut keyboard, 0x15, false, true).unwrap().event_type, KeyEventType::Repeat);
    assert_eq!(feed(&mut keyboard, 0x15, false, true).unwrap().event_type, KeyEventType::Repeat);
    assert!(keyboard.pressed(codes::Q));
    assert_eq!(feed(&mut keyboard, 0x15, false, false).unwrap().event_type, KeyEventType::Break);
    assert!(!keyboard.pressed(codes::Q));
    assert_eq!(feed(&mut keyboard, 0x15, false, true).unwrap().event_type, KeyEventType::Make);
}

#[test]
fn right_hand_modifiers_count_too() {
    let mut keyboard = Ps2Keyboard::new();
    feed(&mut keyboard, 0x14, true, true);
    feed(&mut keyboard, 0x11, true, true);
    feed(&mut keyboard, 0x59, false, true);
    assert!(keyboard.pressed(codes::RIGHT_CONTROL));
    assert!(keyboard.pressed(codes::RIGHT_ALT));
    assert!(keyboard.pressed(codes::RIGHT_SHIFT));
    let event = feed(&mut keyboard, 0x16, false, true).unwrap();
    assert_eq!(event.keycode, codes::KEY_1);
    assert_eq!(event.char, Some('!'));
    assert_eq!(event.modifiers.bits(), 7);
    feed(&mut keyboard, 0x59, false, false);
    let event = feed(&mut keyboard, 0x16, false, true).unwrap();
    assert_eq!(event.event_type, KeyEventType::Repeat);
    assert_eq!(event.char, Some('1'));
    assert_eq!(event.modifiers.bits(), ModifierFlags::CTRL | ModifierFlags::ALT);
}

#[test]
fn create_event_leaves_the_table_alone() {
    let keyboard = Ps2Keyboard::new();
    let event = keyboard.create_event(&Scancode::new(0x15, false, true)).unwrap();
    assert_eq!(event.keycode, codes::Q);
    assert_eq!(event.char, Some('q'));
    assert_eq!(event.event_type, KeyEventType::Make);
    assert!(!keyboard.pressed(codes::Q));
}

#[test]
fn unknown_scancode_gives_no_event_and_changes_nothing() {
    let mut keyboard = Ps2Keyboard::new();
    feed(&mut keyboard, 0x1C, false, true);
    assert_eq!(feed(&mut keyboard, 0x02, false, true), None);
    assert_eq!(feed(&mut keyboard, 0x1C, true, false), None);
    for keycode in 0u8..=255 {
        assert_eq!(keyboard.pressed(keycode), keycode == codes::A);
    }
}

#[test]
fn empty_poll_and_error_are_handed_on() {
    let mut keyboard = Ps2Keyboard::new();
    assert_eq!(keyboard.read_event(Ok(None)), Ok(None));
    assert_eq!(keyboard.read_event(Err(Ps2Error::DeviceUnavailable)), Err(Ps2Error::DeviceUnavailable));
    assert_eq!(keyboard.read_event(Err(Ps2Error::ExpectedResponse)), Err(Ps2Error::ExpectedResponse));
    assert!(!keyboard.pressed(codes::A));
}

#[test]
fn found_keyboard_is_set_to_scanset_two() {
    let mut port = DevicePort::new(PortType::Port1);
    port.enable();
    let mut ports = PortHolder::new();
    ports.set((Some(port), None));
    let step = Ps2Keyboard::on_keyboard_change(&Keyboard::new(PortType::Port1), &ports);
    assert_eq!(step.ops, vec![Op::Flush, Op::Write(0x60, 0xF0)]);
    let Next::Await(command) = step.next else { panic!() };
    let step = command.step(Some(ACK));
    assert_eq!(step.ops, vec![Op::Write(0x60, 0x02)]);
    let Next::Await(data) = step.next else { panic!() };
    assert_eq!(data.step(Some(ACK)).next, Next::Done(Ok(())));
}

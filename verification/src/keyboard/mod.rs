//! Keyboard driver: key events built from decoded scancodes.
//!
//! The driver owns one piece of history, the table of keys that are held
//! down. A decoded scancode is looked up in the keymap, classified against
//! that table as make, break or repeat, and only then recorded in it.

use vstd::prelude::*;
use vstd::std_specs::convert::TryFromSpecImpl;
use crate::ps2::{PortHolder, Ps2Error};
use crate::ps2::device::{guarded_data_next, guarded_ops, CommandRawData, Device};
use crate::ps2::device::keyboard::{Keyboard, Scancode, Scanset};
use crate::ps2::io::Step;
use crate::ps2::io::command::device::keyboard::DataCommand;

pub mod keymap;

verus! {

/// An opaque identifier of a physical key, independent of scanset and layout.
pub type Keycode = u8;

/// The modifiers that were held when a key event occurred.
#[derive(Copy, Clone, Debug, PartialEq, Eq, Structural)]
pub struct ModifierFlags {
    bits: u8,
}

impl ModifierFlags {
    /// Set while a CTRL key is held.
    pub const CTRL: u8 = 0x01;

    /// Set while an ALT key is held.
    pub const ALT: u8 = 0x02;

    /// Set while a SHIFT key is held.
    pub const SHIFT: u8 = 0x04;

    /// The flags as a bit pattern.
    pub closed spec fn view(self) -> u8 {
        self.bits
    }

    /// The bit pattern that stands for the three modifiers.
    pub open spec fn pattern(ctrl: bool, alt: bool, shift: bool) -> u8 {
        ((if ctrl { 0x01int } else { 0 }) + (if alt { 0x02int } else { 0 }) + (if shift { 0x04int } else { 0 })) as u8
    }

    /// No modifier.
    pub fn empty() -> (flags: Self)
        ensures
            flags@ == 0,
    {
        ModifierFlags { bits: 0 }
    }

    /// The flags as a bit pattern.
    pub fn bits(&self) -> (bits: u8)
        ensures
            bits == self@,
    {
        self.bits
    }

    /// Whether every bit of `mask` is set.
    pub fn contains(&self, mask: u8) -> (found: bool)
        ensures
            found == (self@ & mask == mask),
    {
        self.bits & mask == mask
    }

    /// Sets or clears the bits of `mask`.
    pub fn set(&mut self, mask: u8, value: bool)
        ensures
            final(self)@ == (if value { old(self)@ | mask } else { old(self)@ & !mask }),
    {
        if value {
            self.bits = self.bits | mask;
        } else {
            self.bits = self.bits & !mask;
        }
    }

    /// The flags for the given modifiers.
    pub fn from_modifiers(ctrl: bool, alt: bool, shift: bool) -> (flags: Self)
        ensures
            flags@ == Self::pattern(ctrl, alt, shift),
    {
        let mut flags = ModifierFlags::empty();
        flags.set(ModifierFlags::CTRL, ctrl);
        flags.set(ModifierFlags::ALT, alt);
        flags.set(ModifierFlags::SHIFT, shift);
        proof {
            lemma_pattern_bits();
        }
        flags
    }
}

/// The eight patterns, bit by bit.
proof fn lemma_pattern_bits()
    ensures
        0u8 & !0x01u8 == 0,
        0u8 | 0x01u8 == 1,
        0u8 & !0x02u8 == 0,
        0u8 | 0x02u8 == 2,
        1u8 & !0x02u8 == 1,
        1u8 | 0x02u8 == 3,
        0u8 & !0x04u8 == 0,
        0u8 | 0x04u8 == 4,
        1u8 & !0x04u8 == 1,
        1u8 | 0x04u8 == 5,
        2u8 & !0x04u8 == 2,
        2u8 | 0x04u8 == 6,
        3u8 & !0x04u8 == 3,
        3u8 | 0x04u8 == 7,
{
    assert(0u8 & !0x01u8 == 0 && 0u8 | 0x01u8 == 1 && 0u8 & !0x02u8 == 0 && 0u8 | 0x02u8 == 2
        && 1u8 & !0x02u8 == 1 && 1u8 | 0x02u8 == 3 && 0u8 & !0x04u8 == 0 && 0u8 | 0x04u8 == 4
        && 1u8 & !0x04u8 == 1 && 1u8 | 0x04u8 == 5 && 2u8 & !0x04u8 == 2 && 2u8 | 0x04u8 == 6
        && 3u8 & !0x04u8 == 3 && 3u8 | 0x04u8 == 7) by (bit_vector);
}

/// A modifier is contained in a pattern exactly if it went into it.
pub proof fn lemma_pattern_contains(ctrl: bool, alt: bool, shift: bool)
    ensures
        (ModifierFlags::pattern(ctrl, alt, shift) & ModifierFlags::CTRL == ModifierFlags::CTRL) == ctrl,
        (ModifierFlags::pattern(ctrl, alt, shift) & ModifierFlags::ALT == ModifierFlags::ALT) == alt,
        (ModifierFlags::pattern(ctrl, alt, shift) & ModifierFlags::SHIFT == ModifierFlags::SHIFT) == shift,
{
    assert(forall|p: u8| p < 8 ==> ((p & 0x01 == 0x01) == (p % 2 == 1)) && ((p & 0x02 == 0x02) == (p / 2 % 2 == 1))
        && ((p & 0x04 == 0x04) == (p / 4 == 1))) by (bit_vector);
}

/// A key press, release or repeat, as the kernel's input loop consumes it.
#[derive(Copy, Clone, Debug, PartialEq, Eq, Structural)]
pub struct KeyEvent {
    pub keycode: Keycode,
    /// The character the key prints under the modifiers held, if it prints.
    pub char: Option<char>,
    pub event_type: KeyEventType,
    pub modifiers: ModifierFlags,
}

/// The kind of transition a key event reports.
#[derive(Copy, Clone, Debug, PartialEq, Eq, Structural)]
pub enum KeyEventType {
    /// The key went down.
    Make,
    /// The key was released.
    Break,
    /// The key is held down and fired again.
    Repeat,
}

/// A scancode that neither keymap table holds, with its raw byte.
#[derive(Copy, Clone, Debug, PartialEq, Eq, Structural)]
pub enum UnknownScancode {
    UnknownPlainScancode(u8),
    UnknownExtendedScancode(u8),
}

/// The keycode of a scancode: looked up in the plain or in the extended
/// table, as the scancode's prefix says. A miss names the table and the byte.
pub open spec fn keycode_of(scancode: Scancode) -> Result<Keycode, UnknownScancode> {
    if scancode.extended {
        match keymap::extended_lookup(scancode.code) {
            Some(keycode) => Ok(keycode),
            None => Err(UnknownScancode::UnknownExtendedScancode(scancode.code)),
        }
    } else {
        match keymap::plain_lookup(scancode.code) {
            Some(keycode) => Ok(keycode),
            None => Err(UnknownScancode::UnknownPlainScancode(scancode.code)),
        }
    }
}

impl TryFrom<Scancode> for Keycode {
    type Error = UnknownScancode;

    /// Gets the keycode for a scancode.
    fn try_from(scancode: Scancode) -> (keycode: Result<Keycode, UnknownScancode>) {
        let converted = if !scancode.extended {
            keymap::get_code_ps2_set_2(scancode.code)
        } else {
            keymap::get_extended_code_ps2_set_2(scancode.code)
        };
        match converted {
            Some(keycode) => Ok(keycode),
            None => if scancode.extended {
                Err(UnknownScancode::UnknownExtendedScancode(scancode.code))
            } else {
                Err(UnknownScancode::UnknownPlainScancode(scancode.code))
            },
        }
    }
}

impl TryFromSpecImpl<Scancode> for Keycode {
    open spec fn obeys_try_from_spec() -> bool {
        true
    }

    open spec fn try_from_spec(scancode: Scancode) -> Result<Keycode, UnknownScancode> {
        keycode_of(scancode)
    }
}

/// The state of a PS/2 keyboard as the driver sees it: which keys are held.
pub struct Ps2Keyboard {
    key_states: [bool; 0xFF],
}

impl Ps2Keyboard {
    /// The keys that are held down.
    pub closed spec fn view(&self) -> Set<Keycode> {
        Set::new(|keycode: Keycode| keycode < 0xFF && self.key_states@[keycode as int])
    }

    /// Whether one key of a left/right pair is held.
    pub open spec fn either_held(&self, left: Keycode, right: Keycode) -> bool {
        self@.contains(left) || self@.contains(right)
    }

    /// The modifiers in force, taken from the keys held now.
    pub open spec fn modifiers_held(&self) -> u8 {
        ModifierFlags::pattern(
            self.either_held(keymap::codes::LEFT_CONTROL, keymap::codes::RIGHT_CONTROL),
            self.either_held(keymap::codes::LEFT_ALT, keymap::codes::RIGHT_ALT),
            self.either_held(keymap::codes::LEFT_SHIFT, keymap::codes::RIGHT_SHIFT),
        )
    }

    /// How a transition of a key is classified, given whether the key was
    /// already held.
    pub open spec fn classify(make: bool, held: bool) -> KeyEventType {
        if !make {
            KeyEventType::Break
        } else if held {
            KeyEventType::Repeat
        } else {
            KeyEventType::Make
        }
    }

    /// Whether `event` is what `scancode` gives in this state: nothing for a
    /// scancode without keycode, else the keycode with its character under
    /// the shift state, its classification and the modifiers in force.
    pub open spec fn describes(&self, scancode: Scancode, event: Option<KeyEvent>) -> bool {
        match keycode_of(scancode) {
            Ok(keycode) => {
                &&& event matches Some(e)
                &&& e.keycode == keycode
                &&& e.char == keymap::char_lookup(
                    keycode,
                    self.either_held(keymap::codes::LEFT_SHIFT, keymap::codes::RIGHT_SHIFT),
                )
                &&& e.event_type == Self::classify(scancode.make, self@.contains(keycode))
                &&& e.modifiers@ == self.modifiers_held()
            },
            Err(_) => event is None,
        }
    }

    /// The keys held after `scancode` was handled: a scancode with a keycode
    /// puts its key in or takes it out, any other changes nothing.
    pub open spec fn keys_after(&self, scancode: Scancode) -> Set<Keycode> {
        match keycode_of(scancode) {
            Ok(keycode) => if scancode.make {
                self@.insert(keycode)
            } else {
                self@.remove(keycode)
            },
            Err(_) => self@,
        }
    }

    /// A keyboard with no key held.
    pub fn new() -> (keyboard: Self)
        ensures
            keyboard@ == Set::<Keycode>::empty(),
    {
        let keyboard = Ps2Keyboard { key_states: [false; 0xFF] };
        assert(keyboard@ =~= Set::<Keycode>::empty());
        keyboard
    }

    /// What is done when a keyboard is found: it is told to speak scanset 2,
    /// the one that the keymap reads.
    pub fn on_keyboard_change(keyboard: &Keyboard, ports: &PortHolder) -> (step: Step<
        CommandRawData,
        Result<(), Ps2Error>,
    >)
        ensures
            step.is_step(
                guarded_ops(ports.slot(keyboard.on_port()), DataCommand::SetGetScancode.opcode()),
                guarded_data_next(
                    ports.slot(keyboard.on_port()),
                    DataCommand::SetGetScancode.opcode(),
                    Scanset::Two.number(),
                ),
            ),
    {
        keyboard.set_scanset(ports, Scanset::Two)
    }

    /// Returns `true` if the key is held down.
    pub fn pressed(&self, keycode: Keycode) -> (held: bool)
        ensures
            held == self@.contains(keycode),
    {
        if keycode < 0xFF {
            self.key_states[keycode as usize]
        } else {
            false
        }
    }

    /// Creates the key event for a scancode from the keys held now. The
    /// table of held keys is left as it is.
    pub fn create_event(&self, scancode: &Scancode) -> (event: Option<KeyEvent>)
        ensures
            self.describes(*scancode, event),
    {
        let ctrl = self.pressed(keymap::codes::LEFT_CONTROL) || self.pressed(keymap::codes::RIGHT_CONTROL);
        let alt = self.pressed(keymap::codes::LEFT_ALT) || self.pressed(keymap::codes::RIGHT_ALT);
        let shift = self.pressed(keymap::codes::LEFT_SHIFT) || self.pressed(keymap::codes::RIGHT_SHIFT);
        let modifiers = ModifierFlags::from_modifiers(ctrl, alt, shift);

        if let Ok(keycode) = Keycode::try_from(*scancode) {
            let char = match keymap::get_us_qwerty_char(keycode) {
                Some(chars) => Some(if shift { chars.1 } else { chars.0 }),
                None => None,
            };
            let event_type = if !scancode.make {
                KeyEventType::Break
            } else if self.pressed(keycode) {
                KeyEventType::Repeat
            } else {
                KeyEventType::Make
            };
            return Some(KeyEvent { keycode, char, event_type, modifiers });
        }
        None
    }

    /// Turns what a poll of the device returned into a key event, and
    /// records the transition. An error of the poll is handed on, and so is
    /// an empty poll; neither touches the table of held keys, nor does a
    /// scancode without keycode.
    pub fn read_event(&mut self, polled: Result<Option<Scancode>, Ps2Error>) -> (event: Result<Option<KeyEvent>, Ps2Error>)
        ensures
            match polled {
                Ok(Some(scancode)) => {
                    &&& event matches Ok(e)
                    &&& old(self).describes(scancode, e)
                    &&& final(self)@ == old(self).keys_after(scancode)
                },
                Ok(None) => event == Ok::<Option<KeyEvent>, Ps2Error>(None) && final(self)@ == old(self)@,
                Err(error) => event == Err::<Option<KeyEvent>, Ps2Error>(error) && final(self)@ == old(self)@,
            },
    {
        match polled {
            Ok(Some(scancode)) => {
                let event = self.create_event(&scancode);
                if let Some(e) = event {
                    proof {
                        keymap::lemma_keycodes_bounded(scancode.code);
                    }
                    self.key_states[e.keycode as usize] = scancode.make;
                    assert(self@ =~= old(self).keys_after(scancode));
                }
                Ok(event)
            },
            Ok(None) => Ok(None),
            Err(error) => Err(error),
        }
    }
}

/// The state law of a key: pressed while not held it gives `Make` and is held
/// from then on; pressed again while held it gives `Repeat` and stays held;
/// released it gives `Break` and is held no more.
pub proof fn lemma_make_repeat_break(
    idle: Ps2Keyboard,
    pressed: Ps2Keyboard,
    repeated: Ps2Keyboard,
    released: Ps2Keyboard,
    press: Scancode,
    release: Scancode,
    key: Keycode,
    first: Option<KeyEvent>,
    second: Option<KeyEvent>,
    third: Option<KeyEvent>,
)
    requires
        press.make,
        !release.make,
        keycode_of(press) == Ok::<Keycode, UnknownScancode>(key),
        keycode_of(release) == Ok::<Keycode, UnknownScancode>(key),
        !idle@.contains(key),
        idle.describes(press, first),
        pressed@ == idle.keys_after(press),
        pressed.describes(press, second),
        repeated@ == pressed.keys_after(press),
        repeated.describes(release, third),
        released@ == repeated.keys_after(release),
    ensures
        first matches Some(e) && e.keycode == key && e.event_type == KeyEventType::Make,
        pressed@.contains(key),
        second matches Some(e) && e.keycode == key && e.event_type == KeyEventType::Repeat,
        repeated@.contains(key),
        third matches Some(e) && e.keycode == key && e.event_type == KeyEventType::Break,
        !released@.contains(key),
{
}

/// The modifiers of an event come from the keys held before it: the event
/// that presses a shift key does not carry SHIFT yet, the next event does.
pub proof fn lemma_shift_applies_to_next_event(
    before: Ps2Keyboard,
    after: Ps2Keyboard,
    shift: Scancode,
    next: Scancode,
    event: Option<KeyEvent>,
)
    requires
        shift.make,
        keycode_of(shift) == Ok::<Keycode, UnknownScancode>(keymap::codes::LEFT_SHIFT)
            || keycode_of(shift) == Ok::<Keycode, UnknownScancode>(keymap::codes::RIGHT_SHIFT),
        after@ == before.keys_after(shift),
        after.describes(next, event),
    ensures
        event matches Some(e) ==> {
            &&& e.modifiers@ & ModifierFlags::SHIFT == ModifierFlags::SHIFT
            &&& e.char == keymap::char_lookup(e.keycode, true)
        },
{
    lemma_pattern_contains(
        after.either_held(keymap::codes::LEFT_CONTROL, keymap::codes::RIGHT_CONTROL),
        after.either_held(keymap::codes::LEFT_ALT, keymap::codes::RIGHT_ALT),
        true,
    );
}

} // verus!

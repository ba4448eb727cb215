//! Translation tables: scanset-2 bytes to keycodes, and keycodes to the
//! characters of the US QWERTY layout.

use vstd::prelude::*;
use crate::keyboard::Keycode;

pub mod codes;

verus! {

/// The keycode that a scanset-2 byte without prefix stands for.
pub open spec fn plain_lookup(byte: u8) -> Option<Keycode> {
    match byte {
        0x01 => Some(codes::F9),
        0x03 => Some(codes::F5),
        0x04 => Some(codes::F3),
        0x05 => Some(codes::F1),
        0x06 => Some(codes::F2),
        0x07 => Some(codes::F12),
        0x09 => Some(codes::F10),
        0x0A => Some(codes::F8),
        0x0B => Some(codes::F6),
        0x0C => Some(codes::F4),
        0x0D => Some(codes::TAB),
        0x0E => Some(codes::BACK_TICK),
        0x11 => Some(codes::LEFT_ALT),
        0x12 => Some(codes::LEFT_SHIFT),
        0x14 => Some(codes::LEFT_CONTROL),
        0x15 => Some(codes::Q),
        0x16 => Some(codes::KEY_1),
        0x1A => Some(codes::Z),
        0x1B => Some(codes::S),
        0x1C => Some(codes::A),
        0x1D => Some(codes::W),
        0x1E => Some(codes::KEY_2),
        0x21 => Some(codes::C),
        0x22 => Some(codes::X),
        0x23 => Some(codes::D),
        0x24 => Some(codes::E),
        0x25 => Some(codes::KEY_4),
        0x26 => Some(codes::KEY_3),
        0x29 => Some(codes::SPACE),
        0x2A => Some(codes::V),
        0x2B => Some(codes::F),
        0x2C => Some(codes::T),
        0x2D => Some(codes::R),
        0x2E => Some(codes::KEY_5),
        0x31 => Some(codes::N),
        0x32 => Some(codes::B),
        0x33 => Some(codes::H),
        0x34 => Some(codes::G),
        0x35 => Some(codes::Y),
        0x36 => Some(codes::KEY_6),
        0x3A => Some(codes::M),
        0x3B => Some(codes::J),
        0x3C => Some(codes::U),
        0x3D => Some(codes::KEY_7),
        0x3E => Some(codes::KEY_8),
        0x41 => Some(codes::COMMA),
        0x42 => Some(codes::K),
        0x43 => Some(codes::I),
        0x44 => Some(codes::O),
        0x45 => Some(codes::KEY_0),
        0x46 => Some(codes::KEY_9),
        0x49 => Some(codes::PERIOD),
        0x4A => Some(codes::FORWARD_SLASH),
        0x4B => Some(codes::L),
        0x4C => Some(codes::SEMI_COLON),
        0x4D => Some(codes::P),
        0x4E => Some(codes::MINUS),
        0x52 => Some(codes::SINGLE_QUOTE),
        0x54 => Some(codes::SQUARE_BRACKET_OPEN),
        0x55 => Some(codes::EQUALS),
        0x58 => Some(codes::CAPS_LOCK),
        0x59 => Some(codes::RIGHT_SHIFT),
        0x5A => Some(codes::ENTER),
        0x5B => Some(codes::SQUARE_BRACKET_CLOSE),
        0x5D => Some(codes::BACK_SLASH),
        0x66 => Some(codes::BACKSPACE),
        0x69 => Some(codes::NUM_PAD_1),
        0x6B => Some(codes::NUM_PAD_4),
        0x6C => Some(codes::NUM_PAD_7),
        0x70 => Some(codes::NUM_PAD_0),
        0x71 => Some(codes::NUM_PAD_DELETE),
        0x72 => Some(codes::NUM_PAD_2),
        0x73 => Some(codes::NUM_PAD_5),
        0x74 => Some(codes::NUM_PAD_6),
        0x75 => Some(codes::NUM_PAD_8),
        0x76 => Some(codes::ESCAPE),
        0x77 => Some(codes::NUM_LOCK),
        0x78 => Some(codes::F11),
        0x79 => Some(codes::NUM_PAD_PLUS),
        0x7A => Some(codes::NUM_PAD_3),
        0x7B => Some(codes::NUM_PAD_MINUS),
        0x7C => Some(codes::NUM_PAD_ASTERISK),
        0x7D => Some(codes::NUM_PAD_9),
        0x7E => Some(codes::SCROLL_LOCK),
        0x83 => Some(codes::F7),
        _ => None,
    }
}

/// The keycode that a scanset-2 byte stands for after the extended prefix.
pub open spec fn extended_lookup(byte: u8) -> Option<Keycode> {
    match byte {
        0x11 => Some(codes::RIGHT_ALT),
        0x14 => Some(codes::RIGHT_CONTROL),
        0x4A => Some(codes::NUM_PAD_FORWARD_SLASH),
        0x5A => Some(codes::NUM_PAD_ENTER),
        0x69 => Some(codes::END),
        0x6B => Some(codes::LEFT_ARROW),
        0x6C => Some(codes::HOME),
        0x70 => Some(codes::INSERT),
        0x71 => Some(codes::DELETE),
        0x72 => Some(codes::DOWN_ARROW),
        0x74 => Some(codes::RIGHT_ARROW),
        0x75 => Some(codes::UP_ARROW),
        0x7A => Some(codes::PAGE_DOWN),
        0x7D => Some(codes::PAGE_UP),
        _ => None,
    }
}

/// The unshifted and the shifted character of a key, for the keys that print.
pub open spec fn us_qwerty_chars(keycode: Keycode) -> Option<(char, char)> {
    match keycode {
        codes::KEY_1 => Some(('1', '!')),
        codes::KEY_2 => Some(('2', '@')),
        codes::KEY_3 => Some(('3', '#')),
        codes::KEY_4 => Some(('4', '$')),
        codes::KEY_5 => Some(('5', '%')),
        codes::KEY_6 => Some(('6', '^')),
        codes::KEY_7 => Some(('7', '&')),
        codes::KEY_8 => Some(('8', '*')),
        codes::KEY_9 => Some(('9', '(')),
        codes::KEY_0 => Some(('0', ')')),
        codes::MINUS => Some(('-', '_')),
        codes::EQUALS => Some(('=', '+')),
        codes::BACKSPACE => Some(('\x08', '\x08')),
        codes::TAB => Some(('\t', '\t')),
        codes::Q => Some(('q', 'Q')),
        codes::W => Some(('w', 'W')),
        codes::E => Some(('e', 'E')),
        codes::R => Some(('r', 'R')),
        codes::T => Some(('t', 'T')),
        codes::Y => Some(('y', 'Y')),
        codes::U => Some(('u', 'U')),
        codes::I => Some(('i', 'I')),
        codes::O => Some(('o', 'O')),
        codes::P => Some(('p', 'P')),
        codes::SQUARE_BRACKET_OPEN => Some(('[', '{')),
        codes::SQUARE_BRACKET_CLOSE => Some((']', '}')),
        codes::ENTER => Some(('\n', '\n')),
        codes::A => Some(('a', 'A')),
        codes::S => Some(('s', 'S')),
        codes::D => Some(('d', 'D')),
        codes::F => Some(('f', 'F')),
        codes::G => Some(('g', 'G')),
        codes::H => Some(('h', 'H')),
        codes::J => Some(('j', 'J')),
        codes::K => Some(('k', 'K')),
        codes::L => Some(('l', 'L')),
        codes::SEMI_COLON => Some((';', ':')),
        codes::SINGLE_QUOTE => Some(('\'', '\"')),
        codes::BACK_TICK => Some(('`', '~')),
        codes::BACK_SLASH => Some(('\\', '|')),
        codes::Z => Some(('z', 'Z')),
        codes::X => Some(('x', 'X')),
        codes::C => Some(('c', 'C')),
        codes::V => Some(('v', 'V')),
        codes::B => Some(('b', 'B')),
        codes::N => Some(('n', 'N')),
        codes::M => Some(('m', 'M')),
        codes::COMMA => Some((',', '<')),
        codes::PERIOD => Some(('.', '>')),
        codes::FORWARD_SLASH => Some(('/', '?')),
        codes::SPACE => Some((' ', ' ')),
        _ => None,
    }
}

/// The character a key prints, with or without shift held.
pub open spec fn char_lookup(keycode: Keycode, shift: bool) -> Option<char> {
    match us_qwerty_chars(keycode) {
        Some((lower, upper)) => Some(if shift { upper } else { lower }),
        None => None,
    }
}

/// Gets the US QWERTY characters for a keycode: first the unshifted one, then
/// the shifted one. Keys that print nothing give `None`.
pub fn get_us_qwerty_char(keycode: Keycode) -> (chars: Option<(char, char)>)
    ensures
        chars == us_qwerty_chars(keycode),
{
    match keycode {
        codes::KEY_1 => Some(('1', '!')),
        codes::KEY_2 => Some(('2', '@')),
        codes::KEY_3 => Some(('3', '#')),
        codes::KEY_4 => Some(('4', '$')),
        codes::KEY_5 => Some(('5', '%')),
        codes::KEY_6 => Some(('6', '^')),
        codes::KEY_7 => Some(('7', '&')),
        codes::KEY_8 => Some(('8', '*')),
        codes::KEY_9 => Some(('9', '(')),
        codes::KEY_0 => Some(('0', ')')),
        codes::MINUS => Some(('-', '_')),
        codes::EQUALS => Some(('=', '+')),
        codes::BACKSPACE => Some(('\x08', '\x08')),
        codes::TAB => Some(('\t', '\t')),
        codes::Q => Some(('q', 'Q')),
        codes::W => Some(('w', 'W')),
        codes::E => Some(('e', 'E')),
        codes::R => Some(('r', 'R')),
        codes::T => Some(('t', 'T')),
        codes::Y => Some(('y', 'Y')),
        codes::U => Some(('u', 'U')),
        codes::I => Some(('i', 'I')),
        codes::O => Some(('o', 'O')),
        codes::P => Some(('p', 'P')),
        codes::SQUARE_BRACKET_OPEN => Some(('[', '{')),
        codes::SQUARE_BRACKET_CLOSE => Some((']', '}')),
        codes::ENTER => Some(('\n', '\n')),
        codes::A => Some(('a', 'A')),
        codes::S => Some(('s', 'S')),
        codes::D => Some(('d', 'D')),
        codes::F => Some(('f', 'F')),
        codes::G => Some(('g', 'G')),
        codes::H => Some(('h', 'H')),
        codes::J => Some(('j', 'J')),
        codes::K => Some(('k', 'K')),
        codes::L => Some(('l', 'L')),
        codes::SEMI_COLON => Some((';', ':')),
        codes::SINGLE_QUOTE => Some(('\'', '\"')),
        codes::BACK_TICK => Some(('`', '~')),
        codes::BACK_SLASH => Some(('\\', '|')),
        codes::Z => Some(('z', 'Z')),
        codes::X => Some(('x', 'X')),
        codes::C => Some(('c', 'C')),
        codes::V => Some(('v', 'V')),
        codes::B => Some(('b', 'B')),
        codes::N => Some(('n', 'N')),
        codes::M => Some(('m', 'M')),
        codes::COMMA => Some((',', '<')),
        codes::PERIOD => Some(('.', '>')),
        codes::FORWARD_SLASH => Some(('/', '?')),
        codes::SPACE => Some((' ', ' ')),
        _ => None,
    }
}

/// Gets the keycode for a scanset-2 byte that came without prefix.
pub fn get_code_ps2_set_2(scancode: u8) -> (keycode: Option<Keycode>)
    ensures
        keycode == plain_lookup(scancode),
{
    match scancode {
        0x01 => Some(codes::F9),
        0x03 => Some(codes::F5),
        0x04 => Some(codes::F3),
        0x05 => Some(codes::F1),
        0x06 => Some(codes::F2),
        0x07 => Some(codes::F12),
        0x09 => Some(codes::F10),
        0x0A => Some(codes::F8),
        0x0B => Some(codes::F6),
        0x0C => Some(codes::F4),
        0x0D => Some(codes::TAB),
        0x0E => Some(codes::BACK_TICK),
        0x11 => Some(codes::LEFT_ALT),
        0x12 => Some(codes::LEFT_SHIFT),
        0x14 => Some(codes::LEFT_CONTROL),
        0x15 => Some(codes::Q),
        0x16 => Some(codes::KEY_1),
        0x1A => Some(codes::Z),
        0x1B => Some(codes::S),
        0x1C => Some(codes::A),
        0x1D => Some(codes::W),
        0x1E => Some(codes::KEY_2),
        0x21 => Some(codes::C),
        0x22 => Some(codes::X),
        0x23 => Some(codes::D),
        0x24 => Some(codes::E),
        0x25 => Some(codes::KEY_4),
        0x26 => Some(codes::KEY_3),
        0x29 => Some(codes::SPACE),
        0x2A => Some(codes::V),
        0x2B => Some(codes::F),
        0x2C => Some(codes::T),
        0x2D => Some(codes::R),
        0x2E => Some(codes::KEY_5),
        0x31 => Some(codes::N),
        0x32 => Some(codes::B),
        0x33 => Some(codes::H),
        0x34 => Some(codes::G),
        0x35 => Some(codes::Y),
        0x36 => Some(codes::KEY_6),
        0x3A => Some(codes::M),
        0x3B => Some(codes::J),
        0x3C => Some(codes::U),
        0x3D => Some(codes::KEY_7),
        0x3E => Some(codes::KEY_8),
        0x41 => Some(codes::COMMA),
        0x42 => Some(codes::K),
        0x43 => Some(codes::I),
        0x44 => Some(codes::O),
        0x45 => Some(codes::KEY_0),
        0x46 => Some(codes::KEY_9),
        0x49 => Some(codes::PERIOD),
        0x4A => Some(codes::FORWARD_SLASH),
        0x4B => Some(codes::L),
        0x4C => Some(codes::SEMI_COLON),
        0x4D => Some(codes::P),
        0x4E => Some(codes::MINUS),
        0x52 => Some(codes::SINGLE_QUOTE),
        0x54 => Some(codes::SQUARE_BRACKET_OPEN),
        0x55 => Some(codes::EQUALS),
        0x58 => Some(codes::CAPS_LOCK),
        0x59 => Some(codes::RIGHT_SHIFT),
        0x5A => Some(codes::ENTER),
        0x5B => Some(codes::SQUARE_BRACKET_CLOSE),
        0x5D => Some(codes::BACK_SLASH),
        0x66 => Some(codes::BACKSPACE),
        0x69 => Some(codes::NUM_PAD_1),
        0x6B => Some(codes::NUM_PAD_4),
        0x6C => Some(codes::NUM_PAD_7),
        0x70 => Some(codes::NUM_PAD_0),
        0x71 => Some(codes::NUM_PAD_DELETE),
        0x72 => Some(codes::NUM_PAD_2),
        0x73 => Some(codes::NUM_PAD_5),
        0x74 => Some(codes::NUM_PAD_6),
        0x75 => Some(codes::NUM_PAD_8),
        0x76 => Some(codes::ESCAPE),
        0x77 => Some(codes::NUM_LOCK),
        0x78 => Some(codes::F11),
        0x79 => Some(codes::NUM_PAD_PLUS),
        0x7A => Some(codes::NUM_PAD_3),
        0x7B => Some(codes::NUM_PAD_MINUS),
        0x7C => Some(codes::NUM_PAD_ASTERISK),
        0x7D => Some(codes::NUM_PAD_9),
        0x7E => Some(codes::SCROLL_LOCK),
        0x83 => Some(codes::F7),
        _ => None,
    }
}

/// Gets the keycode for a scanset-2 byte that came after the extended prefix.
pub fn get_extended_code_ps2_set_2(extended_code: u8) -> (keycode: Option<Keycode>)
    ensures
        keycode == extended_lookup(extended_code),
{
    match extended_code {
        0x11 => Some(codes::RIGHT_ALT),
        0x14 => Some(codes::RIGHT_CONTROL),
        0x4A => Some(codes::NUM_PAD_FORWARD_SLASH),
        0x5A => Some(codes::NUM_PAD_ENTER),
        0x69 => Some(codes::END),
        0x6B => Some(codes::LEFT_ARROW),
        0x6C => Some(codes::HOME),
        0x70 => Some(codes::INSERT),
        0x71 => Some(codes::DELETE),
        0x72 => Some(codes::DOWN_ARROW),
        0x74 => Some(codes::RIGHT_ARROW),
        0x75 => Some(codes::UP_ARROW),
        0x7A => Some(codes::PAGE_DOWN),
        0x7D => Some(codes::PAGE_UP),
        _ => None,
    }
}

/// Every keycode that a table holds is below the bound.
pub proof fn lemma_keycodes_bounded(byte: u8)
    ensures
        plain_lookup(byte) matches Some(keycode) ==> keycode < codes::KEYCODE_LIMIT,
        extended_lookup(byte) matches Some(keycode) ==> keycode < codes::KEYCODE_LIMIT,
{
}

/// A keycode stands for one scancode only: no two bytes of a table share a
/// keycode, and no keycode is in both tables.
pub proof fn lemma_keycode_names_one_scancode(first: u8, second: u8)
    ensures
        plain_lookup(first) is Some && plain_lookup(first) == plain_lookup(second) ==> first == second,
        extended_lookup(first) is Some && extended_lookup(first) == extended_lookup(second) ==> first
            == second,
        plain_lookup(first) is Some ==> plain_lookup(first) != extended_lookup(second),
{
}

/// The keys that print are the digit row, the letters and the punctuation
/// and editing keys, but for escape.
pub proof fn lemma_printing_keys(keycode: Keycode)
    ensures
        us_qwerty_chars(keycode) is Some <==> codes::KEY_1 <= keycode <= codes::TAB && keycode
            != codes::ESCAPE,
        char_lookup(keycode, false) is Some <==> us_qwerty_chars(keycode) is Some,
        char_lookup(keycode, true) is Some <==> us_qwerty_chars(keycode) is Some,
{
}

/// A letter key prints its lower-case letter, and with shift the upper-case
/// letter that belongs to it.
pub proof fn lemma_letters_shift_to_upper_case(keycode: Keycode)
    requires
        codes::Q <= keycode <= codes::M,
    ensures
        us_qwerty_chars(keycode) matches Some((lower, upper)) && 'a' <= lower <= 'z' && upper as u32 + 32
            == lower as u32,
{
}

} // verus!

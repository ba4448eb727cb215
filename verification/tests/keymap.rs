use ps2_input::keyboard::keymap::codes;
use ps2_input::keyboard::keymap::{get_code_ps2_set_2, get_extended_code_ps2_set_2, get_us_qwerty_char};
use ps2_input::keyboard::{Keycode, UnknownScancode};
use ps2_input::ps2::device::keyboard::Scancode;

#[test]
fn plain_table_maps_defined_bytes() {
    assert_eq!(get_code_ps2_set_2(0x1C), Some(codes::A));
    assert_eq!(get_code_ps2_set_2(0x01), Some(codes::F9));
    assert_eq!(get_code_ps2_set_2(0x12), Some(codes::LEFT_SHIFT));
    assert_eq!(get_code_ps2_set_2(0x59), Some(codes::RIGHT_SHIFT));
    assert_eq!(get_code_ps2_set_2(0x83), Some(codes::F7));
    assert_eq!(get_code_ps2_set_2(0x66), Some(codes::BACKSPACE));
    assert_eq!(get_code_ps2_set_2(0x15), Some(codes::Q));
}

#[test]
fn plain_table_misses_undefined_bytes() {
    assert_eq!(get_code_ps2_set_2(0x00), None);
    assert_eq!(get_code_ps2_set_2(0x02), None);
    assert_eq!(get_code_ps2_set_2(0x84), None);
    assert_eq!(get_code_ps2_set_2(0xFF), None);
}

#[test]
fn plain_table_holds_eighty_five_entries() {
    let defined = (0u8..=255).filter(|b| get_code_ps2_set_2(*b).is_some()).count();
    assert_eq!(defined, 85);
}

#[test]
fn extended_table_maps_defined_bytes() {
    assert_eq!(get_extended_code_ps2_set_2(0x11), Some(codes::RIGHT_ALT));
    assert_eq!(get_extended_code_ps2_set_2(0x14), Some(codes::RIGHT_CONTROL));
    assert_eq!(get_extended_code_ps2_set_2(0x4A), Some(codes::NUM_PAD_FORWARD_SLASH));
    assert_eq!(get_extended_code_ps2_set_2(0x5A), Some(codes::NUM_PAD_ENTER));
    assert_eq!(get_extended_code_ps2_set_2(0x69), Some(codes::END));
    assert_eq!(get_extended_code_ps2_set_2(0x6C), Some(codes::HOME));
    assert_eq!(get_extended_code_ps2_set_2(0x70), Some(codes::INSERT));
    assert_eq!(get_extended_code_ps2_set_2(0x71), Some(codes::DELETE));
    assert_eq!(get_extended_code_ps2_set_2(0x7A), Some(codes::PAGE_DOWN));
    assert_eq!(get_extended_code_ps2_set_2(0x7D), Some(codes::PAGE_UP));
}

#[test]
fn extended_table_holds_the_arrow_keys() {
    assert_eq!(get_extended_code_ps2_set_2(0x75), Some(codes::UP_ARROW));
    assert_eq!(get_extended_code_ps2_set_2(0x6B), Some(codes::LEFT_ARROW));
    assert_eq!(get_extended_code_ps2_set_2(0x72), Some(codes::DOWN_ARROW));
    assert_eq!(get_extended_code_ps2_set_2(0x74), Some(codes::RIGHT_ARROW));
    assert_eq!(codes::UP_ARROW, 0x54);
    assert_eq!(codes::RIGHT_ARROW, 0x57);
    // Without the prefix the same bytes are keys of the numeric pad.
    assert_eq!(get_code_ps2_set_2(0x75), Some(codes::NUM_PAD_8));
    assert_eq!(Keycode::try_from(Scancode::new(0x75, true, true)), Ok(codes::UP_ARROW));
    assert_eq!(Keycode::try_from(Scancode::new(0x75, false, true)), Ok(codes::NUM_PAD_8));
}

#[test]
fn extended_table_holds_fourteen_entries() {
    let defined = (0u8..=255).filter(|b| get_extended_code_ps2_set_2(*b).is_some()).count();
    assert_eq!(defined, 14);
    assert_eq!(get_extended_code_ps2_set_2(0x1C), None);
}

#[test]
fn no_keycode_is_given_twice() {
    let mut seen = [false; 256];
    for byte in 0u8..=255 {
        for keycode in [get_code_ps2_set_2(byte), get_extended_code_ps2_set_2(byte)] {
            if let Some(keycode) = keycode {
                assert!(keycode < codes::KEYCODE_LIMIT);
                assert!(!seen[keycode as usize]);
                seen[keycode as usize] = true;
            }
        }
    }
}

#[test]
fn char_table_gives_lower_and_upper() {
    assert_eq!(get_us_qwerty_char(codes::A), Some(('a', 'A')));
    assert_eq!(get_us_qwerty_char(codes::KEY_1), Some(('1', '!')));
    assert_eq!(get_us_qwerty_char(codes::KEY_0), Some(('0', ')')));
    assert_eq!(get_us_qwerty_char(codes::SINGLE_QUOTE), Some(('\'', '"')));
    assert_eq!(get_us_qwerty_char(codes::BACK_SLASH), Some(('\\', '|')));
    assert_eq!(get_us_qwerty_char(codes::ENTER), Some(('\n', '\n')));
    assert_eq!(get_us_qwerty_char(codes::BACKSPACE), Some(('\x08', '\x08')));
    assert_eq!(get_us_qwerty_char(codes::TAB), Some(('\t', '\t')));
    assert_eq!(get_us_qwerty_char(codes::SPACE), Some((' ', ' ')));
}

#[test]
fn keys_that_do_not_print_have_no_char() {
    assert_eq!(get_us_qwerty_char(codes::F1), None);
    assert_eq!(get_us_qwerty_char(codes::ESCAPE), None);
    assert_eq!(get_us_qwerty_char(codes::LEFT_SHIFT), None);
    assert_eq!(get_us_qwerty_char(codes::CAPS_LOCK), None);
    assert_eq!(get_us_qwerty_char(codes::NUM_PAD_1), None);
    assert_eq!(get_us_qwerty_char(0xFF), None);
}

#[test]
fn letters_shift_to_upper_case() {
    for keycode in codes::Q..=codes::M {
        let (lower, upper) = get_us_qwerty_char(keycode).unwrap();
        assert!(lower.is_ascii_lowercase());
        assert_eq!(upper, lower.to_ascii_uppercase());
    }
}

#[test]
fn scancode_converts_through_the_table_of_its_prefix() {
    assert_eq!(Keycode::try_from(Scancode::new(0x01, false, true)), Ok(codes::F9));
    assert_eq!(Keycode::try_from(Scancode::new(0x11, false, true)), Ok(codes::LEFT_ALT));
    assert_eq!(Keycode::try_from(Scancode::new(0x11, true, true)), Ok(codes::RIGHT_ALT));
    assert_eq!(Keycode::try_from(Scancode::new(0x6C, true, false)), Ok(codes::HOME));
}

#[test]
fn unknown_scancode_names_its_table_and_byte() {
    assert_eq!(
        Keycode::try_from(Scancode::new(0x02, false, true)),
        Err(UnknownScancode::UnknownPlainScancode(0x02))
    );
    assert_eq!(
        Keycode::try_from(Scancode::new(0x1C, true, true)),
        Err(UnknownScancode::UnknownExtendedScancode(0x1C))
    );
}

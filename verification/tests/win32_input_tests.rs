use std::time::Instant;

use tela::keyboard::KeyboardInput;
use tela::win32_input::{
    apply_character_code_unit, client_point, has_command_modifier, modifier_bits_from_key_state,
    physical_key, quantum_elapsed, quantum_expired, win32_key_input, VK_BACK, VK_DELETE, VK_DOWN,
    VK_END, VK_ESCAPE, VK_HOME, VK_LEFT, VK_NEXT, VK_PRIOR, VK_RETURN, VK_RIGHT, VK_TAB, VK_UP,
};

#[test]
fn client_point_unpacks_signed_coordinates() {
    assert_eq!(client_point(0x0001_0002), (2, 1));
    assert_eq!(client_point(0xffff_0003), (3, -1));
    assert_eq!(client_point(0xfffb_0000), (0, -5));
}

#[test]
fn modifier_bits_match_the_abi_layout() {
    assert_eq!(modifier_bits_from_key_state(false, false, false, false), 0);
    assert_eq!(modifier_bits_from_key_state(true, false, false, false), 1);
    assert_eq!(modifier_bits_from_key_state(false, true, false, false), 2);
    assert_eq!(modifier_bits_from_key_state(false, false, true, false), 4);
    assert_eq!(modifier_bits_from_key_state(false, false, false, true), 8);
    assert_eq!(modifier_bits_from_key_state(true, true, true, true), 0b1111);
}

#[test]
fn command_modifier_is_ctrl_or_meta_only() {
    assert!(has_command_modifier(0b0010));
    assert!(has_command_modifier(0b1000));
    assert!(has_command_modifier(0b1010));
    assert!(!has_command_modifier(0b0001));
    assert!(!has_command_modifier(0b0100));
    assert!(!has_command_modifier(0));
}

#[test]
fn physical_key_maps_letters_digits_and_navigation() {
    assert_eq!(physical_key(0x41), Some(0x04));
    assert_eq!(physical_key(0x5a), Some(0x1d));
    assert_eq!(physical_key(0x31), Some(0x1e));
    assert_eq!(physical_key(0x30), Some(0x27));
    assert_eq!(physical_key(VK_RETURN), Some(0x28));
    assert_eq!(physical_key(VK_ESCAPE), Some(0x29));
    assert_eq!(physical_key(VK_BACK), Some(0x2a));
    assert_eq!(physical_key(VK_TAB), Some(0x2b));
    assert_eq!(physical_key(VK_HOME), Some(0x4a));
    assert_eq!(physical_key(VK_PRIOR), Some(0x4b));
    assert_eq!(physical_key(VK_DELETE), Some(0x4c));
    assert_eq!(physical_key(VK_END), Some(0x4d));
    assert_eq!(physical_key(VK_NEXT), Some(0x4e));
    assert_eq!(physical_key(VK_RIGHT), Some(0x4f));
    assert_eq!(physical_key(VK_LEFT), Some(0x50));
    assert_eq!(physical_key(VK_DOWN), Some(0x51));
    assert_eq!(physical_key(VK_UP), Some(0x52));
    assert_eq!(physical_key(0x70), None, "F1 has no mapping yet");
    assert_eq!(physical_key(0x00), None);
}

#[test]
fn character_units_apply_backspace_newline_and_ascii() {
    let mut value = String::from("abc");
    assert!(apply_character_code_unit(&mut value, 'x' as u16));
    assert_eq!(value, "abcx");
    assert!(apply_character_code_unit(&mut value, 8));
    assert_eq!(value, "abc");
    assert!(apply_character_code_unit(&mut value, 13));
    assert_eq!(value, "abc\n", "Enter inserts a newline in multi-line editors");
    assert!(apply_character_code_unit(&mut value, 0x20));
    assert_eq!(value, "abc\n ");
    assert!(!apply_character_code_unit(&mut value, 0x7f));
    assert!(!apply_character_code_unit(&mut value, 0xe4));
    assert_eq!(value, "abc\n ");
    let mut empty = String::new();
    assert!(!apply_character_code_unit(&mut empty, 8));
    assert_eq!(empty, "");
}

#[test]
fn quantum_expires_after_two_milliseconds() {
    let past = Instant::now()
        .checked_sub(std::time::Duration::from_millis(5))
        .expect("monotonic clock covers 5ms");
    assert!(quantum_expired(past));
}

#[test]
fn quantum_boundary_is_two_thousand_microseconds() {
    assert!(!quantum_elapsed(1_999));
    assert!(quantum_elapsed(2_000));
}

#[test]
fn win32_key_downs_route_by_focus_and_command_modifiers() {
    assert_eq!(win32_key_input(true, VK_RETURN, 0, false), Some(KeyboardInput::InputEnter));
    assert_eq!(win32_key_input(true, VK_ESCAPE, 0, false), Some(KeyboardInput::InputCancel));
    assert_eq!(win32_key_input(true, 0x41, 1, false), None);
    assert_eq!(
        win32_key_input(true, 0x41, 2, true),
        Some(KeyboardInput::KeyDown { physical_key: 0x04, modifier_bits: 2, repeat: true })
    );
    assert_eq!(
        win32_key_input(true, VK_TAB, 0, false),
        Some(KeyboardInput::KeyDown { physical_key: 0x2b, modifier_bits: 0, repeat: false })
    );
    assert_eq!(
        win32_key_input(false, VK_RETURN, 0, false),
        Some(KeyboardInput::KeyDown { physical_key: 0x28, modifier_bits: 0, repeat: false })
    );
    assert_eq!(win32_key_input(false, 0x70, 0, false), None);
}

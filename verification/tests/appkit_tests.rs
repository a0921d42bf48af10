use tela::appkit_input::{
    append_ascii, appkit_key_input, backspace, has_command_modifier, modifier_bits, physical_key,
    APPKIT_COMMAND, APPKIT_CONTROL, APPKIT_OPTION, APPKIT_SHIFT,
};
use tela::keyboard::{map_physical_key, KeyboardInput, MobileKey};

#[test]
fn appkit_keycodes_map_to_hid_usage_ids() {
    assert_eq!(physical_key(0), Some(0x04));
    assert_eq!(physical_key(36), Some(0x28));
    assert_eq!(physical_key(123), Some(0x50));
    assert_eq!(physical_key(255), None);
}

#[test]
fn text_channel_stays_explicitly_ascii_in_v1() {
    assert_eq!(append_ascii("ab", "CD"), Some("abCD".to_owned()));
    assert_eq!(append_ascii("ab", "\n"), None);
    assert_eq!(append_ascii("ab", "中"), None);
    assert_eq!(backspace("ab中"), "ab");
}

#[test]
fn appkit_modifier_flags_become_the_abi_mask() {
    assert_eq!(modifier_bits(0), 0);
    assert_eq!(modifier_bits(APPKIT_SHIFT), 1);
    assert_eq!(modifier_bits(APPKIT_CONTROL), 2);
    assert_eq!(modifier_bits(APPKIT_OPTION), 4);
    assert_eq!(modifier_bits(APPKIT_COMMAND), 8);
    assert_eq!(modifier_bits(APPKIT_SHIFT | APPKIT_COMMAND | 0x100), 9);
    assert!(has_command_modifier(APPKIT_CONTROL));
    assert!(has_command_modifier(APPKIT_COMMAND));
    assert!(!has_command_modifier(APPKIT_SHIFT | APPKIT_OPTION));
}

#[test]
fn empty_text_is_refused_and_backspace_on_empty_stays_empty() {
    assert_eq!(append_ascii("ab", ""), None);
    assert_eq!(append_ascii("", "~ "), Some("~ ".to_owned()));
    assert_eq!(backspace(""), "");
}

#[test]
fn focused_key_downs_drive_the_text_channel() {
    assert_eq!(appkit_key_input(true, "ab", 36, 0, None, false), Some(KeyboardInput::InputEnter));
    assert_eq!(appkit_key_input(true, "ab", 53, 0, None, false), Some(KeyboardInput::InputCancel));
    assert_eq!(
        appkit_key_input(true, "ab", 51, 0, None, false),
        Some(KeyboardInput::SetInputValue("a".to_owned()))
    );
    assert_eq!(
        appkit_key_input(true, "ab", 8, 0, Some("c"), false),
        Some(KeyboardInput::SetInputValue("abc".to_owned()))
    );
    assert_eq!(appkit_key_input(true, "ab", 8, 0, Some("é"), false), None);
    assert_eq!(appkit_key_input(true, "ab", 8, 0, None, false), None);
}

#[test]
fn tab_command_chords_and_unfocused_keys_are_physical_presses() {
    assert_eq!(
        appkit_key_input(true, "ab", 48, 0, Some("\t"), true),
        Some(KeyboardInput::KeyDown { physical_key: 0x2b, modifier_bits: 0, repeat: true })
    );
    assert_eq!(
        appkit_key_input(true, "ab", 8, APPKIT_COMMAND, Some("c"), false),
        Some(KeyboardInput::KeyDown { physical_key: 0x06, modifier_bits: 8, repeat: false })
    );
    assert_eq!(
        appkit_key_input(false, "", 36, APPKIT_SHIFT, None, false),
        Some(KeyboardInput::KeyDown { physical_key: 0x28, modifier_bits: 1, repeat: false })
    );
    assert_eq!(appkit_key_input(false, "", 200, 0, None, false), None);
}

#[test]
fn mobile_keys_map_to_hid_usages() {
    assert_eq!(map_physical_key(MobileKey::Escape), 0x29);
    assert_eq!(map_physical_key(MobileKey::NumpadEnter), 0x28);
    assert_eq!(map_physical_key(MobileKey::Enter), 0x28);
    assert_eq!(map_physical_key(MobileKey::Delete), 0x4c);
    assert_eq!(map_physical_key(MobileKey::ArrowUp), 0x52);
}

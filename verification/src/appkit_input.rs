//! AppKit keyboard normalization for the portable tela application ABI.
use vstd::prelude::*;
use vstd::string::{StrSliceExecFns, StringExecFns};

use crate::keyboard::{hid_usage, is_key_cap, KeyCap, KeyboardInput};
use crate::text::string_pop;
use crate::win32_input::modifier_mask;

verus! {

/// Shift in the ABI modifier mask.
pub const SHIFT: u8 = 1;
/// Control in the ABI modifier mask.
pub const CTRL: u8 = 2;
/// Alt / Option in the ABI modifier mask.
pub const ALT: u8 = 4;
/// Meta / Command in the ABI modifier mask.
pub const META: u8 = 8;

/// `NSEventModifierFlagShift`.
pub const APPKIT_SHIFT: u64 = 0x2_0000;
/// `NSEventModifierFlagControl`.
pub const APPKIT_CONTROL: u64 = 0x4_0000;
/// `NSEventModifierFlagOption`.
pub const APPKIT_OPTION: u64 = 0x8_0000;
/// `NSEventModifierFlagCommand`.
pub const APPKIT_COMMAND: u64 = 0x10_0000;

/// USB-HID usage of an AppKit hardware key code (ANSI positions), where one is defined.
pub open spec fn appkit_hid_usage(key_code: u16) -> Option<u16> {
    match key_code {
        0 => Some(0x04u16),
        11 => Some(0x05u16),
        8 => Some(0x06u16),
        2 => Some(0x07u16),
        14 => Some(0x08u16),
        3 => Some(0x09u16),
        5 => Some(0x0au16),
        4 => Some(0x0bu16),
        34 => Some(0x0cu16),
        38 => Some(0x0du16),
        40 => Some(0x0eu16),
        37 => Some(0x0fu16),
        46 => Some(0x10u16),
        45 => Some(0x11u16),
        31 => Some(0x12u16),
        35 => Some(0x13u16),
        12 => Some(0x14u16),
        15 => Some(0x15u16),
        1 => Some(0x16u16),
        17 => Some(0x17u16),
        32 => Some(0x18u16),
        9 => Some(0x19u16),
        13 => Some(0x1au16),
        7 => Some(0x1bu16),
        16 => Some(0x1cu16),
        6 => Some(0x1du16),
        18 => Some(0x1eu16),
        19 => Some(0x1fu16),
        20 => Some(0x20u16),
        21 => Some(0x21u16),
        23 => Some(0x22u16),
        22 => Some(0x23u16),
        26 => Some(0x24u16),
        28 => Some(0x25u16),
        25 => Some(0x26u16),
        29 => Some(0x27u16),
        36 => Some(0x28u16),
        53 => Some(0x29u16),
        51 => Some(0x2au16),
        48 => Some(0x2bu16),
        49 => Some(0x2cu16),
        115 => Some(0x4au16),
        116 => Some(0x4bu16),
        117 => Some(0x4cu16),
        119 => Some(0x4du16),
        121 => Some(0x4eu16),
        124 => Some(0x4fu16),
        123 => Some(0x50u16),
        125 => Some(0x51u16),
        126 => Some(0x52u16),
        _ => None,
    }
}

/// The AppKit virtual key code (`kVK_ANSI_*` and the function keys) of a key on the ANSI
/// layout.
pub open spec fn appkit_key_code(key: KeyCap) -> int {
    match key {
        KeyCap::Letter(place) => seq![
            0int, 11, 8, 2, 14, 3, 5, 4, 34, 38, 40, 37, 46, 45, 31, 35, 12, 15, 1, 17, 32, 9, 13,
            7, 16, 6,
        ][place as int],
        KeyCap::Digit(value) => seq![29int, 18, 19, 20, 21, 23, 22, 26, 28, 25][value as int],
        KeyCap::Enter => 36,
        KeyCap::Escape => 53,
        KeyCap::Backspace => 51,
        KeyCap::Tab => 48,
        KeyCap::Space => 49,
        KeyCap::Home => 115,
        KeyCap::PageUp => 116,
        KeyCap::Delete => 117,
        KeyCap::End => 119,
        KeyCap::PageDown => 121,
        KeyCap::ArrowLeft => 123,
        KeyCap::ArrowRight => 124,
        KeyCap::ArrowDown => 125,
        KeyCap::ArrowUp => 126,
    }
}

/// Each key of the ANSI layout is reported with the USB-HID usage of that same key: the
/// AppKit code of a key maps to its usage.
pub proof fn lemma_appkit_keys_match_hid(key: KeyCap)
    requires
        is_key_cap(key),
    ensures
        appkit_hid_usage(appkit_key_code(key) as u16) == Some(hid_usage(key) as u16),
{
    match key {
        KeyCap::Letter(place) => {
            assert(place == 0 || place == 1 || place == 2 || place == 3 || place == 4 || place == 5
                || place == 6 || place == 7 || place == 8 || place == 9 || place == 10 || place == 11
                || place == 12 || place == 13 || place == 14 || place == 15 || place == 16 || place
                == 17 || place == 18 || place == 19 || place == 20 || place == 21 || place == 22
                || place == 23 || place == 24 || place == 25);
        },
        KeyCap::Digit(value) => {
            assert(value == 0 || value == 1 || value == 2 || value == 3 || value == 4 || value == 5
                || value == 6 || value == 7 || value == 8 || value == 9);
        },
        _ => {},
    }
}

/// Maps an AppKit hardware key code to the USB-HID usage used by `PhysicalKey`.
pub fn physical_key(key_code: u16) -> (usage: Option<u16>)
    ensures
        usage == appkit_hid_usage(key_code),
{
    // AppKit key codes are physical ANSI key positions, independent of the produced character.
    match key_code {
        0 => Some(0x04),  // A
        11 => Some(0x05),  // B
        8 => Some(0x06),  // C
        2 => Some(0x07),  // D
        14 => Some(0x08),  // E
        3 => Some(0x09),  // F
        5 => Some(0x0a),  // G
        4 => Some(0x0b),  // H
        34 => Some(0x0c),  // I
        38 => Some(0x0d),  // J
        40 => Some(0x0e),  // K
        37 => Some(0x0f),  // L
        46 => Some(0x10),  // M
        45 => Some(0x11),  // N
        31 => Some(0x12),  // O
        35 => Some(0x13),  // P
        12 => Some(0x14),  // Q
        15 => Some(0x15),  // R
        1 => Some(0x16),  // S
        17 => Some(0x17),  // T
        32 => Some(0x18),  // U
        9 => Some(0x19),  // V
        13 => Some(0x1a),  // W
        7 => Some(0x1b),  // X
        16 => Some(0x1c),  // Y
        6 => Some(0x1d),  // Z
        18 => Some(0x1e),  // 1
        19 => Some(0x1f),  // 2
        20 => Some(0x20),  // 3
        21 => Some(0x21),  // 4
        23 => Some(0x22),  // 5
        22 => Some(0x23),  // 6
        26 => Some(0x24),  // 7
        28 => Some(0x25),  // 8
        25 => Some(0x26),  // 9
        29 => Some(0x27),  // 0
        36 => Some(0x28),  // Enter
        53 => Some(0x29),  // Escape
        51 => Some(0x2a),  // Backspace
        48 => Some(0x2b),  // Tab
        49 => Some(0x2c),  // Space
        115 => Some(0x4a),  // Home
        116 => Some(0x4b),  // PageUp
        117 => Some(0x4c),  // Delete
        119 => Some(0x4d),  // End
        121 => Some(0x4e),  // PageDown
        124 => Some(0x4f),  // ArrowRight
        123 => Some(0x50),  // ArrowLeft
        125 => Some(0x51),  // ArrowDown
        126 => Some(0x52),  // ArrowUp
        _ => None,
    }
}

/// The ABI modifier mask (Shift 1, Ctrl 2, Alt 4, Meta 8) of an AppKit modifier bitset.
pub open spec fn appkit_modifier_mask(flags: u64) -> u8 {
    ((if flags & APPKIT_SHIFT != 0 { 1int } else { 0int }) + (if flags & APPKIT_CONTROL != 0 {
        2int
    } else {
        0int
    }) + (if flags & APPKIT_OPTION != 0 { 4int } else { 0int }) + (if flags & APPKIT_COMMAND
        != 0 {
        8int
    } else {
        0int
    })) as u8
}

/// An AppKit modifier bitset gives the mask of the modifiers it holds: Shift, Control, Option
/// as Alt and Command as Meta, the same mask a Win32 host builds from the same keys.
pub proof fn lemma_appkit_modifiers_follow_flags(flags: u64)
    ensures
        appkit_modifier_mask(flags) as int == modifier_mask(
            flags & APPKIT_SHIFT != 0,
            flags & APPKIT_CONTROL != 0,
            flags & APPKIT_OPTION != 0,
            flags & APPKIT_COMMAND != 0,
        ),
{
}

/// Converts AppKit's modifier bitset (the raw `NSEventModifierFlags` value) to the ABI's
/// Shift/Ctrl/Alt/Meta mask.
pub fn modifier_bits(flags: u64) -> (bits: u8)
    ensures
        bits == appkit_modifier_mask(flags),
{
    let mut bits: u8 = 0;
    if flags & APPKIT_SHIFT != 0 {
        assert(0u8 | 1u8 == 1u8) by (bit_vector);
        bits = bits | SHIFT;
    }
    assert(bits == (if flags & APPKIT_SHIFT != 0 { 1u8 } else { 0u8 }));
    let ghost b1 = bits;
    if flags & APPKIT_CONTROL != 0 {
        assert(b1 < 2 ==> b1 | 2 == b1 + 2) by (bit_vector);
        bits = bits | CTRL;
    }
    let ghost b2 = bits;
    if flags & APPKIT_OPTION != 0 {
        assert(b2 < 4 ==> b2 | 4 == b2 + 4) by (bit_vector);
        bits = bits | ALT;
    }
    let ghost b3 = bits;
    if flags & APPKIT_COMMAND != 0 {
        assert(b3 < 8 ==> b3 | 8 == b3 + 8) by (bit_vector);
        bits = bits | META;
    }
    bits
}

/// Whether the event represents a command shortcut (Control or Command held) rather than
/// ordinary text input.
pub fn has_command_modifier(flags: u64) -> (command: bool)
    ensures
        command == (flags & APPKIT_CONTROL != 0 || flags & APPKIT_COMMAND != 0),
{
    let command = flags & (APPKIT_CONTROL | APPKIT_COMMAND) != 0;
    assert((flags & (0x4_0000u64 | 0x10_0000u64) != 0) == (flags & 0x4_0000u64 != 0 || flags
        & 0x10_0000u64 != 0)) by (bit_vector);
    command
}

/// Printable ASCII, `' '` through `'~'`.
pub open spec fn is_printable_ascii(character: char) -> bool {
    ' ' <= character <= '~'
}

/// Applies the supported v1 text channel subset to a controlled input value: a non-empty run
/// of printable ASCII is appended; anything else is refused.
///
/// AppKit IME composition and clipboard integration intentionally remain platform work for a
/// later text-widget milestone.
pub fn append_ascii(value: &str, characters: &str) -> (next: Option<String>)
    ensures
        next is Some <==> (characters@.len() > 0 && forall|i: int|
            0 <= i < characters@.len() ==> is_printable_ascii(#[trigger] characters@[i])),
        next matches Some(text) ==> text@ == value@ + characters@,
{
    let count: usize = characters.unicode_len();
    if count == 0 {
        return None;
    }
    let mut i: usize = 0;
    while i < count
        invariant
            count == characters@.len(),
            i <= count,
            forall|j: int| 0 <= j < i ==> is_printable_ascii(#[trigger] characters@[j]),
        decreases count - i,
    {
        let character = characters.get_char(i);
        if !(' ' <= character && character <= '~') {
            return None;
        }
        i = i + 1;
    }
    let mut next = value.to_owned();
    next.append(characters);
    Some(next)
}

/// Removes one Unicode scalar from the end of the controlled input draft.
pub fn backspace(value: &str) -> (next: String)
    ensures
        value@.len() == 0 ==> next@ == value@,
        value@.len() > 0 ==> next@ == value@.drop_last(),
{
    let mut next = value.to_owned();
    let _ = string_pop(&mut next);
    next
}

/// Whether `input` is the key press of `key_code` with `flags` and `repeat`, if the key has a
/// physical usage; `None` otherwise.
pub open spec fn is_key_down_of(input: Option<KeyboardInput>, key_code: u16, flags: u64, repeat: bool) -> bool {
    match appkit_hid_usage(key_code) {
        Some(usage) => input == Some(
            KeyboardInput::KeyDown {
                physical_key: usage,
                modifier_bits: appkit_modifier_mask(flags),
                repeat,
            },
        ),
        None => input is None,
    }
}

/// Translates an AppKit key-down into the input for the presented frame. While a text input is
/// focused, Return commits, Escape cancels, Delete removes the last character, and characters
/// typed without Control or Command go through the ASCII text channel (nothing is sent when
/// they are refused); Tab and command chords fall through to a physical key press.
pub fn appkit_key_input(
    input_focused: bool,
    input_value: &str,
    key_code: u16,
    flags: u64,
    characters: Option<&str>,
    repeat: bool,
) -> (input: Option<KeyboardInput>)
    ensures
        input_focused && key_code == 36 ==> input == Some(KeyboardInput::InputEnter),
        input_focused && key_code == 53 ==> input == Some(KeyboardInput::InputCancel),
        input_focused && key_code == 51 ==> (input matches Some(KeyboardInput::SetInputValue(value))
            && (if input_value@.len() == 0 {
            value@ == input_value@
        } else {
            value@ == input_value@.drop_last()
        })),
        input_focused && key_code != 36 && key_code != 53 && key_code != 51 && key_code != 48
            && !(flags & APPKIT_CONTROL != 0 || flags & APPKIT_COMMAND != 0) ==> match characters {
            Some(typed) => if typed@.len() > 0 && forall|i: int|
                0 <= i < typed@.len() ==> is_printable_ascii(#[trigger] typed@[i]) {
                (input matches Some(KeyboardInput::SetInputValue(value)) && value@ == input_value@
                    + typed@)
            } else {
                input is None
            },
            None => input is None,
        },
        !input_focused || (key_code != 36 && key_code != 53 && key_code != 51 && (key_code == 48 || (
        flags & APPKIT_CONTROL != 0 || flags & APPKIT_COMMAND != 0))) ==> is_key_down_of(
            input,
            key_code,
            flags,
            repeat,
        ),
{
    if input_focused {
        if key_code == 36 {
            return Some(KeyboardInput::InputEnter);
        }
        if key_code == 53 {
            return Some(KeyboardInput::InputCancel);
        }
        if key_code == 51 {
            return Some(KeyboardInput::SetInputValue(backspace(input_value)));
        }
        if key_code != 48 && !has_command_modifier(flags) {
            return match characters {
                Some(typed) => match append_ascii(input_value, typed) {
                    Some(value) => Some(KeyboardInput::SetInputValue(value)),
                    None => None,
                },
                None => None,
            };
        }
    }
    match physical_key(key_code) {
        Some(physical_key) => Some(
            KeyboardInput::KeyDown { physical_key, modifier_bits: modifier_bits(flags), repeat },
        ),
        None => None,
    }
}

} // verus!

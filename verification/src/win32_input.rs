//! Win32 raw input to normalized tela events: virtual keys, packed points, modifier masks and
//! the controlled-text character channel. Virtual-key codes are stable Win32 ABI values.
use std::time::Instant;
use vstd::prelude::*;

use crate::clock::{as_micros, elapsed};
use crate::keyboard::{hid_usage, is_key_cap, KeyCap, KeyboardInput};
use crate::text::{string_pop, string_push};

verus! {

/// Backspace.
pub const VK_BACK: u16 = 0x08;
/// Tab.
pub const VK_TAB: u16 = 0x09;
/// Enter.
pub const VK_RETURN: u16 = 0x0d;
/// Shift.
pub const VK_SHIFT: u16 = 0x10;
/// Control.
pub const VK_CONTROL: u16 = 0x11;
/// Alt.
pub const VK_MENU: u16 = 0x12;
/// Escape.
pub const VK_ESCAPE: u16 = 0x1b;
/// Page Up.
pub const VK_PRIOR: u16 = 0x21;
/// Page Down.
pub const VK_NEXT: u16 = 0x22;
/// End.
pub const VK_END: u16 = 0x23;
/// Home.
pub const VK_HOME: u16 = 0x24;
/// Arrow left.
pub const VK_LEFT: u16 = 0x25;
/// Arrow up.
pub const VK_UP: u16 = 0x26;
/// Arrow right.
pub const VK_RIGHT: u16 = 0x27;
/// Arrow down.
pub const VK_DOWN: u16 = 0x28;
/// Delete.
pub const VK_DELETE: u16 = 0x2e;
/// Left Windows key.
pub const VK_LWIN: u16 = 0x5b;
/// Right Windows key.
pub const VK_RWIN: u16 = 0x5c;

/// A 16-bit field read as a two's-complement signed value.
pub open spec fn signed_16(field: int) -> int {
    if field >= 0x8000 {
        field - 0x1_0000
    } else {
        field
    }
}

/// Unpacks the signed 16-bit point coordinates of an `lparam` (low 16 bits x, high 16 bits y).
pub fn client_point(packed: u32) -> (point: (i32, i32))
    ensures
        point.0 == signed_16(packed as int % 0x1_0000),
        point.1 == signed_16(packed as int / 0x1_0000),
{
    let low: u32 = packed & 0xffff;
    let high: u32 = packed >> 16;
    assert(low == packed % 0x1_0000 && high == packed / 0x1_0000) by (bit_vector)
        requires
            low == packed & 0xffff,
            high == packed >> 16,
    ;
    let x: i32 = if low >= 0x8000 {
        low as i32 - 0x1_0000
    } else {
        low as i32
    };
    let y: i32 = if high >= 0x8000 {
        high as i32 - 0x1_0000
    } else {
        high as i32
    };
    (x, y)
}

/// The ABI modifier mask: SHIFT=1, CTRL=2, ALT=4, META=8.
pub open spec fn modifier_mask(shift: bool, ctrl: bool, alt: bool, meta: bool) -> int {
    (if shift { 1int } else { 0int }) + (if ctrl { 2int } else { 0int }) + (if alt {
        4int
    } else {
        0int
    }) + (if meta { 8int } else { 0int })
}

/// Each modifier owns one bit of the mask: Shift bit 0, Control bit 1, Alt bit 2 and Meta
/// bit 3, and no other bit is set.
pub proof fn lemma_modifier_mask_bits(shift: bool, ctrl: bool, alt: bool, meta: bool)
    ensures
        0 <= modifier_mask(shift, ctrl, alt, meta) < 16,
        modifier_mask(shift, ctrl, alt, meta) % 2 == 1 <==> shift,
        (modifier_mask(shift, ctrl, alt, meta) / 2) % 2 == 1 <==> ctrl,
        (modifier_mask(shift, ctrl, alt, meta) / 4) % 2 == 1 <==> alt,
        (modifier_mask(shift, ctrl, alt, meta) / 8) % 2 == 1 <==> meta,
{
}

/// Builds the ABI modifier mask from the pressed state of the four modifier keys.
pub fn modifier_bits_from_key_state(shift: bool, ctrl: bool, alt: bool, meta: bool) -> (bits: u8)
    ensures
        bits == modifier_mask(shift, ctrl, alt, meta),
{
    let mut bits: u8 = 0;
    if shift {
        assert(0u8 | 1u8 == 1u8) by (bit_vector);
        bits = bits | 1;
    }
    let ghost b1 = bits;
    if ctrl {
        assert(b1 < 2 ==> b1 | 2 == b1 + 2) by (bit_vector);
        bits = bits | 2;
    }
    let ghost b2 = bits;
    if alt {
        assert(b2 < 4 ==> b2 | 4 == b2 + 4) by (bit_vector);
        bits = bits | 4;
    }
    let ghost b3 = bits;
    if meta {
        assert(b3 < 8 ==> b3 | 8 == b3 + 8) by (bit_vector);
        bits = bits | 8;
    }
    bits
}

/// Whether CTRL (bit 1) or META (bit 3) is set in a modifier mask.
pub fn has_command_modifier(bits: u8) -> (command: bool)
    ensures
        command == ((bits / 2) % 2 == 1 || (bits / 8) % 2 == 1),
{
    let command = bits & 0b1010 != 0;
    assert((bits & 10u8 != 0) == ((bits / 2) % 2 == 1 || (bits / 8) % 2 == 1)) by (bit_vector);
    command
}

/// USB-HID usage of a Win32 virtual key, where one is defined: letters, digits, Enter,
/// Escape, Backspace, Tab and the navigation keys.
pub open spec fn win32_hid_usage(virtual_key: u16) -> Option<u16> {
    if 0x41 <= virtual_key <= 0x5a {
        Some((0x04 + (virtual_key - 0x41)) as u16)
    } else if 0x31 <= virtual_key <= 0x39 {
        Some((0x1e + (virtual_key - 0x31)) as u16)
    } else if virtual_key == 0x30 {
        Some(0x27u16)
    } else if virtual_key == VK_RETURN {
        Some(0x28u16)
    } else if virtual_key == VK_ESCAPE {
        Some(0x29u16)
    } else if virtual_key == VK_BACK {
        Some(0x2au16)
    } else if virtual_key == VK_TAB {
        Some(0x2bu16)
    } else if virtual_key == VK_HOME {
        Some(0x4au16)
    } else if virtual_key == VK_PRIOR {
        Some(0x4bu16)
    } else if virtual_key == VK_DELETE {
        Some(0x4cu16)
    } else if virtual_key == VK_END {
        Some(0x4du16)
    } else if virtual_key == VK_NEXT {
        Some(0x4eu16)
    } else if virtual_key == VK_RIGHT {
        Some(0x4fu16)
    } else if virtual_key == VK_LEFT {
        Some(0x50u16)
    } else if virtual_key == VK_DOWN {
        Some(0x51u16)
    } else if virtual_key == VK_UP {
        Some(0x52u16)
    } else {
        None
    }
}

/// The Win32 virtual-key code of a key on the US layout: a letter or digit key has the code of
/// its upper-case ASCII character.
pub open spec fn win32_virtual_key(key: KeyCap) -> int {
    match key {
        KeyCap::Letter(place) => 0x41 + place as int,
        KeyCap::Digit(value) => 0x30 + value as int,
        KeyCap::Enter => 0x0d,
        KeyCap::Escape => 0x1b,
        KeyCap::Backspace => 0x08,
        KeyCap::Tab => 0x09,
        KeyCap::Space => 0x20,
        KeyCap::PageUp => 0x21,
        KeyCap::PageDown => 0x22,
        KeyCap::End => 0x23,
        KeyCap::Home => 0x24,
        KeyCap::ArrowLeft => 0x25,
        KeyCap::ArrowUp => 0x26,
        KeyCap::ArrowRight => 0x27,
        KeyCap::ArrowDown => 0x28,
        KeyCap::Delete => 0x2e,
    }
}

/// Each key of the US layout but the space bar (which is not forwarded) is reported with the
/// USB-HID usage of that same key; the space bar has none.
pub proof fn lemma_win32_keys_match_hid(key: KeyCap)
    requires
        is_key_cap(key),
    ensures
        key != KeyCap::Space ==> win32_hid_usage(win32_virtual_key(key) as u16) == Some(
            hid_usage(key) as u16,
        ),
        key == KeyCap::Space ==> win32_hid_usage(win32_virtual_key(key) as u16) is None,
{
}

/// Maps a Win32 virtual-key code to the USB-HID usage (`PhysicalKey`); unknown keys give `None`.
pub fn physical_key(virtual_key: u16) -> (usage: Option<u16>)
    ensures
        usage == win32_hid_usage(virtual_key),
{
    if 0x41 <= virtual_key && virtual_key <= 0x5a {
        return Some(0x04 + (virtual_key - 0x41));
    }
    if 0x31 <= virtual_key && virtual_key <= 0x39 {
        return Some(0x1e + (virtual_key - 0x31));
    }
    if virtual_key == 0x30 {
        return Some(0x27);
    }
    match virtual_key {
        VK_RETURN => Some(0x28),
        VK_ESCAPE => Some(0x29),
        VK_BACK => Some(0x2a),
        VK_TAB => Some(0x2b),
        VK_HOME => Some(0x4a),
        VK_PRIOR => Some(0x4b),
        VK_DELETE => Some(0x4c),
        VK_END => Some(0x4d),
        VK_NEXT => Some(0x4e),
        VK_RIGHT => Some(0x4f),
        VK_LEFT => Some(0x50),
        VK_DOWN => Some(0x51),
        VK_UP => Some(0x52),
        _ => None,
    }
}

/// The controlled draft after one `WM_CHAR` code unit: 8 removes the last character, 13
/// appends a newline, `0x20..=0x7e` appends that ASCII character; anything else changes nothing.
pub open spec fn draft_after_code_unit(value: Seq<char>, code_unit: u16) -> Seq<char> {
    if code_unit == 8 {
        if value.len() > 0 {
            value.drop_last()
        } else {
            value
        }
    } else if code_unit == 13 {
        value.push('\n')
    } else if 0x20 <= code_unit <= 0x7e {
        value.push((code_unit as u8) as char)
    } else {
        value
    }
}

/// Applies one `WM_CHAR` code unit to the controlled draft; returns whether it changed.
///
/// 8 = Backspace removes the last character; 13 = Enter inserts a newline (multi-line editor);
/// `0x20..=0x7e` = printable ASCII. Other units (high ANSI, surrogates) do not enter the channel.
pub fn apply_character_code_unit(value: &mut String, code_unit: u16) -> (changed: bool)
    ensures
        final(value)@ == draft_after_code_unit(old(value)@, code_unit),
        changed == (final(value)@ != old(value)@),
{
    if code_unit == 8 {
        let removed = string_pop(value);
        proof {
            if old(value)@.len() > 0 {
                assert(final(value)@.len() < old(value)@.len());
            }
        }
        removed.is_some()
    } else if code_unit == 13 {
        string_push(value, '\n');
        assert(final(value)@.len() != old(value)@.len());
        true
    } else if 0x20 <= code_unit && code_unit <= 0x7e {
        let character = (code_unit as u8) as char;
        string_push(value, character);
        assert(final(value)@.len() != old(value)@.len());
        true
    } else {
        false
    }
}

/// Translates a Win32 key-down into the input for the presented frame. While a text input is
/// focused, Return commits and Escape cancels; other keys pressed without Control or Meta are
/// left to the character channel, except Tab; everything else is a physical key press carrying
/// the current modifier mask.
pub fn win32_key_input(input_focused: bool, virtual_key: u16, modifiers: u8, repeat: bool) -> (input: Option<KeyboardInput>)
    ensures
        input_focused && virtual_key == VK_RETURN ==> input == Some(KeyboardInput::InputEnter),
        input_focused && virtual_key == VK_ESCAPE ==> input == Some(KeyboardInput::InputCancel),
        input_focused && virtual_key != VK_RETURN && virtual_key != VK_ESCAPE && virtual_key
            != VK_TAB && !((modifiers / 2) % 2 == 1 || (modifiers / 8) % 2 == 1) ==> input is None,
        !input_focused || (virtual_key != VK_RETURN && virtual_key != VK_ESCAPE && (virtual_key
            == VK_TAB || ((modifiers / 2) % 2 == 1 || (modifiers / 8) % 2 == 1))) ==> match win32_hid_usage(virtual_key) {
            Some(usage) => input == Some(
                KeyboardInput::KeyDown { physical_key: usage, modifier_bits: modifiers, repeat },
            ),
            None => input is None,
        },
{
    if input_focused {
        if virtual_key == VK_RETURN {
            return Some(KeyboardInput::InputEnter);
        }
        if virtual_key == VK_ESCAPE {
            return Some(KeyboardInput::InputCancel);
        }
        if virtual_key != VK_TAB && !has_command_modifier(modifiers) {
            return None;
        }
    }
    match physical_key(virtual_key) {
        Some(physical_key) => Some(KeyboardInput::KeyDown { physical_key, modifier_bits: modifiers, repeat }),
        None => None,
    }
}

/// Whether a message-loop batching quantum of 2ms has elapsed.
pub fn quantum_elapsed(elapsed_micros: u128) -> (expired: bool)
    ensures
        expired == (elapsed_micros >= 2_000),
{
    elapsed_micros >= 2_000
}

/// Message-loop quantum expiry: within 2ms keep batching, so high-frequency messages do not
/// each trigger a repaint. The result is [`quantum_elapsed`] of the microseconds the clock
/// reports since `started`.
pub fn quantum_expired(started: Instant) -> bool {
    quantum_elapsed(as_micros(&elapsed(&started)))
}

} // verus!

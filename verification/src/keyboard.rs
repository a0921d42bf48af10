//! Keyboard input a host hands to the presented frame, whatever platform it came from.
use vstd::prelude::*;

verus! {

/// A keyboard-driven input for the presented frame.
#[derive(Clone, Debug, PartialEq, Eq)]
pub enum KeyboardInput {
    /// Commit the focused text input.
    InputEnter,
    /// Cancel the focused text input.
    InputCancel,
    /// Replace the focused input's whole value.
    SetInputValue(String),
    /// A physical key press outside the text channel.
    KeyDown {
        /// USB-HID usage of the key.
        physical_key: u16,
        /// ABI modifier mask.
        modifier_bits: u8,
        /// Whether the press is an auto-repeat.
        repeat: bool,
    },
}

/// The keys a mobile host forwards as physical presses (a winit `KeyCode` outside this set
/// produces none).
#[derive(Clone, Copy, Debug, PartialEq, Eq, Structural)]
pub enum MobileKey {
    /// Escape.
    Escape,
    /// Enter.
    Enter,
    /// Keypad Enter.
    NumpadEnter,
    /// Backspace.
    Backspace,
    /// Tab.
    Tab,
    /// Space bar.
    Space,
    /// Right arrow.
    ArrowRight,
    /// Left arrow.
    ArrowLeft,
    /// Down arrow.
    ArrowDown,
    /// Up arrow.
    ArrowUp,
    /// Home.
    Home,
    /// End.
    End,
    /// Page Up.
    PageUp,
    /// Page Down.
    PageDown,
    /// Forward delete.
    Delete,
}

/// USB-HID usage of a forwarded mobile key.
pub open spec fn mobile_key_usage(key: MobileKey) -> u16 {
    match key {
        MobileKey::Escape => 0x29,
        MobileKey::Enter | MobileKey::NumpadEnter => 0x28,
        MobileKey::Backspace => 0x2a,
        MobileKey::Tab => 0x2b,
        MobileKey::Space => 0x2c,
        MobileKey::ArrowRight => 0x4f,
        MobileKey::ArrowLeft => 0x50,
        MobileKey::ArrowDown => 0x51,
        MobileKey::ArrowUp => 0x52,
        MobileKey::Home => 0x4a,
        MobileKey::End => 0x4d,
        MobileKey::PageUp => 0x4b,
        MobileKey::PageDown => 0x4e,
        MobileKey::Delete => 0x4c,
    }
}

/// A key of the US ANSI keyboard, named by its cap: a letter by its place in the alphabet
/// (`Letter(0)` is A), a digit by its value.
pub ghost enum KeyCap {
    /// The letter key with the given place in the alphabet.
    Letter(nat),
    /// The digit key with the given value.
    Digit(nat),
    /// Enter / Return.
    Enter,
    /// Escape.
    Escape,
    /// Backspace (AppKit's Delete).
    Backspace,
    /// Tab.
    Tab,
    /// Space bar.
    Space,
    /// Home.
    Home,
    /// Page Up.
    PageUp,
    /// Forward delete.
    Delete,
    /// End.
    End,
    /// Page Down.
    PageDown,
    /// Right arrow.
    ArrowRight,
    /// Left arrow.
    ArrowLeft,
    /// Down arrow.
    ArrowDown,
    /// Up arrow.
    ArrowUp,
}

/// Whether `key` names a key that exists: a letter below 26, a digit below 10.
pub open spec fn is_key_cap(key: KeyCap) -> bool {
    match key {
        KeyCap::Letter(place) => place < 26,
        KeyCap::Digit(value) => value < 10,
        _ => true,
    }
}

/// The usage of a key on the USB-HID Keyboard/Keypad page: the letters from 0x04 in
/// alphabetical order, the digits 1 to 9 from 0x1e and 0 after them, then Enter, Escape,
/// Backspace, Tab and Space from 0x28; the navigation block from Home at 0x4a, and the arrows
/// Right, Left, Down, Up from 0x4f.
pub open spec fn hid_usage(key: KeyCap) -> int {
    match key {
        KeyCap::Letter(place) => 0x04 + place as int,
        KeyCap::Digit(value) => if value == 0 { 0x27 } else { 0x1d + value as int },
        KeyCap::Enter => 0x28,
        KeyCap::Escape => 0x29,
        KeyCap::Backspace => 0x2a,
        KeyCap::Tab => 0x2b,
        KeyCap::Space => 0x2c,
        KeyCap::Home => 0x4a,
        KeyCap::PageUp => 0x4b,
        KeyCap::Delete => 0x4c,
        KeyCap::End => 0x4d,
        KeyCap::PageDown => 0x4e,
        KeyCap::ArrowRight => 0x4f,
        KeyCap::ArrowLeft => 0x50,
        KeyCap::ArrowDown => 0x51,
        KeyCap::ArrowUp => 0x52,
    }
}

/// The key cap of a forwarded mobile key (both Enter keys commit as Enter).
pub open spec fn mobile_key_cap(key: MobileKey) -> KeyCap {
    match key {
        MobileKey::Escape => KeyCap::Escape,
        MobileKey::Enter | MobileKey::NumpadEnter => KeyCap::Enter,
        MobileKey::Backspace => KeyCap::Backspace,
        MobileKey::Tab => KeyCap::Tab,
        MobileKey::Space => KeyCap::Space,
        MobileKey::ArrowRight => KeyCap::ArrowRight,
        MobileKey::ArrowLeft => KeyCap::ArrowLeft,
        MobileKey::ArrowDown => KeyCap::ArrowDown,
        MobileKey::ArrowUp => KeyCap::ArrowUp,
        MobileKey::Home => KeyCap::Home,
        MobileKey::End => KeyCap::End,
        MobileKey::PageUp => KeyCap::PageUp,
        MobileKey::PageDown => KeyCap::PageDown,
        MobileKey::Delete => KeyCap::Delete,
    }
}

/// Every forwarded mobile key is reported with the USB-HID usage of the key it names.
pub proof fn lemma_mobile_keys_match_hid(key: MobileKey)
    ensures
        mobile_key_usage(key) as int == hid_usage(mobile_key_cap(key)),
{
}

/// Maps a forwarded mobile key to its USB-HID usage.
pub fn map_physical_key(key: MobileKey) -> (usage: u16)
    ensures
        usage == mobile_key_usage(key),
        usage as int == hid_usage(mobile_key_cap(key)),
{
    match key {
        MobileKey::Escape => 0x29,
        MobileKey::Enter | MobileKey::NumpadEnter => 0x28,
        MobileKey::Backspace => 0x2a,
        MobileKey::Tab => 0x2b,
        MobileKey::Space => 0x2c,
        MobileKey::ArrowRight => 0x4f,
        MobileKey::ArrowLeft => 0x50,
        MobileKey::ArrowDown => 0x51,
        MobileKey::ArrowUp => 0x52,
        MobileKey::Home => 0x4a,
        MobileKey::End => 0x4d,
        MobileKey::PageUp => 0x4b,
        MobileKey::PageDown => 0x4e,
        MobileKey::Delete => 0x4c,
    }
}

} // verus!

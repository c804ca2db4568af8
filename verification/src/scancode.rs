//! Key identifiers and their numeric codes.
//!
//! Every key the firmware can report is identified by a `ScanCode`. Each
//! carries a fixed 8-bit code (`code()`): the HID keyboard usage for real
//! keys, and values in a reserved range above the modifiers for the
//! firmware-defined function pseudo-codes. The code is the key's position
//! in the 256-bit [`crate::key_state::KeyState`] bitmap, so its ordinal
//! order is significant: the contiguous range `0xE0..=0xE7` is reserved
//! for the modifier keys.

use vstd::prelude::*;

verus! {

/// A key identifier. `Invalid` (code 0) marks unused matrix positions and
/// is never reported; the `Function*` variants are pseudo-codes produced
/// by FN-key remapping, not physical keys.
#[derive(Debug, PartialEq, Eq, Structural, Clone, Copy)]
pub enum ScanCode {
    Invalid,
    A,
    B,
    C,
    D,
    E,
    F,
    G,
    H,
    I,
    J,
    K,
    L,
    M,
    N,
    O,
    P,
    Q,
    R,
    S,
    T,
    U,
    V,
    W,
    X,
    Y,
    Z,
    Digit1,
    Digit2,
    Digit3,
    Digit4,
    Digit5,
    Digit6,
    Digit7,
    Digit8,
    Digit9,
    Digit0,
    Return,
    Escape,
    Backspace,
    Tab,
    Space,
    Minus,
    Equal,
    LeftBracket,
    RightBracket,
    Backslash,
    Semicolon,
    Quote,
    Backtick,
    Comma,
    Period,
    Slash,
    CapsLock,
    F1,
    F2,
    F3,
    F4,
    F5,
    F6,
    F7,
    F8,
    F9,
    F10,
    F11,
    F12,
    Print,
    ScrollLock,
    Pause,
    Insert,
    Home,
    PageUp,
    Delete,
    End,
    PageDown,
    Right,
    Left,
    Down,
    Up,
    Mute,
    VolumeUp,
    VolumeDown,
    LeftControl,
    LeftShift,
    LeftAlt,
    LeftMeta,
    RightControl,
    RightShift,
    RightAlt,
    RightMeta,
    Function,
    FunctionPair,
    FunctionBluetooth,
    FunctionUnifying,
    FunctionUnpairAll,
    FunctionToggleGameMode,
}

/// Lowest code of the modifier-key range; also the first code excluded
/// from the key slots of a six-key report.
pub const MODIFIER_BASE: u8 = 0xe0;

impl ScanCode {
    /// The key's position in the key-state bitmap.
    pub open spec fn spec_code(self) -> u8 {
        match self {
            ScanCode::Invalid => 0x00,
            ScanCode::A => 0x04,
            ScanCode::B => 0x05,
            ScanCode::C => 0x06,
            ScanCode::D => 0x07,
            ScanCode::E => 0x08,
            ScanCode::F => 0x09,
            ScanCode::G => 0x0a,
            ScanCode::H => 0x0b,
            ScanCode::I => 0x0c,
            ScanCode::J => 0x0d,
            ScanCode::K => 0x0e,
            ScanCode::L => 0x0f,
            ScanCode::M => 0x10,
            ScanCode::N => 0x11,
            ScanCode::O => 0x12,
            ScanCode::P => 0x13,
            ScanCode::Q => 0x14,
            ScanCode::R => 0x15,
            ScanCode::S => 0x16,
            ScanCode::T => 0x17,
            ScanCode::U => 0x18,
            ScanCode::V => 0x19,
            ScanCode::W => 0x1a,
            ScanCode::X => 0x1b,
            ScanCode::Y => 0x1c,
            ScanCode::Z => 0x1d,
            ScanCode::Digit1 => 0x1e,
            ScanCode::Digit2 => 0x1f,
            ScanCode::Digit3 => 0x20,
            ScanCode::Digit4 => 0x21,
            ScanCode::Digit5 => 0x22,
            ScanCode::Digit6 => 0x23,
            ScanCode::Digit7 => 0x24,
            ScanCode::Digit8 => 0x25,
            ScanCode::Digit9 => 0x26,
            ScanCode::Digit0 => 0x27,
            ScanCode::Return => 0x28,
            ScanCode::Escape => 0x29,
            ScanCode::Backspace => 0x2a,
            ScanCode::Tab => 0x2b,
            ScanCode::Space => 0x2c,
            ScanCode::Minus => 0x2d,
            ScanCode::Equal => 0x2e,
            ScanCode::LeftBracket => 0x2f,
            ScanCode::RightBracket => 0x30,
            ScanCode::Backslash => 0x31,
            ScanCode::Semicolon => 0x33,
            ScanCode::Quote => 0x34,
            ScanCode::Backtick => 0x35,
            ScanCode::Comma => 0x36,
            ScanCode::Period => 0x37,
            ScanCode::Slash => 0x38,
            ScanCode::CapsLock => 0x39,
            ScanCode::F1 => 0x3a,
            ScanCode::F2 => 0x3b,
            ScanCode::F3 => 0x3c,
            ScanCode::F4 => 0x3d,
            ScanCode::F5 => 0x3e,
            ScanCode::F6 => 0x3f,
            ScanCode::F7 => 0x40,
            ScanCode::F8 => 0x41,
            ScanCode::F9 => 0x42,
            ScanCode::F10 => 0x43,
            ScanCode::F11 => 0x44,
            ScanCode::F12 => 0x45,
            ScanCode::Print => 0x46,
            ScanCode::ScrollLock => 0x47,
            ScanCode::Pause => 0x48,
            ScanCode::Insert => 0x49,
            ScanCode::Home => 0x4a,
            ScanCode::PageUp => 0x4b,
            ScanCode::Delete => 0x4c,
            ScanCode::End => 0x4d,
            ScanCode::PageDown => 0x4e,
            ScanCode::Right => 0x4f,
            ScanCode::Left => 0x50,
            ScanCode::Down => 0x51,
            ScanCode::Up => 0x52,
            ScanCode::Mute => 0x7f,
            ScanCode::VolumeUp => 0x80,
            ScanCode::VolumeDown => 0x81,
            ScanCode::LeftControl => 0xe0,
            ScanCode::LeftShift => 0xe1,
            ScanCode::LeftAlt => 0xe2,
            ScanCode::LeftMeta => 0xe3,
            ScanCode::RightControl => 0xe4,
            ScanCode::RightShift => 0xe5,
            ScanCode::RightAlt => 0xe6,
            ScanCode::RightMeta => 0xe7,
            ScanCode::Function => 0xf0,
            ScanCode::FunctionPair => 0xf1,
            ScanCode::FunctionBluetooth => 0xf2,
            ScanCode::FunctionUnifying => 0xf3,
            ScanCode::FunctionUnpairAll => 0xf4,
            ScanCode::FunctionToggleGameMode => 0xf5,
        }
    }

    /// The key's position in the key-state bitmap.
    pub fn code(self) -> (r: u8)
        ensures
            r == self.spec_code(),
    {
        match self {
            ScanCode::Invalid => 0x00,
            ScanCode::A => 0x04,
            ScanCode::B => 0x05,
            ScanCode::C => 0x06,
            ScanCode::D => 0x07,
            ScanCode::E => 0x08,
            ScanCode::F => 0x09,
            ScanCode::G => 0x0a,
            ScanCode::H => 0x0b,
            ScanCode::I => 0x0c,
            ScanCode::J => 0x0d,
            ScanCode::K => 0x0e,
            ScanCode::L => 0x0f,
            ScanCode::M => 0x10,
            ScanCode::N => 0x11,
            ScanCode::O => 0x12,
            ScanCode::P => 0x13,
            ScanCode::Q => 0x14,
            ScanCode::R => 0x15,
            ScanCode::S => 0x16,
            ScanCode::T => 0x17,
            ScanCode::U => 0x18,
            ScanCode::V => 0x19,
            ScanCode::W => 0x1a,
            ScanCode::X => 0x1b,
            ScanCode::Y => 0x1c,
            ScanCode::Z => 0x1d,
            ScanCode::Digit1 => 0x1e,
            ScanCode::Digit2 => 0x1f,
            ScanCode::Digit3 => 0x20,
            ScanCode::Digit4 => 0x21,
            ScanCode::Digit5 => 0x22,
            ScanCode::Digit6 => 0x23,
            ScanCode::Digit7 => 0x24,
            ScanCode::Digit8 => 0x25,
            ScanCode::Digit9 => 0x26,
            ScanCode::Digit0 => 0x27,
            ScanCode::Return => 0x28,
            ScanCode::Escape => 0x29,
            ScanCode::Backspace => 0x2a,
            ScanCode::Tab => 0x2b,
            ScanCode::Space => 0x2c,
            ScanCode::Minus => 0x2d,
            ScanCode::Equal => 0x2e,
            ScanCode::LeftBracket => 0x2f,
            ScanCode::RightBracket => 0x30,
            ScanCode::Backslash => 0x31,
            ScanCode::Semicolon => 0x33,
            ScanCode::Quote => 0x34,
            ScanCode::Backtick => 0x35,
            ScanCode::Comma => 0x36,
            ScanCode::Period => 0x37,
            ScanCode::Slash => 0x38,
            ScanCode::CapsLock => 0x39,
            ScanCode::F1 => 0x3a,
            ScanCode::F2 => 0x3b,
            ScanCode::F3 => 0x3c,
            ScanCode::F4 => 0x3d,
            ScanCode::F5 => 0x3e,
            ScanCode::F6 => 0x3f,
            ScanCode::F7 => 0x40,
            ScanCode::F8 => 0x41,
            ScanCode::F9 => 0x42,
            ScanCode::F10 => 0x43,
            ScanCode::F11 => 0x44,
            ScanCode::F12 => 0x45,
            ScanCode::Print => 0x46,
            ScanCode::ScrollLock => 0x47,
            ScanCode::Pause => 0x48,
            ScanCode::Insert => 0x49,
            ScanCode::Home => 0x4a,
            ScanCode::PageUp => 0x4b,
            ScanCode::Delete => 0x4c,
            ScanCode::End => 0x4d,
            ScanCode::PageDown => 0x4e,
            ScanCode::Right => 0x4f,
            ScanCode::Left => 0x50,
            ScanCode::Down => 0x51,
            ScanCode::Up => 0x52,
            ScanCode::Mute => 0x7f,
            ScanCode::VolumeUp => 0x80,
            ScanCode::VolumeDown => 0x81,
            ScanCode::LeftControl => 0xe0,
            ScanCode::LeftShift => 0xe1,
            ScanCode::LeftAlt => 0xe2,
            ScanCode::LeftMeta => 0xe3,
            ScanCode::RightControl => 0xe4,
            ScanCode::RightShift => 0xe5,
            ScanCode::RightAlt => 0xe6,
            ScanCode::RightMeta => 0xe7,
            ScanCode::Function => 0xf0,
            ScanCode::FunctionPair => 0xf1,
            ScanCode::FunctionBluetooth => 0xf2,
            ScanCode::FunctionUnifying => 0xf3,
            ScanCode::FunctionUnpairAll => 0xf4,
            ScanCode::FunctionToggleGameMode => 0xf5,
        }
    }

    /// Whether the key lies in the modifier range `0xE0..=0xE7`.
    pub open spec fn spec_is_modifier(self) -> bool {
        0xe0 <= self.spec_code() <= 0xe7
    }

    /// The key assigned to a code. Codes that no key carries map to
    /// `Invalid`.
    pub open spec fn spec_from_code(code: u8) -> ScanCode {
        if code == 0x04 { ScanCode::A }
        else if code == 0x05 { ScanCode::B }
        else if code == 0x06 { ScanCode::C }
        else if code == 0x07 { ScanCode::D }
        else if code == 0x08 { ScanCode::E }
        else if code == 0x09 { ScanCode::F }
        else if code == 0x0a { ScanCode::G }
        else if code == 0x0b { ScanCode::H }
        else if code == 0x0c { ScanCode::I }
        else if code == 0x0d { ScanCode::J }
        else if code == 0x0e { ScanCode::K }
        else if code == 0x0f { ScanCode::L }
        else if code == 0x10 { ScanCode::M }
        else if code == 0x11 { ScanCode::N }
        else if code == 0x12 { ScanCode::O }
        else if code == 0x13 { ScanCode::P }
        else if code == 0x14 { ScanCode::Q }
        else if code == 0x15 { ScanCode::R }
        else if code == 0x16 { ScanCode::S }
        else if code == 0x17 { ScanCode::T }
        else if code == 0x18 { ScanCode::U }
        else if code == 0x19 { ScanCode::V }
        else if code == 0x1a { ScanCode::W }
        else if code == 0x1b { ScanCode::X }
        else if code == 0x1c { ScanCode::Y }
        else if code == 0x1d { ScanCode::Z }
        else if code == 0x1e { ScanCode::Digit1 }
        else if code == 0x1f { ScanCode::Digit2 }
        else if code == 0x20 { ScanCode::Digit3 }
        else if code == 0x21 { ScanCode::Digit4 }
        else if code == 0x22 { ScanCode::Digit5 }
        else if code == 0x23 { ScanCode::Digit6 }
        else if code == 0x24 { ScanCode::Digit7 }
        else if code == 0x25 { ScanCode::Digit8 }
        else if code == 0x26 { ScanCode::Digit9 }
        else if code == 0x27 { ScanCode::Digit0 }
        else if code == 0x28 { ScanCode::Return }
        else if code == 0x29 { ScanCode::Escape }
        else if code == 0x2a { ScanCode::Backspace }
        else if code == 0x2b { ScanCode::Tab }
        else if code == 0x2c { ScanCode::Space }
        else if code == 0x2d { ScanCode::Minus }
        else if code == 0x2e { ScanCode::Equal }
        else if code == 0x2f { ScanCode::LeftBracket }
        else if code == 0x30 { ScanCode::RightBracket }
        else if code == 0x31 { ScanCode::Backslash }
        else if code == 0x33 { ScanCode::Semicolon }
        else if code == 0x34 { ScanCode::Quote }
        else if code == 0x35 { ScanCode::Backtick }
        else if code == 0x36 { ScanCode::Comma }
        else if code == 0x37 { ScanCode::Period }
        else if code == 0x38 { ScanCode::Slash }
        else if code == 0x39 { ScanCode::CapsLock }
        else if code == 0x3a { ScanCode::F1 }
        else if code == 0x3b { ScanCode::F2 }
        else if code == 0x3c { ScanCode::F3 }
        else if code == 0x3d { ScanCode::F4 }
        else if code == 0x3e { ScanCode::F5 }
        else if code == 0x3f { ScanCode::F6 }
        else if code == 0x40 { ScanCode::F7 }
        else if code == 0x41 { ScanCode::F8 }
        else if code == 0x42 { ScanCode::F9 }
        else if code == 0x43 { ScanCode::F10 }
        else if code == 0x44 { ScanCode::F11 }
        else if code == 0x45 { ScanCode::F12 }
        else if code == 0x46 { ScanCode::Print }
        else if code == 0x47 { ScanCode::ScrollLock }
        else if code == 0x48 { ScanCode::Pause }
        else if code == 0x49 { ScanCode::Insert }
        else if code == 0x4a { ScanCode::Home }
        else if code == 0x4b { ScanCode::PageUp }
        else if code == 0x4c { ScanCode::Delete }
        else if code == 0x4d { ScanCode::End }
        else if code == 0x4e { ScanCode::PageDown }
        else if code == 0x4f { ScanCode::Right }
        else if code == 0x50 { ScanCode::Left }
        else if code == 0x51 { ScanCode::Down }
        else if code == 0x52 { ScanCode::Up }
        else if code == 0x7f { ScanCode::Mute }
        else if code == 0x80 { ScanCode::VolumeUp }
        else if code == 0x81 { ScanCode::VolumeDown }
        else if code == 0xe0 { ScanCode::LeftControl }
        else if code == 0xe1 { ScanCode::LeftShift }
        else if code == 0xe2 { ScanCode::LeftAlt }
        else if code == 0xe3 { ScanCode::LeftMeta }
        else if code == 0xe4 { ScanCode::RightControl }
        else if code == 0xe5 { ScanCode::RightShift }
        else if code == 0xe6 { ScanCode::RightAlt }
        else if code == 0xe7 { ScanCode::RightMeta }
        else if code == 0xf0 { ScanCode::Function }
        else if code == 0xf1 { ScanCode::FunctionPair }
        else if code == 0xf2 { ScanCode::FunctionBluetooth }
        else if code == 0xf3 { ScanCode::FunctionUnifying }
        else if code == 0xf4 { ScanCode::FunctionUnpairAll }
        else if code == 0xf5 { ScanCode::FunctionToggleGameMode }
        else { ScanCode::Invalid }
    }

    /// The key assigned to a code; `Invalid` for codes no key carries.
    pub fn from_code(code: u8) -> (r: ScanCode)
        ensures
            r == ScanCode::spec_from_code(code),
    {
        if code == 0x04 { ScanCode::A }
        else if code == 0x05 { ScanCode::B }
        else if code == 0x06 { ScanCode::C }
        else if code == 0x07 { ScanCode::D }
        else if code == 0x08 { ScanCode::E }
        else if code == 0x09 { ScanCode::F }
        else if code == 0x0a { ScanCode::G }
        else if code == 0x0b { ScanCode::H }
        else if code == 0x0c { ScanCode::I }
        else if code == 0x0d { ScanCode::J }
        else if code == 0x0e { ScanCode::K }
        else if code == 0x0f { ScanCode::L }
        else if code == 0x10 { ScanCode::M }
        else if code == 0x11 { ScanCode::N }
        else if code == 0x12 { ScanCode::O }
        else if code == 0x13 { ScanCode::P }
        else if code == 0x14 { ScanCode::Q }
        else if code == 0x15 { ScanCode::R }
        else if code == 0x16 { ScanCode::S }
        else if code == 0x17 { ScanCode::T }
        else if code == 0x18 { ScanCode::U }
        else if code == 0x19 { ScanCode::V }
        else if code == 0x1a { ScanCode::W }
        else if code == 0x1b { ScanCode::X }
        else if code == 0x1c { ScanCode::Y }
        else if code == 0x1d { ScanCode::Z }
        else if code == 0x1e { ScanCode::Digit1 }
        else if code == 0x1f { ScanCode::Digit2 }
        else if code == 0x20 { ScanCode::Digit3 }
        else if code == 0x21 { ScanCode::Digit4 }
        else if code == 0x22 { ScanCode::Digit5 }
        else if code == 0x23 { ScanCode::Digit6 }
        else if code == 0x24 { ScanCode::Digit7 }
        else if code == 0x25 { ScanCode::Digit8 }
        else if code == 0x26 { ScanCode::Digit9 }
        else if code == 0x27 { ScanCode::Digit0 }
        else if code == 0x28 { ScanCode::Return }
        else if code == 0x29 { ScanCode::Escape }
        else if code == 0x2a { ScanCode::Backspace }
        else if code == 0x2b { ScanCode::Tab }
        else if code == 0x2c { ScanCode::Space }
        else if code == 0x2d { ScanCode::Minus }
        else if code == 0x2e { ScanCode::Equal }
        else if code == 0x2f { ScanCode::LeftBracket }
        else if code == 0x30 { ScanCode::RightBracket }
        else if code == 0x31 { ScanCode::Backslash }
        else if code == 0x33 { ScanCode::Semicolon }
        else if code == 0x34 { ScanCode::Quote }
        else if code == 0x35 { ScanCode::Backtick }
        else if code == 0x36 { ScanCode::Comma }
        else if code == 0x37 { ScanCode::Period }
        else if code == 0x38 { ScanCode::Slash }
        else if code == 0x39 { ScanCode::CapsLock }
        else if code == 0x3a { ScanCode::F1 }
        else if code == 0x3b { ScanCode::F2 }
        else if code == 0x3c { ScanCode::F3 }
        else if code == 0x3d { ScanCode::F4 }
        else if code == 0x3e { ScanCode::F5 }
        else if code == 0x3f { ScanCode::F6 }
        else if code == 0x40 { ScanCode::F7 }
        else if code == 0x41 { ScanCode::F8 }
        else if code == 0x42 { ScanCode::F9 }
        else if code == 0x43 { ScanCode::F10 }
        else if code == 0x44 { ScanCode::F11 }
        else if code == 0x45 { ScanCode::F12 }
        else if code == 0x46 { ScanCode::Print }
        else if code == 0x47 { ScanCode::ScrollLock }
        else if code == 0x48 { ScanCode::Pause }
        else if code == 0x49 { ScanCode::Insert }
        else if code == 0x4a { ScanCode::Home }
        else if code == 0x4b { ScanCode::PageUp }
        else if code == 0x4c { ScanCode::Delete }
        else if code == 0x4d { ScanCode::End }
        else if code == 0x4e { ScanCode::PageDown }
        else if code == 0x4f { ScanCode::Right }
        else if code == 0x50 { ScanCode::Left }
        else if code == 0x51 { ScanCode::Down }
        else if code == 0x52 { ScanCode::Up }
        else if code == 0x7f { ScanCode::Mute }
        else if code == 0x80 { ScanCode::VolumeUp }
        else if code == 0x81 { ScanCode::VolumeDown }
        else if code == 0xe0 { ScanCode::LeftControl }
        else if code == 0xe1 { ScanCode::LeftShift }
        else if code == 0xe2 { ScanCode::LeftAlt }
        else if code == 0xe3 { ScanCode::LeftMeta }
        else if code == 0xe4 { ScanCode::RightControl }
        else if code == 0xe5 { ScanCode::RightShift }
        else if code == 0xe6 { ScanCode::RightAlt }
        else if code == 0xe7 { ScanCode::RightMeta }
        else if code == 0xf0 { ScanCode::Function }
        else if code == 0xf1 { ScanCode::FunctionPair }
        else if code == 0xf2 { ScanCode::FunctionBluetooth }
        else if code == 0xf3 { ScanCode::FunctionUnifying }
        else if code == 0xf4 { ScanCode::FunctionUnpairAll }
        else if code == 0xf5 { ScanCode::FunctionToggleGameMode }
        else { ScanCode::Invalid }
    }
}

/// Every key is recovered from its own code: codes are assigned
/// injectively.
pub proof fn lemma_code_roundtrip(key: ScanCode)
    ensures
        ScanCode::spec_from_code(key.spec_code()) == key,
{
}

} // verus!

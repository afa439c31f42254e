//! The key vocabulary: raw platform key codes as the capture thread sees
//! them, the normalized logical keys that bindings speak of, and the fixed
//! tables that take one to the other.

use vstd::prelude::*;
use crate::modifiers;

verus! {

/// A raw platform key code, as delivered by the operating system's hook.
/// `Unknown` stands for every code the normalizer has no use for.
#[derive(Debug, Clone, Copy, PartialEq, Eq, Hash, Structural)]
pub enum KeyCode {
    Alt,
    AltGr,
    Backspace,
    CapsLock,
    ControlLeft,
    ControlRight,
    Delete,
    DownArrow,
    End,
    Escape,
    F1,
    F2,
    F3,
    F4,
    F5,
    F6,
    F7,
    F8,
    F9,
    F10,
    F11,
    F12,
    Home,
    LeftArrow,
    MetaLeft,
    MetaRight,
    PageDown,
    PageUp,
    Pause,
    NumLock,
    PrintScreen,
    Return,
    RightArrow,
    ScrollLock,
    ShiftLeft,
    ShiftRight,
    Space,
    Tab,
    UpArrow,
    BackQuote,
    Num0,
    Num1,
    Num2,
    Num3,
    Num4,
    Num5,
    Num6,
    Num7,
    Num8,
    Num9,
    Minus,
    Equal,
    KeyQ,
    KeyW,
    KeyE,
    KeyR,
    KeyT,
    KeyY,
    KeyU,
    KeyI,
    KeyO,
    KeyP,
    LeftBracket,
    RightBracket,
    KeyA,
    KeyS,
    KeyD,
    KeyF,
    KeyG,
    KeyH,
    KeyJ,
    KeyK,
    KeyL,
    SemiColon,
    Quote,
    BackSlash,
    IntlBackslash,
    KeyZ,
    KeyX,
    KeyC,
    KeyV,
    KeyB,
    KeyN,
    KeyM,
    Comma,
    Dot,
    Slash,
    Insert,
    KpReturn,
    KpMinus,
    KpPlus,
    KpMultiply,
    KpDivide,
    KpDelete,
    Function,
    Unknown,
}

/// The normalized logical key identity that bindings are written against:
/// letters, digits and symbols through the `Other` escape hatch, plus the
/// named function, navigation and keypad keys.
#[derive(Debug, Clone, Copy, PartialEq, Eq, Hash, Structural)]
pub enum Key {
    Backspace,
    Delete,
    Down,
    Up,
    Left,
    Right,
    End,
    Escape,
    F1,
    F2,
    F3,
    F4,
    F5,
    F6,
    F7,
    F8,
    F9,
    F10,
    F11,
    F12,
    Home,
    PageDown,
    PageUp,
    Return,
    Space,
    Tab,
    PrintScreen,
    ScrollLock,
    Pause,
    NumLock,
    Kp0,
    Kp1,
    Kp2,
    Kp3,
    Kp4,
    Kp5,
    Kp6,
    Kp7,
    Kp8,
    Kp9,
    Insert,
    KpReturn,
    KpMinus,
    KpPlus,
    KpMultiply,
    KpDivide,
    KpDelete,
    Function,
    /// An arbitrary character key.
    Other(char),
}

/// The modifier bit a raw code contributes, or zero for a code that is not
/// a modifier. The caps-lock key is repurposed as the screen reader's own
/// engagement modifier.
pub open spec fn spec_code_modifier(code: KeyCode) -> u16 {
    match code {
        KeyCode::CapsLock => modifiers::ODILIA,
        KeyCode::Alt => modifiers::ALT_L,
        KeyCode::AltGr => modifiers::ALT_R,
        KeyCode::ControlLeft => modifiers::CONTROL_L,
        KeyCode::ControlRight => modifiers::CONTROL_R,
        KeyCode::ShiftLeft => modifiers::SHIFT_L,
        KeyCode::ShiftRight => modifiers::SHIFT_R,
        KeyCode::MetaLeft => modifiers::META_L,
        KeyCode::MetaRight => modifiers::META_R,
        _ => modifiers::NONE,
    }
}

/// Executable form of [`spec_code_modifier`].
pub fn code_modifier(code: KeyCode) -> (r: u16)
    ensures
        r == spec_code_modifier(code),
{
    match code {
        KeyCode::CapsLock => modifiers::ODILIA,
        KeyCode::Alt => modifiers::ALT_L,
        KeyCode::AltGr => modifiers::ALT_R,
        KeyCode::ControlLeft => modifiers::CONTROL_L,
        KeyCode::ControlRight => modifiers::CONTROL_R,
        KeyCode::ShiftLeft => modifiers::SHIFT_L,
        KeyCode::ShiftRight => modifiers::SHIFT_R,
        KeyCode::MetaLeft => modifiers::META_L,
        KeyCode::MetaRight => modifiers::META_R,
        _ => modifiers::NONE,
    }
}

/// The logical key a raw code stands for, or `None` for modifiers and for
/// codes outside the normalizer's vocabulary.
pub open spec fn spec_code_to_key(code: KeyCode) -> Option<Key> {
    match code {
        KeyCode::Backspace => Some(Key::Backspace),
        KeyCode::Delete => Some(Key::Delete),
        KeyCode::DownArrow => Some(Key::Down),
        KeyCode::UpArrow => Some(Key::Up),
        KeyCode::LeftArrow => Some(Key::Left),
        KeyCode::RightArrow => Some(Key::Right),
        KeyCode::End => Some(Key::End),
        KeyCode::Escape => Some(Key::Escape),
        KeyCode::F1 => Some(Key::F1),
        KeyCode::F2 => Some(Key::F2),
        KeyCode::F3 => Some(Key::F3),
        KeyCode::F4 => Some(Key::F4),
        KeyCode::F5 => Some(Key::F5),
        KeyCode::F6 => Some(Key::F6),
        KeyCode::F7 => Some(Key::F7),
        KeyCode::F8 => Some(Key::F8),
        KeyCode::F9 => Some(Key::F9),
        KeyCode::F10 => Some(Key::F10),
        KeyCode::F11 => Some(Key::F11),
        KeyCode::F12 => Some(Key::F12),
        KeyCode::Home => Some(Key::Home),
        KeyCode::PageDown => Some(Key::PageDown),
        KeyCode::PageUp => Some(Key::PageUp),
        KeyCode::Return => Some(Key::Return),
        KeyCode::Space => Some(Key::Space),
        KeyCode::Tab => Some(Key::Tab),
        KeyCode::PrintScreen => Some(Key::PrintScreen),
        KeyCode::ScrollLock => Some(Key::ScrollLock),
        KeyCode::Pause => Some(Key::Pause),
        KeyCode::NumLock => Some(Key::NumLock),
        KeyCode::BackQuote => Some(Key::Other('`')),
        KeyCode::Num0 => Some(Key::Kp0),
        KeyCode::Num1 => Some(Key::Kp1),
        KeyCode::Num2 => Some(Key::Kp2),
        KeyCode::Num3 => Some(Key::Kp3),
        KeyCode::Num4 => Some(Key::Kp4),
        KeyCode::Num5 => Some(Key::Kp5),
        KeyCode::Num6 => Some(Key::Kp6),
        KeyCode::Num7 => Some(Key::Kp7),
        KeyCode::Num8 => Some(Key::Kp8),
        KeyCode::Num9 => Some(Key::Kp9),
        KeyCode::Minus => Some(Key::Other('-')),
        KeyCode::Equal => Some(Key::Other('=')),
        KeyCode::KeyQ => Some(Key::Other('q')),
        KeyCode::KeyW => Some(Key::Other('w')),
        KeyCode::KeyE => Some(Key::Other('e')),
        KeyCode::KeyR => Some(Key::Other('r')),
        KeyCode::KeyT => Some(Key::Other('t')),
        KeyCode::KeyY => Some(Key::Other('y')),
        KeyCode::KeyU => Some(Key::Other('u')),
        KeyCode::KeyI => Some(Key::Other('i')),
        KeyCode::KeyO => Some(Key::Other('o')),
        KeyCode::KeyP => Some(Key::Other('p')),
        KeyCode::LeftBracket => Some(Key::Other('[')),
        KeyCode::RightBracket => Some(Key::Other(']')),
        KeyCode::KeyA => Some(Key::Other('a')),
        KeyCode::KeyS => Some(Key::Other('s')),
        KeyCode::KeyD => Some(Key::Other('d')),
        KeyCode::KeyF => Some(Key::Other('f')),
        KeyCode::KeyG => Some(Key::Other('g')),
        KeyCode::KeyH => Some(Key::Other('h')),
        KeyCode::KeyJ => Some(Key::Other('j')),
        KeyCode::KeyK => Some(Key::Other('k')),
        KeyCode::KeyL => Some(Key::Other('l')),
        KeyCode::SemiColon => Some(Key::Other(';')),
        KeyCode::Quote => Some(Key::Other('\'')),
        KeyCode::BackSlash => Some(Key::Other('\\')),
        KeyCode::IntlBackslash => Some(Key::Other('\\')),
        KeyCode::KeyZ => Some(Key::Other('z')),
        KeyCode::KeyX => Some(Key::Other('x')),
        KeyCode::KeyC => Some(Key::Other('c')),
        KeyCode::KeyV => Some(Key::Other('v')),
        KeyCode::KeyB => Some(Key::Other('b')),
        KeyCode::KeyN => Some(Key::Other('n')),
        KeyCode::Comma => Some(Key::Other(',')),
        KeyCode::Dot => Some(Key::Other('.')),
        KeyCode::Slash => Some(Key::Other('/')),
        KeyCode::Insert => Some(Key::Insert),
        KeyCode::KpReturn => Some(Key::KpReturn),
        KeyCode::KpMinus => Some(Key::KpMinus),
        KeyCode::KpPlus => Some(Key::KpPlus),
        KeyCode::KpMultiply => Some(Key::KpMultiply),
        KeyCode::KpDivide => Some(Key::KpDivide),
        KeyCode::KpDelete => Some(Key::KpDelete),
        KeyCode::Function => Some(Key::Function),
        _ => None,
    }
}

/// Executable form of [`spec_code_to_key`].
pub fn code_to_key(code: KeyCode) -> (r: Option<Key>)
    ensures
        r == spec_code_to_key(code),
{
    match code {
        KeyCode::Backspace => Some(Key::Backspace),
        KeyCode::Delete => Some(Key::Delete),
        KeyCode::DownArrow => Some(Key::Down),
        KeyCode::UpArrow => Some(Key::Up),
        KeyCode::LeftArrow => Some(Key::Left),
        KeyCode::RightArrow => Some(Key::Right),
        KeyCode::End => Some(Key::End),
        KeyCode::Escape => Some(Key::Escape),
        KeyCode::F1 => Some(Key::F1),
        KeyCode::F2 => Some(Key::F2),
        KeyCode::F3 => Some(Key::F3),
        KeyCode::F4 => Some(Key::F4),
        KeyCode::F5 => Some(Key::F5),
        KeyCode::F6 => Some(Key::F6),
        KeyCode::F7 => Some(Key::F7),
        KeyCode::F8 => Some(Key::F8),
        KeyCode::F9 => Some(Key::F9),
        KeyCode::F10 => Some(Key::F10),
        KeyCode::F11 => Some(Key::F11),
        KeyCode::F12 => Some(Key::F12),
        KeyCode::Home => Some(Key::Home),
        KeyCode::PageDown => Some(Key::PageDown),
        KeyCode::PageUp => Some(Key::PageUp),
        KeyCode::Return => Some(Key::Return),
        KeyCode::Space => Some(Key::Space),
        KeyCode::Tab => Some(Key::Tab),
        KeyCode::PrintScreen => Some(Key::PrintScreen),
        KeyCode::ScrollLock => Some(Key::ScrollLock),
        KeyCode::Pause => Some(Key::Pause),
        KeyCode::NumLock => Some(Key::NumLock),
        KeyCode::BackQuote => Some(Key::Other('`')),
        KeyCode::Num0 => Some(Key::Kp0),
        KeyCode::Num1 => Some(Key::Kp1),
        KeyCode::Num2 => Some(Key::Kp2),
        KeyCode::Num3 => Some(Key::Kp3),
        KeyCode::Num4 => Some(Key::Kp4),
        KeyCode::Num5 => Some(Key::Kp5),
        KeyCode::Num6 => Some(Key::Kp6),
        KeyCode::Num7 => Some(Key::Kp7),
        KeyCode::Num8 => Some(Key::Kp8),
        KeyCode::Num9 => Some(Key::Kp9),
        KeyCode::Minus => Some(Key::Other('-')),
        KeyCode::Equal => Some(Key::Other('=')),
        KeyCode::KeyQ => Some(Key::Other('q')),
        KeyCode::KeyW => Some(Key::Other('w')),
        KeyCode::KeyE => Some(Key::Other('e')),
        KeyCode::KeyR => Some(Key::Other('r')),
        KeyCode::KeyT => Some(Key::Other('t')),
        KeyCode::KeyY => Some(Key::Other('y')),
        KeyCode::KeyU => Some(Key::Other('u')),
        KeyCode::KeyI => Some(Key::Other('i')),
        KeyCode::KeyO => Some(Key::Other('o')),
        KeyCode::KeyP => Some(Key::Other('p')),
        KeyCode::LeftBracket => Some(Key::Other('[')),
        KeyCode::RightBracket => Some(Key::Other(']')),
        KeyCode::KeyA => Some(Key::Other('a')),
        KeyCode::KeyS => Some(Key::Other('s')),
        KeyCode::KeyD => Some(Key::Other('d')),
        KeyCode::KeyF => Some(Key::Other('f')),
        KeyCode::KeyG => Some(Key::Other('g')),
        KeyCode::KeyH => Some(Key::Other('h')),
        KeyCode::KeyJ => Some(Key::Other('j')),
        KeyCode::KeyK => Some(Key::Other('k')),
        KeyCode::KeyL => Some(Key::Other('l')),
        KeyCode::SemiColon => Some(Key::Other(';')),
        KeyCode::Quote => Some(Key::Other('\'')),
        KeyCode::BackSlash => Some(Key::Other('\\')),
        KeyCode::IntlBackslash => Some(Key::Other('\\')),
        KeyCode::KeyZ => Some(Key::Other('z')),
        KeyCode::KeyX => Some(Key::Other('x')),
        KeyCode::KeyC => Some(Key::Other('c')),
        KeyCode::KeyV => Some(Key::Other('v')),
        KeyCode::KeyB => Some(Key::Other('b')),
        KeyCode::KeyN => Some(Key::Other('n')),
        KeyCode::Comma => Some(Key::Other(',')),
        KeyCode::Dot => Some(Key::Other('.')),
        KeyCode::Slash => Some(Key::Other('/')),
        KeyCode::Insert => Some(Key::Insert),
        KeyCode::KpReturn => Some(Key::KpReturn),
        KeyCode::KpMinus => Some(Key::KpMinus),
        KeyCode::KpPlus => Some(Key::KpPlus),
        KeyCode::KpMultiply => Some(Key::KpMultiply),
        KeyCode::KpDivide => Some(Key::KpDivide),
        KeyCode::KpDelete => Some(Key::KpDelete),
        KeyCode::Function => Some(Key::Function),
        _ => None,
    }
}

} // verus!

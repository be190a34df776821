//! Key and mouse-button codes.
//!
//! Input events name keys and buttons by their physical position; the
//! keyboard layouts name them by the numeric codes that Windows uses for
//! virtual keys and mouse buttons. The two functions here map the first onto
//! the second.

use vstd::prelude::*;

verus! {

/// A key, named after its place on a QWERTY keyboard, as the input listener
/// reports it.
#[derive(Debug, Clone, Copy, PartialEq, Eq, Structural, Hash)]
pub enum Key {
    Alt,
    AltGr,
    Backspace,
    CapsLock,
    ControlLeft,
    ControlRight,
    Delete,
    DownArrow,
    End,
    Escape,
    F1,
    F10,
    F11,
    F12,
    F2,
    F3,
    F4,
    F5,
    F6,
    F7,
    F8,
    F9,
    Home,
    LeftArrow,
    MetaLeft,
    MetaRight,
    PageDown,
    PageUp,
    Return,
    RightArrow,
    ShiftLeft,
    ShiftRight,
    Space,
    Tab,
    UpArrow,
    PrintScreen,
    ScrollLock,
    Pause,
    NumLock,
    BackQuote,
    Num1,
    Num2,
    Num3,
    Num4,
    Num5,
    Num6,
    Num7,
    Num8,
    Num9,
    Num0,
    Minus,
    Equal,
    KeyQ,
    KeyW,
    KeyE,
    KeyR,
    KeyT,
    KeyY,
    KeyU,
    KeyI,
    KeyO,
    KeyP,
    LeftBracket,
    RightBracket,
    KeyA,
    KeyS,
    KeyD,
    KeyF,
    KeyG,
    KeyH,
    KeyJ,
    KeyK,
    KeyL,
    SemiColon,
    Quote,
    BackSlash,
    IntlBackslash,
    KeyZ,
    KeyX,
    KeyC,
    KeyV,
    KeyB,
    KeyN,
    KeyM,
    Comma,
    Dot,
    Slash,
    Insert,
    KpReturn,
    KpMinus,
    KpPlus,
    KpMultiply,
    KpDivide,
    Kp0,
    Kp1,
    Kp2,
    Kp3,
    Kp4,
    Kp5,
    Kp6,
    Kp7,
    Kp8,
    Kp9,
    KpDelete,
    Function,
    Unknown(u32),
}

/// A mouse button as the input listener reports it.
#[derive(Debug, Clone, Copy, PartialEq, Eq, Structural, Hash)]
pub enum Button {
    Left,
    Right,
    Middle,
    Unknown(u8),
}

/// The raw key number under which the listener reports the Menu key.
pub const MENU_RAW_KEY: u32 = 135;

/// The code of a key, or `None` for a key that has no code.
pub open spec fn key_code(key: Key) -> Option<u32> {
    match key {
        Key::Backspace => Some(8u32),
        Key::Tab => Some(9u32),
        Key::Return => Some(13u32),
        Key::Pause => Some(19u32),
        Key::CapsLock => Some(20u32),
        Key::Escape => Some(27u32),
        Key::Space => Some(32u32),
        Key::PageUp => Some(33u32),
        Key::PageDown => Some(34u32),
        Key::End => Some(35u32),
        Key::Home => Some(36u32),
        Key::LeftArrow => Some(37u32),
        Key::UpArrow => Some(38u32),
        Key::RightArrow => Some(39u32),
        Key::DownArrow => Some(40u32),
        Key::PrintScreen => Some(44u32),
        Key::Insert => Some(45u32),
        Key::Delete => Some(46u32),
        Key::Num0 => Some(48u32),
        Key::Num1 => Some(49u32),
        Key::Num2 => Some(50u32),
        Key::Num3 => Some(51u32),
        Key::Num4 => Some(52u32),
        Key::Num5 => Some(53u32),
        Key::Num6 => Some(54u32),
        Key::Num7 => Some(55u32),
        Key::Num8 => Some(56u32),
        Key::Num9 => Some(57u32),
        Key::KeyA => Some(65u32),
        Key::KeyB => Some(66u32),
        Key::KeyC => Some(67u32),
        Key::KeyD => Some(68u32),
        Key::KeyE => Some(69u32),
        Key::KeyF => Some(70u32),
        Key::KeyG => Some(71u32),
        Key::KeyH => Some(72u32),
        Key::KeyI => Some(73u32),
        Key::KeyJ => Some(74u32),
        Key::KeyK => Some(75u32),
        Key::KeyL => Some(76u32),
        Key::KeyM => Some(77u32),
        Key::KeyN => Some(78u32),
        Key::KeyO => Some(79u32),
        Key::KeyP => Some(80u32),
        Key::KeyQ => Some(81u32),
        Key::KeyR => Some(82u32),
        Key::KeyS => Some(83u32),
        Key::KeyT => Some(84u32),
        Key::KeyU => Some(85u32),
        Key::KeyV => Some(86u32),
        Key::KeyW => Some(87u32),
        Key::KeyX => Some(88u32),
        Key::KeyY => Some(89u32),
        Key::KeyZ => Some(90u32),
        Key::MetaLeft => Some(91u32),
        Key::MetaRight => Some(92u32),
        Key::Kp0 => Some(96u32),
        Key::Kp1 => Some(97u32),
        Key::Kp2 => Some(98u32),
        Key::Kp3 => Some(99u32),
        Key::Kp4 => Some(100u32),
        Key::Kp5 => Some(101u32),
        Key::Kp6 => Some(102u32),
        Key::Kp7 => Some(103u32),
        Key::Kp8 => Some(104u32),
        Key::Kp9 => Some(105u32),
        Key::KpMultiply => Some(106u32),
        Key::KpPlus => Some(107u32),
        Key::KpMinus => Some(109u32),
        Key::KpDelete => Some(110u32),
        Key::KpDivide => Some(111u32),
        Key::F1 => Some(112u32),
        Key::F2 => Some(113u32),
        Key::F3 => Some(114u32),
        Key::F4 => Some(115u32),
        Key::F5 => Some(116u32),
        Key::F6 => Some(117u32),
        Key::F7 => Some(118u32),
        Key::F8 => Some(119u32),
        Key::F9 => Some(120u32),
        Key::F10 => Some(121u32),
        Key::F11 => Some(122u32),
        Key::F12 => Some(123u32),
        Key::ScrollLock => Some(145u32),
        Key::ShiftLeft => Some(160u32),
        Key::ShiftRight => Some(161u32),
        Key::ControlLeft => Some(162u32),
        Key::ControlRight => Some(163u32),
        Key::Alt => Some(164u32),
        Key::AltGr => Some(165u32),
        Key::SemiColon => Some(186u32),
        Key::Equal => Some(187u32),
        Key::Comma => Some(188u32),
        Key::Minus => Some(189u32),
        Key::Dot => Some(190u32),
        Key::Slash => Some(191u32),
        Key::BackQuote => Some(192u32),
        Key::LeftBracket => Some(219u32),
        Key::BackSlash => Some(220u32),
        Key::RightBracket => Some(221u32),
        Key::Quote => Some(222u32),
        Key::NumLock => Some(144u32),
        Key::KpReturn => Some(1025u32),
        Key::Unknown(raw) => if raw == MENU_RAW_KEY { Some(93u32) } else { None },
        _ => None,
    }
}

/// The code of a mouse button, or `None` for a button that has no code.
///
/// The two side buttons each arrive under two raw numbers, depending on the
/// platform.
pub open spec fn button_code(button: Button) -> Option<u32> {
    match button {
        Button::Left => Some(0u32),
        Button::Middle => Some(2u32),
        Button::Right => Some(1u32),
        Button::Unknown(raw) => if raw == 8 || raw == 19 {
            Some(3u32)
        } else if raw == 9 || raw == 20 {
            Some(4u32)
        } else {
            None
        },
    }
}

/// Maps a mouse button to its code; a button without one is handed back as
/// the error.
pub fn mouse_button_code_convert(rdev_button: Button) -> (r: Result<u32, Button>)
    ensures
        match button_code(rdev_button) {
            Some(code) => r == Ok::<u32, Button>(code),
            None => r == Err::<u32, Button>(rdev_button),
        },
{
    match rdev_button {
        Button::Left => Ok(0),
        Button::Middle => Ok(2),
        Button::Right => Ok(1),
        Button::Unknown(code) => {
            if code == 8 || code == 19 {
                Ok(3)
            } else if code == 9 || code == 20 {
                Ok(4)
            } else {
                Err(rdev_button)
            }
        },
    }
}

/// Maps a key to its code; a key without one is handed back as the error.
pub fn keycode_convert(rdev_key: Key) -> (r: Result<u32, Key>)
    ensures
        match key_code(rdev_key) {
            Some(code) => r == Ok::<u32, Key>(code),
            None => r == Err::<u32, Key>(rdev_key),
        },
{
    match rdev_key {
        Key::Backspace => Ok(8),
        Key::Tab => Ok(9),
        Key::Return => Ok(13),
        Key::Pause => Ok(19),
        Key::CapsLock => Ok(20),
        Key::Escape => Ok(27),
        Key::Space => Ok(32),
        Key::PageUp => Ok(33),
        Key::PageDown => Ok(34),
        Key::End => Ok(35),
        Key::Home => Ok(36),
        Key::LeftArrow => Ok(37),
        Key::UpArrow => Ok(38),
        Key::RightArrow => Ok(39),
        Key::DownArrow => Ok(40),
        Key::PrintScreen => Ok(44),
        Key::Insert => Ok(45),
        Key::Delete => Ok(46),
        Key::Num0 => Ok(48),
        Key::Num1 => Ok(49),
        Key::Num2 => Ok(50),
        Key::Num3 => Ok(51),
        Key::Num4 => Ok(52),
        Key::Num5 => Ok(53),
        Key::Num6 => Ok(54),
        Key::Num7 => Ok(55),
        Key::Num8 => Ok(56),
        Key::Num9 => Ok(57),
        Key::KeyA => Ok(65),
        Key::KeyB => Ok(66),
        Key::KeyC => Ok(67),
        Key::KeyD => Ok(68),
        Key::KeyE => Ok(69),
        Key::KeyF => Ok(70),
        Key::KeyG => Ok(71),
        Key::KeyH => Ok(72),
        Key::KeyI => Ok(73),
        Key::KeyJ => Ok(74),
        Key::KeyK => Ok(75),
        Key::KeyL => Ok(76),
        Key::KeyM => Ok(77),
        Key::KeyN => Ok(78),
        Key::KeyO => Ok(79),
        Key::KeyP => Ok(80),
        Key::KeyQ => Ok(81),
        Key::KeyR => Ok(82),
        Key::KeyS => Ok(83),
        Key::KeyT => Ok(84),
        Key::KeyU => Ok(85),
        Key::KeyV => Ok(86),
        Key::KeyW => Ok(87),
        Key::KeyX => Ok(88),
        Key::KeyY => Ok(89),
        Key::KeyZ => Ok(90),
        Key::MetaLeft => Ok(91),
        Key::MetaRight => Ok(92),
        Key::Kp0 => Ok(96),
        Key::Kp1 => Ok(97),
        Key::Kp2 => Ok(98),
        Key::Kp3 => Ok(99),
        Key::Kp4 => Ok(100),
        Key::Kp5 => Ok(101),
        Key::Kp6 => Ok(102),
        Key::Kp7 => Ok(103),
        Key::Kp8 => Ok(104),
        Key::Kp9 => Ok(105),
        Key::KpMultiply => Ok(106),
        Key::KpPlus => Ok(107),
        Key::KpMinus => Ok(109),
        Key::KpDelete => Ok(110),
        Key::KpDivide => Ok(111),
        Key::F1 => Ok(112),
        Key::F2 => Ok(113),
        Key::F3 => Ok(114),
        Key::F4 => Ok(115),
        Key::F5 => Ok(116),
        Key::F6 => Ok(117),
        Key::F7 => Ok(118),
        Key::F8 => Ok(119),
        Key::F9 => Ok(120),
        Key::F10 => Ok(121),
        Key::F11 => Ok(122),
        Key::F12 => Ok(123),
        Key::ScrollLock => Ok(145),
        Key::ShiftLeft => Ok(160),
        Key::ShiftRight => Ok(161),
        Key::ControlLeft => Ok(162),
        Key::ControlRight => Ok(163),
        Key::Alt => Ok(164),
        Key::AltGr => Ok(165),
        Key::SemiColon => Ok(186),
        Key::Equal => Ok(187),
        Key::Comma => Ok(188),
        Key::Minus => Ok(189),
        Key::Dot => Ok(190),
        Key::Slash => Ok(191),
        Key::BackQuote => Ok(192),
        Key::LeftBracket => Ok(219),
        Key::BackSlash => Ok(220),
        Key::RightBracket => Ok(221),
        Key::Quote => Ok(222),
        Key::NumLock => Ok(144),
        Key::KpReturn => Ok(1025),
        Key::Unknown(raw) => {
            if raw == MENU_RAW_KEY {
                Ok(93)
            } else {
                Err(rdev_key)
            }
        },
        _ => Err(rdev_key),
    }
}

} // verus!

use nuhxboard::code_convert::{keycode_convert, mouse_button_code_convert, Button, Key};

#[test]
fn letters_and_digits_have_their_ascii_codes() {
    assert_eq!(keycode_convert(Key::KeyA), Ok(65));
    assert_eq!(keycode_convert(Key::KeyZ), Ok(90));
    assert_eq!(keycode_convert(Key::Num0), Ok(48));
    assert_eq!(keycode_convert(Key::Num9), Ok(57));
}

#[test]
fn special_keys_have_their_codes() {
    assert_eq!(keycode_convert(Key::Backspace), Ok(8));
    assert_eq!(keycode_convert(Key::CapsLock), Ok(20));
    assert_eq!(keycode_convert(Key::KpMinus), Ok(109));
    assert_eq!(keycode_convert(Key::F12), Ok(123));
    assert_eq!(keycode_convert(Key::NumLock), Ok(144));
    assert_eq!(keycode_convert(Key::Quote), Ok(222));
    assert_eq!(keycode_convert(Key::KpReturn), Ok(1025));
}

#[test]
fn menu_key_arrives_as_raw_number() {
    assert_eq!(keycode_convert(Key::Unknown(135)), Ok(93));
}

#[test]
fn keys_without_code_are_handed_back() {
    assert_eq!(keycode_convert(Key::Unknown(1)), Err(Key::Unknown(1)));
    assert_eq!(keycode_convert(Key::IntlBackslash), Err(Key::IntlBackslash));
    assert_eq!(keycode_convert(Key::Function), Err(Key::Function));
}

#[test]
fn mouse_buttons_have_their_codes() {
    assert_eq!(mouse_button_code_convert(Button::Left), Ok(0));
    assert_eq!(mouse_button_code_convert(Button::Right), Ok(1));
    assert_eq!(mouse_button_code_convert(Button::Middle), Ok(2));
    assert_eq!(mouse_button_code_convert(Button::Unknown(8)), Ok(3));
    assert_eq!(mouse_button_code_convert(Button::Unknown(19)), Ok(3));
    assert_eq!(mouse_button_code_convert(Button::Unknown(9)), Ok(4));
    assert_eq!(mouse_button_code_convert(Button::Unknown(20)), Ok(4));
}

#[test]
fn mouse_buttons_without_code_are_handed_back() {
    assert_eq!(mouse_button_code_convert(Button::Unknown(6)), Err(Button::Unknown(6)));
    assert_eq!(mouse_button_code_convert(Button::Unknown(7)), Err(Button::Unknown(7)));
    assert_eq!(mouse_button_code_convert(Button::Unknown(0)), Err(Button::Unknown(0)));
}

#[test]
fn codes_of_all_keys_are_distinct() {
    let keys = [
        Key::Alt, Key::AltGr, Key::Backspace, Key::CapsLock, Key::ControlLeft, Key::ControlRight,
        Key::Delete, Key::DownArrow, Key::End, Key::Escape, Key::F1, Key::F10, Key::F11, Key::F12,
        Key::F2, Key::F3, Key::F4, Key::F5, Key::F6, Key::F7, Key::F8, Key::F9, Key::Home,
        Key::LeftArrow, Key::MetaLeft, Key::MetaRight, Key::PageDown, Key::PageUp, Key::Return,
        Key::RightArrow, Key::ShiftLeft, Key::ShiftRight, Key::Space, Key::Tab, Key::UpArrow,
        Key::PrintScreen, Key::ScrollLock, Key::Pause, Key::NumLock, Key::BackQuote, Key::Num1,
        Key::Num2, Key::Num3, Key::Num4, Key::Num5, Key::Num6, Key::Num7, Key::Num8, Key::Num9,
        Key::Num0, Key::Minus, Key::Equal, Key::KeyQ, Key::KeyW, Key::KeyE, Key::KeyR, Key::KeyT,
        Key::KeyY, Key::KeyU, Key::KeyI, Key::KeyO, Key::KeyP, Key::LeftBracket, Key::RightBracket,
        Key::KeyA, Key::KeyS, Key::KeyD, Key::KeyF, Key::KeyG, Key::KeyH, Key::KeyJ, Key::KeyK,
        Key::KeyL, Key::SemiColon, Key::Quote, Key::BackSlash, Key::IntlBackslash, Key::KeyZ,
        Key::KeyX, Key::KeyC, Key::KeyV, Key::KeyB, Key::KeyN, Key::KeyM, Key::Comma, Key::Dot,
        Key::Slash, Key::Insert, Key::KpReturn, Key::KpMinus, Key::KpPlus, Key::KpMultiply,
        Key::KpDivide, Key::Kp0, Key::Kp1, Key::Kp2, Key::Kp3, Key::Kp4, Key::Kp5, Key::Kp6,
        Key::Kp7, Key::Kp8, Key::Kp9, Key::KpDelete, Key::Function, Key::Unknown(135),
    ];
    let codes: Vec<u32> = keys.iter().filter_map(|k| keycode_convert(*k).ok()).collect();
    let mut sorted = codes.clone();
    sorted.sort();
    sorted.dedup();
    assert_eq!(sorted.len(), codes.len());
    assert_eq!(codes.len(), keys.len() - 2);
}

//! What holds of the board across messages.

use vstd::prelude::*;
use crate::code_convert::{Key, Button, key_code, button_code};
use crate::messages::{
    BoardError, Command, EventType, ListenerEvent, Message, Setting, StyleFile, WindowEvent,
    MAIN_WINDOW, key_release_message, window_event_spec, error_kind_text,
};
use crate::model::{
    BoardModel, elapsed, scroll_button, ignored_button, asks, style_choices, keyboard_dirs,
    dir_names, last_display_with, ThemeChoice, WindowKind,
};
use crate::types::{Capitalization, DirEntry, Settings, StyleChoice, style_label};
use crate::board::initial_model;

verus! {

/// Every message keeps the board's invariant.
pub proof fn lemma_step_keeps_wf(b: BoardModel, message: Message, now: u128)
    requires
        b.wf(),
        !b.panics(message, now),
    ensures
        b.step(message, now).0.wf(),
{
}

/// Listing the keyboards of a category keeps the board's invariant.
pub proof fn lemma_keyboards_listed_keeps_wf(b: BoardModel, entries: Seq<DirEntry>)
    requires
        b.wf(),
    ensures
        b.keyboards_listed(entries).0.wf(),
{
    let after = b.keyboards_listed(entries).0;
    assert(after.pressed_keys == b.pressed_keys);
    assert(after.pressed_mouse_buttons == b.pressed_mouse_buttons);
    assert(after.pressed_scroll_buttons == b.pressed_scroll_buttons);
}

/// Different keys that have codes have different codes.
pub proof fn lemma_key_codes_distinct(a: Key, b: Key)
    requires
        key_code(a) is Some,
        key_code(a) == key_code(b),
    ensures
        a == b,
{
}

/// Every code a mouse button maps to lies between 0 and 4.
pub proof fn lemma_button_codes_in_range(b: Button)
    requires
        button_code(b) is Some,
    ensures
        button_code(b).unwrap() <= 4,
{
}

/// A key press followed by its release once the minimum press time has
/// passed leaves the held keys as they were, but for the time of the last
/// press of a key that stays held.
pub proof fn lemma_key_release_undoes_press(b: BoardModel, key: Key, pressed_at: u128, released_at: u128)
    requires
        b.wf(),
        key_code(key) is Some,
        !b.panics(Message::Listener(ListenerEvent::KeyReceived(EventType::KeyPress(key))), pressed_at),
        elapsed(pressed_at, released_at) >= b.settings.min_press_time,
    ensures
        ({
            let code = key_code(key).unwrap();
            let after_press = b.step(Message::Listener(ListenerEvent::KeyReceived(EventType::KeyPress(key))), pressed_at).0;
            let after_release = after_press.step(key_release_message(key), released_at);
            &&& after_release.0.pressed_keys == if b.pressed_keys.contains_key(code) {
                b.pressed_keys.insert(code, (pressed_at, b.pressed_keys[code].1))
            } else {
                b.pressed_keys
            }
            &&& after_release.1.redraw
            &&& after_release.1.command == Command::Nothing
        }),
{
    let code = key_code(key).unwrap();
    let m = b.pressed_keys;
    if m.contains_key(code) {
        assert(m.insert(code, (pressed_at, (m[code].1 + 1) as u32)).insert(code, (pressed_at, m[code].1))
            == m.insert(code, (pressed_at, m[code].1)));
    } else {
        assert(m.insert(code, (pressed_at, 1u32)).remove(code) == m);
    }
}

/// A press of a mouse button that was not held, followed by its release once
/// the minimum press time has passed, leaves the held buttons as they were.
pub proof fn lemma_button_release_undoes_press(b: BoardModel, button: Button, pressed_at: u128, released_at: u128)
    requires
        b.wf(),
        button_code(button) is Some,
        !b.pressed_mouse_buttons.contains_key(button_code(button).unwrap()),
        elapsed(pressed_at, released_at) >= b.settings.min_press_time,
    ensures
        ({
            let after_press = b.step(Message::Listener(ListenerEvent::KeyReceived(EventType::ButtonPress(button))), pressed_at).0;
            let after_release = after_press.step(
                Message::Listener(ListenerEvent::KeyReceived(EventType::ButtonRelease(button))),
                released_at,
            );
            after_release.0.pressed_mouse_buttons == b.pressed_mouse_buttons
        }),
{
    let code = button_code(button).unwrap();
    assert(!ignored_button(button));
    let after_press = b.step(Message::Listener(ListenerEvent::KeyReceived(EventType::ButtonPress(button))), pressed_at).0;
    assert(after_press.pressed_mouse_buttons.insert(code, (pressed_at, 1u32)).remove(code) == b.pressed_mouse_buttons);
}

/// A release that comes before the minimum press time is put off, unchanged,
/// by exactly the time still missing, and changes nothing.
pub proof fn lemma_early_release_is_put_off(b: BoardModel, key: Key, now: u128)
    requires
        key_code(key) is Some,
        b.pressed_keys.contains_key(key_code(key).unwrap()),
        elapsed(b.pressed_keys[key_code(key).unwrap()].0, now) < b.settings.min_press_time,
    ensures
        ({
            let since = b.pressed_keys[key_code(key).unwrap()].0;
            let r = b.step(key_release_message(key), now);
            &&& r.0 == b
            &&& r.1 == asks(Command::After {
                millis: (b.settings.min_press_time - elapsed(since, now)) as u64,
                message: key_release_message(key),
            })
        }),
{
}

/// A scroll, followed by the release it schedules, leaves the shown scrolls as
/// they were.
pub proof fn lemma_scroll_release_undoes_scroll(b: BoardModel, delta_x: i64, delta_y: i64, now: u128)
    requires
        b.wf(),
        !b.panics(Message::Listener(ListenerEvent::KeyReceived(EventType::Wheel { delta_x, delta_y })), now),
    ensures
        ({
            let r = b.step(Message::Listener(ListenerEvent::KeyReceived(EventType::Wheel { delta_x, delta_y })), now);
            &&& r.1.command == Command::After {
                millis: b.settings.scroll_hold_time,
                message: Message::ReleaseScroll(scroll_button(delta_x, delta_y)),
            }
            &&& r.0.step(Message::ReleaseScroll(scroll_button(delta_x, delta_y)), now).0.pressed_scroll_buttons
                == b.pressed_scroll_buttons
        }),
{
    let d = scroll_button(delta_x, delta_y);
    let m = b.pressed_scroll_buttons;
    if m.contains_key(d) {
        assert(m.insert(d, (m[d] + 1) as u32).insert(d, m[d]) == m);
    } else {
        assert(m.insert(d, 1u32).remove(d) == m);
    }
}

/// While the capitalisation follows the keyboard, a key press flips the
/// shown capitals exactly when the key is Caps Lock; otherwise no key press
/// changes them.
pub proof fn lemma_caps_follows_caps_lock(b: BoardModel, key: Key, now: u128)
    requires
        key_code(key) is Some,
    ensures
        ({
            let after = b.step(Message::Listener(ListenerEvent::KeyReceived(EventType::KeyPress(key))), now).0;
            &&& b.settings.capitalization == Capitalization::Follow ==> (after.caps == (b.caps != (key == Key::CapsLock)))
            &&& b.settings.capitalization != Capitalization::Follow ==> after.caps == b.caps
            &&& after.true_caps == !b.true_caps
        }),
{
}

/// A key or button without a code changes nothing and opens an error window
/// that names it.
pub proof fn lemma_unknown_input_changes_nothing(b: BoardModel, event: EventType, now: u128)
    requires
        match event {
            EventType::KeyPress(k) | EventType::KeyRelease(k) => key_code(k) is None,
            EventType::ButtonPress(x) | EventType::ButtonRelease(x) => button_code(x) is None,
            EventType::Wheel { .. } => false,
        },
    ensures
        ({
            let r = b.step(Message::Listener(ListenerEvent::KeyReceived(event)), now);
            &&& r.0 == b
            &&& r.1 == asks(Command::ShowError(match event {
                EventType::KeyPress(k) | EventType::KeyRelease(k) => BoardError::UnknownKey(k),
                EventType::ButtonPress(x) | EventType::ButtonRelease(x) => BoardError::UnknownButton(x),
                EventType::Wheel { .. } => BoardError::UnknownButton(Button::Left),
            }))
        }),
{
}

/// Releasing a key that is not held changes nothing and asks for nothing.
pub proof fn lemma_release_of_unheld_key_changes_nothing(b: BoardModel, key: Key, now: u128)
    requires
        key_code(key) is Some,
        !b.pressed_keys.contains_key(key_code(key).unwrap()),
    ensures
        b.step(key_release_message(key), now) == (b, crate::model::quiet()),
{
}

/// Choosing a fixed capitalisation fixes the shown capitals; choosing to
/// follow the keyboard shows what the key presses so far call for.
pub proof fn lemma_capitalization_setting(b: BoardModel, cap: Capitalization, now: u128)
    ensures
        ({
            let after = b.step(Message::ChangeSetting(Setting::Capitalization(cap)), now).0;
            &&& after.settings.capitalization == cap
            &&& after.caps == match cap {
                Capitalization::Upper => true,
                Capitalization::Lower => false,
                Capitalization::Follow => b.true_caps,
            }
        }),
{
}

/// A switch setting changed twice is back where it was.
pub proof fn lemma_switch_settings_flip_back(b: BoardModel, setting: Setting, now: u128)
    requires
        setting is CenterMouse || setting is FollowForCapsSensitive || setting is FollowForCapsInsensitive,
    ensures
        b.step(Message::ChangeSetting(setting), now).0.step(Message::ChangeSetting(setting), now).0 == b,
{
}

/// A closed window other than the main one is no longer known to the board.
pub proof fn lemma_closed_window_is_forgotten(b: BoardModel, window: u64, now: u128)
    requires
        window != MAIN_WINDOW,
    ensures
        b.step(Message::WindowClosed(window), now).0.window_kind(window) is None,
{
}

/// Clearing the pressed keys forgets every held key and nothing else.
pub proof fn lemma_clear_forgets_keys_only(b: BoardModel, now: u128)
    ensures
        ({
            let after = b.step(Message::ClearPressedKeys, now).0;
            &&& after.pressed_keys.dom().is_empty()
            &&& after == (BoardModel { pressed_keys: after.pressed_keys, ..b })
        }),
{
}

/// Quitting leaves the board as it is and asks the application to quit.
pub proof fn lemma_quitting_changes_nothing(b: BoardModel, now: u128)
    ensures
        b.step(Message::Quitting, now) == (b, asks(Command::Quit)),
{
}

/// The letter keys in alphabetical order.
pub open spec fn letter_keys() -> Seq<Key> {
    seq![
        Key::KeyA, Key::KeyB, Key::KeyC, Key::KeyD, Key::KeyE, Key::KeyF, Key::KeyG, Key::KeyH,
        Key::KeyI, Key::KeyJ, Key::KeyK, Key::KeyL, Key::KeyM, Key::KeyN, Key::KeyO, Key::KeyP,
        Key::KeyQ, Key::KeyR, Key::KeyS, Key::KeyT, Key::KeyU, Key::KeyV, Key::KeyW, Key::KeyX,
        Key::KeyY, Key::KeyZ,
    ]
}

/// The digit keys of the main block, from 0 to 9.
pub open spec fn digit_keys() -> Seq<Key> {
    seq![
        Key::Num0, Key::Num1, Key::Num2, Key::Num3, Key::Num4, Key::Num5, Key::Num6, Key::Num7,
        Key::Num8, Key::Num9,
    ]
}

/// The digit keys of the keypad, from 0 to 9.
pub open spec fn keypad_digit_keys() -> Seq<Key> {
    seq![
        Key::Kp0, Key::Kp1, Key::Kp2, Key::Kp3, Key::Kp4, Key::Kp5, Key::Kp6, Key::Kp7, Key::Kp8,
        Key::Kp9,
    ]
}

/// The function keys, from F1 to F12.
pub open spec fn function_keys() -> Seq<Key> {
    seq![
        Key::F1, Key::F2, Key::F3, Key::F4, Key::F5, Key::F6, Key::F7, Key::F8, Key::F9, Key::F10,
        Key::F11, Key::F12,
    ]
}

/// The arrow keys in the order left, up, right, down.
pub open spec fn arrow_keys() -> Seq<Key> {
    seq![Key::LeftArrow, Key::UpArrow, Key::RightArrow, Key::DownArrow]
}

/// Each letter key has the ASCII code of its capital letter.
pub proof fn lemma_letter_codes()
    ensures
        forall|i: int| 0 <= i < 26 ==> key_code(#[trigger] letter_keys()[i]) == Some((65 + i) as u32),
{
    let l = letter_keys();
    assert(key_code(l[0]) == Some(65u32) && key_code(l[1]) == Some(66u32) && key_code(l[2]) == Some(67u32));
    assert(key_code(l[3]) == Some(68u32) && key_code(l[4]) == Some(69u32) && key_code(l[5]) == Some(70u32));
    assert(key_code(l[6]) == Some(71u32) && key_code(l[7]) == Some(72u32) && key_code(l[8]) == Some(73u32));
    assert(key_code(l[9]) == Some(74u32) && key_code(l[10]) == Some(75u32) && key_code(l[11]) == Some(76u32));
    assert(key_code(l[12]) == Some(77u32) && key_code(l[13]) == Some(78u32) && key_code(l[14]) == Some(79u32));
    assert(key_code(l[15]) == Some(80u32) && key_code(l[16]) == Some(81u32) && key_code(l[17]) == Some(82u32));
    assert(key_code(l[18]) == Some(83u32) && key_code(l[19]) == Some(84u32) && key_code(l[20]) == Some(85u32));
    assert(key_code(l[21]) == Some(86u32) && key_code(l[22]) == Some(87u32) && key_code(l[23]) == Some(88u32));
    assert(key_code(l[24]) == Some(89u32) && key_code(l[25]) == Some(90u32));
}

/// Each digit key of the main block has the ASCII code of its digit; the
/// keypad digits run from 96.
pub proof fn lemma_digit_codes()
    ensures
        forall|i: int| 0 <= i < 10 ==> key_code(#[trigger] digit_keys()[i]) == Some((48 + i) as u32),
        forall|i: int| 0 <= i < 10 ==> key_code(#[trigger] keypad_digit_keys()[i]) == Some((96 + i) as u32),
{
    let l = digit_keys();
    assert(key_code(l[0]) == Some(48u32) && key_code(l[1]) == Some(49u32) && key_code(l[2]) == Some(50u32));
    assert(key_code(l[3]) == Some(51u32) && key_code(l[4]) == Some(52u32) && key_code(l[5]) == Some(53u32));
    assert(key_code(l[6]) == Some(54u32) && key_code(l[7]) == Some(55u32) && key_code(l[8]) == Some(56u32));
    assert(key_code(l[9]) == Some(57u32));
    let k = keypad_digit_keys();
    assert(key_code(k[0]) == Some(96u32) && key_code(k[1]) == Some(97u32) && key_code(k[2]) == Some(98u32));
    assert(key_code(k[3]) == Some(99u32) && key_code(k[4]) == Some(100u32) && key_code(k[5]) == Some(101u32));
    assert(key_code(k[6]) == Some(102u32) && key_code(k[7]) == Some(103u32) && key_code(k[8]) == Some(104u32));
    assert(key_code(k[9]) == Some(105u32));
}

/// The function keys run from 112 (F1), and the arrows (left, up, right,
/// down) from 37.
pub proof fn lemma_function_and_arrow_codes()
    ensures
        forall|i: int| 0 <= i < 12 ==> key_code(#[trigger] function_keys()[i]) == Some((112 + i) as u32),
        forall|i: int| 0 <= i < 4 ==> key_code(#[trigger] arrow_keys()[i]) == Some((37 + i) as u32),
{
    let l = function_keys();
    assert(key_code(l[0]) == Some(112u32) && key_code(l[1]) == Some(113u32) && key_code(l[2]) == Some(114u32));
    assert(key_code(l[3]) == Some(115u32) && key_code(l[4]) == Some(116u32) && key_code(l[5]) == Some(117u32));
    assert(key_code(l[6]) == Some(118u32) && key_code(l[7]) == Some(119u32) && key_code(l[8]) == Some(120u32));
    assert(key_code(l[9]) == Some(121u32) && key_code(l[10]) == Some(122u32) && key_code(l[11]) == Some(123u32));
    let a = arrow_keys();
    assert(key_code(a[0]) == Some(37u32) && key_code(a[1]) == Some(38u32));
    assert(key_code(a[2]) == Some(39u32) && key_code(a[3]) == Some(40u32));
}

/// The left key of a pair has the code just below the right one: Shift from
/// 160, Control from 162, Meta (Windows) from 91; Alt is 164 and AltGr 165.
pub proof fn lemma_modifier_codes()
    ensures
        key_code(Key::ShiftLeft) == Some(160u32) && key_code(Key::ShiftRight) == Some(161u32),
        key_code(Key::ControlLeft) == Some(162u32) && key_code(Key::ControlRight) == Some(163u32),
        key_code(Key::Alt) == Some(164u32) && key_code(Key::AltGr) == Some(165u32),
        key_code(Key::MetaLeft) == Some(91u32) && key_code(Key::MetaRight) == Some(92u32),
{
}

/// The keys without a code are exactly the extra backslash key, the Function
/// key, and raw keys other than the Menu key.
pub proof fn lemma_keys_without_code(key: Key)
    ensures
        key_code(key) is None <==> (key == Key::IntlBackslash || key == Key::Function || (key is Unknown
            && key != Key::Unknown(135))),
{
}

/// The main buttons have the codes 0 (left), 1 (right), 2 (middle); a raw
/// button has a code exactly when it is a side button (8 or 19 back, 9 or 20
/// forward).
pub proof fn lemma_button_codes(raw: u8)
    ensures
        button_code(Button::Left) == Some(0u32),
        button_code(Button::Right) == Some(1u32),
        button_code(Button::Middle) == Some(2u32),
        button_code(Button::Unknown(raw)) is Some <==> (raw == 8 || raw == 19 || raw == 9 || raw == 20),
        (raw == 8 || raw == 19) ==> button_code(Button::Unknown(raw)) == Some(3u32),
        (raw == 9 || raw == 20) ==> button_code(Button::Unknown(raw)) == Some(4u32),
{
}

/// A mouse button release that takes effect takes away exactly one press: a
/// button held `n >= 2` times stays held `n - 1` times with the same press
/// time; only the last release forgets it. Nothing else changes.
pub proof fn lemma_button_release_takes_one_press(b: BoardModel, button: Button, now: u128)
    requires
        b.wf(),
        button_code(button) is Some,
        !ignored_button(button),
        b.pressed_mouse_buttons.contains_key(button_code(button).unwrap()),
        elapsed(b.pressed_mouse_buttons[button_code(button).unwrap()].0, now) >= b.settings.min_press_time,
    ensures
        ({
            let code = button_code(button).unwrap();
            let (t, n) = b.pressed_mouse_buttons[code];
            let after = b.step(Message::Listener(ListenerEvent::KeyReceived(EventType::ButtonRelease(button))), now).0;
            &&& n >= 2 ==> after.pressed_mouse_buttons == b.pressed_mouse_buttons.insert(code, (t, (n - 1) as u32))
            &&& n == 1 ==> after.pressed_mouse_buttons == b.pressed_mouse_buttons.remove(code)
            &&& after == (BoardModel { pressed_mouse_buttons: after.pressed_mouse_buttons, ..b })
        }),
{
}

/// The same for keys: a release that takes effect takes away exactly one press.
pub proof fn lemma_key_release_takes_one_press(b: BoardModel, key: Key, now: u128)
    requires
        b.wf(),
        key_code(key) is Some,
        b.pressed_keys.contains_key(key_code(key).unwrap()),
        elapsed(b.pressed_keys[key_code(key).unwrap()].0, now) >= b.settings.min_press_time,
    ensures
        ({
            let code = key_code(key).unwrap();
            let (t, n) = b.pressed_keys[code];
            let after = b.step(key_release_message(key), now).0;
            &&& n >= 2 ==> after.pressed_keys == b.pressed_keys.insert(code, (t, (n - 1) as u32))
            &&& n == 1 ==> after.pressed_keys == b.pressed_keys.remove(code)
            &&& after == (BoardModel { pressed_keys: after.pressed_keys, ..b })
        }),
{
}

/// A press of a key or button counts one more press at the time of the press.
pub proof fn lemma_press_adds_one_press(b: BoardModel, event: EventType, now: u128)
    requires
        b.wf(),
        !b.panics(Message::Listener(ListenerEvent::KeyReceived(event)), now),
        match event {
            EventType::KeyPress(k) => key_code(k) is Some,
            EventType::ButtonPress(x) => button_code(x) is Some && !ignored_button(x),
            _ => false,
        },
    ensures
        ({
            let after = b.step(Message::Listener(ListenerEvent::KeyReceived(event)), now).0;
            match event {
                EventType::KeyPress(k) => {
                    let code = key_code(k).unwrap();
                    after.pressed_keys == b.pressed_keys.insert(code, (now, (if b.pressed_keys.contains_key(code) {
                        b.pressed_keys[code].1 + 1
                    } else {
                        1
                    }) as u32))
                },
                EventType::ButtonPress(x) => {
                    let code = button_code(x).unwrap();
                    after.pressed_mouse_buttons == b.pressed_mouse_buttons.insert(code, (now, (if b.pressed_mouse_buttons.contains_key(code) {
                        b.pressed_mouse_buttons[code].1 + 1
                    } else {
                        1
                    }) as u32))
                },
                _ => true,
            }
        }),
{
}

/// A scroll release takes away exactly one scroll of its direction.
pub proof fn lemma_scroll_release_takes_one(b: BoardModel, dir: u32, now: u128)
    requires
        b.wf(),
        b.pressed_scroll_buttons.contains_key(dir),
    ensures
        ({
            let n = b.pressed_scroll_buttons[dir];
            let after = b.step(Message::ReleaseScroll(dir), now).0;
            &&& n >= 2 ==> after.pressed_scroll_buttons == b.pressed_scroll_buttons.insert(dir, (n - 1) as u32)
            &&& n == 1 ==> after.pressed_scroll_buttons == b.pressed_scroll_buttons.remove(dir)
            &&& after == (BoardModel { pressed_scroll_buttons: after.pressed_scroll_buttons, ..b })
        }),
{
}

/// At startup the first listing of keyboards goes on to load the keyboard
/// chosen in the board; from a fresh board that is the saved keyboard.
pub proof fn lemma_startup_loads_saved_keyboard(
    b: BoardModel,
    entries: Seq<DirEntry>,
    settings: Settings,
    category: String,
    now: u128,
)
    requires
        category@.len() > 0,
    ensures
        b.startup && b.keyboard is Some ==> b.keyboards_listed(entries).1.command == Command::Send(
            Message::LoadKeyboard(b.keyboard.unwrap()),
        ),
        b.startup ==> !b.keyboards_listed(entries).0.startup,
        ({
            let listed = initial_model(settings).step(Message::ChangeKeyboardCategory(category), now).0.keyboards_listed(entries);
            &&& listed.1.command == Command::Send(Message::LoadKeyboard(settings.keyboard))
            &&& !listed.1.redraw
        }),
{
}

/// The entry is a file whose extension is `style`.
pub open spec fn names_style_file(e: DirEntry) -> bool {
    e.is_file && (e.extension matches Some(x) && x@ == "style"@)
}

/// The style choices of a directory are its style files, every one, in the
/// order of the entries, each under its stem.
pub proof fn lemma_style_choices_are_all_style_files(entries: Seq<DirEntry>, global: bool)
    ensures
        style_choices(entries, global) == entries.filter(|e: DirEntry| names_style_file(e)).map_values(
            |e: DirEntry| if global { StyleChoice::Global(e.stem.unwrap()) } else { StyleChoice::Custom(e.stem.unwrap()) },
        ),
    decreases entries.len(),
{
    let p = |e: DirEntry| names_style_file(e);
    let f = |e: DirEntry| if global { StyleChoice::Global(e.stem.unwrap()) } else { StyleChoice::Custom(e.stem.unwrap()) };
    if entries.len() > 0 {
        lemma_style_choices_are_all_style_files(entries.drop_last(), global);
        let rest = entries.drop_last().filter(p);
        reveal_with_fuel(Seq::<_>::filter, 1);
        assert(entries.filter(p) == if p(entries.last()) { rest.push(entries.last()) } else { rest });
        if p(entries.last()) {
            assert(rest.push(entries.last()).map_values(f) == rest.map_values(f).push(f(entries.last())));
        }
    } else {
        reveal_with_fuel(Seq::<_>::filter, 1);
        assert(entries.filter(p) == entries);
    }
}

/// The styles offered for a keyboard are the built-in one, then every style
/// file of the keyboard's directory, then every global style file, each in
/// the order listed; the first is chosen.
pub proof fn lemma_styles_listed_offers_every_style(b: BoardModel, custom: Seq<DirEntry>, global: Seq<DirEntry>)
    ensures
        ({
            let c = custom.filter(|e: DirEntry| names_style_file(e));
            let g = global.filter(|e: DirEntry| names_style_file(e));
            let after = b.styles_listed(custom, global);
            &&& after.style_options.len() == 1 + c.len() + g.len()
            &&& after.style_options[0] == StyleChoice::Default
            &&& forall|i: int| 0 <= i < c.len() ==> after.style_options[1 + i] == StyleChoice::Custom(#[trigger] c[i].stem.unwrap())
            &&& forall|i: int| 0 <= i < g.len() ==> after.style_options[1 + c.len() + i] == StyleChoice::Global(#[trigger] g[i].stem.unwrap())
            &&& after.style_choice == Some(0usize)
            &&& after == (BoardModel { style_options: after.style_options, style_choice: after.style_choice, ..b })
        }),
{
    lemma_style_choices_are_all_style_files(custom, false);
    lemma_style_choices_are_all_style_files(global, true);
}

/// The keyboards of a category are its subdirectories but `images`, every
/// one, in the order listed.
pub proof fn lemma_keyboard_dirs_are_all_subdirectories(entries: Seq<DirEntry>)
    ensures
        keyboard_dirs(entries) == entries.filter(|e: DirEntry| e.is_dir && e.name@ != "images"@).map_values(
            |e: DirEntry| e.name,
        ),
    decreases entries.len(),
{
    let p = |e: DirEntry| e.is_dir && e.name@ != "images"@;
    let f = |e: DirEntry| e.name;
    if entries.len() > 0 {
        lemma_keyboard_dirs_are_all_subdirectories(entries.drop_last());
        let rest = entries.drop_last().filter(p);
        reveal_with_fuel(Seq::<_>::filter, 1);
        assert(entries.filter(p) == if p(entries.last()) { rest.push(entries.last()) } else { rest });
        if p(entries.last()) {
            assert(rest.push(entries.last()).map_values(f) == rest.map_values(f).push(f(entries.last())));
        }
    } else {
        reveal_with_fuel(Seq::<_>::filter, 1);
        assert(entries.filter(p) == entries);
    }
}

/// The categories are the subdirectories of the keyboards directory, every
/// one, in the order listed.
pub proof fn lemma_dir_names_are_all_subdirectories(entries: Seq<DirEntry>)
    ensures
        dir_names(entries) == entries.filter(|e: DirEntry| e.is_dir).map_values(|e: DirEntry| e.name),
    decreases entries.len(),
{
    let p = |e: DirEntry| e.is_dir;
    let f = |e: DirEntry| e.name;
    if entries.len() > 0 {
        lemma_dir_names_are_all_subdirectories(entries.drop_last());
        let rest = entries.drop_last().filter(p);
        reveal_with_fuel(Seq::<_>::filter, 1);
        assert(entries.filter(p) == if p(entries.last()) { rest.push(entries.last()) } else { rest });
        if p(entries.last()) {
            assert(rest.push(entries.last()).map_values(f) == rest.map_values(f).push(f(entries.last())));
        }
    } else {
        reveal_with_fuel(Seq::<_>::filter, 1);
        assert(entries.filter(p) == entries);
    }
}

/// The chosen display is the last one with the chosen id; there is none
/// exactly when no display has that id.
pub proof fn lemma_last_display_with(ids: Seq<u32>, id: u32)
    ensures
        match last_display_with(ids, id) {
            Some(i) => {
                &&& 0 <= i < ids.len()
                &&& ids[i] == id
                &&& forall|j: int| i < j < ids.len() ==> ids[j] != id
            },
            None => forall|j: int| 0 <= j < ids.len() ==> ids[j] != id,
        },
    decreases ids.len(),
{
    if ids.len() > 0 {
        lemma_last_display_with(ids.drop_last(), id);
        let rest = ids.drop_last();
        assert(forall|j: int| 0 <= j < rest.len() ==> rest[j] == ids[j]);
    }
}

/// A scroll to the left is direction 3, to the right 2; otherwise a scroll
/// down is 1, and up (or none) 0. Horizontal scrolling takes precedence.
pub proof fn lemma_scroll_directions(delta_x: i64, delta_y: i64)
    ensures
        delta_x < 0 ==> scroll_button(delta_x, delta_y) == 3,
        delta_x > 0 ==> scroll_button(delta_x, delta_y) == 2,
        delta_x == 0 && delta_y < 0 ==> scroll_button(delta_x, delta_y) == 1,
        delta_x == 0 && delta_y >= 0 ==> scroll_button(delta_x, delta_y) == 0,
{
}

/// The time since a press is the difference of the clock readings, and zero
/// when the clock reads earlier than the press.
pub proof fn lemma_elapsed(since: u128, now: u128)
    ensures
        now >= since ==> since + elapsed(since, now) == now,
        now < since ==> elapsed(since, now) == 0,
{
}

/// Each setting change sets or flips exactly its own setting; nothing else of
/// the board changes but, for the capitalisation, the shown capitals.
pub proof fn lemma_each_setting_changes_its_own(b: BoardModel, setting: Setting, now: u128)
    ensures
        ({
            let (after, out) = b.step(Message::ChangeSetting(setting), now);
            let s = b.settings;
            let t = after.settings;
            &&& out.redraw && out.command == Command::Nothing
            &&& after == (BoardModel { settings: t, caps: after.caps, ..b })
            &&& !(setting is Capitalization) ==> after.caps == b.caps
            &&& t.category == s.category && t.keyboard == s.keyboard && t.style == s.style
            &&& match setting {
                Setting::ScrollHoldTime(v) => t == Settings { scroll_hold_time: v, ..s },
                Setting::CenterMouse => t == Settings { mouse_from_center: !s.mouse_from_center, ..s },
                Setting::DisplayId(v) => t == Settings { display_id: v, ..s },
                Setting::MinPressTime(v) => t == Settings { min_press_time: v, ..s },
                Setting::WindowTitle(v) => t == Settings { window_title: v, ..s },
                Setting::Capitalization(v) => t == Settings { capitalization: v, ..s },
                Setting::FollowForCapsSensitive => t == Settings {
                    follow_for_caps_sensitive: !s.follow_for_caps_sensitive,
                    ..s
                },
                Setting::FollowForCapsInsensitive => t == Settings {
                    follow_for_caps_insensitive: !s.follow_for_caps_insensitive,
                    ..s
                },
            }
        }),
{
}

/// Closing a window forgets that window only: every other window keeps its
/// kind, and the held keys, buttons and settings stay as they were.
pub proof fn lemma_closing_keeps_other_windows(b: BoardModel, closed: u64, other: u64, now: u128)
    requires
        other != closed,
    ensures
        ({
            let after = b.step(Message::WindowClosed(closed), now).0;
            &&& after.window_kind(other) == b.window_kind(other)
            &&& after.pressed_keys == b.pressed_keys
            &&& after.pressed_mouse_buttons == b.pressed_mouse_buttons
            &&& after.settings == b.settings
        }),
{
}

/// The main window is titled after the settings, the keyboard-loading window
/// "Load Keyboard", an error window "Error" and the settings window
/// "Settings". The main window takes the style's colour, the keyboard-loading
/// window the light theme, any other the dark one.
pub proof fn lemma_titles_and_themes(b: BoardModel, w: u64)
    ensures
        b.title(MAIN_WINDOW) == b.settings.window_title@,
        w != MAIN_WINDOW && b.load_keyboard_window == Some(w) ==> b.title(w) == "Load Keyboard"@,
        w != MAIN_WINDOW && b.load_keyboard_window != Some(w) && b.error_windows.contains_key(w)
            ==> b.title(w) == "Error"@,
        b.window_kind(w) == Some(WindowKind::Settings) ==> b.title(w) == "Settings"@ && b.settings_window == Some(w),
        b.window_kind(w) is None <==> (w != MAIN_WINDOW && b.load_keyboard_window != Some(w)
            && !b.error_windows.contains_key(w) && b.settings_window != Some(w)),
        b.theme(MAIN_WINDOW) == ThemeChoice::Custom,
        w != MAIN_WINDOW && b.load_keyboard_window == Some(w) ==> b.theme(w) == ThemeChoice::Light,
        w != MAIN_WINDOW && b.load_keyboard_window != Some(w) ==> b.theme(w) == ThemeChoice::Dark,
{
}

/// Changing to a named category records it and asks for its keyboards; after
/// startup it also drops the chosen keyboard, style and styles. An empty name
/// changes nothing.
pub proof fn lemma_change_category(b: BoardModel, category: String, now: u128)
    ensures
        ({
            let (after, out) = b.step(Message::ChangeKeyboardCategory(category), now);
            &&& category@.len() == 0 ==> after == b && out.command == Command::Nothing && !out.redraw
            &&& category@.len() > 0 ==> {
                &&& after.settings == Settings { category, ..b.settings }
                &&& out.command == Command::ListKeyboards(category)
                &&& !out.redraw
                &&& after.pressed_keys == b.pressed_keys
                &&& b.startup ==> after.keyboard == b.keyboard && after.style_options == b.style_options
                &&& !b.startup ==> after.keyboard is None && after.style_choice is None && after.style_options.len() == 0
            }
        }),
{
}

/// Later listings of keyboards only record them and redraw.
pub proof fn lemma_later_listing_only_records(b: BoardModel, entries: Seq<DirEntry>)
    requires
        !b.startup,
    ensures
        b.keyboards_listed(entries).0 == (BoardModel { keyboard_options: keyboard_dirs(entries), ..b }),
        b.keyboards_listed(entries).1.command == Command::Nothing,
        b.keyboards_listed(entries).1.redraw,
{
}

/// Loading keyboard `k` records it as chosen (in the board and the settings)
/// and asks to load the file of the `k`-th keyboard of the current category.
pub proof fn lemma_load_keyboard(b: BoardModel, k: usize, now: u128)
    ensures
        ({
            let (after, out) = b.step(Message::LoadKeyboard(k), now);
            &&& after.keyboard == Some(k)
            &&& after.settings.keyboard == k
            &&& after.settings.category == b.settings.category
            &&& after.style_options == b.style_options
            &&& out.command == Command::LoadKeyboard {
                category: b.settings.category,
                keyboard: b.keyboard_options[k as int],
            }
            &&& !out.redraw
        }),
{
}

/// Loading style `st` records it as chosen and asks for the built-in style,
/// the global style file of that name, or the file of that name in the
/// chosen keyboard's directory.
pub proof fn lemma_load_style(b: BoardModel, st: usize, now: u128)
    requires
        st < b.style_options.len(),
    ensures
        ({
            let (after, out) = b.step(Message::LoadStyle(st), now);
            &&& after.style_choice == Some(st)
            &&& after.settings.style == st
            &&& after.style_options == b.style_options
            &&& !out.redraw
            &&& match b.style_options[st as int] {
                StyleChoice::Default => out.command == Command::UseDefaultStyle,
                StyleChoice::Global(n) => out.command == Command::LoadStyle(StyleFile::Global { name: n }),
                StyleChoice::Custom(n) => out.command == Command::LoadStyle(StyleFile::Custom {
                    category: b.settings.category,
                    keyboard: b.keyboard_options[b.keyboard.unwrap() as int],
                    name: n,
                }),
            }
        }),
{
}

/// A fresh board holds nothing, shows capitals exactly when the settings ask
/// for capitals, has the saved keyboard and style chosen, and is starting up.
pub proof fn lemma_fresh_board(settings: Settings)
    ensures
        ({
            let b = initial_model(settings);
            &&& b.pressed_keys.dom().is_empty() && b.pressed_mouse_buttons.dom().is_empty()
            &&& b.pressed_scroll_buttons.dom().is_empty() && b.error_windows.dom().is_empty()
            &&& b.caps <==> settings.capitalization == Capitalization::Upper
            &&& !b.true_caps
            &&& b.keyboard == Some(settings.keyboard) && b.style_choice == Some(settings.style)
            &&& b.startup && b.settings == settings
            &&& b.load_keyboard_window is None && b.settings_window is None
        }),
{
}

/// A closed window is reported as closed; a request to close the main window
/// means quitting, and other requests are ignored.
pub proof fn lemma_window_events(w: u64)
    ensures
        window_event_spec(w, WindowEvent::Closed) == Some(Message::WindowClosed(w)),
        window_event_spec(MAIN_WINDOW, WindowEvent::CloseRequested) == Some(Message::Quitting),
        w != MAIN_WINDOW ==> window_event_spec(w, WindowEvent::CloseRequested) is None,
        window_event_spec(w, WindowEvent::Other) is None,
{
}

/// Style labels: the built-in style is "Global Default", a global style is
/// its name after "Global: ", the keyboard's own style its bare name.
pub proof fn lemma_style_labels(name: String)
    ensures
        style_label(StyleChoice::Default) == "Global Default"@,
        style_label(StyleChoice::Global(name)) == "Global: "@ + name@,
        style_label(StyleChoice::Custom(name)) == name@,
{
}

/// The headline of an error window names the file or the input at fault.
pub proof fn lemma_error_headlines(e: BoardError)
    ensures
        e is ConfigOpen ==> error_kind_text(e) == "Keyboard file could not be opened."@,
        e is ConfigParse ==> error_kind_text(e) == "Keyboard file could not be parsed."@,
        e is StyleOpen ==> error_kind_text(e) == "Style file could not be opened."@,
        e is StyleParse ==> error_kind_text(e) == "Style file could not be parsed."@,
        e is UnknownKey ==> error_kind_text(e) == "Unknown Key."@,
        e is UnknownButton ==> error_kind_text(e) == "Unknown Mouse Button."@,
{
}

} // verus!

//! The board as a mathematical value, and what each message does to it.

use vstd::prelude::*;
use crate::code_convert::{Key, Button, key_code, button_code};
use crate::messages::{
    BoardError, Command, EventType, ListenerEvent, Message, Outcome, Setting, StyleFile,
    MAIN_WINDOW, key_release_message, button_release_message,
};
use crate::types::{Capitalization, DirEntry, Settings, StyleChoice};

verus! {

/// Held keys or buttons: code to (time of the last press in milliseconds,
/// presses not yet released).
pub type HeldMap = Map<u32, (u128, u32)>;

/// The board, as the contracts speak of it.
pub struct BoardModel {
    pub pressed_keys: HeldMap,
    pub pressed_mouse_buttons: HeldMap,
    /// Scroll direction to scrolls still shown.
    pub pressed_scroll_buttons: Map<u32, u32>,
    /// Letters are shown capitalised.
    pub caps: bool,
    /// Flips on every key press: what `caps` follows when capitalisation
    /// follows the keyboard.
    pub true_caps: bool,
    pub load_keyboard_window: Option<u64>,
    pub settings_window: Option<u64>,
    /// The keyboard chosen in the current category.
    pub keyboard: Option<usize>,
    /// The style chosen for it.
    pub style_choice: Option<usize>,
    /// Open error windows and the error each shows.
    pub error_windows: Map<u64, BoardError>,
    pub keyboard_options: Seq<String>,
    pub keyboard_category_options: Seq<String>,
    pub style_options: Seq<StyleChoice>,
    /// The first category has not been listed yet.
    pub startup: bool,
    pub settings: Settings,
}

/// The time since `since`, in milliseconds, and zero for a time still to come.
pub open spec fn elapsed(since: u128, now: u128) -> u128 {
    if now >= since { (now - since) as u128 } else { 0 }
}

/// The held map after one more press of `code` at `now`.
pub open spec fn pressed(m: HeldMap, code: u32, now: u128) -> HeldMap {
    if m.contains_key(code) {
        m.insert(code, (now, (m[code].1 + 1) as u32))
    } else {
        m.insert(code, (now, 1u32))
    }
}

/// The held map after one release of `code`: the last release forgets it.
pub open spec fn released(m: HeldMap, code: u32) -> HeldMap {
    if m[code].1 == 1 {
        m.remove(code)
    } else {
        m.insert(code, (m[code].0, (m[code].1 - 1) as u32))
    }
}

/// The scroll map after one more scroll in direction `b`.
pub open spec fn scrolled(m: Map<u32, u32>, b: u32) -> Map<u32, u32> {
    if m.contains_key(b) {
        m.insert(b, (m[b] + 1) as u32)
    } else {
        m.insert(b, 1u32)
    }
}

/// The scroll map after one scroll in direction `b` is no longer shown.
pub open spec fn scroll_released(m: Map<u32, u32>, b: u32) -> Map<u32, u32> {
    if m[b] == 1 {
        m.remove(b)
    } else {
        m.insert(b, (m[b] - 1) as u32)
    }
}

/// The direction of a scroll: 3 left, 2 right, 1 down, 0 up.
pub open spec fn scroll_button(delta_x: i64, delta_y: i64) -> u32 {
    if delta_x < 0 {
        3
    } else if delta_x > 0 {
        2
    } else if delta_y < 0 {
        1
    } else {
        0
    }
}

/// Mouse buttons that are ignored after their code is checked.
pub open spec fn ignored_button(button: Button) -> bool {
    button == Button::Unknown(6) || button == Button::Unknown(7)
}

/// Every entry of a held map counts at least one press.
pub open spec fn held_map_wf(m: HeldMap) -> bool {
    forall|c: u32| #[trigger] m.contains_key(c) ==> m[c].1 >= 1
}

/// The names of the keyboards in a category directory: its subdirectories,
/// but for the one that holds images.
pub open spec fn keyboard_dirs(entries: Seq<DirEntry>) -> Seq<String>
    decreases entries.len(),
{
    if entries.len() == 0 {
        Seq::empty()
    } else {
        let rest = keyboard_dirs(entries.drop_last());
        let e = entries.last();
        if e.is_dir && e.name@ != "images"@ {
            rest.push(e.name)
        } else {
            rest
        }
    }
}

/// The names of the subdirectories among the entries.
pub open spec fn dir_names(entries: Seq<DirEntry>) -> Seq<String>
    decreases entries.len(),
{
    if entries.len() == 0 {
        Seq::empty()
    } else {
        let rest = dir_names(entries.drop_last());
        let e = entries.last();
        if e.is_dir {
            rest.push(e.name)
        } else {
            rest
        }
    }
}

/// The entry is a style file.
pub open spec fn is_style_file(e: DirEntry) -> bool {
    e.is_file && (e.extension matches Some(ext) && ext@ == "style"@)
}

/// The style files among the entries, by name, each made a choice by `global`.
pub open spec fn style_choices(entries: Seq<DirEntry>, global: bool) -> Seq<StyleChoice>
    decreases entries.len(),
{
    if entries.len() == 0 {
        Seq::empty()
    } else {
        let rest = style_choices(entries.drop_last(), global);
        let e = entries.last();
        if is_style_file(e) {
            rest.push(
                if global {
                    StyleChoice::Global(e.stem.unwrap())
                } else {
                    StyleChoice::Custom(e.stem.unwrap())
                },
            )
        } else {
            rest
        }
    }
}

/// Every style file among the entries has a stem.
pub open spec fn style_stems_present(entries: Seq<DirEntry>) -> bool {
    forall|i: int| 0 <= i < entries.len() && #[trigger] is_style_file(entries[i]) ==> entries[i].stem is Some
}

/// The position of the last display in the list with the given id.
pub open spec fn last_display_with(ids: Seq<u32>, id: u32) -> Option<int>
    decreases ids.len(),
{
    if ids.len() == 0 {
        None
    } else if ids.last() == id {
        Some(ids.len() - 1)
    } else {
        last_display_with(ids.drop_last(), id)
    }
}

/// An outcome that only asks for a redraw.
pub open spec fn redraw_only() -> Outcome {
    Outcome { command: Command::Nothing, redraw: true }
}

/// An outcome that asks for nothing.
pub open spec fn quiet() -> Outcome {
    Outcome { command: Command::Nothing, redraw: false }
}

/// An outcome that asks for one command and no redraw.
pub open spec fn asks(command: Command) -> Outcome {
    Outcome { command, redraw: false }
}

/// Which of the board's windows a window number names.
#[derive(Debug, Clone, Copy, PartialEq, Eq, Structural)]
pub enum WindowKind {
    Main,
    LoadKeyboard,
    Error,
    Settings,
}

/// The theme a window is drawn in.
#[derive(Debug, Clone, Copy, PartialEq, Eq, Structural)]
pub enum ThemeChoice {
    /// The dark theme with the style's background colour.
    Custom,
    Light,
    Dark,
}

impl BoardModel {
    /// The invariant of the board.
    pub open spec fn wf(self) -> bool {
        &&& held_map_wf(self.pressed_keys)
        &&& held_map_wf(self.pressed_mouse_buttons)
        &&& forall|b: u32| #[trigger] self.pressed_scroll_buttons.contains_key(b) ==> self.pressed_scroll_buttons[b] >= 1
        &&& self.startup ==> self.keyboard is Some
    }

    /// The board after this setting changed.
    pub open spec fn change_setting(self, setting: Setting) -> BoardModel {
        let s = self.settings;
        match setting {
            Setting::ScrollHoldTime(t) => BoardModel { settings: Settings { scroll_hold_time: t, ..s }, ..self },
            Setting::CenterMouse => BoardModel { settings: Settings { mouse_from_center: !s.mouse_from_center, ..s }, ..self },
            Setting::DisplayId(id) => BoardModel { settings: Settings { display_id: id, ..s }, ..self },
            Setting::MinPressTime(t) => BoardModel { settings: Settings { min_press_time: t, ..s }, ..self },
            Setting::WindowTitle(title) => BoardModel { settings: Settings { window_title: title, ..s }, ..self },
            Setting::Capitalization(cap) => BoardModel {
                caps: match cap {
                    Capitalization::Lower => false,
                    Capitalization::Upper => true,
                    Capitalization::Follow => self.true_caps,
                },
                settings: Settings { capitalization: cap, ..s },
                ..self
            },
            Setting::FollowForCapsSensitive => BoardModel {
                settings: Settings { follow_for_caps_sensitive: !s.follow_for_caps_sensitive, ..s },
                ..self
            },
            Setting::FollowForCapsInsensitive => BoardModel {
                settings: Settings { follow_for_caps_insensitive: !s.follow_for_caps_insensitive, ..s },
                ..self
            },
        }
    }

    /// The board after an input event at `now`, and its answer.
    pub open spec fn input_step(self, event: EventType, now: u128) -> (BoardModel, Outcome) {
        let min = self.settings.min_press_time;
        match event {
            EventType::KeyPress(key) => match key_code(key) {
                None => (self, asks(Command::ShowError(BoardError::UnknownKey(key)))),
                Some(code) => (
                    BoardModel {
                        caps: if key == Key::CapsLock && self.settings.capitalization == Capitalization::Follow {
                            !self.caps
                        } else {
                            self.caps
                        },
                        true_caps: !self.true_caps,
                        pressed_keys: pressed(self.pressed_keys, code, now),
                        ..self
                    },
                    redraw_only(),
                ),
            },
            EventType::KeyRelease(key) => match key_code(key) {
                None => (self, asks(Command::ShowError(BoardError::UnknownKey(key)))),
                Some(code) => if !self.pressed_keys.contains_key(code) {
                    (self, quiet())
                } else if elapsed(self.pressed_keys[code].0, now) < min {
                    (self, asks(Command::After {
                        millis: (min - elapsed(self.pressed_keys[code].0, now)) as u64,
                        message: key_release_message(key),
                    }))
                } else {
                    (BoardModel { pressed_keys: released(self.pressed_keys, code), ..self }, redraw_only())
                },
            },
            EventType::ButtonPress(button) => match button_code(button) {
                None => (self, asks(Command::ShowError(BoardError::UnknownButton(button)))),
                Some(code) => if ignored_button(button) {
                    (self, quiet())
                } else {
                    (
                        BoardModel { pressed_mouse_buttons: pressed(self.pressed_mouse_buttons, code, now), ..self },
                        redraw_only(),
                    )
                },
            },
            EventType::ButtonRelease(button) => match button_code(button) {
                None => (self, asks(Command::ShowError(BoardError::UnknownButton(button)))),
                Some(code) => if ignored_button(button) {
                    (self, quiet())
                } else if elapsed(self.pressed_mouse_buttons[code].0, now) < min {
                    (self, asks(Command::After {
                        millis: (min - elapsed(self.pressed_mouse_buttons[code].0, now)) as u64,
                        message: button_release_message(button),
                    }))
                } else {
                    (
                        BoardModel { pressed_mouse_buttons: released(self.pressed_mouse_buttons, code), ..self },
                        redraw_only(),
                    )
                },
            },
            EventType::Wheel { delta_x, delta_y } => {
                let b = scroll_button(delta_x, delta_y);
                (
                    BoardModel { pressed_scroll_buttons: scrolled(self.pressed_scroll_buttons, b), ..self },
                    Outcome {
                        command: Command::After {
                            millis: self.settings.scroll_hold_time,
                            message: Message::ReleaseScroll(b),
                        },
                        redraw: true,
                    },
                )
            },
        }
    }

    /// The input event would stop the program: a count would overflow, a
    /// release of a button that is not held, or a wait too long to schedule.
    pub open spec fn input_panics(self, event: EventType, now: u128) -> bool {
        let min = self.settings.min_press_time;
        match event {
            EventType::KeyPress(key) => match key_code(key) {
                Some(code) => self.pressed_keys.contains_key(code) && self.pressed_keys[code].1 == u32::MAX,
                None => false,
            },
            EventType::KeyRelease(key) => match key_code(key) {
                Some(code) => {
                    &&& self.pressed_keys.contains_key(code)
                    &&& elapsed(self.pressed_keys[code].0, now) < min
                    &&& min - elapsed(self.pressed_keys[code].0, now) > u64::MAX
                },
                None => false,
            },
            EventType::ButtonPress(button) => match button_code(button) {
                Some(code) => {
                    &&& !ignored_button(button)
                    &&& self.pressed_mouse_buttons.contains_key(code)
                    &&& self.pressed_mouse_buttons[code].1 == u32::MAX
                },
                None => false,
            },
            EventType::ButtonRelease(button) => match button_code(button) {
                Some(code) => {
                    &&& !ignored_button(button)
                    &&& (!self.pressed_mouse_buttons.contains_key(code) || {
                        &&& elapsed(self.pressed_mouse_buttons[code].0, now) < min
                        &&& min - elapsed(self.pressed_mouse_buttons[code].0, now) > u64::MAX
                    })
                },
                None => false,
            },
            EventType::Wheel { delta_x, delta_y } => {
                let b = scroll_button(delta_x, delta_y);
                self.pressed_scroll_buttons.contains_key(b) && self.pressed_scroll_buttons[b] == u32::MAX
            },
        }
    }

    /// The message would stop the program (see `input_panics`; also an
    /// index out of range, or the release of a scroll that is not shown).
    pub open spec fn panics(self, message: Message, now: u128) -> bool {
        match message {
            Message::Listener(ListenerEvent::KeyReceived(event)) => self.input_panics(event, now),
            Message::ReleaseScroll(b) => !self.pressed_scroll_buttons.contains_key(b),
            Message::LoadKeyboard(k) => k >= self.keyboard_options.len(),
            Message::LoadStyle(st) => {
                ||| st >= self.style_options.len()
                ||| (self.style_options[st as int] is Custom && (self.keyboard matches Some(k)
                    ==> k >= self.keyboard_options.len()))
            },
            _ => false,
        }
    }

    /// The board after a message at `now`, and its answer.
    pub open spec fn step(self, message: Message, now: u128) -> (BoardModel, Outcome) {
        match message {
            Message::Listener(ListenerEvent::KeyReceived(event)) => self.input_step(event, now),
            Message::Listener(ListenerEvent::Empty) => (self, redraw_only()),
            Message::ReleaseScroll(b) => (
                BoardModel { pressed_scroll_buttons: scroll_released(self.pressed_scroll_buttons, b), ..self },
                redraw_only(),
            ),
            Message::OpenSettingsWindow => (self, asks(Command::OpenSettingsWindow)),
            Message::OpenLoadKeyboardWindow => (self, asks(Command::OpenLoadKeyboardWindow)),
            Message::ChangeKeyboardCategory(category) => if category@.len() == 0 {
                (self, quiet())
            } else {
                let s = BoardModel { settings: Settings { category: category, ..self.settings }, ..self };
                (
                    if self.startup {
                        s
                    } else {
                        BoardModel { keyboard: None, style_choice: None, style_options: Seq::empty(), ..s }
                    },
                    asks(Command::ListKeyboards(category)),
                )
            },
            Message::LoadKeyboard(k) => (
                BoardModel { settings: Settings { keyboard: k, ..self.settings }, keyboard: Some(k), ..self },
                asks(Command::LoadKeyboard {
                    category: self.settings.category,
                    keyboard: self.keyboard_options[k as int],
                }),
            ),
            Message::LoadStyle(st) => (
                BoardModel { settings: Settings { style: st, ..self.settings }, style_choice: Some(st), ..self },
                asks(match self.style_options[st as int] {
                    StyleChoice::Default => Command::UseDefaultStyle,
                    StyleChoice::Global(name) => Command::LoadStyle(StyleFile::Global { name }),
                    StyleChoice::Custom(name) => Command::LoadStyle(StyleFile::Custom {
                        category: self.settings.category,
                        keyboard: self.keyboard_options[self.keyboard.unwrap() as int],
                        name,
                    }),
                }),
            ),
            Message::WindowClosed(id) => (
                BoardModel {
                    load_keyboard_window: if self.load_keyboard_window == Some(id) {
                        None
                    } else {
                        self.load_keyboard_window
                    },
                    error_windows: self.error_windows.remove(id),
                    settings_window: if self.settings_window == Some(id) {
                        None
                    } else {
                        self.settings_window
                    },
                    ..self
                },
                redraw_only(),
            ),
            Message::Quitting => (self, asks(Command::Quit)),
            Message::ChangeSetting(setting) => (self.change_setting(setting), redraw_only()),
            Message::ClearPressedKeys => (BoardModel { pressed_keys: Map::empty(), ..self }, redraw_only()),
        }
    }

    /// The board after the keyboards of the category were listed, and its
    /// answer: the first listing goes on to load the chosen keyboard.
    pub open spec fn keyboards_listed(self, entries: Seq<DirEntry>) -> (BoardModel, Outcome) {
        let s = BoardModel { keyboard_options: keyboard_dirs(entries), ..self };
        if self.startup {
            (BoardModel { startup: false, ..s }, asks(Command::Send(Message::LoadKeyboard(self.keyboard.unwrap()))))
        } else {
            (s, redraw_only())
        }
    }

    /// The board after the styles of a keyboard were listed: the built-in
    /// style, then the keyboard's, then the global ones; the first is chosen.
    pub open spec fn styles_listed(self, custom: Seq<DirEntry>, global: Seq<DirEntry>) -> BoardModel {
        BoardModel {
            style_options: seq![StyleChoice::Default] + style_choices(custom, false) + style_choices(global, true),
            style_choice: Some(0),
            ..self
        }
    }

    /// Which window a number names, if any.
    pub open spec fn window_kind(self, window: u64) -> Option<WindowKind> {
        if window == MAIN_WINDOW {
            Some(WindowKind::Main)
        } else if self.load_keyboard_window == Some(window) {
            Some(WindowKind::LoadKeyboard)
        } else if self.error_windows.contains_key(window) {
            Some(WindowKind::Error)
        } else if self.settings_window == Some(window) {
            Some(WindowKind::Settings)
        } else {
            None
        }
    }

    /// The title of a window the board knows.
    pub open spec fn title(self, window: u64) -> Seq<char> {
        match self.window_kind(window) {
            Some(WindowKind::Main) => self.settings.window_title@,
            Some(WindowKind::LoadKeyboard) => "Load Keyboard"@,
            Some(WindowKind::Error) => "Error"@,
            _ => "Settings"@,
        }
    }

    /// The theme of a window.
    pub open spec fn theme(self, window: u64) -> ThemeChoice {
        if window == MAIN_WINDOW {
            ThemeChoice::Custom
        } else if self.load_keyboard_window == Some(window) {
            ThemeChoice::Light
        } else {
            ThemeChoice::Dark
        }
    }
}

} // verus!

//! The board: which keys, buttons and scrolls are shown, which windows are
//! open, and the settings; and how it reacts to each message.

use std::collections::HashMap;
use vstd::prelude::*;
use vstd::string::*;
use vstd::std_specs::iter::IteratorSpec;
use crate::code_convert::{Key, Button, keycode_convert, mouse_button_code_convert};
use crate::messages::{
    BoardError, Command, EventType, ListenerEvent, Message, Outcome, Setting, StyleFile,
    MAIN_WINDOW,
};
use crate::model::{
    BoardModel, ThemeChoice, WindowKind, elapsed, pressed, released, keyboard_dirs,
    last_display_with, dir_names, style_choices, style_stems_present, is_style_file,
};
use crate::types::{Capitalization, DirEntry, Flags, Settings, StyleChoice};

verus! {

broadcast use vstd::std_specs::hash::group_hash_axioms;

/// The state of the visualiser that decides what is shown.
pub struct NuhxBoard {
    /// `[keycode: (press_time, releases_queued)]`
    pub pressed_keys: HashMap<u32, (u128, u32)>,
    /// `[button code: (press_time, releases_queued)]`
    pub pressed_mouse_buttons: HashMap<u32, (u128, u32)>,
    /// `[direction: releases_queued]`
    pub pressed_scroll_buttons: HashMap<u32, u32>,
    pub caps: bool,
    true_caps: bool,
    load_keyboard_window_id: Option<u64>,
    settings_window_id: Option<u64>,
    keyboard: Option<usize>,
    style_choice: Option<usize>,
    error_windows: HashMap<u64, BoardError>,
    keyboard_options: Vec<String>,
    keyboard_category_options: Vec<String>,
    style_options: Vec<StyleChoice>,
    startup: bool,
    pub settings: Settings,
}

impl View for NuhxBoard {
    type V = BoardModel;

    closed spec fn view(&self) -> BoardModel {
        BoardModel {
            pressed_keys: self.pressed_keys@,
            pressed_mouse_buttons: self.pressed_mouse_buttons@,
            pressed_scroll_buttons: self.pressed_scroll_buttons@,
            caps: self.caps,
            true_caps: self.true_caps,
            load_keyboard_window: self.load_keyboard_window_id,
            settings_window: self.settings_window_id,
            keyboard: self.keyboard,
            style_choice: self.style_choice,
            error_windows: self.error_windows@,
            keyboard_options: self.keyboard_options@,
            keyboard_category_options: self.keyboard_category_options@,
            style_options: self.style_options@,
            startup: self.startup,
            settings: self.settings,
        }
    }
}

/// The board as it starts with these settings.
pub open spec fn initial_model(settings: Settings) -> BoardModel {
    BoardModel {
        pressed_keys: Map::empty(),
        pressed_mouse_buttons: Map::empty(),
        pressed_scroll_buttons: Map::empty(),
        caps: settings.capitalization == Capitalization::Upper,
        true_caps: false,
        load_keyboard_window: None,
        settings_window: None,
        keyboard: Some(settings.keyboard),
        style_choice: Some(settings.style),
        error_windows: Map::empty(),
        keyboard_options: Seq::empty(),
        keyboard_category_options: Seq::empty(),
        style_options: Seq::empty(),
        startup: true,
        settings,
    }
}

fn elapsed_ms(since: u128, now: u128) -> (r: u128)
    ensures
        r == elapsed(since, now),
{
    if now >= since {
        now - since
    } else {
        0
    }
}

fn press(map: &mut HashMap<u32, (u128, u32)>, code: u32, now: u128)
    requires
        !(old(map)@.contains_key(code) && old(map)@[code].1 == u32::MAX),
    ensures
        final(map)@ == pressed(old(map)@, code, now),
{
    if map.contains_key(&code) {
        let count: u32 = map.get(&code).unwrap().1;
        map.insert(code, (now, count + 1));
    } else {
        map.insert(code, (now, 1));
    }
}

fn release(map: &mut HashMap<u32, (u128, u32)>, code: u32)
    requires
        old(map)@.contains_key(code),
        old(map)@[code].1 >= 1,
    ensures
        final(map)@ == released(old(map)@, code),
{
    let entry: (u128, u32) = *map.get(&code).unwrap();
    if entry.1 == 1 {
        map.remove(&code);
    } else {
        map.insert(code, (entry.0, entry.1 - 1));
    }
}

fn scroll_button_of(delta_x: i64, delta_y: i64) -> (b: u32)
    ensures
        b == crate::model::scroll_button(delta_x, delta_y),
{
    if delta_x < 0 {
        3
    } else if delta_x > 0 {
        2
    } else if delta_y < 0 {
        1
    } else {
        0
    }
}

fn keyboard_dirs_of(entries: &Vec<DirEntry>) -> (r: Vec<String>)
    ensures
        r@ == keyboard_dirs(entries@),
{
    let images = String::from_str("images");
    let mut r: Vec<String> = Vec::new();
    let mut i: usize = 0;
    while i < entries.len()
        invariant
            i <= entries.len(),
            r@ == keyboard_dirs(entries@.take(i as int)),
            images@ == "images"@,
        decreases entries.len() - i,
    {
        assert(entries@.take(i + 1).drop_last() == entries@.take(i as int));
        let e = &entries[i];
        if e.is_dir && !(e.name == images) {
            r.push(e.name.clone());
        }
        i += 1;
    }
    assert(entries@.take(entries.len() as int) == entries@);
    r
}

fn dir_names_of(entries: &Vec<DirEntry>) -> (r: Vec<String>)
    ensures
        r@ == dir_names(entries@),
{
    let mut r: Vec<String> = Vec::new();
    let mut i: usize = 0;
    while i < entries.len()
        invariant
            i <= entries.len(),
            r@ == dir_names(entries@.take(i as int)),
        decreases entries.len() - i,
    {
        assert(entries@.take(i + 1).drop_last() == entries@.take(i as int));
        let e = &entries[i];
        if e.is_dir {
            r.push(e.name.clone());
        }
        i += 1;
    }
    assert(entries@.take(entries.len() as int) == entries@);
    r
}

fn append_style_choices(out: &mut Vec<StyleChoice>, entries: &Vec<DirEntry>, global: bool)
    requires
        style_stems_present(entries@),
    ensures
        final(out)@ == old(out)@ + style_choices(entries@, global),
{
    let style = String::from_str("style");
    let mut i: usize = 0;
    while i < entries.len()
        invariant
            i <= entries.len(),
            style_stems_present(entries@),
            out@ == old(out)@ + style_choices(entries@.take(i as int), global),
            style@ == "style"@,
        decreases entries.len() - i,
    {
        assert(entries@.take(i + 1).drop_last() == entries@.take(i as int));
        let e = &entries[i];
        let is_style = match &e.extension {
            Some(ext) => e.is_file && *ext == style,
            None => false,
        };
        assert(is_style == is_style_file(entries@[i as int]));
        if is_style {
            let stem = e.stem.clone().unwrap();
            if global {
                out.push(StyleChoice::Global(stem));
            } else {
                out.push(StyleChoice::Custom(stem));
            }
        }
        i += 1;
    }
    assert(entries@.take(entries.len() as int) == entries@);
}

impl NuhxBoard {
    /// The board as the application starts it, and the first command: list
    /// the keyboards of the saved category.
    pub fn new(flags: Flags) -> (r: (NuhxBoard, Command))
        ensures
            r.0@ == initial_model(flags.settings),
            r.0@.wf(),
            r.1 == Command::Send(Message::ChangeKeyboardCategory(flags.settings.category)),
    {
        let category = flags.settings.category.clone();
        let caps = match flags.settings.capitalization {
            Capitalization::Upper => true,
            Capitalization::Lower => false,
            Capitalization::Follow => false,
        };
        let board = NuhxBoard {
            pressed_keys: HashMap::new(),
            pressed_mouse_buttons: HashMap::new(),
            pressed_scroll_buttons: HashMap::new(),
            caps,
            true_caps: false,
            load_keyboard_window_id: None,
            settings_window_id: None,
            keyboard: Some(flags.settings.keyboard),
            style_choice: Some(flags.settings.style),
            error_windows: HashMap::new(),
            keyboard_options: Vec::new(),
            keyboard_category_options: Vec::new(),
            style_options: Vec::new(),
            startup: true,
            settings: flags.settings,
        };
        (board, Command::Send(Message::ChangeKeyboardCategory(category)))
    }
}


impl NuhxBoard {
    /// Whether the message would stop the program (an arithmetic overflow,
    /// an index out of range, a release of something not held, or a wait too
    /// long to schedule). The application stops before `update` where this
    /// holds.
    pub fn panics_on(&self, message: &Message, now: u128) -> (b: bool)
        ensures
            b == self@.panics(*message, now),
    {
        match message {
            Message::Listener(ListenerEvent::KeyReceived(event)) => self.input_panics_on(*event, now),
            Message::ReleaseScroll(b) => !self.pressed_scroll_buttons.contains_key(b),
            Message::LoadKeyboard(k) => *k >= self.keyboard_options.len(),
            Message::LoadStyle(st) => {
                if *st >= self.style_options.len() {
                    true
                } else {
                    match &self.style_options[*st] {
                        StyleChoice::Custom(_) => match self.keyboard {
                            Some(k) => k >= self.keyboard_options.len(),
                            None => true,
                        },
                        _ => false,
                    }
                }
            },
            _ => false,
        }
    }

    fn held_wait_overflows(map: &HashMap<u32, (u128, u32)>, code: u32, min: u128, now: u128) -> (b: bool)
        requires
            map@.contains_key(code),
        ensures
            b == (elapsed(map@[code].0, now) < min && min - elapsed(map@[code].0, now) > u64::MAX),
    {
        let held = elapsed_ms(map.get(&code).unwrap().0, now);
        held < min && min - held > u64::MAX as u128
    }

    fn input_panics_on(&self, event: EventType, now: u128) -> (b: bool)
        ensures
            b == self@.input_panics(event, now),
    {
        let min = self.settings.min_press_time;
        match event {
            EventType::KeyPress(key) => match keycode_convert(key) {
                Ok(code) => self.pressed_keys.contains_key(&code)
                    && self.pressed_keys.get(&code).unwrap().1 == u32::MAX,
                Err(_) => false,
            },
            EventType::KeyRelease(key) => match keycode_convert(key) {
                Ok(code) => self.pressed_keys.contains_key(&code)
                    && Self::held_wait_overflows(&self.pressed_keys, code, min, now),
                Err(_) => false,
            },
            EventType::ButtonPress(button) => match mouse_button_code_convert(button) {
                Ok(code) => !(button == Button::Unknown(6) || button == Button::Unknown(7))
                    && self.pressed_mouse_buttons.contains_key(&code)
                    && self.pressed_mouse_buttons.get(&code).unwrap().1 == u32::MAX,
                Err(_) => false,
            },
            EventType::ButtonRelease(button) => match mouse_button_code_convert(button) {
                Ok(code) => !(button == Button::Unknown(6) || button == Button::Unknown(7)) && (
                    !self.pressed_mouse_buttons.contains_key(&code)
                    || Self::held_wait_overflows(&self.pressed_mouse_buttons, code, min, now)),
                Err(_) => false,
            },
            EventType::Wheel { delta_x, delta_y } => {
                let b = scroll_button_of(delta_x, delta_y);
                self.pressed_scroll_buttons.contains_key(&b)
                    && *self.pressed_scroll_buttons.get(&b).unwrap() == u32::MAX
            },
        }
    }

    fn handle_input(&mut self, event: EventType, now: u128) -> (out: Outcome)
        requires
            old(self)@.wf(),
            !old(self)@.input_panics(event, now),
        ensures
            (final(self)@, out) == old(self)@.input_step(event, now),
    {
        let min = self.settings.min_press_time;
        match event {
            EventType::KeyPress(key) => {
                let code = match keycode_convert(key) {
                    Ok(code) => code,
                    Err(bad_key) => {
                        return Outcome {
                            command: Command::ShowError(BoardError::UnknownKey(bad_key)),
                            redraw: false,
                        };
                    },
                };
                if key == Key::CapsLock && self.settings.capitalization == Capitalization::Follow {
                    self.caps = !self.caps;
                }
                self.true_caps = !self.true_caps;
                press(&mut self.pressed_keys, code, now);
                Outcome { command: Command::Nothing, redraw: true }
            },
            EventType::KeyRelease(key) => {
                let code = match keycode_convert(key) {
                    Ok(code) => code,
                    Err(bad_key) => {
                        return Outcome {
                            command: Command::ShowError(BoardError::UnknownKey(bad_key)),
                            redraw: false,
                        };
                    },
                };
                if !self.pressed_keys.contains_key(&code) {
                    return Outcome { command: Command::Nothing, redraw: false };
                }
                let held = elapsed_ms(self.pressed_keys.get(&code).unwrap().0, now);
                if held < min {
                    let wait = (min - held) as u64;
                    Outcome {
                        command: Command::After { millis: wait, message: Message::key_release(key) },
                        redraw: false,
                    }
                } else {
                    release(&mut self.pressed_keys, code);
                    Outcome { command: Command::Nothing, redraw: true }
                }
            },
            EventType::ButtonPress(button) => {
                let code = match mouse_button_code_convert(button) {
                    Ok(code) => code,
                    Err(bad_button) => {
                        return Outcome {
                            command: Command::ShowError(BoardError::UnknownButton(bad_button)),
                            redraw: false,
                        };
                    },
                };
                if button == Button::Unknown(6) || button == Button::Unknown(7) {
                    return Outcome { command: Command::Nothing, redraw: false };
                }
                press(&mut self.pressed_mouse_buttons, code, now);
                Outcome { command: Command::Nothing, redraw: true }
            },
            EventType::ButtonRelease(button) => {
                let code = match mouse_button_code_convert(button) {
                    Ok(code) => code,
                    Err(bad_button) => {
                        return Outcome {
                            command: Command::ShowError(BoardError::UnknownButton(bad_button)),
                            redraw: false,
                        };
                    },
                };
                if button == Button::Unknown(6) || button == Button::Unknown(7) {
                    return Outcome { command: Command::Nothing, redraw: false };
                }
                let held = elapsed_ms(self.pressed_mouse_buttons.get(&code).unwrap().0, now);
                if held < min {
                    let wait = (min - held) as u64;
                    Outcome {
                        command: Command::After { millis: wait, message: Message::button_release(button) },
                        redraw: false,
                    }
                } else {
                    release(&mut self.pressed_mouse_buttons, code);
                    Outcome { command: Command::Nothing, redraw: true }
                }
            },
            EventType::Wheel { delta_x, delta_y } => {
                let b = scroll_button_of(delta_x, delta_y);
                if self.pressed_scroll_buttons.contains_key(&b) {
                    let count: u32 = *self.pressed_scroll_buttons.get(&b).unwrap();
                    self.pressed_scroll_buttons.insert(b, count + 1);
                } else {
                    self.pressed_scroll_buttons.insert(b, 1);
                }
                Outcome {
                    command: Command::After {
                        millis: self.settings.scroll_hold_time,
                        message: Message::ReleaseScroll(b),
                    },
                    redraw: true,
                }
            },
        }
    }

    fn change_setting(&mut self, setting: Setting)
        ensures
            final(self)@ == old(self)@.change_setting(setting),
    {
        match setting {
            Setting::ScrollHoldTime(time) => {
                self.settings.scroll_hold_time = time;
            },
            Setting::CenterMouse => {
                self.settings.mouse_from_center = !self.settings.mouse_from_center;
            },
            Setting::DisplayId(id) => {
                self.settings.display_id = id;
            },
            Setting::MinPressTime(time) => {
                self.settings.min_press_time = time;
            },
            Setting::WindowTitle(title) => {
                self.settings.window_title = title;
            },
            Setting::Capitalization(cap) => {
                match cap {
                    Capitalization::Lower => {
                        self.caps = false;
                    },
                    Capitalization::Upper => {
                        self.caps = true;
                    },
                    Capitalization::Follow => {
                        self.caps = self.true_caps;
                    },
                }
                self.settings.capitalization = cap;
            },
            Setting::FollowForCapsSensitive => {
                self.settings.follow_for_caps_sensitive = !self.settings.follow_for_caps_sensitive;
            },
            Setting::FollowForCapsInsensitive => {
                self.settings.follow_for_caps_insensitive = !self.settings.follow_for_caps_insensitive;
            },
        }
    }

    /// Reacts to a message that arrived at `now` (milliseconds on the
    /// application's clock): the board changes as `BoardModel::step` says and
    /// answers with the outside work to do.
    pub fn update(&mut self, message: Message, now: u128) -> (out: Outcome)
        requires
            old(self)@.wf(),
            !old(self)@.panics(message, now),
        ensures
            (final(self)@, out) == old(self)@.step(message, now),
            final(self)@.wf(),
    {
        proof {
            crate::laws::lemma_step_keeps_wf(self@, message, now);
        }
        match message {
            Message::Listener(ListenerEvent::KeyReceived(event)) => self.handle_input(event, now),
            Message::Listener(ListenerEvent::Empty) => Outcome { command: Command::Nothing, redraw: true },
            Message::ReleaseScroll(b) => {
                let count: u32 = *self.pressed_scroll_buttons.get(&b).unwrap();
                if count == 1 {
                    self.pressed_scroll_buttons.remove(&b);
                } else {
                    self.pressed_scroll_buttons.insert(b, count - 1);
                }
                Outcome { command: Command::Nothing, redraw: true }
            },
            Message::OpenSettingsWindow => Outcome { command: Command::OpenSettingsWindow, redraw: false },
            Message::OpenLoadKeyboardWindow => Outcome {
                command: Command::OpenLoadKeyboardWindow,
                redraw: false,
            },
            Message::ChangeKeyboardCategory(category) => {
                if category.as_str().is_empty() {
                    return Outcome { command: Command::Nothing, redraw: false };
                }
                self.settings.category = category.clone();
                if !self.startup {
                    self.keyboard = None;
                    self.style_choice = None;
                    self.style_options = Vec::new();
                }
                Outcome { command: Command::ListKeyboards(category), redraw: false }
            },
            Message::LoadKeyboard(keyboard) => {
                self.settings.keyboard = keyboard;
                self.keyboard = Some(keyboard);
                let category = self.settings.category.clone();
                let name = self.keyboard_options[keyboard].clone();
                Outcome {
                    command: Command::LoadKeyboard { category, keyboard: name },
                    redraw: false,
                }
            },
            Message::LoadStyle(style) => {
                self.settings.style = style;
                self.style_choice = Some(style);
                let command = match &self.style_options[style] {
                    StyleChoice::Default => Command::UseDefaultStyle,
                    StyleChoice::Global(name) => Command::LoadStyle(StyleFile::Global { name: name.clone() }),
                    StyleChoice::Custom(name) => {
                        let keyboard = self.keyboard.unwrap();
                        Command::LoadStyle(StyleFile::Custom {
                            category: self.settings.category.clone(),
                            keyboard: self.keyboard_options[keyboard].clone(),
                            name: name.clone(),
                        })
                    },
                };
                Outcome { command, redraw: false }
            },
            Message::WindowClosed(id) => {
                if self.load_keyboard_window_id == Some(id) {
                    self.load_keyboard_window_id = None;
                }
                self.error_windows.remove(&id);
                if self.settings_window_id == Some(id) {
                    self.settings_window_id = None;
                }
                Outcome { command: Command::Nothing, redraw: true }
            },
            Message::Quitting => Outcome { command: Command::Quit, redraw: false },
            Message::ChangeSetting(setting) => {
                self.change_setting(setting);
                Outcome { command: Command::Nothing, redraw: true }
            },
            Message::ClearPressedKeys => {
                self.pressed_keys.clear();
                Outcome { command: Command::Nothing, redraw: true }
            },
        }
    }
}


/// The windows to close when quitting, in order: the keyboard-loading window,
/// the error windows (in any order, each once), the settings window, and last
/// the main window.
pub open spec fn is_quit_order(b: BoardModel, windows: Seq<u64>) -> bool {
    let head: Seq<u64> = match b.load_keyboard_window {
        Some(id) => seq![id],
        None => Seq::empty(),
    };
    let tail: Seq<u64> = match b.settings_window {
        Some(id) => seq![id, MAIN_WINDOW],
        None => seq![MAIN_WINDOW],
    };
    exists|errors: Seq<u64>|
        {
            &&& #[trigger] errors.no_duplicates()
            &&& errors.to_set() == b.error_windows.dom()
            &&& windows == head + errors + tail
        }
}

impl NuhxBoard {
    /// The windows to close when quitting (see `is_quit_order`).
    pub fn windows_to_close(&self) -> (r: Vec<u64>)
        ensures
            is_quit_order(self@, r@),
    {
        let mut r: Vec<u64> = Vec::new();
        match self.load_keyboard_window_id {
            Some(id) => r.push(id),
            None => {},
        }
        let ghost head = r@;
        let mut errors: Vec<u64> = Vec::new();
        let ghost all = vstd::std_specs::hash::spec_keys_iter(&self.error_windows).remaining().unref();
        proof {
            assert(all.to_set() == self@.error_windows.dom());
        }
        for k in it: self.error_windows.keys()
            invariant
                it.seq().unref() == all,
                errors@ == all.take(it.index()),
        {
            errors.push(*k);
        }
        assert(errors@ == all);
        r.append(&mut errors);
        match self.settings_window_id {
            Some(id) => r.push(id),
            None => {},
        }
        r.push(MAIN_WINDOW);
        proof {
            let tail: Seq<u64> = match self.settings_window_id {
                Some(id) => seq![id, MAIN_WINDOW],
                None => seq![MAIN_WINDOW],
            };
            assert(r@ == head + all + tail);
            assert(all.no_duplicates());
        }
        r
    }
}

impl NuhxBoard {
    /// Registers the error window the application opened for `error`.
    pub fn error_window_opened(&mut self, window: u64, error: BoardError)
        ensures
            final(self)@ == (BoardModel {
                error_windows: old(self)@.error_windows.insert(window, error),
                ..old(self)@
            }),
    {
        self.error_windows.insert(window, error);
    }

    /// Registers the settings window the application opened.
    pub fn settings_window_opened(&mut self, window: u64)
        ensures
            final(self)@ == (BoardModel { settings_window: Some(window), ..old(self)@ }),
    {
        self.settings_window_id = Some(window);
    }

    /// Registers the keyboard-loading window the application opened, with the
    /// entries of the keyboards directory: its subdirectories are the
    /// categories.
    pub fn load_keyboard_window_opened(&mut self, window: u64, entries: &Vec<DirEntry>)
        ensures
            final(self)@ == (BoardModel {
                load_keyboard_window: Some(window),
                keyboard_category_options: dir_names(entries@),
                ..old(self)@
            }),
    {
        self.load_keyboard_window_id = Some(window);
        self.keyboard_category_options = dir_names_of(entries);
    }

    /// Takes the entries of the current category's directory: its
    /// subdirectories but `images` are the keyboards. The first listing goes
    /// on to load the keyboard chosen in the settings.
    pub fn keyboards_listed(&mut self, entries: &Vec<DirEntry>) -> (out: Outcome)
        requires
            old(self)@.wf(),
        ensures
            (final(self)@, out) == old(self)@.keyboards_listed(entries@),
            final(self)@.wf(),
    {
        proof {
            crate::laws::lemma_keyboards_listed_keeps_wf(self@, entries@);
        }
        self.keyboard_options = keyboard_dirs_of(entries);
        if self.startup {
            self.startup = false;
            let keyboard = self.keyboard.unwrap();
            Outcome { command: Command::Send(Message::LoadKeyboard(keyboard)), redraw: false }
        } else {
            Outcome { command: Command::Nothing, redraw: true }
        }
    }

    /// Takes the entries of the loaded keyboard's directory and of the global
    /// styles directory, lists their style files after the built-in style,
    /// and chooses the built-in one.
    pub fn styles_listed(&mut self, custom: &Vec<DirEntry>, global: &Vec<DirEntry>)
        requires
            style_stems_present(custom@),
            style_stems_present(global@),
        ensures
            final(self)@ == old(self)@.styles_listed(custom@, global@),
    {
        let mut options: Vec<StyleChoice> = Vec::new();
        options.push(StyleChoice::Default);
        append_style_choices(&mut options, custom, false);
        append_style_choices(&mut options, global, true);
        self.style_options = options;
        self.style_choice = Some(0);
    }

    /// Which of the board's windows a number names.
    pub fn window_kind(&self, window: u64) -> (k: Option<WindowKind>)
        ensures
            k == self@.window_kind(window),
    {
        if window == MAIN_WINDOW {
            Some(WindowKind::Main)
        } else if self.load_keyboard_window_id == Some(window) {
            Some(WindowKind::LoadKeyboard)
        } else if self.error_windows.contains_key(&window) {
            Some(WindowKind::Error)
        } else if self.settings_window_id == Some(window) {
            Some(WindowKind::Settings)
        } else {
            None
        }
    }

    /// The title of one of the board's windows.
    pub fn title(&self, window: u64) -> (t: String)
        requires
            self@.window_kind(window) is Some,
        ensures
            t@ == self@.title(window),
    {
        match self.window_kind(window) {
            Some(WindowKind::Main) => self.settings.window_title.clone(),
            Some(WindowKind::LoadKeyboard) => String::from_str("Load Keyboard"),
            Some(WindowKind::Error) => String::from_str("Error"),
            _ => String::from_str("Settings"),
        }
    }

    /// The theme a window is drawn in.
    pub fn theme(&self, window: u64) -> (t: ThemeChoice)
        ensures
            t == self@.theme(window),
    {
        if window == MAIN_WINDOW {
            ThemeChoice::Custom
        } else if self.load_keyboard_window_id == Some(window) {
            ThemeChoice::Light
        } else {
            ThemeChoice::Dark
        }
    }

    /// What the context menu's "Settings" entry sends: nothing while the
    /// settings window is open.
    pub fn settings_window_message(&self) -> (m: Option<Message>)
        ensures
            m == (if self@.settings_window is Some {
                None
            } else {
                Some(Message::OpenSettingsWindow)
            }),
    {
        match self.settings_window_id {
            Some(_) => None,
            None => Some(Message::OpenSettingsWindow),
        }
    }

    /// What the context menu's "Load Keyboard" entry sends: nothing while
    /// that window is open.
    pub fn load_keyboard_window_message(&self) -> (m: Option<Message>)
        ensures
            m == (if self@.load_keyboard_window is Some {
                None
            } else {
                Some(Message::OpenLoadKeyboardWindow)
            }),
    {
        match self.load_keyboard_window_id {
            Some(_) => None,
            None => Some(Message::OpenLoadKeyboardWindow),
        }
    }

    /// The "still follow shift" switches can be changed only while the
    /// capitalisation does not follow the keyboard.
    pub fn follow_switches_enabled(&self) -> (b: bool)
        ensures
            b == (self@.settings.capitalization != Capitalization::Follow),
    {
        self.settings.capitalization != Capitalization::Follow
    }

    /// Which of the displays (given by their ids, in the order the system
    /// lists them) is the one chosen in the settings: the last with its id.
    pub fn chosen_display(&self, display_ids: &Vec<u32>) -> (r: Option<usize>)
        ensures
            match last_display_with(display_ids@, self@.settings.display_id) {
                Some(i) => r == Some(i as usize),
                None => r is None,
            },
            match r {
                Some(i) => {
                    &&& i < display_ids.len()
                    &&& display_ids@[i as int] == self@.settings.display_id
                    &&& forall|j: int| i < j < display_ids.len() ==> display_ids@[j] != self@.settings.display_id
                },
                None => forall|j: int| 0 <= j < display_ids.len() ==> display_ids@[j] != self@.settings.display_id,
            },
    {
        proof {
            crate::laws::lemma_last_display_with(display_ids@, self@.settings.display_id);
        }
        let id = self.settings.display_id;
        let mut r: Option<usize> = None;
        let mut i: usize = 0;
        while i < display_ids.len()
            invariant
                i <= display_ids.len(),
                id == self@.settings.display_id,
                match last_display_with(display_ids@.take(i as int), id) {
                    Some(j) => r == Some(j as usize),
                    None => r is None,
                },
            decreases display_ids.len() - i,
        {
            assert(display_ids@.take(i + 1).drop_last() == display_ids@.take(i as int));
            if display_ids[i] == id {
                r = Some(i);
            }
            i += 1;
        }
        assert(display_ids@.take(display_ids.len() as int) == display_ids@);
        r
    }

    /// The error an error window shows.
    pub fn window_error(&self, window: u64) -> (e: Option<&BoardError>)
        ensures
            match e {
                Some(err) => self@.error_windows.contains_key(window) && *err == self@.error_windows[window],
                None => !self@.error_windows.contains_key(window),
            },
    {
        self.error_windows.get(&window)
    }

    /// The keyboards of the current category.
    pub fn keyboard_options(&self) -> (r: &Vec<String>)
        ensures
            r@ == self@.keyboard_options,
    {
        &self.keyboard_options
    }

    /// The categories listed in the keyboard-loading window.
    pub fn keyboard_category_options(&self) -> (r: &Vec<String>)
        ensures
            r@ == self@.keyboard_category_options,
    {
        &self.keyboard_category_options
    }

    /// The styles of the loaded keyboard.
    pub fn style_options(&self) -> (r: &Vec<StyleChoice>)
        ensures
            r@ == self@.style_options,
    {
        &self.style_options
    }

    /// The keyboard chosen in the current category.
    pub fn keyboard(&self) -> (r: Option<usize>)
        ensures
            r == self@.keyboard,
    {
        self.keyboard
    }

    /// The style chosen for the keyboard.
    pub fn style_choice(&self) -> (r: Option<usize>)
        ensures
            r == self@.style_choice,
    {
        self.style_choice
    }
}
} // verus!

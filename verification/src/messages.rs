//! The messages the board reacts to and the commands it answers with.

use vstd::prelude::*;
use crate::code_convert::{Key, Button};
use crate::types::Capitalization;

verus! {

/// The number of the main window. Other windows get their numbers from the
/// application as they open.
pub const MAIN_WINDOW: u64 = 0;

/// What the input listener saw.
#[derive(Debug, Clone, Copy, PartialEq, Eq, Structural)]
pub enum EventType {
    KeyPress(Key),
    KeyRelease(Key),
    ButtonPress(Button),
    ButtonRelease(Button),
    /// `delta_y` is the vertical and `delta_x` the horizontal scroll;
    /// positive values scroll up or right.
    Wheel { delta_x: i64, delta_y: i64 },
}

/// An event of the input listener.
#[derive(Debug, Clone, Copy, PartialEq, Eq, Structural)]
pub enum ListenerEvent {
    KeyReceived(EventType),
    /// The listener has nothing to report.
    Empty,
}

/// A change of one setting.
#[derive(Debug, Clone, PartialEq, Eq)]
pub enum Setting {
    ScrollHoldTime(u64),
    CenterMouse,
    DisplayId(u32),
    MinPressTime(u128),
    WindowTitle(String),
    Capitalization(Capitalization),
    FollowForCapsSensitive,
    FollowForCapsInsensitive,
}

/// What the board is asked to do.
#[derive(Debug, Clone, PartialEq, Eq)]
pub enum Message {
    Listener(ListenerEvent),
    /// One scroll in the given direction is no longer shown.
    ReleaseScroll(u32),
    /// Load the style with this index among the keyboard's styles.
    LoadStyle(usize),
    OpenLoadKeyboardWindow,
    OpenSettingsWindow,
    /// The window with this number was closed.
    WindowClosed(u64),
    ChangeKeyboardCategory(String),
    /// Load the keyboard with this index in the current category.
    LoadKeyboard(usize),
    Quitting,
    ChangeSetting(Setting),
    ClearPressedKeys,
}

/// The message that says a key was let go.
pub open spec fn key_release_message(key: Key) -> Message {
    Message::Listener(ListenerEvent::KeyReceived(EventType::KeyRelease(key)))
}

/// The message that says a mouse button was let go.
pub open spec fn button_release_message(button: Button) -> Message {
    Message::Listener(ListenerEvent::KeyReceived(EventType::ButtonRelease(button)))
}

impl Message {
    /// The message that says `key` was let go.
    pub fn key_release(key: Key) -> (m: Self)
        ensures
            m == key_release_message(key),
    {
        Message::Listener(ListenerEvent::KeyReceived(EventType::KeyRelease(key)))
    }

    /// The message that says `button` was let go.
    pub fn button_release(button: Button) -> (m: Self)
        ensures
            m == button_release_message(button),
    {
        Message::Listener(ListenerEvent::KeyReceived(EventType::ButtonRelease(button)))
    }

    /// The message that carries no event.
    pub fn none() -> (m: Self)
        ensures
            m == Message::Listener(ListenerEvent::Empty),
    {
        Message::Listener(ListenerEvent::Empty)
    }
}

/// Why a file could not be parsed.
#[derive(Debug, Clone, PartialEq, Eq)]
pub struct ParseFailure {
    /// The file ended too early.
    pub eof: bool,
    /// The line at which parsing stopped.
    pub line: usize,
    /// The parser's own description.
    pub detail: String,
}

/// What an error window reports.
#[derive(Debug, Clone, PartialEq, Eq)]
pub enum BoardError {
    /// The keyboard file could not be opened; the system's description.
    ConfigOpen(String),
    ConfigParse(ParseFailure),
    /// The style file could not be opened; the system's description.
    StyleOpen(String),
    StyleParse(ParseFailure),
    UnknownKey(Key),
    UnknownButton(Button),
}

/// The headline of an error window.
pub open spec fn error_kind_text(error: BoardError) -> Seq<char> {
    match error {
        BoardError::ConfigOpen(_) => "Keyboard file could not be opened."@,
        BoardError::ConfigParse(_) => "Keyboard file could not be parsed."@,
        BoardError::StyleOpen(_) => "Style file could not be opened."@,
        BoardError::StyleParse(_) => "Style file could not be parsed."@,
        BoardError::UnknownKey(_) => "Unknown Key."@,
        BoardError::UnknownButton(_) => "Unknown Mouse Button."@,
    }
}

impl BoardError {
    /// The headline of the error window that shows this error.
    pub fn kind_text(&self) -> (s: &'static str)
        ensures
            s@ == error_kind_text(*self),
    {
        match self {
            BoardError::ConfigOpen(_) => "Keyboard file could not be opened.",
            BoardError::ConfigParse(_) => "Keyboard file could not be parsed.",
            BoardError::StyleOpen(_) => "Style file could not be opened.",
            BoardError::StyleParse(_) => "Style file could not be parsed.",
            BoardError::UnknownKey(_) => "Unknown Key.",
            BoardError::UnknownButton(_) => "Unknown Mouse Button.",
        }
    }
}

/// A style file to load, named relative to the keyboards directory.
#[derive(Debug, Clone, PartialEq, Eq)]
pub enum StyleFile {
    /// `global/<name>.style`
    Global { name: String },
    /// `<category>/<keyboard>/<name>.style`
    Custom { category: String, keyboard: String, name: String },
}

/// The outside work that the application carries out for the board.
#[derive(Debug, Clone, PartialEq, Eq)]
pub enum Command {
    /// Nothing to do.
    Nothing,
    /// Deliver the message back to the board at once.
    Send(Message),
    /// Deliver the message back to the board after this many milliseconds.
    After { millis: u64, message: Message },
    /// Open an error window for the error, and register it with
    /// `error_window_opened`.
    ShowError(BoardError),
    /// Open the settings window and register it with `settings_window_opened`.
    OpenSettingsWindow,
    /// Open the keyboard-loading window, list the categories, and register
    /// both with `load_keyboard_window_opened`.
    OpenLoadKeyboardWindow,
    /// List the directory of this category and hand the entries to
    /// `keyboards_listed`.
    ListKeyboards(String),
    /// Reset the style, load `<category>/<keyboard>/keyboard.json` (or show
    /// the error), then list the keyboard's and the global styles and hand
    /// them to `styles_listed`.
    LoadKeyboard { category: String, keyboard: String },
    /// Use the built-in style.
    UseDefaultStyle,
    /// Load this style file (or show the error) and redraw.
    LoadStyle(StyleFile),
    /// Save the settings and close the windows that `windows_to_close` lists.
    Quit,
}

/// The board's answer to a message.
#[derive(Debug, Clone, PartialEq, Eq)]
pub struct Outcome {
    pub command: Command,
    /// The drawing of the keyboard is out of date.
    pub redraw: bool,
}

/// What happened to a window.
#[derive(Debug, Clone, Copy, PartialEq, Eq, Structural)]
pub enum WindowEvent {
    Closed,
    CloseRequested,
    Other,
}

/// The message a window event turns into, if any.
pub open spec fn window_event_spec(window: u64, event: WindowEvent) -> Option<Message> {
    match event {
        WindowEvent::Closed => Some(Message::WindowClosed(window)),
        WindowEvent::CloseRequested => if window == MAIN_WINDOW {
            Some(Message::Quitting)
        } else {
            None
        },
        WindowEvent::Other => None,
    }
}

/// The message a window event turns into: a closed window is reported, and
/// a request to close the main window means quitting.
pub fn window_event_message(window: u64, event: WindowEvent) -> (m: Option<Message>)
    ensures
        m == window_event_spec(window, event),
{
    match event {
        WindowEvent::Closed => Some(Message::WindowClosed(window)),
        WindowEvent::CloseRequested => {
            if window == MAIN_WINDOW {
                Some(Message::Quitting)
            } else {
                None
            }
        },
        WindowEvent::Other => None,
    }
}

} // verus!

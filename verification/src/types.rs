//! Settings and the plain values that describe the keyboards on disk.

use vstd::prelude::*;
use vstd::string::*;

verus! {

/// How the letters on the keys are shown.
#[derive(Debug, Clone, Copy, PartialEq, Eq, Structural)]
pub enum Capitalization {
    /// Always capital letters.
    Upper,
    /// Always small letters.
    Lower,
    /// Follow the Caps Lock key.
    Follow,
}

/// The user's settings, kept between runs.
///
/// The mouse sensitivity is a floating-point setting and is kept by the
/// application beside these.
#[derive(Debug, Clone, PartialEq, Eq)]
pub struct Settings {
    /// Name of the keyboard category (a directory of keyboards).
    pub category: String,
    /// Index of the loaded keyboard in its category.
    pub keyboard: usize,
    /// Index of the chosen style among the keyboard's styles.
    pub style: usize,
    pub capitalization: Capitalization,
    pub follow_for_caps_sensitive: bool,
    pub follow_for_caps_insensitive: bool,
    /// Measure the mouse speed from the centre of the screen.
    pub mouse_from_center: bool,
    /// The display whose centre is used.
    pub display_id: u32,
    /// A key stays shown as pressed for at least this many milliseconds.
    pub min_press_time: u128,
    /// A scroll stays shown for this many milliseconds.
    pub scroll_hold_time: u64,
    pub window_title: String,
}

/// The title the main window has by default.
pub open spec fn default_window_title() -> Seq<char> {
    "NuhxBoard"@
}

impl Settings {
    /// These are the default settings: no category, the first keyboard and
    /// style, capitals following the keyboard, 100 ms scrolls, no minimum
    /// press time, display 0.
    pub open spec fn is_default(self) -> bool {
        &&& self.category@ == Seq::<char>::empty()
        &&& self.keyboard == 0
        &&& self.style == 0
        &&& self.capitalization == Capitalization::Follow
        &&& !self.follow_for_caps_sensitive
        &&& !self.follow_for_caps_insensitive
        &&& !self.mouse_from_center
        &&& self.display_id == 0
        &&& self.min_press_time == 0
        &&& self.scroll_hold_time == 100
        &&& self.window_title@ == default_window_title()
    }
}

impl Default for Settings {
    fn default() -> (s: Self)
        ensures
            s.is_default(),
    {
        Settings {
            category: String::new(),
            keyboard: 0,
            style: 0,
            capitalization: Capitalization::Follow,
            follow_for_caps_sensitive: false,
            follow_for_caps_insensitive: false,
            mouse_from_center: false,
            display_id: 0,
            min_press_time: 0,
            scroll_hold_time: 100,
            window_title: String::from_str("NuhxBoard"),
        }
    }
}

/// What the application starts with.
pub struct Flags {
    pub settings: Settings,
}

impl Default for Flags {
    fn default() -> (f: Self)
        ensures
            f.settings.is_default(),
    {
        Flags { settings: Settings::default() }
    }
}

/// A style that can be chosen for a keyboard.
#[derive(Debug, Clone, PartialEq, Eq)]
pub enum StyleChoice {
    /// The built-in style.
    Default,
    /// A style shared by all keyboards, by name.
    Global(String),
    /// A style of the loaded keyboard, by name.
    Custom(String),
}

/// The text under which a style is listed.
pub open spec fn style_label(choice: StyleChoice) -> Seq<char> {
    match choice {
        StyleChoice::Default => "Global Default"@,
        StyleChoice::Custom(name) => name@,
        StyleChoice::Global(name) => "Global: "@ + name@,
    }
}

impl StyleChoice {
    /// The text under which this style is listed.
    pub fn label(&self) -> (s: String)
        ensures
            s@ == style_label(*self),
    {
        match self {
            StyleChoice::Default => String::from_str("Global Default"),
            StyleChoice::Custom(name) => name.clone(),
            StyleChoice::Global(name) => String::from_str("Global: ").concat(name.as_str()),
        }
    }
}

/// An entry of a directory, as the application read it from disk.
#[derive(Debug, Clone, PartialEq, Eq)]
pub struct DirEntry {
    /// The entry's file name.
    pub name: String,
    pub is_dir: bool,
    pub is_file: bool,
    /// The part of the name after its last dot, if the name has one.
    pub extension: Option<String>,
    /// The name without its extension.
    pub stem: Option<String>,
}

} // verus!

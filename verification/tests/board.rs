use nuhxboard::board::NuhxBoard;
use nuhxboard::code_convert::{Button, Key};
use nuhxboard::messages::{
    window_event_message, BoardError, Command, EventType, ListenerEvent, Message, Outcome,
    ParseFailure, Setting, StyleFile, WindowEvent, MAIN_WINDOW,
};
use nuhxboard::model::{ThemeChoice, WindowKind};
use nuhxboard::types::{Capitalization, DirEntry, Flags, Settings, StyleChoice};

fn input(event: EventType) -> Message {
    Message::Listener(ListenerEvent::KeyReceived(event))
}

fn dir(name: &str) -> DirEntry {
    DirEntry { name: name.to_string(), is_dir: true, is_file: false, extension: None, stem: None }
}

fn file(name: &str) -> DirEntry {
    let path = std::path::Path::new(name);
    DirEntry {
        name: name.to_string(),
        is_dir: false,
        is_file: true,
        extension: path.extension().map(|e| e.to_str().unwrap().to_string()),
        stem: path.file_stem().map(|e| e.to_str().unwrap().to_string()),
    }
}

fn board_with(settings: Settings) -> NuhxBoard {
    NuhxBoard::new(Flags { settings }).0
}

fn board() -> NuhxBoard {
    board_with(Settings::default())
}

fn step(b: &mut NuhxBoard, m: Message, now: u128) -> Outcome {
    assert!(!b.panics_on(&m, now));
    b.update(m, now)
}

fn redraw() -> Outcome {
    Outcome { command: Command::Nothing, redraw: true }
}

#[test]
fn default_settings() {
    let s = Settings::default();
    assert_eq!(s.category, "");
    assert_eq!(s.window_title, "NuhxBoard");
    assert_eq!(s.capitalization, Capitalization::Follow);
    assert_eq!(s.scroll_hold_time, 100);
    assert_eq!(s.min_press_time, 0);
    assert_eq!(Flags::default().settings, s);
}

#[test]
fn new_board_lists_the_saved_category() {
    let mut settings = Settings::default();
    settings.category = "ansi".to_string();
    settings.capitalization = Capitalization::Upper;
    settings.keyboard = 2;
    settings.style = 1;
    let (b, command) = NuhxBoard::new(Flags { settings });
    assert_eq!(command, Command::Send(Message::ChangeKeyboardCategory("ansi".to_string())));
    assert!(b.caps);
    assert_eq!(b.keyboard(), Some(2));
    assert_eq!(b.style_choice(), Some(1));
    assert!(b.pressed_keys.is_empty());
}

#[test]
fn empty_category_is_ignored() {
    let mut b = board();
    let out = step(&mut b, Message::ChangeKeyboardCategory(String::new()), 0);
    assert_eq!(out, Outcome { command: Command::Nothing, redraw: false });
}

#[test]
fn startup_loads_the_saved_keyboard_and_styles() {
    let mut b = board();
    let out = step(&mut b, Message::ChangeKeyboardCategory("cat".to_string()), 0);
    assert_eq!(out, Outcome { command: Command::ListKeyboards("cat".to_string()), redraw: false });
    assert_eq!(b.settings.category, "cat");
    assert_eq!(b.keyboard(), Some(0));

    let out = b.keyboards_listed(&vec![dir("a"), dir("images"), file("x.json"), dir("b")]);
    assert_eq!(out, Outcome { command: Command::Send(Message::LoadKeyboard(0)), redraw: false });
    assert_eq!(b.keyboard_options(), &vec!["a".to_string(), "b".to_string()]);

    let out = step(&mut b, Message::LoadKeyboard(1), 0);
    assert_eq!(
        out.command,
        Command::LoadKeyboard { category: "cat".to_string(), keyboard: "b".to_string() }
    );
    assert_eq!(b.settings.keyboard, 1);
    assert_eq!(b.keyboard(), Some(1));

    b.styles_listed(
        &vec![file("dark.style"), file("readme.txt"), dir("odd.style"), file(".style")],
        &vec![file("light.style")],
    );
    assert_eq!(
        b.style_options(),
        &vec![
            StyleChoice::Default,
            StyleChoice::Custom("dark".to_string()),
            StyleChoice::Global("light".to_string()),
        ]
    );
    assert_eq!(b.style_choice(), Some(0));

    let out = step(&mut b, Message::LoadStyle(1), 0);
    assert_eq!(
        out.command,
        Command::LoadStyle(StyleFile::Custom {
            category: "cat".to_string(),
            keyboard: "b".to_string(),
            name: "dark".to_string(),
        })
    );
    assert_eq!(b.style_choice(), Some(1));
    assert_eq!(b.settings.style, 1);
    let out = step(&mut b, Message::LoadStyle(2), 0);
    assert_eq!(out.command, Command::LoadStyle(StyleFile::Global { name: "light".to_string() }));
    let out = step(&mut b, Message::LoadStyle(0), 0);
    assert_eq!(out, Outcome { command: Command::UseDefaultStyle, redraw: false });
}

#[test]
fn later_category_change_resets_choices() {
    let mut b = board();
    step(&mut b, Message::ChangeKeyboardCategory("cat".to_string()), 0);
    b.keyboards_listed(&vec![dir("a")]);
    b.styles_listed(&vec![], &vec![]);
    let out = step(&mut b, Message::ChangeKeyboardCategory("other".to_string()), 0);
    assert_eq!(out.command, Command::ListKeyboards("other".to_string()));
    assert_eq!(b.keyboard(), None);
    assert_eq!(b.style_choice(), None);
    assert!(b.style_options().is_empty());
    let out = b.keyboards_listed(&vec![dir("z")]);
    assert_eq!(out, redraw());
}

#[test]
fn out_of_range_keyboard_or_style_is_refused() {
    let mut b = board();
    assert!(b.panics_on(&Message::LoadKeyboard(0), 0));
    assert!(b.panics_on(&Message::LoadStyle(0), 0));
}

#[test]
fn key_press_and_release() {
    let mut b = board();
    let out = step(&mut b, input(EventType::KeyPress(Key::KeyA)), 100);
    assert_eq!(out, redraw());
    assert_eq!(b.pressed_keys.get(&65), Some(&(100, 1)));
    let out = step(&mut b, input(EventType::KeyRelease(Key::KeyA)), 101);
    assert_eq!(out, redraw());
    assert!(b.pressed_keys.is_empty());
}

#[test]
fn repeated_press_needs_as_many_releases() {
    let mut b = board();
    step(&mut b, input(EventType::KeyPress(Key::KeyA)), 100);
    step(&mut b, input(EventType::KeyPress(Key::KeyA)), 110);
    assert_eq!(b.pressed_keys.get(&65), Some(&(110, 2)));
    step(&mut b, input(EventType::KeyRelease(Key::KeyA)), 120);
    assert_eq!(b.pressed_keys.get(&65), Some(&(110, 1)));
    step(&mut b, input(EventType::KeyRelease(Key::KeyA)), 130);
    assert!(b.pressed_keys.is_empty());
}

#[test]
fn early_release_is_put_off() {
    let mut settings = Settings::default();
    settings.min_press_time = 50;
    let mut b = board_with(settings);
    step(&mut b, input(EventType::KeyPress(Key::KeyS)), 100);
    let out = step(&mut b, input(EventType::KeyRelease(Key::KeyS)), 120);
    assert_eq!(
        out,
        Outcome {
            command: Command::After { millis: 30, message: Message::key_release(Key::KeyS) },
            redraw: false,
        }
    );
    assert_eq!(b.pressed_keys.get(&83), Some(&(100, 1)));
    let out = step(&mut b, Message::key_release(Key::KeyS), 150);
    assert_eq!(out, redraw());
    assert!(b.pressed_keys.is_empty());
}

#[test]
fn release_earlier_than_press_waits_the_whole_time() {
    let mut settings = Settings::default();
    settings.min_press_time = 50;
    let mut b = board_with(settings);
    step(&mut b, input(EventType::KeyPress(Key::KeyS)), 100);
    let out = step(&mut b, input(EventType::KeyRelease(Key::KeyS)), 90);
    assert_eq!(out.command, Command::After { millis: 50, message: Message::key_release(Key::KeyS) });
}

#[test]
fn wait_too_long_to_schedule_is_refused() {
    let mut settings = Settings::default();
    settings.min_press_time = u128::MAX;
    let mut b = board_with(settings);
    step(&mut b, input(EventType::KeyPress(Key::KeyS)), 0);
    assert!(b.panics_on(&input(EventType::KeyRelease(Key::KeyS)), 0));
}

#[test]
fn release_of_unheld_key_does_nothing() {
    let mut b = board();
    let out = step(&mut b, input(EventType::KeyRelease(Key::KeyQ)), 5);
    assert_eq!(out, Outcome { command: Command::Nothing, redraw: false });
}

#[test]
fn unknown_key_opens_an_error() {
    let mut b = board();
    let out = step(&mut b, input(EventType::KeyPress(Key::Function)), 5);
    assert_eq!(
        out,
        Outcome { command: Command::ShowError(BoardError::UnknownKey(Key::Function)), redraw: false }
    );
    assert!(b.pressed_keys.is_empty());
    let out = step(&mut b, input(EventType::ButtonRelease(Button::Unknown(6))), 5);
    assert_eq!(out.command, Command::ShowError(BoardError::UnknownButton(Button::Unknown(6))));
}

#[test]
fn caps_lock_follows_in_follow_mode() {
    let mut b = board();
    assert!(!b.caps);
    step(&mut b, input(EventType::KeyPress(Key::CapsLock)), 0);
    assert!(b.caps);
    step(&mut b, input(EventType::KeyPress(Key::KeyA)), 0);
    assert!(b.caps);
    step(&mut b, input(EventType::KeyPress(Key::CapsLock)), 0);
    assert!(!b.caps);
}

#[test]
fn caps_lock_ignored_when_fixed() {
    let mut settings = Settings::default();
    settings.capitalization = Capitalization::Lower;
    let mut b = board_with(settings);
    step(&mut b, input(EventType::KeyPress(Key::CapsLock)), 0);
    assert!(!b.caps);
    step(&mut b, Message::ChangeSetting(Setting::Capitalization(Capitalization::Upper)), 0);
    assert!(b.caps);
    assert_eq!(b.settings.capitalization, Capitalization::Upper);
    // One key press so far: following the keyboard now shows capitals.
    step(&mut b, Message::ChangeSetting(Setting::Capitalization(Capitalization::Follow)), 0);
    assert!(b.caps);
}

#[test]
fn mouse_buttons_press_and_release() {
    let mut b = board();
    assert!(b.panics_on(&input(EventType::ButtonRelease(Button::Left)), 0));
    step(&mut b, input(EventType::ButtonPress(Button::Unknown(19))), 10);
    assert_eq!(b.pressed_mouse_buttons.get(&3), Some(&(10, 1)));
    let out = step(&mut b, input(EventType::ButtonRelease(Button::Unknown(8))), 20);
    assert_eq!(out, redraw());
    assert!(b.pressed_mouse_buttons.is_empty());
}

#[test]
fn early_button_release_is_put_off() {
    let mut settings = Settings::default();
    settings.min_press_time = 40;
    let mut b = board_with(settings);
    step(&mut b, input(EventType::ButtonPress(Button::Right)), 10);
    let out = step(&mut b, input(EventType::ButtonRelease(Button::Right)), 20);
    assert_eq!(
        out.command,
        Command::After { millis: 30, message: Message::button_release(Button::Right) }
    );
}

#[test]
fn wheel_directions_and_release() {
    let mut b = board();
    let cases = [((-1, 0), 3), ((1, 0), 2), ((0, -1), 1), ((0, 1), 0), ((0, 0), 0), ((-2, 5), 3)];
    for ((dx, dy), dir) in cases {
        let out = step(&mut b, input(EventType::Wheel { delta_x: dx, delta_y: dy }), 0);
        assert_eq!(
            out,
            Outcome {
                command: Command::After { millis: 100, message: Message::ReleaseScroll(dir) },
                redraw: true,
            }
        );
    }
    assert_eq!(b.pressed_scroll_buttons.get(&3), Some(&2));
    assert_eq!(b.pressed_scroll_buttons.get(&0), Some(&2));
    step(&mut b, Message::ReleaseScroll(3), 0);
    assert_eq!(b.pressed_scroll_buttons.get(&3), Some(&1));
    step(&mut b, Message::ReleaseScroll(3), 0);
    assert_eq!(b.pressed_scroll_buttons.get(&3), None);
    assert!(b.panics_on(&Message::ReleaseScroll(3), 0));
}

#[test]
fn clear_forgets_keys_only() {
    let mut b = board();
    step(&mut b, input(EventType::KeyPress(Key::KeyA)), 0);
    step(&mut b, input(EventType::ButtonPress(Button::Left)), 0);
    let out = step(&mut b, Message::ClearPressedKeys, 0);
    assert_eq!(out, redraw());
    assert!(b.pressed_keys.is_empty());
    assert_eq!(b.pressed_mouse_buttons.len(), 1);
}

#[test]
fn settings_change() {
    let mut b = board();
    step(&mut b, Message::ChangeSetting(Setting::ScrollHoldTime(250)), 0);
    step(&mut b, Message::ChangeSetting(Setting::MinPressTime(12)), 0);
    step(&mut b, Message::ChangeSetting(Setting::DisplayId(7)), 0);
    step(&mut b, Message::ChangeSetting(Setting::WindowTitle("Keys".to_string())), 0);
    step(&mut b, Message::ChangeSetting(Setting::CenterMouse), 0);
    step(&mut b, Message::ChangeSetting(Setting::FollowForCapsSensitive), 0);
    step(&mut b, Message::ChangeSetting(Setting::FollowForCapsInsensitive), 0);
    step(&mut b, Message::ChangeSetting(Setting::FollowForCapsInsensitive), 0);
    assert_eq!(b.settings.scroll_hold_time, 250);
    assert_eq!(b.settings.min_press_time, 12);
    assert_eq!(b.settings.display_id, 7);
    assert_eq!(b.settings.window_title, "Keys");
    assert!(b.settings.mouse_from_center);
    assert!(b.settings.follow_for_caps_sensitive);
    assert!(!b.settings.follow_for_caps_insensitive);
    assert_eq!(b.title(MAIN_WINDOW), "Keys");
}

#[test]
fn windows_open_and_close() {
    let mut b = board();
    assert_eq!(step(&mut b, Message::OpenSettingsWindow, 0).command, Command::OpenSettingsWindow);
    assert_eq!(b.settings_window_message(), Some(Message::OpenSettingsWindow));
    b.settings_window_opened(3);
    assert_eq!(b.settings_window_message(), None);
    assert_eq!(b.window_kind(3), Some(WindowKind::Settings));
    assert_eq!(b.title(3), "Settings");
    assert_eq!(b.theme(3), ThemeChoice::Dark);

    assert_eq!(
        step(&mut b, Message::OpenLoadKeyboardWindow, 0).command,
        Command::OpenLoadKeyboardWindow
    );
    b.load_keyboard_window_opened(1, &vec![dir("ansi"), file("NuhxBoard.json"), dir("global")]);
    assert_eq!(b.keyboard_category_options(), &vec!["ansi".to_string(), "global".to_string()]);
    assert_eq!(b.load_keyboard_window_message(), None);
    assert_eq!(b.title(1), "Load Keyboard");
    assert_eq!(b.theme(1), ThemeChoice::Light);
    assert_eq!(b.theme(MAIN_WINDOW), ThemeChoice::Custom);

    let err = BoardError::StyleParse(ParseFailure { eof: true, line: 3, detail: "eof".to_string() });
    b.error_window_opened(5, err.clone());
    b.error_window_opened(6, BoardError::ConfigOpen("missing".to_string()));
    assert_eq!(b.window_kind(5), Some(WindowKind::Error));
    assert_eq!(b.title(5), "Error");
    assert_eq!(b.window_error(5), Some(&err));

    let close = b.windows_to_close();
    assert_eq!(close.len(), 5);
    assert_eq!(close[0], 1);
    assert!((close[1] == 5 && close[2] == 6) || (close[1] == 6 && close[2] == 5));
    assert_eq!(close[3], 3);
    assert_eq!(close[4], MAIN_WINDOW);
    assert_eq!(step(&mut b, Message::Quitting, 0), Outcome { command: Command::Quit, redraw: false });

    assert_eq!(step(&mut b, Message::WindowClosed(5), 0), redraw());
    assert_eq!(b.window_kind(5), None);
    assert_eq!(b.window_error(5), None);
    step(&mut b, Message::WindowClosed(3), 0);
    assert_eq!(b.window_kind(3), None);
    assert_eq!(b.settings_window_message(), Some(Message::OpenSettingsWindow));
    step(&mut b, Message::WindowClosed(1), 0);
    assert_eq!(b.load_keyboard_window_message(), Some(Message::OpenLoadKeyboardWindow));
    assert_eq!(b.windows_to_close(), vec![6, MAIN_WINDOW]);
    assert_eq!(b.window_kind(MAIN_WINDOW), Some(WindowKind::Main));
    assert_eq!(b.window_kind(42), None);
}

#[test]
fn follow_switches_only_without_follow() {
    let mut b = board();
    assert!(!b.follow_switches_enabled());
    step(&mut b, Message::ChangeSetting(Setting::Capitalization(Capitalization::Upper)), 0);
    assert!(b.follow_switches_enabled());
}

#[test]
fn window_events_become_messages() {
    assert_eq!(window_event_message(4, WindowEvent::Closed), Some(Message::WindowClosed(4)));
    assert_eq!(window_event_message(MAIN_WINDOW, WindowEvent::CloseRequested), Some(Message::Quitting));
    assert_eq!(window_event_message(4, WindowEvent::CloseRequested), None);
    assert_eq!(window_event_message(MAIN_WINDOW, WindowEvent::Other), None);
}

#[test]
fn messages_built_by_helpers() {
    assert_eq!(
        Message::key_release(Key::KeyA),
        Message::Listener(ListenerEvent::KeyReceived(EventType::KeyRelease(Key::KeyA)))
    );
    assert_eq!(
        Message::button_release(Button::Middle),
        Message::Listener(ListenerEvent::KeyReceived(EventType::ButtonRelease(Button::Middle)))
    );
    assert_eq!(Message::none(), Message::Listener(ListenerEvent::Empty));
    let mut b = board();
    assert_eq!(step(&mut b, Message::none(), 0), redraw());
}

#[test]
fn style_labels() {
    assert_eq!(StyleChoice::Default.label(), "Global Default");
    assert_eq!(StyleChoice::Custom("dark".to_string()).label(), "dark");
    assert_eq!(StyleChoice::Global("light".to_string()).label(), "Global: light");
}

#[test]
fn error_headlines() {
    assert_eq!(BoardError::ConfigOpen(String::new()).kind_text(), "Keyboard file could not be opened.");
    let p = ParseFailure { eof: false, line: 1, detail: String::new() };
    assert_eq!(BoardError::ConfigParse(p.clone()).kind_text(), "Keyboard file could not be parsed.");
    assert_eq!(BoardError::StyleOpen(String::new()).kind_text(), "Style file could not be opened.");
    assert_eq!(BoardError::StyleParse(p).kind_text(), "Style file could not be parsed.");
    assert_eq!(BoardError::UnknownKey(Key::Function).kind_text(), "Unknown Key.");
    assert_eq!(BoardError::UnknownButton(Button::Unknown(6)).kind_text(), "Unknown Mouse Button.");
}

#[test]
fn chosen_display_is_the_last_with_the_id() {
    let mut b = board();
    step(&mut b, Message::ChangeSetting(Setting::DisplayId(7)), 0);
    assert_eq!(b.chosen_display(&vec![1, 7, 3, 7, 2]), Some(3));
    assert_eq!(b.chosen_display(&vec![1, 2]), None);
    assert_eq!(b.chosen_display(&vec![]), None);
}

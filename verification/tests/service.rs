use glutin_shell::cursor::{mouse_cursor, CursorKind, MouseCursor};
use glutin_shell::events::{
    BrowserId, ScrollLocation, TouchEventType, TraversalDirection, WebRenderDebugOption, WindowEvent,
};
use glutin_shell::geometry::{Point, Size, Vector};
use glutin_shell::keys::{Key, KeyModifiers, KeyState, PlatformModifiers};
use glutin_shell::messages::{Action, EmbedderMsg, LoadData, PageDirection, ReplyId};
use glutin_shell::plan::HeadlessContext;
use glutin_shell::shortcuts::{LINE_HEIGHT, MINUS_LINE_HEIGHT, MINUS_THREE_LINES, THREE_LINES, ZOOM_IN, ZOOM_OUT};
use glutin_shell::single::Single;
use glutin_shell::window::{Window, WindowKind};

const ID: BrowserId = BrowserId(5);
const NONE: KeyModifiers = KeyModifiers { shift: false, control: false, alt: false, logo: false };
const CTRL: KeyModifiers = KeyModifiers { shift: false, control: true, alt: false, logo: false };
const ALT: KeyModifiers = KeyModifiers { shift: false, control: false, alt: true, logo: false };
const CTRL_ALT: KeyModifiers = KeyModifiers { shift: false, control: true, alt: true, logo: false };
const CTRL_SHIFT: KeyModifiers = KeyModifiers { shift: true, control: true, alt: false, logo: false };
const SUPER: KeyModifiers = KeyModifiers { shift: false, control: false, alt: false, logo: true };

fn platform() -> PlatformModifiers {
    PlatformModifiers { cmd_or_control: CTRL, cmd_or_alt: ALT }
}

fn native(no_native_titlebar: bool) -> Window {
    let size = Size { width: 1024, height: 740 };
    let kind = WindowKind::Window { screen_size: size, inner_size: size };
    let mut window = Window::new(kind, no_native_titlebar, platform());
    window.set_browser_id(ID);
    window
}

fn headless() -> Window {
    let kind = WindowKind::Headless(HeadlessContext::new(2, 2));
    let mut window = Window::new(kind, true, platform());
    window.set_browser_id(ID);
    window
}

fn ask(window: &mut Window, msg: EmbedderMsg) -> Option<Action> {
    window.handle_servo_event(&msg, None)
}

fn released(ch: Option<char>, key: Key, modifiers: KeyModifiers) -> EmbedderMsg {
    EmbedderMsg::KeyEvent(Some(ID), ch, key, KeyState::Released, modifiers)
}

/// What a key does while the built-in shortcuts are enabled.
fn press(ch: Option<char>, key: Key, modifiers: KeyModifiers) -> (Vec<WindowEvent<String>>, Option<Action>) {
    let mut window = native(false);
    let action = window.handle_servo_event(&released(ch, key, modifiers), Some(true));
    (window.get_events(), action)
}

fn event(event: WindowEvent<String>) -> (Vec<WindowEvent<String>>, Option<Action>) {
    (vec![event], None)
}

fn nothing() -> (Vec<WindowEvent<String>>, Option<Action>) {
    (vec![], None)
}

fn scroll(x: f32, y: f32) -> (Vec<WindowEvent<String>>, Option<Action>) {
    let delta = Vector { x: Single { bits: x.to_bits() }, y: Single { bits: y.to_bits() } };
    event(WindowEvent::Scroll(ScrollLocation::Delta(delta), Point { x: 0, y: 0 }, TouchEventType::Move))
}

const OTHER: Key = Key::Other(0);

#[test]
fn constants_are_the_numbers_they_stand_for() {
    assert_eq!(f32::from_bits(LINE_HEIGHT), 38.0);
    assert_eq!(f32::from_bits(MINUS_LINE_HEIGHT), -38.0);
    assert_eq!(f32::from_bits(THREE_LINES), 3.0 * 38.0);
    assert_eq!(f32::from_bits(MINUS_THREE_LINES), -3.0 * 38.0);
    assert_eq!(f32::from_bits(ZOOM_IN), 1.1f32);
    assert_eq!(f32::from_bits(ZOOM_OUT), 1.0f32 / 1.1f32);
}

#[test]
fn keys_that_zoom() {
    let zoom_in = Single { bits: ZOOM_IN };
    let zoom_out = Single { bits: ZOOM_OUT };
    assert_eq!(press(Some('+'), OTHER, CTRL), event(WindowEvent::Zoom(zoom_in)));
    assert_eq!(press(Some('+'), OTHER, CTRL_SHIFT), event(WindowEvent::Zoom(zoom_in)));
    assert_eq!(press(Some('+'), OTHER, CTRL_ALT), event(WindowEvent::PinchZoom(zoom_in)));
    let all = KeyModifiers { shift: true, ..CTRL_ALT };
    assert_eq!(press(Some('+'), OTHER, all), event(WindowEvent::PinchZoom(zoom_in)));
    assert_eq!(press(Some('+'), OTHER, NONE), nothing());
    assert_eq!(press(Some('-'), OTHER, CTRL), event(WindowEvent::Zoom(zoom_out)));
    assert_eq!(press(Some('-'), OTHER, CTRL_ALT), event(WindowEvent::PinchZoom(zoom_out)));
    assert_eq!(press(Some('-'), OTHER, CTRL_SHIFT), nothing());
    assert_eq!(press(Some('0'), OTHER, CTRL), event(WindowEvent::ResetZoom));
    assert_eq!(press(Some('0'), OTHER, NONE), nothing());
}

#[test]
fn keys_that_navigate() {
    let forward = event(WindowEvent::Navigation(ID, TraversalDirection::Forward(1)));
    let back = event(WindowEvent::Navigation(ID, TraversalDirection::Back(1)));
    assert_eq!(press(None, Key::NavigateForward, NONE), forward);
    assert_eq!(press(None, Key::NavigateBackward, NONE), back);
    assert_eq!(press(None, Key::NavigateForward, CTRL), nothing());
    assert_eq!(press(None, Key::Right, ALT), forward);
    assert_eq!(press(None, Key::Left, ALT), back);
    assert_eq!(press(None, Key::RightBracket, CTRL), forward);
    assert_eq!(press(Some(']'), Key::RightBracket, CTRL), forward);
    assert_eq!(press(Some('['), Key::LeftBracket, CTRL), back);
    assert_eq!(press(Some('['), Key::LeftBracket, NONE), nothing());
    assert_eq!(press(Some('-'), Key::LeftBracket, CTRL), event(WindowEvent::Zoom(Single { bits: ZOOM_OUT })));
}

#[test]
fn keys_that_scroll() {
    assert_eq!(press(None, Key::Up, NONE), scroll(0.0, 114.0));
    assert_eq!(press(None, Key::Down, NONE), scroll(0.0, -114.0));
    assert_eq!(press(None, Key::Left, NONE), scroll(38.0, 0.0));
    assert_eq!(press(None, Key::Right, NONE), scroll(-38.0, 0.0));
    assert_eq!(press(None, Key::Up, CTRL), nothing());
    let at = Point { x: 0, y: 0 };
    assert_eq!(press(None, Key::Home, NONE), event(WindowEvent::Scroll(ScrollLocation::Start, at, TouchEventType::Move)));
    assert_eq!(press(None, Key::End, NONE), event(WindowEvent::Scroll(ScrollLocation::End, at, TouchEventType::Move)));
    assert_eq!(press(None, Key::PageDown, NONE), (vec![], Some(Action::ScrollPage(PageDirection::Down))));
    assert_eq!(press(None, Key::PageUp, NONE), (vec![], Some(Action::ScrollPage(PageDirection::Up))));
    assert_eq!(press(Some('a'), Key::Up, NONE), nothing());
}

#[test]
fn shortcuts_that_can_be_disabled() {
    assert_eq!(press(None, Key::Escape, NONE), event(WindowEvent::Quit));
    assert_eq!(press(Some('q'), OTHER, CTRL), event(WindowEvent::Quit));
    assert_eq!(press(Some('r'), OTHER, CTRL), event(WindowEvent::Reload(ID)));
    assert_eq!(press(Some('l'), OTHER, CTRL), (vec![], Some(Action::PromptForUrl(ID, String::new()))));
    assert_eq!(press(Some('q'), OTHER, NONE), nothing());
    for shortcuts in [None, Some(false)] {
        for (ch, key, modifiers) in [
            (None, Key::Escape, NONE),
            (Some('q'), OTHER, CTRL),
            (Some('r'), OTHER, CTRL),
            (Some('l'), OTHER, CTRL),
        ] {
            let mut window = native(false);
            assert_eq!(window.handle_servo_event(&released(ch, key, modifiers), shortcuts), None);
            assert_eq!(window.get_events(), vec![]);
        }
    }
}

#[test]
fn keys_for_debugging() {
    let debug = |option| event(WindowEvent::ToggleWebRenderDebug(option));
    assert_eq!(press(None, Key::F10, CTRL), debug(WebRenderDebugOption::RenderTargetDebug));
    assert_eq!(press(None, Key::F11, CTRL), debug(WebRenderDebugOption::TextureCacheDebug));
    assert_eq!(press(None, Key::F12, CTRL), debug(WebRenderDebugOption::Profiler));
    assert_eq!(press(None, Key::F12, NONE), nothing());
    assert_eq!(press(Some('3'), OTHER, CTRL_SHIFT), event(WindowEvent::CaptureWebRender));
    assert_eq!(press(Some('3'), Key::LeftBracket, CTRL), nothing());
}

#[test]
fn command_key_takes_the_place_of_control() {
    let size = Size { width: 1, height: 1 };
    let kind = WindowKind::Window { screen_size: size, inner_size: size };
    let mac = PlatformModifiers { cmd_or_control: SUPER, cmd_or_alt: SUPER };
    let mut window = Window::new(kind, false, mac);
    window.set_browser_id(ID);
    window.handle_servo_event(&released(Some('q'), OTHER, SUPER), Some(true));
    window.handle_servo_event(&released(Some('q'), OTHER, CTRL), Some(true));
    window.handle_servo_event(&released(None, Key::Left, SUPER), Some(true));
    window.handle_servo_event(&released(None, Key::F12, CTRL), Some(true));
    assert_eq!(
        window.get_events(),
        vec![
            WindowEvent::Quit,
            WindowEvent::Navigation(ID, TraversalDirection::Back(1)),
            WindowEvent::ToggleWebRenderDebug(WebRenderDebugOption::Profiler),
        ]
    );
}

#[test]
fn pressed_key_does_nothing() {
    let size = Size { width: 1, height: 1 };
    let kind = WindowKind::Window { screen_size: size, inner_size: size };
    let mut window = Window::new(kind, false, platform());
    let msg = EmbedderMsg::KeyEvent(None, Some('q'), OTHER, KeyState::Pressed, CTRL);
    assert_eq!(window.handle_servo_event(&msg, Some(true)), None);
    assert_eq!(window.get_events(), vec![]);
}

#[test]
fn title_of_the_page() {
    let mut window = native(false);
    let title = |text: Option<&str>| EmbedderMsg::ChangePageTitle(ID, text.map(|text| text.to_string()));
    assert_eq!(ask(&mut window, title(Some("Rust"))), Some(Action::SetTitle("Rust - Servo".to_string())));
    assert_eq!(ask(&mut window, title(None)), Some(Action::SetTitle("Untitled - Servo".to_string())));
    let history = vec![
        LoadData { url: "https://a.example/".to_string() },
        LoadData { url: "https://b.example/".to_string() },
    ];
    assert_eq!(ask(&mut window, EmbedderMsg::HistoryChanged(ID, history, 1)), None);
    assert_eq!(
        ask(&mut window, title(None)),
        Some(Action::SetTitle("https://b.example/ - Servo".to_string()))
    );
    assert_eq!(
        ask(&mut window, title(Some(""))),
        Some(Action::SetTitle("https://b.example/ - Servo".to_string()))
    );
    assert_eq!(
        window.handle_servo_event(&released(Some('l'), OTHER, CTRL), Some(true)),
        Some(Action::PromptForUrl(ID, "https://b.example/".to_string()))
    );
}

#[test]
fn window_is_moved_and_resized() {
    let mut window = native(false);
    let point = Point { x: -3, y: 4 };
    let size = Size { width: 5, height: 6 };
    assert_eq!(ask(&mut window, EmbedderMsg::MoveTo(ID, point)), Some(Action::SetPosition(point)));
    assert_eq!(ask(&mut window, EmbedderMsg::ResizeTo(ID, size)), Some(Action::SetInnerSize(size)));
}

#[test]
fn fullscreen_changes_once() {
    let mut window = native(false);
    let set = |state| EmbedderMsg::SetFullscreenState(ID, state);
    assert_eq!(ask(&mut window, set(false)), None);
    assert_eq!(ask(&mut window, set(true)), Some(Action::SetFullscreen));
    assert_eq!(ask(&mut window, set(true)), None);
    assert_eq!(ask(&mut window, set(false)), Some(Action::SetFullscreen));
}

#[test]
fn window_is_shown_when_the_page_has_loaded() {
    assert_eq!(ask(&mut native(true), EmbedderMsg::LoadComplete(ID)), Some(Action::Show));
    assert_eq!(ask(&mut native(false), EmbedderMsg::LoadComplete(ID)), None);
}

#[test]
fn navigation_is_allowed() {
    let url = "https://servo.org/".to_string();
    let msg = EmbedderMsg::AllowNavigation(ID, url, ReplyId(8));
    assert_eq!(window_reply(native(false), msg), Some(Action::Reply(ReplyId(8), true)));
}

fn window_reply(mut window: Window, msg: EmbedderMsg) -> Option<Action> {
    ask(&mut window, msg)
}

#[test]
fn cursor_is_shown() {
    assert_eq!(
        ask(&mut native(false), EmbedderMsg::SetCursor(CursorKind::Pointer)),
        Some(Action::SetCursor(MouseCursor::Hand))
    );
    assert_eq!(mouse_cursor(CursorKind::Auto), MouseCursor::Default);
    assert_eq!(mouse_cursor(CursorKind::Default), MouseCursor::Default);
    assert_eq!(mouse_cursor(CursorKind::Hidden), MouseCursor::NoneCursor);
    assert_eq!(mouse_cursor(CursorKind::ZoomOut), MouseCursor::ZoomOut);
}

#[test]
fn messages_without_effect() {
    let mut window = native(true);
    let text = || "text".to_string();
    for msg in vec![
        EmbedderMsg::Status(ID, Some(text())),
        EmbedderMsg::NewFavicon(ID, text()),
        EmbedderMsg::HeadParsed(ID),
        EmbedderMsg::LoadStart(ID),
        EmbedderMsg::Panic(ID, text(), None),
    ] {
        assert_eq!(ask(&mut window, msg), None);
        assert_eq!(window.get_events(), vec![]);
    }
}

#[test]
fn headless_window_touches_no_native_one() {
    let mut window = headless();
    let size = Size { width: 1, height: 1 };
    for msg in vec![
        EmbedderMsg::ChangePageTitle(ID, None),
        EmbedderMsg::MoveTo(ID, Point { x: 1, y: 1 }),
        EmbedderMsg::ResizeTo(ID, size),
        EmbedderMsg::SetCursor(CursorKind::Text),
        EmbedderMsg::SetFullscreenState(ID, true),
        EmbedderMsg::LoadComplete(ID),
    ] {
        assert_eq!(ask(&mut window, msg), None);
    }
    let msg = EmbedderMsg::AllowNavigation(ID, String::new(), ReplyId(1));
    assert_eq!(ask(&mut window, msg), Some(Action::Reply(ReplyId(1), true)));
}

#[test]
fn messages_are_served_up_to_a_question() {
    let mut window = native(false);
    let events = vec![
        EmbedderMsg::LoadStart(ID),
        EmbedderMsg::SetCursor(CursorKind::Help),
        released(None, Key::PageDown, NONE),
        EmbedderMsg::SetCursor(CursorKind::Wait),
        released(None, Key::Home, NONE),
    ];
    let (actions, waiting) = window.handle_servo_events(events, None);
    assert_eq!(actions, vec![Action::SetCursor(MouseCursor::Help), Action::ScrollPage(PageDirection::Down)]);
    assert_eq!(waiting.len(), 2);
    assert_eq!(window.get_events(), vec![]);
    let (actions, waiting) = window.handle_servo_events(waiting, None);
    assert_eq!(actions, vec![Action::SetCursor(MouseCursor::Wait)]);
    assert_eq!(waiting, vec![]);
    assert_eq!(window.get_events().len(), 1);
}

#[test]
fn messages_in_parts() {
    let part = || vec![EmbedderMsg::SetFullscreenState(ID, true), EmbedderMsg::ChangePageTitle(ID, None)];
    let mut together = native(false);
    let mut all = part();
    all.extend(part());
    let (actions, _) = together.handle_servo_events(all, None);
    let mut apart = native(false);
    let (mut first, _) = apart.handle_servo_events(part(), None);
    let (second, _) = apart.handle_servo_events(part(), None);
    first.extend(second);
    assert_eq!(actions, first);
    assert_eq!(actions.len(), 3);
}

#[test]
fn request_is_loaded() {
    let mut window = native(false);
    assert!(window.load_request(ID, Some(" servo.org "), true, None));
    assert!(window.load_request(ID, None, true, None));
    assert!(window.load_request(ID, Some("two words"), false, None));
    assert!(window.load_request(BrowserId(6), Some("two words"), false, Some("x:%s")));
    assert_eq!(
        window.get_events(),
        vec![
            WindowEvent::LoadUrl(ID, "http://servo.org/".to_string()),
            WindowEvent::LoadUrl(BrowserId(6), "x:two words".to_string()),
        ]
    );
}

#[test]
fn url_is_loaded_if_there_is_one() {
    let mut window = native(false);
    window.load_url(ID, None);
    window.load_url(ID, Some("a:b".to_string()));
    assert_eq!(window.get_events(), vec![WindowEvent::LoadUrl(ID, "a:b".to_string())]);
}

#[test]
fn messages_that_cannot_be_handled() {
    let size = Size { width: 1, height: 1 };
    let kind = WindowKind::Window { screen_size: size, inner_size: size };
    let window = Window::new(kind, false, platform());
    assert!(!window.can_handle(&released(None, Key::Home, NONE)));
    assert!(native(false).can_handle(&released(None, Key::Home, NONE)));
    let pressed = EmbedderMsg::KeyEvent(None, None, Key::Home, KeyState::Pressed, NONE);
    assert!(window.can_handle(&pressed));
    let history = |current| EmbedderMsg::HistoryChanged(ID, vec![LoadData { url: "a:b".to_string() }], current);
    assert!(window.can_handle(&history(0)));
    assert!(!window.can_handle(&history(1)));
    assert!(window.can_handle(&EmbedderMsg::LoadStart(ID)));
}

#[test]
fn later_messages_wait_behind_a_question() {
    let first = || vec![
        EmbedderMsg::SetCursor(CursorKind::Help),
        released(None, Key::PageUp, NONE),
        released(None, Key::Home, NONE),
    ];
    let second = || vec![EmbedderMsg::SetCursor(CursorKind::Wait), EmbedderMsg::LoadComplete(ID)];
    let mut together = native(true);
    let mut all = first();
    all.extend(second());
    let (actions, waiting) = together.handle_servo_events(all, None);
    let mut apart = native(true);
    let (first_actions, mut rest) = apart.handle_servo_events(first(), None);
    rest.extend(second());
    assert_eq!(actions, first_actions);
    assert_eq!(actions, vec![Action::SetCursor(MouseCursor::Help), Action::ScrollPage(PageDirection::Up)]);
    assert_eq!(waiting, rest);
    assert_eq!(waiting.len(), 3);
}

#[test]
fn window_without_title_bar_stays_hidden_until_load() {
    let mut window = native(true);
    let early = vec![
        EmbedderMsg::LoadStart(ID),
        EmbedderMsg::HeadParsed(ID),
        EmbedderMsg::SetFullscreenState(ID, true),
        EmbedderMsg::ChangePageTitle(ID, Some("A page".to_string())),
    ];
    let (actions, waiting) = window.handle_servo_events(early, None);
    assert_eq!(actions.len(), 2);
    assert!(!actions.contains(&Action::Show));
    assert_eq!(waiting, vec![]);
    let (actions, _) = window.handle_servo_events(vec![EmbedderMsg::LoadComplete(ID)], None);
    assert_eq!(actions, vec![Action::Show]);
}

use glutin_shell::events::{
    InputEvent, MouseButton, MouseWindowEvent, ScrollLocation, TouchEventType, TouchId, TouchPhase,
    WindowEvent,
};
use glutin_shell::geometry::{FinePoint, Point, Size, Vector};
use glutin_shell::keys::{
    is_control, ElementState, Key, KeyModifiers, KeyState, PlatformModifiers, VirtualKeyCode,
};
use glutin_shell::messages::PageDirection;
use glutin_shell::plan::HeadlessContext;
use glutin_shell::single::Single;
use glutin_shell::window::{Window, WindowKind};

const SCREEN: Size = Size { width: 1920, height: 1080 };
const INNER: Size = Size { width: 1024, height: 740 };
const NONE: KeyModifiers = KeyModifiers { shift: false, control: false, alt: false, logo: false };

fn platform() -> PlatformModifiers {
    PlatformModifiers {
        cmd_or_control: KeyModifiers { control: true, ..NONE },
        cmd_or_alt: KeyModifiers { alt: true, ..NONE },
    }
}

fn native() -> Window {
    let kind = WindowKind::Window { screen_size: SCREEN, inner_size: INNER };
    Window::new(kind, false, platform())
}

fn single(number: f32) -> Single {
    Single { bits: number.to_bits() }
}

fn key(state: ElementState, code: VirtualKeyCode, key: Option<Key>, printable: bool) -> InputEvent {
    InputEvent::KeyboardInput { state, code, key, printable }
}

fn moved(x: i32, y: i32) -> InputEvent {
    InputEvent::CursorMoved {
        pixel: Point { x, y },
        position: FinePoint { x: single(x as f32 + 0.5), y: single(y as f32 + 0.5) },
    }
}

fn button(state: ElementState, button: MouseButton) -> InputEvent {
    InputEvent::MouseInput { state, button, click_limit: 100 }
}

fn mouse(event: MouseWindowEvent) -> WindowEvent<String> {
    WindowEvent::MouseWindowEventClass(event)
}

fn wheel(x: f32, y: f32) -> Vec<WindowEvent<String>> {
    let mut window = native();
    let delta = Vector { x: single(x), y: single(y) };
    window.handle_window_event(InputEvent::MouseWheel { delta, phase: TouchPhase::Moved });
    window.get_events()
}

fn scrolled(x: f32, y: f32) -> Vec<WindowEvent<String>> {
    let delta = Vector { x: single(x), y: single(y) };
    vec![WindowEvent::Scroll(ScrollLocation::Delta(delta), Point { x: 0, y: 0 }, TouchEventType::Move)]
}

#[test]
fn events_are_handed_out_once_and_in_order() {
    let mut window = native();
    assert!(!window.has_events());
    window.handle_window_event(InputEvent::Refresh);
    window.handle_window_event(InputEvent::Closed);
    window.handle_window_event(InputEvent::Awakened);
    window.handle_window_event(InputEvent::Other);
    assert!(window.has_events());
    assert_eq!(window.get_events(), vec![WindowEvent::Refresh, WindowEvent::Quit, WindowEvent::Idle]);
    assert_eq!(window.get_events(), vec![]);
}

#[test]
fn printable_key_and_its_character() {
    let mut window = native();
    let a = Key::Other(65);
    window.handle_window_event(key(ElementState::Pressed, VirtualKeyCode::Other, Some(a), true));
    let typed = InputEvent::ReceivedCharacter { ch: 'b', ignorable: false, key: Some(Key::Other(66)) };
    window.handle_window_event(typed);
    window.handle_window_event(typed);
    window.handle_window_event(key(ElementState::Released, VirtualKeyCode::Other, Some(a), true));
    assert_eq!(
        window.get_events(),
        vec![
            WindowEvent::KeyEvent(None, a, KeyState::Pressed, NONE),
            WindowEvent::KeyEvent(Some('b'), a, KeyState::Pressed, NONE),
            WindowEvent::KeyEvent(Some('b'), Key::Other(66), KeyState::Pressed, NONE),
            WindowEvent::KeyEvent(None, a, KeyState::Released, NONE),
        ]
    );
}

#[test]
fn key_without_character_does_not_wait() {
    let mut window = native();
    window.handle_window_event(key(ElementState::Pressed, VirtualKeyCode::Other, Some(Key::Home), false));
    let typed = InputEvent::ReceivedCharacter { ch: 'x', ignorable: false, key: None };
    window.handle_window_event(typed);
    assert_eq!(
        window.get_events(),
        vec![WindowEvent::KeyEvent(None, Key::Home, KeyState::Pressed, NONE)]
    );
}

#[test]
fn ignorable_character_leaves_the_key_waiting() {
    let mut window = native();
    let a = Key::Other(65);
    window.handle_window_event(key(ElementState::Pressed, VirtualKeyCode::Other, Some(a), true));
    window.get_events();
    window.handle_window_event(InputEvent::ReceivedCharacter { ch: '\u{1}', ignorable: true, key: None });
    assert_eq!(window.get_events(), vec![]);
    window.handle_window_event(InputEvent::ReceivedCharacter { ch: 'a', ignorable: false, key: None });
    assert_eq!(
        window.get_events(),
        vec![WindowEvent::KeyEvent(Some('a'), a, KeyState::Pressed, NONE)]
    );
}

#[test]
fn control_character_without_key_is_dropped() {
    let mut window = native();
    for ch in ['\u{8}', '\u{1f}', '\u{7f}', '\u{9f}'] {
        let key = Some(Key::Other(1));
        window.handle_window_event(InputEvent::ReceivedCharacter { ch, ignorable: false, key });
    }
    assert_eq!(window.get_events(), vec![]);
}

#[test]
fn control_character_goes_with_its_key() {
    let mut window = native();
    let backspace = Key::Other(8);
    window.handle_window_event(key(ElementState::Pressed, VirtualKeyCode::Other, Some(backspace), true));
    window.handle_window_event(InputEvent::ReceivedCharacter { ch: '\u{8}', ignorable: false, key: None });
    assert_eq!(
        window.get_events()[1],
        WindowEvent::KeyEvent(Some('\u{8}'), backspace, KeyState::Pressed, NONE)
    );
}

#[test]
fn modifiers_are_seen_from_either_side() {
    let cases = [
        (VirtualKeyCode::LControl, KeyModifiers { control: true, ..NONE }),
        (VirtualKeyCode::RControl, KeyModifiers { control: true, ..NONE }),
        (VirtualKeyCode::LShift, KeyModifiers { shift: true, ..NONE }),
        (VirtualKeyCode::RShift, KeyModifiers { shift: true, ..NONE }),
        (VirtualKeyCode::LAlt, KeyModifiers { alt: true, ..NONE }),
        (VirtualKeyCode::RAlt, KeyModifiers { alt: true, ..NONE }),
        (VirtualKeyCode::LWin, KeyModifiers { logo: true, ..NONE }),
        (VirtualKeyCode::RWin, KeyModifiers { logo: true, ..NONE }),
        (VirtualKeyCode::Other, NONE),
    ];
    for (code, modifiers) in cases {
        let mut window = native();
        let this = Key::Other(7);
        window.handle_window_event(key(ElementState::Pressed, code, Some(this), false));
        window.handle_window_event(key(ElementState::Released, code, Some(this), false));
        assert_eq!(
            window.get_events(),
            vec![
                WindowEvent::KeyEvent(None, this, KeyState::Pressed, modifiers),
                WindowEvent::KeyEvent(None, this, KeyState::Released, NONE),
            ]
        );
    }
}

#[test]
fn modifier_without_key_is_noted() {
    let mut window = native();
    window.handle_window_event(key(ElementState::Pressed, VirtualKeyCode::LShift, None, false));
    window.handle_window_event(key(ElementState::Pressed, VirtualKeyCode::RShift, None, false));
    window.handle_window_event(key(ElementState::Released, VirtualKeyCode::LShift, None, false));
    assert_eq!(window.get_events(), vec![]);
    window.handle_window_event(key(ElementState::Pressed, VirtualKeyCode::Other, Some(Key::Up), false));
    assert_eq!(
        window.get_events(),
        vec![WindowEvent::KeyEvent(None, Key::Up, KeyState::Pressed, KeyModifiers { shift: true, ..NONE })]
    );
}

#[test]
fn click_within_the_limit() {
    let mut window = native();
    window.handle_window_event(moved(100, 100));
    window.handle_window_event(button(ElementState::Pressed, MouseButton::Right));
    window.handle_window_event(moved(107, 107));
    window.get_events();
    window.handle_window_event(button(ElementState::Released, MouseButton::Right));
    let up = Point { x: 107, y: 107 };
    assert_eq!(
        window.get_events(),
        vec![
            mouse(MouseWindowEvent::MouseUp(MouseButton::Left, up)),
            mouse(MouseWindowEvent::Click(MouseButton::Left, up)),
        ]
    );
}

#[test]
fn no_click_at_the_limit() {
    let mut window = native();
    window.handle_window_event(button(ElementState::Pressed, MouseButton::Left));
    assert_eq!(
        window.get_events(),
        vec![mouse(MouseWindowEvent::MouseDown(MouseButton::Left, Point { x: 0, y: 0 }))]
    );
    window.handle_window_event(moved(-6, 8));
    window.get_events();
    window.handle_window_event(button(ElementState::Released, MouseButton::Left));
    assert_eq!(
        window.get_events(),
        vec![mouse(MouseWindowEvent::MouseUp(MouseButton::Left, Point { x: -6, y: 8 }))]
    );
}

#[test]
fn no_click_across_the_whole_range() {
    let mut window = native();
    window.handle_window_event(moved(i32::MIN, i32::MIN));
    window.handle_window_event(button(ElementState::Pressed, MouseButton::Left));
    window.handle_window_event(moved(i32::MAX, i32::MAX));
    window.get_events();
    window.handle_window_event(button(ElementState::Released, MouseButton::Left));
    assert_eq!(window.get_events().len(), 1);
}

#[test]
fn other_button_gives_no_click() {
    let mut window = native();
    window.handle_window_event(button(ElementState::Pressed, MouseButton::Left));
    window.handle_window_event(button(ElementState::Released, MouseButton::Right));
    let at = Point { x: 0, y: 0 };
    assert_eq!(
        window.get_events(),
        vec![
            mouse(MouseWindowEvent::MouseDown(MouseButton::Left, at)),
            mouse(MouseWindowEvent::MouseUp(MouseButton::Left, at)),
        ]
    );
}

#[test]
fn release_without_press_gives_no_click() {
    let mut window = native();
    window.handle_window_event(button(ElementState::Released, MouseButton::Left));
    assert_eq!(
        window.get_events(),
        vec![mouse(MouseWindowEvent::MouseUp(MouseButton::Left, Point { x: 0, y: 0 }))]
    );
}

#[test]
fn further_buttons_do_nothing() {
    let mut window = native();
    window.handle_window_event(button(ElementState::Pressed, MouseButton::Middle));
    window.handle_window_event(button(ElementState::Pressed, MouseButton::Other(4)));
    assert_eq!(window.get_events(), vec![]);
}

#[test]
fn mouse_move_is_reported() {
    let mut window = native();
    window.handle_window_event(moved(3, 4));
    assert_eq!(
        window.get_events(),
        vec![WindowEvent::MouseWindowMoveEventClass(FinePoint { x: single(3.5), y: single(4.5) })]
    );
}

#[test]
fn wheel_snaps_to_the_major_axis() {
    assert_eq!(wheel(3.0, -5.0), scrolled(0.0, -5.0));
    assert_eq!(wheel(-5.0, 3.0), scrolled(-5.0, 0.0));
    assert_eq!(wheel(0.1, 1e-40), scrolled(0.1, 0.0));
    assert_eq!(wheel(1e-45, -1e-44), scrolled(0.0, -1e-44));
    assert_eq!(wheel(f32::MAX, f32::INFINITY), scrolled(0.0, f32::INFINITY));
}

#[test]
fn wheel_prefers_the_vertical_axis() {
    assert_eq!(wheel(2.5, 2.5), scrolled(0.0, 2.5));
    assert_eq!(wheel(-2.5, 2.5), scrolled(0.0, 2.5));
    assert_eq!(wheel(-0.0, 0.0), scrolled(0.0, 0.0));
}

#[test]
fn wheel_without_a_number_is_horizontal() {
    assert_eq!(wheel(1.0, f32::NAN), scrolled(1.0, 0.0));
    assert_eq!(wheel(f32::NAN, 1.0), scrolled(f32::NAN, 0.0));
}

#[test]
fn wheel_agrees_with_floating_point() {
    let numbers = [0.0f32, -0.0, 1e-45, 1e-38, 1.17549435e-38, 0.5, -1.0, 1.5, 38.0, -1e10, 3e38, f32::INFINITY, f32::NEG_INFINITY, f32::NAN];
    for x in numbers {
        for y in numbers {
            let expected = if y.abs() >= x.abs() { scrolled(0.0, y) } else { scrolled(x, 0.0) };
            assert_eq!(wheel(x, y), expected, "{} {}", x, y);
        }
    }
}

#[test]
fn scroll_happens_at_the_mouse() {
    let mut window = native();
    window.handle_window_event(moved(11, 12));
    window.get_events();
    window.scroll_page(PageDirection::Down, single(664.0));
    let delta = Vector { x: single(0.0), y: single(-664.0) };
    assert_eq!(
        window.get_events(),
        vec![WindowEvent::Scroll(ScrollLocation::Delta(delta), Point { x: 11, y: 12 }, TouchEventType::Move)]
    );
}

#[test]
fn page_down_and_page_up_cancel() {
    for height in [740.0f32, 77.5, 76.0, 10.0, 0.0, -1.0, 1e-40, f32::MAX, f32::INFINITY] {
        let mut window = native();
        window.scroll_page(PageDirection::Down, single(height - 76.0));
        window.scroll_page(PageDirection::Up, single(height - 76.0));
        let mut expected = scrolled(0.0, -height + 76.0);
        expected.extend(scrolled(0.0, height - 76.0));
        assert_eq!(window.get_events(), expected, "{}", height);
    }
}

#[test]
fn page_without_a_height_is_not_scrolled() {
    for direction in [PageDirection::Down, PageDirection::Up] {
        let mut window = native();
        window.scroll_page(direction, single(f32::NAN));
        assert_eq!(window.get_events(), scrolled(0.0, 0.0));
    }
}

#[test]
fn opposite_number_has_the_other_sign() {
    for number in [1.0f32, -2.5, 1e-45, f32::MIN, f32::INFINITY] {
        assert_eq!(single(number).opposite(), single(-number));
    }
    assert_eq!(single(0.0).opposite(), single(0.0));
    assert_eq!(single(-0.0).opposite(), single(0.0));
}

#[test]
fn touches_are_reported() {
    let location = FinePoint { x: single(1.25), y: single(-2.0) };
    let cases = [
        (TouchPhase::Started, TouchEventType::Down),
        (TouchPhase::Moved, TouchEventType::Move),
        (TouchPhase::Ended, TouchEventType::Up),
        (TouchPhase::Cancelled, TouchEventType::Cancel),
    ];
    for (phase, kind) in cases {
        let mut window = native();
        window.handle_window_event(InputEvent::Touch { phase, id: 9, location });
        assert_eq!(window.get_events(), vec![WindowEvent::Touch(kind, TouchId(9), location)]);
    }
}

#[test]
fn touch_number_is_cut_to_size() {
    for id in [0u64, 1, 0x7fff_ffff, 0x8000_0000, 0xffff_ffff, 0x1_0000_0005, u64::MAX] {
        assert_eq!(TouchId::from_system(id), TouchId(id as i32));
    }
}

#[test]
fn resize_is_reported_once() {
    let mut window = native();
    let surface = Size { width: 1600, height: 1200 };
    let inner = Size { width: 800, height: 600 };
    assert_eq!(window.handle_window_event(InputEvent::Resized { surface, inner }), Some(surface));
    assert_eq!(window.get_events(), vec![WindowEvent::Resize]);
    assert_eq!(window.handle_window_event(InputEvent::Resized { surface, inner }), Some(surface));
    assert_eq!(window.get_events(), vec![]);
    assert_eq!(window.handle_window_event(InputEvent::Resized { surface, inner: INNER }), Some(surface));
    assert_eq!(window.get_events(), vec![WindowEvent::Resize]);
}

#[test]
fn headless_window_has_no_surface_to_resize() {
    let context = HeadlessContext::new(8, 4);
    let mut window = Window::new(WindowKind::Headless(context), false, platform());
    let surface = Size { width: 9, height: 9 };
    assert_eq!(window.handle_window_event(InputEvent::Resized { surface, inner: surface }), None);
    assert_eq!(window.get_events(), vec![WindowEvent::Resize]);
    let inner = Size { width: 9, height: 9 };
    window.handle_window_event(InputEvent::Resized { surface, inner });
    assert_eq!(window.get_events(), vec![]);
}

#[test]
fn suspension_is_noted_and_resumption_reported() {
    let mut window = native();
    window.handle_window_event(InputEvent::Suspended(true));
    assert!(window.is_suspended());
    assert_eq!(window.get_events(), vec![]);
    window.handle_window_event(InputEvent::Suspended(false));
    assert!(!window.is_suspended());
    assert_eq!(window.get_events(), vec![WindowEvent::Idle]);
}

#[test]
fn every_control_character_is_known() {
    for number in 0..0x11_0000u32 {
        if let Some(c) = char::from_u32(number) {
            assert_eq!(is_control(c), c.is_control(), "{:x}", number);
        }
    }
}

#[test]
fn fetching_in_between_loses_no_event() {
    let inputs = [
        key(ElementState::Pressed, VirtualKeyCode::LShift, Some(Key::Other(1)), false),
        moved(1, 2),
        button(ElementState::Pressed, MouseButton::Left),
        InputEvent::Refresh,
        button(ElementState::Released, MouseButton::Left),
        InputEvent::Awakened,
    ];
    let mut unfetched = native();
    let mut fetched = native();
    let mut events = vec![];
    for input in inputs {
        unfetched.handle_window_event(input);
        fetched.handle_window_event(input);
        events.extend(fetched.get_events());
    }
    assert_eq!(events, unfetched.get_events());
    assert_eq!(events.len(), 7);
}

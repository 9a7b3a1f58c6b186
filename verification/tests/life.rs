use glutin_shell::coordinates::{EmbedderCoordinates, Measurements};
use glutin_shell::events::{InputEvent, WindowEvent};
use glutin_shell::geometry::{Point, Rect, Size};
use glutin_shell::keys::{KeyModifiers, PlatformModifiers};
use glutin_shell::plan::{
    gl_version, AttributeNames, GlVersion, HeadlessContext, NativePlan, Opts, WindowPlan,
};
use glutin_shell::run::{RunAction, RunPhase};
use glutin_shell::single::Single;
use glutin_shell::state::AnimationState;
use glutin_shell::window::{Window, WindowKind};

const SIZE: Size = Size { width: 1024, height: 740 };

fn platform() -> PlatformModifiers {
    let none = KeyModifiers { shift: false, control: false, alt: false, logo: false };
    PlatformModifiers { cmd_or_control: none, cmd_or_alt: none }
}

fn native() -> Window {
    Window::new(WindowKind::Window { screen_size: SIZE, inner_size: SIZE }, false, platform())
}

fn headless() -> Window {
    Window::new(WindowKind::Headless(HeadlessContext::new(3, 2)), false, platform())
}

fn opts() -> Opts {
    Opts {
        headless: false,
        output_file: None,
        no_native_titlebar: false,
        enable_vsync: true,
        use_msaa: false,
    }
}

fn measured() -> Measurements {
    Measurements {
        inner: Size { width: 100, height: 50 },
        outer: Size { width: 110, height: 70 },
        position: Some(Point { x: -4, y: 9 }),
        screen: Size { width: 400, height: 300 },
        hidpi_factor: Single { bits: 2.0f32.to_bits() },
    }
}

#[test]
fn plan_of_an_ordinary_window() {
    assert_eq!(
        WindowPlan::new(true, &opts(), SIZE, false),
        WindowPlan::Native(NativePlan {
            title: "Servo".to_string(),
            decorations: true,
            transparency: false,
            size: SIZE,
            visible: true,
            shown: true,
            multitouch: true,
            hidden_from_dock: false,
            gl: GlVersion::OpenGl(3, 2),
            vsync: true,
            multisampling: None,
        })
    );
}

#[test]
fn plan_of_a_window_without_title_bar() {
    let special = Opts {
        output_file: Some("page.png".to_string()),
        no_native_titlebar: true,
        enable_vsync: false,
        use_msaa: true,
        ..opts()
    };
    assert_eq!(
        WindowPlan::new(true, &special, SIZE, true),
        WindowPlan::Native(NativePlan {
            title: "Servo".to_string(),
            decorations: false,
            transparency: true,
            size: SIZE,
            visible: false,
            shown: false,
            multitouch: true,
            hidden_from_dock: true,
            gl: GlVersion::OpenGlEs(3, 0),
            vsync: false,
            multisampling: Some(16),
        })
    );
}

#[test]
fn background_window_is_not_visible() {
    let plan = WindowPlan::new(false, &opts(), SIZE, false);
    assert!(matches!(plan, WindowPlan::Native(native) if !native.visible && native.shown));
}

#[test]
fn window_without_title_bar_is_not_shown_when_created() {
    for is_foreground in [false, true] {
        let bare = Opts { no_native_titlebar: true, ..opts() };
        let plan = WindowPlan::new(is_foreground, &bare, SIZE, false);
        assert!(matches!(plan, WindowPlan::Native(native) if !native.visible && !native.shown));
    }
}

#[test]
fn plan_of_a_headless_window() {
    let special = Opts { headless: true, ..opts() };
    assert_eq!(WindowPlan::new(true, &special, SIZE, false), WindowPlan::Headless(SIZE));
}

#[test]
fn versions_of_opengl() {
    assert_eq!(gl_version(false), GlVersion::OpenGl(3, 2));
    assert_eq!(gl_version(true), GlVersion::OpenGlEs(3, 0));
}

#[test]
fn headless_context_is_cleared() {
    let context = HeadlessContext::new(3, 2);
    assert_eq!(context, HeadlessContext { width: 3, height: 2, buffer: vec![0; 6] });
    assert_eq!(HeadlessContext::new(0, 7).buffer, vec![]);
    let names = AttributeNames { profile: 51, core_profile: 52, major_version: 54, minor_version: 55 };
    assert_eq!(HeadlessContext::attributes(names), vec![51, 52, 54, 3, 55, 3, 0]);
}

#[test]
fn sizes_of_a_window() {
    assert_eq!(native().screen_size(), SIZE);
    assert_eq!(native().headless_size(), None);
    assert_eq!(headless().screen_size(), Size { width: 3, height: 2 });
    assert_eq!(headless().headless_size(), Some(Size { width: 3, height: 2 }));
}

#[test]
fn coordinates_of_a_native_window() {
    let inner = Size { width: 100, height: 50 };
    let screen = Size { width: 400, height: 300 };
    let expected = EmbedderCoordinates {
        hidpi_factor: Single { bits: 2.0f32.to_bits() },
        screen,
        screen_avail: screen,
        window: (Size { width: 110, height: 70 }, Point { x: -4, y: 9 }),
        framebuffer: inner,
        viewport: Rect { x: 0, y: 0, size: inner },
    };
    assert_eq!(native().get_coordinates(measured()), expected);
    let unplaced = Measurements { position: None, ..measured() };
    assert_eq!(native().get_coordinates(unplaced).window.1, Point { x: 0, y: 0 });
}

#[test]
fn coordinates_of_a_headless_window() {
    let inner = Size { width: 100, height: 50 };
    let expected = EmbedderCoordinates {
        hidpi_factor: Single { bits: 2.0f32.to_bits() },
        screen: inner,
        screen_avail: inner,
        window: (inner, Point { x: 0, y: 0 }),
        framebuffer: inner,
        viewport: Rect { x: 0, y: 0, size: inner },
    };
    assert_eq!(headless().get_coordinates(measured()), expected);
}

#[test]
fn window_can_be_composed_and_has_a_clipboard() {
    assert!(native().prepare_for_composite(1, 2));
    assert!(native().supports_clipboard());
    assert!(headless().is_headless());
    assert!(!native().is_headless());
}

#[test]
fn animation_stops_while_suspended() {
    let mut window = native();
    assert!(!window.is_animating());
    window.set_animation_state(AnimationState::Animating);
    assert!(window.is_animating());
    window.handle_window_event(InputEvent::Suspended(true));
    assert!(!window.is_animating());
    window.handle_window_event(InputEvent::Suspended(false));
    assert!(window.is_animating());
    window.set_animation_state(AnimationState::Idle);
    assert!(!window.is_animating());
}

#[test]
fn animated_window_polls_and_draws() {
    let mut window = native();
    window.set_animation_state(AnimationState::Animating);
    assert_eq!(window.run(RunPhase::Begin, false), (RunPhase::Polled, RunAction::PollEvents));
    assert_eq!(window.run(RunPhase::Polled, false), (RunPhase::Called, RunAction::CallServo));
    assert_eq!(window.run(RunPhase::Called, false), (RunPhase::Polled, RunAction::PollEvents));
    assert_eq!(window.run(RunPhase::Called, true).1, RunAction::Exit);
}

#[test]
fn idle_window_waits_for_events() {
    let mut window = native();
    assert_eq!(window.run(RunPhase::Begin, false), (RunPhase::EventHandled, RunAction::WaitForEvents));
    assert_eq!(
        window.run(RunPhase::EventHandled, false),
        (RunPhase::EventHandled, RunAction::KeepWaiting)
    );
    window.handle_window_event(InputEvent::Awakened);
    assert_eq!(
        window.run(RunPhase::EventHandled, false),
        (RunPhase::CalledOnEvent, RunAction::CallServo)
    );
    assert_eq!(
        window.run(RunPhase::CalledOnEvent, false),
        (RunPhase::EventHandled, RunAction::KeepWaiting)
    );
    assert_eq!(
        window.run(RunPhase::CalledOnEvent, true),
        (RunPhase::Unblocked, RunAction::StopWaiting)
    );
    assert_eq!(window.run(RunPhase::Unblocked, true).1, RunAction::Exit);
}

#[test]
fn wait_ends_when_the_page_is_animated() {
    let mut window = native();
    window.set_animation_state(AnimationState::Animating);
    assert_eq!(
        window.run(RunPhase::CalledOnEvent, false),
        (RunPhase::Unblocked, RunAction::StopWaiting)
    );
    assert_eq!(window.run(RunPhase::Unblocked, false), (RunPhase::Polled, RunAction::PollEvents));
}

#[test]
fn suspended_window_does_not_call() {
    let mut window = native();
    window.handle_window_event(InputEvent::Refresh);
    window.handle_window_event(InputEvent::Suspended(true));
    window.set_animation_state(AnimationState::Animating);
    assert_eq!(
        window.run(RunPhase::EventHandled, false),
        (RunPhase::EventHandled, RunAction::KeepWaiting)
    );
    window.handle_window_event(InputEvent::Suspended(false));
    assert_eq!(
        window.run(RunPhase::EventHandled, false),
        (RunPhase::CalledOnEvent, RunAction::CallServo)
    );
    assert_eq!(window.get_events(), vec![WindowEvent::Refresh, WindowEvent::Idle]);
}

#[test]
fn headless_window_sleeps_when_idle() {
    let mut window = headless();
    assert_eq!(window.run(RunPhase::Begin, false), (RunPhase::Slept, RunAction::Sleep(5)));
    assert_eq!(window.run(RunPhase::Slept, false), (RunPhase::Called, RunAction::CallServo));
    assert_eq!(window.run(RunPhase::Called, false), (RunPhase::Slept, RunAction::Sleep(5)));
    window.handle_window_event(InputEvent::Awakened);
    assert_eq!(window.run(RunPhase::Begin, false), (RunPhase::Called, RunAction::CallServo));
    assert_eq!(window.run(RunPhase::Called, true).1, RunAction::Exit);
}

#[test]
fn context_without_buffer_keeps_its_size() {
    let context = HeadlessContext::without_buffer(u32::MAX, 2);
    assert_eq!(context, HeadlessContext { width: u32::MAX, height: 2, buffer: vec![] });
    let window = Window::new(WindowKind::Headless(context), false, platform());
    assert_eq!(window.headless_size(), Some(Size { width: u32::MAX, height: 2 }));
}

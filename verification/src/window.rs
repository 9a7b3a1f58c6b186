//! The window.

use crate::coordinates::{coordinates, EmbedderCoordinates, Measurements};
use crate::events::{
    glutin_phase_to_touch_event_type, snap_to_major_axis, BrowserId, InputEvent, MouseButton,
    MouseWindowEvent, ScrollLocation, TouchEventType, TouchId, WindowEvent,
};
use crate::geometry::{Point, Size, Vector};
use crate::keys::{
    glutin_mods_to_script_mods, is_control, modifier_key, ElementState, GlutinKeyModifiers, Key,
    KeyState, PlatformModifiers, VirtualKeyCode,
};
use crate::messages::PageDirection;
use crate::plan::HeadlessContext;
use crate::single::Single;
use crate::state::{AnimationState, WindowView};
use vstd::prelude::*;

mod service;

verus! {

/// What a window draws to.
pub enum WindowKind {
    /// A native window, with the sizes of the screen and of its own inside.
    Window { screen_size: Size, inner_size: Size },
    /// A buffer.
    Headless(HeadlessContext),
}

/// The type of a window.
pub struct Window {
    /// What it draws to, for a headless window.
    headless: Option<HeadlessContext>,
    no_native_titlebar: bool,
    platform: PlatformModifiers,
    screen_size: Size,
    inner_size: Size,
    mouse_down_button: Option<MouseButton>,
    mouse_down_point: Point,
    event_queue: Vec<WindowEvent<String>>,
    /// The top level browsing context. It is the only one, as there are no tabs. `None` until it
    /// is created.
    browser_id: Option<BrowserId>,
    mouse_pos: Point,
    key_modifiers: GlutinKeyModifiers,
    current_url: Option<String>,
    last_pressed_key: Option<Key>,
    animation_state: AnimationState,
    fullscreen: bool,
    suspended: bool,
}

impl View for Window {
    type V = WindowView;

    closed spec fn view(&self) -> WindowView {
        WindowView {
            headless: match self.headless {
                Some(context) => Some(context.spec_size()),
                None => None,
            },
            pixels: match self.headless {
                Some(context) => context.buffer@,
                None => seq![],
            },
            no_native_titlebar: self.no_native_titlebar,
            platform: self.platform,
            screen_size: self.screen_size,
            inner_size: self.inner_size,
            mouse_down_button: self.mouse_down_button,
            mouse_down_point: self.mouse_down_point,
            events: self.event_queue@.map_values(|event: WindowEvent<String>| event@),
            browser_id: self.browser_id,
            mouse_pos: self.mouse_pos,
            key_modifiers: self.key_modifiers,
            current_url: crate::address::text_of(self.current_url),
            last_pressed_key: self.last_pressed_key,
            animation_state: self.animation_state,
            fullscreen: self.fullscreen,
            suspended: self.suspended,
        }
    }
}

impl Window {
    /// A window that nothing has happened to yet.
    pub fn new(kind: WindowKind, no_native_titlebar: bool, platform: PlatformModifiers) -> (window:
        Window)
        ensures
            window@ == (WindowView {
                headless: match kind {
                    WindowKind::Window { screen_size: _, inner_size: _ } => None,
                    WindowKind::Headless(context) => Some(context.spec_size()),
                },
                pixels: match kind {
                    WindowKind::Window { screen_size: _, inner_size: _ } => seq![],
                    WindowKind::Headless(context) => context.buffer@,
                },
                no_native_titlebar,
                platform,
                screen_size: match kind {
                    WindowKind::Window { screen_size, inner_size: _ } => screen_size,
                    WindowKind::Headless(context) => context.spec_size(),
                },
                inner_size: match kind {
                    WindowKind::Window { screen_size: _, inner_size } => inner_size,
                    WindowKind::Headless(context) => context.spec_size(),
                },
                mouse_down_button: None,
                mouse_down_point: Point::zero(),
                events: seq![],
                browser_id: None,
                mouse_pos: Point::zero(),
                key_modifiers: GlutinKeyModifiers::empty(),
                current_url: None,
                last_pressed_key: None,
                animation_state: AnimationState::Idle,
                fullscreen: false,
                suspended: false,
            }),
    {
        let (headless, screen_size, inner_size) = match kind {
            WindowKind::Window { screen_size, inner_size } => (None, screen_size, inner_size),
            WindowKind::Headless(context) => {
                let size = Size { width: context.width, height: context.height };
                (Some(context), size, size)
            },
        };
        let window = Window {
            headless,
            no_native_titlebar,
            platform,
            screen_size,
            inner_size,
            mouse_down_button: None,
            mouse_down_point: Point::zero(),
            event_queue: Vec::new(),
            browser_id: None,
            mouse_pos: Point::zero(),
            key_modifiers: GlutinKeyModifiers::empty(),
            current_url: None,
            last_pressed_key: None,
            animation_state: AnimationState::Idle,
            fullscreen: false,
            suspended: false,
        };
        assert(window@.events =~= seq![]);
        window
    }

    /// Names the top level browsing context.
    pub fn set_browser_id(&mut self, browser_id: BrowserId)
        ensures
            final(self)@ == (WindowView { browser_id: Some(browser_id), ..old(self)@ }),
    {
        self.browser_id = Some(browser_id);
    }

    fn push_event(&mut self, event: WindowEvent<String>)
        ensures
            final(self)@ == old(self)@.push(event@),
    {
        self.event_queue.push(event);
        assert(self@.events =~= old(self)@.events.push(event@));
    }

    fn handle_received_character(&mut self, ch: char, ignorable: bool, char_key: Option<Key>)
        ensures
            final(self)@ == old(self)@.received_character(ch, ignorable, char_key),
    {
        let modifiers = glutin_mods_to_script_mods(self.key_modifiers);
        if ignorable {
            return;
        }
        let key = self.key_of_character(ch, char_key);
        self.last_pressed_key = None;
        if let Some(key) = key {
            self.push_event(WindowEvent::KeyEvent(Some(ch), key, KeyState::Pressed, modifiers));
        }
    }

    fn key_of_character(&self, ch: char, char_key: Option<Key>) -> (key: Option<Key>)
        ensures
            key == self@.key_of_character(ch, char_key),
    {
        match self.last_pressed_key {
            Some(key) => Some(key),
            // Only send the character if we can print it (by ignoring characters like backspace)
            None => if is_control(ch) {
                None
            } else {
                char_key
            },
        }
    }

    fn toggle_modifier(&mut self, modifier: GlutinKeyModifiers)
        ensures
            final(self)@ == (WindowView {
                key_modifiers: old(self)@.key_modifiers.toggled(modifier),
                ..old(self)@
            }),
    {
        let mut modifiers = self.key_modifiers;
        modifiers.toggle(modifier);
        self.key_modifiers = modifiers;
    }

    fn toggle_keyboard_modifiers(&mut self, code: VirtualKeyCode)
        ensures
            final(self)@ == old(self)@.toggle_keyboard_modifiers(code),
    {
        if code != VirtualKeyCode::Other {
            self.toggle_modifier(modifier_key(code));
        }
    }

    fn handle_keyboard_input(
        &mut self,
        element_state: ElementState,
        code: VirtualKeyCode,
        key: Option<Key>,
        printable: bool,
    )
        ensures
            final(self)@ == old(self)@.keyboard_input(element_state, code, key, printable),
    {
        self.toggle_keyboard_modifiers(code);
        if let Some(key) = key {
            let state = match element_state {
                ElementState::Pressed => KeyState::Pressed,
                ElementState::Released => KeyState::Released,
            };
            if element_state == ElementState::Pressed {
                if printable {
                    self.last_pressed_key = Some(key);
                }
            }
            let modifiers = glutin_mods_to_script_mods(self.key_modifiers);
            self.push_event(WindowEvent::KeyEvent(None, key, state, modifiers));
        }
    }

    /// Something happened to the window. The result is the size that its drawing surface is to
    /// be given, if any.
    pub fn handle_window_event(&mut self, event: InputEvent) -> (surface: Option<Size>)
        ensures
            final(self)@ == old(self)@.window_event(event),
            surface == old(self)@.surface_size(event),
    {
        match event {
            InputEvent::ReceivedCharacter { ch, ignorable, key } => {
                self.handle_received_character(ch, ignorable, key);
                None
            },
            InputEvent::KeyboardInput { state, code, key, printable } => {
                self.handle_keyboard_input(state, code, key, printable);
                None
            },
            InputEvent::MouseInput { state, button, click_limit } => {
                if button == MouseButton::Left || button == MouseButton::Right {
                    let coords = self.mouse_pos;
                    self.handle_mouse(button, state, coords, click_limit);
                }
                None
            },
            InputEvent::CursorMoved { pixel, position } => {
                self.mouse_pos = pixel;
                self.push_event(WindowEvent::MouseWindowMoveEventClass(position));
                None
            },
            InputEvent::MouseWheel { delta, phase } => {
                let kind = glutin_phase_to_touch_event_type(phase);
                self.scroll_window(ScrollLocation::Delta(delta), kind);
                None
            },
            InputEvent::Touch { phase, id, location } => {
                let kind = glutin_phase_to_touch_event_type(phase);
                self.push_event(WindowEvent::Touch(kind, TouchId::from_system(id), location));
                None
            },
            InputEvent::Refresh => {
                self.push_event(WindowEvent::Refresh);
                None
            },
            InputEvent::Closed => {
                self.push_event(WindowEvent::Quit);
                None
            },
            InputEvent::Resized { surface, inner } => {
                if self.inner_size != inner {
                    self.inner_size = inner;
                    self.push_event(WindowEvent::Resize);
                }
                if self.headless.is_none() {
                    Some(surface)
                } else {
                    None
                }
            },
            InputEvent::Suspended(suspended) => {
                self.suspended = suspended;
                if !suspended {
                    self.push_event(WindowEvent::Idle);
                }
                None
            },
            InputEvent::Awakened => {
                self.push_event(WindowEvent::Idle);
                None
            },
            InputEvent::Other => None,
        }
    }

    /// Helper function to send a scroll event.
    fn scroll_window(&mut self, location: ScrollLocation, kind: TouchEventType)
        ensures
            final(self)@ == old(self)@.scroll_window(location, kind),
    {
        let location = snap_to_major_axis(location);
        let event = WindowEvent::Scroll(location, self.mouse_pos, kind);
        self.push_event(event);
    }

    /// Scrolls down or up by a page. `distance` is the height of the page less two lines, in device
    /// pixels.
    pub fn scroll_page(&mut self, direction: PageDirection, distance: Single)
        ensures
            final(self)@ == old(self)@.scroll_page(direction, distance),
    {
        let y = match direction {
            PageDirection::Down => distance.opposite(),
            PageDirection::Up => distance,
        };
        self.scroll_window(
            ScrollLocation::Delta(Vector { x: Single::zero(), y }),
            TouchEventType::Move,
        );
    }

    /// Helper function to handle a click
    fn handle_mouse(
        &mut self,
        button: MouseButton,
        action: ElementState,
        coords: Point,
        click_limit: u64,
    )
        ensures
            final(self)@ == old(self)@.handle_mouse(button, action, coords, click_limit),
    {
        let event = match action {
            ElementState::Pressed => {
                self.mouse_down_point = coords;
                self.mouse_down_button = Some(button);
                MouseWindowEvent::MouseDown(MouseButton::Left, coords)
            },
            ElementState::Released => {
                let mouse_up_event = MouseWindowEvent::MouseUp(MouseButton::Left, coords);
                match self.mouse_down_button {
                    None => mouse_up_event,
                    Some(but) if button == but => {
                        if self.mouse_down_point.is_within(coords, click_limit) {
                            self.push_event(WindowEvent::MouseWindowEventClass(mouse_up_event));
                            MouseWindowEvent::Click(MouseButton::Left, coords)
                        } else {
                            mouse_up_event
                        }
                    },
                    Some(_) => mouse_up_event,
                }
            },
        };
        self.push_event(WindowEvent::MouseWindowEventClass(event));
    }

    /// Hands out the events that have come in since the last call.
    pub fn get_events(&mut self) -> (events: Vec<WindowEvent<String>>)
        ensures
            events@.map_values(|event: WindowEvent<String>| event@) == old(self)@.events,
            final(self)@ == (WindowView { events: seq![], ..old(self)@ }),
    {
        let mut events: Vec<WindowEvent<String>> = Vec::new();
        std::mem::swap(&mut events, &mut self.event_queue);
        assert(self@.events =~= seq![]);
        events
    }

    /// Whether the page needs frames and can be drawn.
    pub fn is_animating(&self) -> (yes: bool)
        ensures
            yes == self@.is_animating(),
    {
        self.animation_state == AnimationState::Animating && !self.suspended
    }

    /// Whether the page needs frames all the time.
    pub fn set_animation_state(&mut self, state: AnimationState)
        ensures
            final(self)@ == (WindowView { animation_state: state, ..old(self)@ }),
    {
        self.animation_state = state;
    }

    /// Whether the window draws to a buffer.
    pub fn is_headless(&self) -> (yes: bool)
        ensures
            yes == (self@.headless is Some),
    {
        self.headless.is_some()
    }

    /// The size of the buffer that a headless window draws to.
    pub fn headless_size(&self) -> (size: Option<Size>)
        ensures
            size == self@.headless,
    {
        match &self.headless {
            Some(context) => Some(Size { width: context.width, height: context.height }),
            None => None,
        }
    }

    /// Whether the application is suspended.
    pub fn is_suspended(&self) -> (yes: bool)
        ensures
            yes == self@.suspended,
    {
        self.suspended
    }

    /// Whether there is an event to fetch.
    pub fn has_events(&self) -> (yes: bool)
        ensures
            yes == (self@.events.len() > 0),
    {
        self.event_queue.len() > 0
    }

    /// The size of the screen, in device independent pixels.
    pub fn screen_size(&self) -> (size: Size)
        ensures
            size == self@.screen_size,
    {
        self.screen_size
    }

    /// Where the window is and how large it is.
    pub fn get_coordinates(&self, measured: Measurements) -> (found: EmbedderCoordinates)
        ensures
            found == if self@.headless is Some {
                crate::coordinates::headless_coordinates(measured)
            } else {
                crate::coordinates::native_coordinates(measured)
            },
    {
        coordinates(self.is_headless(), measured)
    }

    /// Whether a frame of any size can be drawn: it always can.
    pub fn prepare_for_composite(&self, _width: u32, _height: u32) -> (yes: bool)
        ensures
            yes,
    {
        true
    }

    /// Whether there is a clipboard: there is.
    pub fn supports_clipboard(&self) -> (yes: bool)
        ensures
            yes,
    {
        true
    }
}

} // verus!

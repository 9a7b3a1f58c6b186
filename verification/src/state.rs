//! The state of a window, and how each event and each message changes it.

use crate::cursor::mouse_cursor;
use crate::events::{
    glutin_phase_to_touch_event_type, BrowserId, InputEvent, MouseButton, MouseWindowEvent,
    ScrollLocation, TouchEventType, TouchId, TraversalDirection, WindowEvent,
};
use crate::geometry::{Point, Size, Vector};
use crate::keys::{
    glutin_mods_to_script_mods, is_control, ElementState, GlutinKeyModifiers, Key, KeyModifiers,
    KeyState, PlatformModifiers, VirtualKeyCode,
};
use crate::messages::{Action, EmbedderMsg, PageDirection};
use crate::shortcuts::{key_command, KeyCommand};
use crate::single::Single;
use vstd::prelude::*;

verus! {

/// Whether the page needs frames all the time.
#[derive(Clone, Copy, Debug, PartialEq, Eq, Structural)]
pub enum AnimationState {
    Idle,
    Animating,
}

/// What a window is, apart from how it is stored.
pub struct WindowView {
    /// The size of the buffer that a headless window draws to; `None` for a native window.
    pub headless: Option<Size>,
    /// The pixels of that buffer, row by row; none for a native window.
    pub pixels: Seq<u32>,
    pub no_native_titlebar: bool,
    pub platform: PlatformModifiers,
    pub screen_size: Size,
    pub inner_size: Size,
    pub mouse_down_button: Option<MouseButton>,
    pub mouse_down_point: Point,
    /// The events that the browser engine has not fetched yet.
    pub events: Seq<WindowEvent<Seq<char>>>,
    /// The top level browsing context, once there is one.
    pub browser_id: Option<BrowserId>,
    pub mouse_pos: Point,
    pub key_modifiers: GlutinKeyModifiers,
    pub current_url: Option<Seq<char>>,
    /// The key that the next character belongs to.
    pub last_pressed_key: Option<Key>,
    pub animation_state: AnimationState,
    pub fullscreen: bool,
    pub suspended: bool,
}

impl WindowView {
    /// The same window with one more event.
    pub open spec fn push(self, event: WindowEvent<Seq<char>>) -> WindowView {
        WindowView { events: self.events.push(event), ..self }
    }

    /// The modifiers that pages see.
    pub open spec fn modifiers(self) -> KeyModifiers {
        glutin_mods_to_script_mods(self.key_modifiers)
    }

    /// The key that a character belongs to: the one that was pressed last, or else, if the
    /// character can be printed, the one that usually types it.
    pub open spec fn key_of_character(self, ch: char, char_key: Option<Key>) -> Option<Key> {
        match self.last_pressed_key {
            Some(key) => Some(key),
            None => if is_control(ch) {
                None
            } else {
                char_key
            },
        }
    }

    /// A character that belongs to a key is reported with it. The key has its character then.
    pub open spec fn received_character(
        self,
        ch: char,
        ignorable: bool,
        char_key: Option<Key>,
    ) -> WindowView {
        if ignorable {
            self
        } else {
            match self.key_of_character(ch, char_key) {
                Some(key) => WindowView { last_pressed_key: None, ..self }.push(
                    WindowEvent::KeyEvent(Some(ch), key, KeyState::Pressed, self.modifiers()),
                ),
                None => WindowView { last_pressed_key: None, ..self },
            }
        }
    }

    /// A modifier key turns its modifier over.
    pub open spec fn toggle_keyboard_modifiers(self, code: VirtualKeyCode) -> WindowView {
        WindowView {
            key_modifiers: self.key_modifiers.toggled(crate::keys::modifier_of(code)),
            ..self
        }
    }

    /// A key that pages know is reported to them, and waits for its character if it has one.
    pub open spec fn keyboard_input(
        self,
        state: ElementState,
        code: VirtualKeyCode,
        key: Option<Key>,
        printable: bool,
    ) -> WindowView {
        let toggled = self.toggle_keyboard_modifiers(code);
        match key {
            Some(key) => {
                let pressed = state == ElementState::Pressed;
                let waiting = if pressed && printable {
                    WindowView { last_pressed_key: Some(key), ..toggled }
                } else {
                    toggled
                };
                let key_state = if pressed {
                    KeyState::Pressed
                } else {
                    KeyState::Released
                };
                waiting.push(WindowEvent::KeyEvent(None, key, key_state, toggled.modifiers()))
            },
            None => toggled,
        }
    }

    /// A scroll at the place of the mouse.
    pub open spec fn scroll_window(
        self,
        location: ScrollLocation,
        kind: TouchEventType,
    ) -> WindowView {
        self.push(WindowEvent::Scroll(crate::events::snapped(location), self.mouse_pos, kind))
    }

    /// A scroll by a page, down or up. `distance` is the height of the page less two lines.
    pub open spec fn scroll_page(self, direction: PageDirection, distance: Single) -> WindowView {
        let y = match direction {
            PageDirection::Down => distance.opposite(),
            PageDirection::Up => distance,
        };
        self.scroll_window(
            ScrollLocation::Delta(Vector { x: Single::zero(), y }),
            TouchEventType::Move,
        )
    }

    /// Whether a button that goes up at `coords` completes a click.
    pub open spec fn completes_click(
        self,
        button: MouseButton,
        coords: Point,
        click_limit: u64,
    ) -> bool {
        &&& self.mouse_down_button == Some(button)
        &&& self.mouse_down_point.distance_squared(coords) < click_limit
    }

    /// A button went down or up.
    pub open spec fn handle_mouse(
        self,
        button: MouseButton,
        action: ElementState,
        coords: Point,
        click_limit: u64,
    ) -> WindowView {
        let down = WindowEvent::MouseWindowEventClass(
            MouseWindowEvent::MouseDown(MouseButton::Left, coords),
        );
        let up = WindowEvent::MouseWindowEventClass(
            MouseWindowEvent::MouseUp(MouseButton::Left, coords),
        );
        let click = WindowEvent::MouseWindowEventClass(
            MouseWindowEvent::Click(MouseButton::Left, coords),
        );
        match action {
            ElementState::Pressed => WindowView {
                mouse_down_point: coords,
                mouse_down_button: Some(button),
                ..self
            }.push(down),
            ElementState::Released => if self.completes_click(button, coords, click_limit) {
                self.push(up).push(click)
            } else {
                self.push(up)
            },
        }
    }

    /// Something happened to the window.
    pub open spec fn window_event(self, event: InputEvent) -> WindowView {
        match event {
            InputEvent::ReceivedCharacter { ch, ignorable, key } => self.received_character(
                ch,
                ignorable,
                key,
            ),
            InputEvent::KeyboardInput { state, code, key, printable } => self.keyboard_input(
                state,
                code,
                key,
                printable,
            ),
            InputEvent::MouseInput { state, button, click_limit } => if button == MouseButton::Left
                || button == MouseButton::Right {
                self.handle_mouse(button, state, self.mouse_pos, click_limit)
            } else {
                self
            },
            InputEvent::CursorMoved { pixel, position } => WindowView {
                mouse_pos: pixel,
                ..self
            }.push(WindowEvent::MouseWindowMoveEventClass(position)),
            InputEvent::MouseWheel { delta, phase } => self.scroll_window(
                ScrollLocation::Delta(delta),
                glutin_phase_to_touch_event_type(phase),
            ),
            InputEvent::Touch { phase, id, location } => self.push(
                WindowEvent::Touch(
                    glutin_phase_to_touch_event_type(phase),
                    TouchId(crate::events::touch_number(id) as i32),
                    location,
                ),
            ),
            InputEvent::Refresh => self.push(WindowEvent::Refresh),
            InputEvent::Closed => self.push(WindowEvent::Quit),
            InputEvent::Resized { surface: _, inner } => if self.inner_size == inner {
                self
            } else {
                WindowView { inner_size: inner, ..self }.push(WindowEvent::Resize)
            },
            InputEvent::Suspended(suspended) => if suspended {
                WindowView { suspended: true, ..self }
            } else {
                WindowView { suspended: false, ..self }.push(WindowEvent::Idle)
            },
            InputEvent::Awakened => self.push(WindowEvent::Idle),
            InputEvent::Other => self,
        }
    }

    /// The size that the drawing surface of a native window is given.
    pub open spec fn surface_size(self, event: InputEvent) -> Option<Size> {
        match event {
            InputEvent::Resized { surface, inner: _ } => if self.headless is None {
                Some(surface)
            } else {
                None
            },
            _ => None,
        }
    }

    /// The text that the prompt for a URL starts from.
    pub open spec fn prompt_text(self) -> Seq<char> {
        match self.current_url {
            Some(url) => url,
            None => Seq::empty(),
        }
    }

    /// A command is carried out for the browsing context `id`.
    pub open spec fn command(self, command: KeyCommand, id: BrowserId) -> WindowView {
        match command {
            KeyCommand::Nothing => self,
            KeyCommand::Zoom(factor) => self.push(WindowEvent::Zoom(factor)),
            KeyCommand::PinchZoom(factor) => self.push(WindowEvent::PinchZoom(factor)),
            KeyCommand::ResetZoom => self.push(WindowEvent::ResetZoom),
            KeyCommand::GoForward => self.push(
                WindowEvent::Navigation(id, TraversalDirection::Forward(1)),
            ),
            KeyCommand::GoBack => self.push(
                WindowEvent::Navigation(id, TraversalDirection::Back(1)),
            ),
            KeyCommand::Quit => self.push(WindowEvent::Quit),
            KeyCommand::Reload => self.push(WindowEvent::Reload(id)),
            KeyCommand::PromptForUrl => self,
            KeyCommand::Scroll(location) => self.scroll_window(location, TouchEventType::Move),
            KeyCommand::ScrollPage(_) => self,
            KeyCommand::CaptureWebRender => self.push(WindowEvent::CaptureWebRender),
            KeyCommand::ToggleDebug(option) => self.push(WindowEvent::ToggleWebRenderDebug(option)),
        }
    }

    /// What a command leaves to be done from outside.
    pub open spec fn command_action(self, command: KeyCommand, id: BrowserId) -> Option<
        Action<Seq<char>>,
    > {
        match command {
            KeyCommand::PromptForUrl => Some(Action::PromptForUrl(id, self.prompt_text())),
            KeyCommand::ScrollPage(direction) => Some(Action::ScrollPage(direction)),
            _ => None,
        }
    }

    /// What a key that no page took means.
    pub open spec fn key_meaning(
        self,
        shortcuts: Option<bool>,
        ch: Option<char>,
        key: Key,
        state: KeyState,
        modifiers: KeyModifiers,
    ) -> KeyCommand {
        if state == KeyState::Pressed {
            KeyCommand::Nothing
        } else {
            key_command(self.platform, shortcuts, modifiers, ch, key)
        }
    }

    /// A URL, if there is one, is loaded in a browsing context.
    pub open spec fn load(self, id: BrowserId, url: Option<Seq<char>>) -> WindowView {
        match url {
            Some(url) => self.push(WindowEvent::LoadUrl(id, url)),
            None => self,
        }
    }

    /// The title of the window: that of the page if it has one, else its URL.
    pub open spec fn title_text(self, title: Option<Seq<char>>) -> Seq<char> {
        let name = match title {
            Some(title) if title.len() > 0 => title,
            _ => match self.current_url {
                Some(url) => url,
                None => "Untitled"@,
            },
        };
        name + " - Servo"@
    }

    /// `action` for a native window.
    pub open spec fn if_native(self, action: Action<Seq<char>>) -> Option<Action<Seq<char>>> {
        if self.headless is None {
            Some(action)
        } else {
            None
        }
    }

    /// Whether the window can handle a message: keys are for a browsing context, and the current
    /// entry of a history is one of its entries.
    pub open spec fn can_handle(self, msg: EmbedderMsg<Seq<char>, Seq<Seq<char>>>) -> bool {
        match msg {
            EmbedderMsg::KeyEvent(_, _, _, state, _) => state == KeyState::Pressed
                || self.browser_id is Some,
            EmbedderMsg::HistoryChanged(_, history, current) => current < history.len(),
            _ => true,
        }
    }

    /// A message changed the window.
    pub open spec fn message(
        self,
        msg: EmbedderMsg<Seq<char>, Seq<Seq<char>>>,
        shortcuts: Option<bool>,
    ) -> WindowView {
        match msg {
            EmbedderMsg::KeyEvent(_, ch, key, state, modifiers) => self.command(
                self.key_meaning(shortcuts, ch, key, state, modifiers),
                self.browser_id->0,
            ),
            EmbedderMsg::HistoryChanged(_, history, current) => WindowView {
                current_url: Some(history[current as int]),
                ..self
            },
            EmbedderMsg::SetFullscreenState(_, state) => WindowView { fullscreen: state, ..self },
            _ => self,
        }
    }

    /// What a message leaves to be done from outside.
    pub open spec fn message_action(
        self,
        msg: EmbedderMsg<Seq<char>, Seq<Seq<char>>>,
        shortcuts: Option<bool>,
    ) -> Option<Action<Seq<char>>> {
        match msg {
            EmbedderMsg::ChangePageTitle(_, title) => self.if_native(
                Action::SetTitle(self.title_text(title)),
            ),
            EmbedderMsg::MoveTo(_, point) => self.if_native(Action::SetPosition(point)),
            EmbedderMsg::ResizeTo(_, size) => self.if_native(Action::SetInnerSize(size)),
            EmbedderMsg::AllowNavigation(_, _, reply) => Some(Action::Reply(reply, true)),
            EmbedderMsg::KeyEvent(_, ch, key, state, modifiers) => self.command_action(
                self.key_meaning(shortcuts, ch, key, state, modifiers),
                self.browser_id->0,
            ),
            EmbedderMsg::SetCursor(cursor) => self.if_native(
                Action::SetCursor(mouse_cursor(cursor)),
            ),
            EmbedderMsg::SetFullscreenState(_, state) => if self.fullscreen != state {
                self.if_native(Action::SetFullscreen)
            } else {
                None
            },
            EmbedderMsg::LoadComplete(_) => if self.no_native_titlebar {
                self.if_native(Action::Show)
            } else {
                None
            },
            _ => None,
        }
    }

    /// Whether the page needs frames and can be drawn.
    pub open spec fn is_animating(self) -> bool {
        self.animation_state == AnimationState::Animating && !self.suspended
    }
}

/// What comes of a sequence of messages.
pub struct Served {
    pub window: WindowView,
    /// What is to be done from outside, in order.
    pub actions: Seq<Action<Seq<char>>>,
    /// The messages that wait until the last action is done.
    pub waiting: Seq<EmbedderMsg<Seq<char>, Seq<Seq<char>>>>,
}

/// The messages are handled in order, up to the first that asks a question.
pub open spec fn serve(
    window: WindowView,
    msgs: Seq<EmbedderMsg<Seq<char>, Seq<Seq<char>>>>,
    shortcuts: Option<bool>,
) -> Served
    decreases msgs.len(),
{
    if msgs.len() == 0 {
        Served { window, actions: seq![], waiting: seq![] }
    } else {
        let next = window.message(msgs[0], shortcuts);
        match window.message_action(msgs[0], shortcuts) {
            Some(action) if action.spec_is_question() => Served {
                window: next,
                actions: seq![action],
                waiting: msgs.drop_first(),
            },
            Some(action) => {
                let rest = serve(next, msgs.drop_first(), shortcuts);
                Served { actions: seq![action] + rest.actions, ..rest }
            },
            None => serve(next, msgs.drop_first(), shortcuts),
        }
    }
}

} // verus!

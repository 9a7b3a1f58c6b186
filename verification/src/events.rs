//! What happens to the window, and what it tells the browser engine about.

use crate::geometry::{FinePoint, Point, Size, Vector};
use crate::keys::{ElementState, Key, KeyModifiers, KeyState, VirtualKeyCode};
use crate::single::Single;
use vstd::prelude::*;

verus! {

/// A top level browsing context, by a number that the embedder gives it.
#[derive(Clone, Copy, Debug, PartialEq, Eq, Structural)]
pub struct BrowserId(pub u64);

/// A mouse button.
#[derive(Clone, Copy, Debug, PartialEq, Eq, Structural)]
pub enum MouseButton {
    Left,
    Right,
    Middle,
    Other(u8),
}

/// The stage of a touch, or of a wheel movement, as the windowing system reports it.
#[derive(Clone, Copy, Debug, PartialEq, Eq, Structural)]
pub enum TouchPhase {
    Started,
    Moved,
    Ended,
    Cancelled,
}

/// Something that happened to the window.
///
/// Where an event stands for a key, it comes with what the keyboard layout makes of it.
#[derive(Clone, Copy, Debug, PartialEq, Eq)]
pub enum InputEvent {
    /// A character was typed. `ignorable` if it is one that identifiers leave out; `key` is the
    /// key that usually types it.
    ReceivedCharacter { ch: char, ignorable: bool, key: Option<Key> },
    /// A key went down or up. `key` is the key that pages see, if they see one, and `printable`
    /// says whether it types a character.
    KeyboardInput { state: ElementState, code: VirtualKeyCode, key: Option<Key>, printable: bool },
    /// A mouse button went down or up. A button that goes up is a click if the square of the
    /// distance from where it went down, in device pixels, is below `click_limit`.
    MouseInput { state: ElementState, button: MouseButton, click_limit: u64 },
    /// The mouse moved to `position`, which lies in the device pixel `pixel`.
    CursorMoved { pixel: Point, position: FinePoint },
    /// The wheel moved, by a distance in device pixels.
    MouseWheel { delta: Vector, phase: TouchPhase },
    /// A touch started, moved or ended.
    Touch { phase: TouchPhase, id: u64, location: FinePoint },
    /// The window has to be painted again.
    Refresh,
    /// The window was asked to close.
    Closed,
    /// The window has a new size: `surface` in device pixels, `inner` in device independent ones.
    Resized { surface: Size, inner: Size },
    /// The application was suspended (`true`) or resumed (`false`).
    Suspended(bool),
    /// The event loop was woken up from outside.
    Awakened,
    /// Anything else.
    Other,
}

/// A touch, as pages tell it from others.
#[derive(Clone, Copy, Debug, PartialEq, Eq, Structural)]
pub struct TouchId(pub i32);

/// The stage of a touch for pages.
#[derive(Clone, Copy, Debug, PartialEq, Eq, Structural)]
pub enum TouchEventType {
    Down,
    Move,
    Up,
    Cancel,
}

/// A mouse event with a button. Pages see the left button for any button.
#[derive(Clone, Copy, Debug, PartialEq, Eq, Structural)]
pub enum MouseWindowEvent {
    Click(MouseButton, Point),
    MouseDown(MouseButton, Point),
    MouseUp(MouseButton, Point),
}

/// Where to scroll to.
#[derive(Clone, Copy, Debug, PartialEq, Eq, Structural)]
pub enum ScrollLocation {
    Delta(Vector),
    Start,
    End,
}

/// A step in the session history.
#[derive(Clone, Copy, Debug, PartialEq, Eq, Structural)]
pub enum TraversalDirection {
    Forward(usize),
    Back(usize),
}

/// A debugging aid of the renderer.
#[derive(Clone, Copy, Debug, PartialEq, Eq, Structural)]
pub enum WebRenderDebugOption {
    Profiler,
    TextureCacheDebug,
    RenderTargetDebug,
}

/// An event for the browser engine. `Text` is `String` in a program and `Seq<char>` in a
/// contract.
#[derive(Debug, PartialEq)]
pub enum WindowEvent<Text> {
    /// There is something to do, but nothing happened.
    Idle,
    Refresh,
    Resize,
    LoadUrl(BrowserId, Text),
    MouseWindowEventClass(MouseWindowEvent),
    MouseWindowMoveEventClass(FinePoint),
    Touch(TouchEventType, TouchId, FinePoint),
    Scroll(ScrollLocation, Point, TouchEventType),
    Zoom(Single),
    PinchZoom(Single),
    ResetZoom,
    Navigation(BrowserId, TraversalDirection),
    Quit,
    KeyEvent(Option<char>, Key, KeyState, KeyModifiers),
    Reload(BrowserId),
    ToggleWebRenderDebug(WebRenderDebugOption),
    CaptureWebRender,
}

impl View for WindowEvent<String> {
    type V = WindowEvent<Seq<char>>;

    open spec fn view(&self) -> WindowEvent<Seq<char>> {
        match *self {
            WindowEvent::Idle => WindowEvent::Idle,
            WindowEvent::Refresh => WindowEvent::Refresh,
            WindowEvent::Resize => WindowEvent::Resize,
            WindowEvent::LoadUrl(id, url) => WindowEvent::LoadUrl(id, url@),
            WindowEvent::MouseWindowEventClass(event) => WindowEvent::MouseWindowEventClass(event),
            WindowEvent::MouseWindowMoveEventClass(point) => {
                WindowEvent::MouseWindowMoveEventClass(point)
            },
            WindowEvent::Touch(kind, id, point) => WindowEvent::Touch(kind, id, point),
            WindowEvent::Scroll(location, point, kind) => WindowEvent::Scroll(location, point, kind),
            WindowEvent::Zoom(factor) => WindowEvent::Zoom(factor),
            WindowEvent::PinchZoom(factor) => WindowEvent::PinchZoom(factor),
            WindowEvent::ResetZoom => WindowEvent::ResetZoom,
            WindowEvent::Navigation(id, direction) => WindowEvent::Navigation(id, direction),
            WindowEvent::Quit => WindowEvent::Quit,
            WindowEvent::KeyEvent(ch, key, state, modifiers) => {
                WindowEvent::KeyEvent(ch, key, state, modifiers)
            },
            WindowEvent::Reload(id) => WindowEvent::Reload(id),
            WindowEvent::ToggleWebRenderDebug(option) => WindowEvent::ToggleWebRenderDebug(option),
            WindowEvent::CaptureWebRender => WindowEvent::CaptureWebRender,
        }
    }
}

pub open spec fn spec_glutin_phase_to_touch_event_type(phase: TouchPhase) -> TouchEventType {
    match phase {
        TouchPhase::Started => TouchEventType::Down,
        TouchPhase::Moved => TouchEventType::Move,
        TouchPhase::Ended => TouchEventType::Up,
        TouchPhase::Cancelled => TouchEventType::Cancel,
    }
}

/// The stage of a touch for pages.
#[verifier::when_used_as_spec(spec_glutin_phase_to_touch_event_type)]
pub fn glutin_phase_to_touch_event_type(phase: TouchPhase) -> (kind: TouchEventType)
    ensures
        kind == glutin_phase_to_touch_event_type(phase),
{
    match phase {
        TouchPhase::Started => TouchEventType::Down,
        TouchPhase::Moved => TouchEventType::Move,
        TouchPhase::Ended => TouchEventType::Up,
        TouchPhase::Cancelled => TouchEventType::Cancel,
    }
}

/// The number by which pages know touch `id`: the integer in the range of 32 signed bits that
/// differs from `id` by a multiple of 2 to the power 32.
pub open spec fn touch_number(id: u64) -> int {
    let low = id as int % 0x1_0000_0000;
    if low < 0x8000_0000 {
        low
    } else {
        low - 0x1_0000_0000
    }
}

impl TouchId {
    /// The touch that the windowing system calls `id`.
    pub fn from_system(id: u64) -> (touch: TouchId)
        ensures
            touch.0 == touch_number(id),
    {
        let low: u64 = id % 0x1_0000_0000;
        if low < 0x8000_0000 {
            TouchId(low as i32)
        } else {
            TouchId((low as i64 - 0x1_0000_0000) as i32)
        }
    }
}

/// Scroll events snap to the major axis of movement, with vertical preferred over horizontal.
pub open spec fn snapped(location: ScrollLocation) -> ScrollLocation {
    match location {
        ScrollLocation::Delta(delta) => {
            let is_vertical = !delta.x.is_nan() && !delta.y.is_nan() && delta.y.magnitude()
                >= delta.x.magnitude();
            if is_vertical {
                ScrollLocation::Delta(Vector { x: Single::zero(), y: delta.y })
            } else {
                ScrollLocation::Delta(Vector { x: delta.x, y: Single::zero() })
            }
        },
        _ => location,
    }
}

/// Snaps a scroll to the major axis of movement, with vertical preferred over horizontal.
pub fn snap_to_major_axis(location: ScrollLocation) -> (axis: ScrollLocation)
    ensures
        axis == snapped(location),
{
    match location {
        ScrollLocation::Delta(delta) => {
            if delta.y.outweighs(delta.x) {
                ScrollLocation::Delta(Vector { x: Single::zero(), y: delta.y })
            } else {
                ScrollLocation::Delta(Vector { x: delta.x, y: Single::zero() })
            }
        },
        _ => location,
    }
}

} // verus!

//! What the keys do that no page took.

use super::Msg;
use crate::events::{
    BrowserId, ScrollLocation, TouchEventType, TraversalDirection, WebRenderDebugOption, WindowEvent,
};
use crate::geometry::Vector;
use crate::keys::{Key, KeyModifiers, KeyState};
use crate::messages::{Action, EmbedderMsg, PageDirection};
use crate::single::Single;
use crate::state::WindowView;
use vstd::prelude::*;

verus! {

/// The message of a key that was let go.
pub open spec fn let_go(
    from: Option<BrowserId>,
    ch: Option<char>,
    key: Key,
    modifiers: KeyModifiers,
) -> Msg {
    EmbedderMsg::KeyEvent(from, ch, key, KeyState::Released, modifiers)
}

/// Whether all that a message does is to add an event.
pub open spec fn only_adds(
    window: WindowView,
    msg: Msg,
    shortcuts: Option<bool>,
    event: WindowEvent<Seq<char>>,
) -> bool {
    &&& window.message(msg, shortcuts) == (WindowView {
        events: window.events.push(event),
        ..window
    })
    &&& window.message_action(msg, shortcuts) is None
}

/// Whether all that a message does is to ask for something to be done from outside.
pub open spec fn only_asks(
    window: WindowView,
    msg: Msg,
    shortcuts: Option<bool>,
    action: Action<Seq<char>>,
) -> bool {
    &&& window.message(msg, shortcuts) == window
    &&& window.message_action(msg, shortcuts) == Some(action)
}

/// Whether a message does nothing.
pub open spec fn does_nothing(window: WindowView, msg: Msg, shortcuts: Option<bool>) -> bool {
    &&& window.message(msg, shortcuts) == window
    &&& window.message_action(msg, shortcuts) is None
}

/// The keys with brackets, with exactly the modifier of the platform, go back and forward by one
/// page, whether they come without a character or with one that has no meaning of its own, and
/// whether or not the built-in shortcuts are enabled.
pub proof fn brackets_go_back_and_forward(
    window: WindowView,
    from: Option<BrowserId>,
    id: BrowserId,
    ch: Option<char>,
    shortcuts: Option<bool>,
)
    requires
        window.browser_id == Some(id),
        ch matches Some(c) ==> c != '+' && c != '-' && c != '0' && c != '3' && c != 'r' && c != 'l'
            && c != 'q',
    ensures
        ({
            let cmd = window.platform.cmd_or_control;
            &&& only_adds(
                window,
                let_go(from, ch, Key::LeftBracket, cmd),
                shortcuts,
                WindowEvent::Navigation(id, TraversalDirection::Back(1)),
            )
            &&& only_adds(
                window,
                let_go(from, ch, Key::RightBracket, cmd),
                shortcuts,
                WindowEvent::Navigation(id, TraversalDirection::Forward(1)),
            )
        }),
{
}

/// The keys for navigation, without a modifier, and the arrows to the sides, with the modifier of
/// the platform, go back and forward by one page.
pub proof fn navigation_keys_go_back_and_forward(
    window: WindowView,
    from: Option<BrowserId>,
    id: BrowserId,
    shortcuts: Option<bool>,
)
    requires
        window.browser_id == Some(id),
    ensures
        ({
            let none = KeyModifiers { shift: false, control: false, alt: false, logo: false };
            let alt = window.platform.cmd_or_alt;
            let back = WindowEvent::Navigation(id, TraversalDirection::Back(1));
            let forward = WindowEvent::Navigation(id, TraversalDirection::Forward(1));
            &&& only_adds(window, let_go(from, None, Key::NavigateBackward, none), shortcuts, back)
            &&& only_adds(
                window,
                let_go(from, None, Key::NavigateForward, none),
                shortcuts,
                forward,
            )
            &&& only_adds(window, let_go(from, None, Key::Left, alt), shortcuts, back)
            &&& only_adds(window, let_go(from, None, Key::Right, alt), shortcuts, forward)
        }),
{
}

/// Plus zooms in by 1.1, and by pinching if Alt is held as well, whether or not Shift is held, which
/// may be needed to type it. It does nothing with other modifiers.
pub proof fn plus_zooms_in(
    window: WindowView,
    from: Option<BrowserId>,
    key: Key,
    modifiers: KeyModifiers,
    shortcuts: Option<bool>,
)
    requires
        window.browser_id is Some,
    ensures
        ({
            let cmd = window.platform.cmd_or_control;
            let msg = let_go(from, Some('+'), key, modifiers);
            let factor = Single { bits: 0x3f8c_cccd };
            let without_shift = KeyModifiers { shift: false, ..modifiers };
            if without_shift == cmd {
                only_adds(window, msg, shortcuts, WindowEvent::Zoom(factor))
            } else if without_shift == (KeyModifiers { alt: true, ..cmd }) {
                only_adds(window, msg, shortcuts, WindowEvent::PinchZoom(factor))
            } else {
                does_nothing(window, msg, shortcuts)
            }
        }),
{
}

/// Minus with exactly the modifier of the platform zooms out by 1.1, and by pinching if Alt is held
/// as well. Zero with that modifier takes the zoom back.
pub proof fn minus_zooms_out(
    window: WindowView,
    from: Option<BrowserId>,
    key: Key,
    shortcuts: Option<bool>,
)
    requires
        window.browser_id is Some,
    ensures
        ({
            let cmd = window.platform.cmd_or_control;
            let cmd_alt = KeyModifiers { alt: true, ..cmd };
            let factor = Single { bits: 0x3f68_ba2e };
            &&& only_adds(
                window,
                let_go(from, Some('-'), key, cmd),
                shortcuts,
                WindowEvent::Zoom(factor),
            )
            &&& cmd != cmd_alt ==> only_adds(
                window,
                let_go(from, Some('-'), key, cmd_alt),
                shortcuts,
                WindowEvent::PinchZoom(factor),
            )
            &&& only_adds(
                window,
                let_go(from, Some('0'), key, cmd),
                shortcuts,
                WindowEvent::ResetZoom,
            )
        }),
{
}

/// If the built-in shortcuts are enabled, Escape without a modifier quits, and with the modifier of
/// the platform `q` quits, `r` reloads the page and `l` asks for a URL, starting from the current
/// one. If they are not, none of this does anything.
pub proof fn builtin_shortcuts_can_be_enabled(
    window: WindowView,
    from: Option<BrowserId>,
    id: BrowserId,
    key: Key,
    shortcuts: Option<bool>,
)
    requires
        window.browser_id == Some(id),
    ensures
        ({
            let none = KeyModifiers { shift: false, control: false, alt: false, logo: false };
            let cmd = window.platform.cmd_or_control;
            let escape = let_go(from, None, Key::Escape, none);
            let quit = let_go(from, Some('q'), key, cmd);
            let reload = let_go(from, Some('r'), key, cmd);
            let prompt = let_go(from, Some('l'), key, cmd);
            let text = match window.current_url {
                Some(url) => url,
                None => seq![],
            };
            if shortcuts == Some(true) {
                &&& only_adds(window, escape, shortcuts, WindowEvent::Quit)
                &&& only_adds(window, quit, shortcuts, WindowEvent::Quit)
                &&& only_adds(window, reload, shortcuts, WindowEvent::Reload(id))
                &&& only_asks(window, prompt, shortcuts, Action::PromptForUrl(id, text))
            } else {
                &&& does_nothing(window, escape, shortcuts)
                &&& does_nothing(window, quit, shortcuts)
                &&& does_nothing(window, reload, shortcuts)
                &&& does_nothing(window, prompt, shortcuts)
            }
        }),
{
}

/// The arrows, without a modifier, scroll at the place of the mouse: by three lines of 38 pixels up
/// and down, and by one to the sides, where a modifier of the platform gives the arrow no other
/// meaning. Home and End scroll to the ends.
pub proof fn arrows_scroll_by_lines(
    window: WindowView,
    from: Option<BrowserId>,
    shortcuts: Option<bool>,
)
    requires
        window.browser_id is Some,
    ensures
        ({
            let none = KeyModifiers { shift: false, control: false, alt: false, logo: false };
            let zero = Single { bits: 0 };
            let scroll = |location: ScrollLocation|
                WindowEvent::<Seq<char>>::Scroll(location, window.mouse_pos, TouchEventType::Move);
            let up = Vector { x: zero, y: Single { bits: 0x42e4_0000 } };
            let down = Vector { x: zero, y: Single { bits: 0xc2e4_0000 } };
            let left = Vector { x: Single { bits: 0x4218_0000 }, y: zero };
            let right = Vector { x: Single { bits: 0xc218_0000 }, y: zero };
            &&& only_adds(
                window,
                let_go(from, None, Key::Up, none),
                shortcuts,
                scroll(ScrollLocation::Delta(up)),
            )
            &&& only_adds(
                window,
                let_go(from, None, Key::Down, none),
                shortcuts,
                scroll(ScrollLocation::Delta(down)),
            )
            &&& window.platform.cmd_or_alt != none ==> only_adds(
                window,
                let_go(from, None, Key::Left, none),
                shortcuts,
                scroll(ScrollLocation::Delta(left)),
            )
            &&& window.platform.cmd_or_alt != none ==> only_adds(
                window,
                let_go(from, None, Key::Right, none),
                shortcuts,
                scroll(ScrollLocation::Delta(right)),
            )
            &&& only_adds(
                window,
                let_go(from, None, Key::Home, none),
                shortcuts,
                scroll(ScrollLocation::Start),
            )
            &&& only_adds(
                window,
                let_go(from, None, Key::End, none),
                shortcuts,
                scroll(ScrollLocation::End),
            )
        }),
{
    let zero = Single { bits: 0 };
    let lines = Single { bits: 0x42e4_0000 };
    let minus_lines = Single { bits: 0xc2e4_0000 };
    let line = Single { bits: 0x4218_0000 };
    let minus_line = Single { bits: 0xc218_0000 };
    crate::single::lemma_magnitude_is_ordered_as_bits(zero, lines);
    crate::single::lemma_magnitude_is_ordered_as_bits(zero, minus_lines);
    crate::single::lemma_magnitude_is_ordered_as_bits(line, zero);
    crate::single::lemma_magnitude_is_ordered_as_bits(minus_line, zero);
}

/// Page Down and Page Up, without a modifier, ask to scroll down and up by a page.
pub proof fn page_keys_ask_for_pages(
    window: WindowView,
    from: Option<BrowserId>,
    shortcuts: Option<bool>,
)
    requires
        window.browser_id is Some,
    ensures
        ({
            let none = KeyModifiers { shift: false, control: false, alt: false, logo: false };
            &&& only_asks(
                window,
                let_go(from, None, Key::PageDown, none),
                shortcuts,
                Action::ScrollPage(PageDirection::Down),
            )
            &&& only_asks(
                window,
                let_go(from, None, Key::PageUp, none),
                shortcuts,
                Action::ScrollPage(PageDirection::Up),
            )
        }),
{
}

/// To scroll by a page adds a vertical scroll at the place of the mouse: up by the distance given,
/// and down by the number with the other sign, where a zero has none.
pub proof fn pages_scroll_by_their_distance(window: WindowView, distance: Single)
    requires
        distance.bits % 0x8000_0000 <= 0x7f80_0000,
    ensures
        ({
            let turned = if distance.bits % 0x8000_0000 == 0 {
                0
            } else if distance.bits < 0x8000_0000 {
                distance.bits + 0x8000_0000
            } else {
                distance.bits - 0x8000_0000
            };
            let scroll = |y: Single|
                WindowEvent::<Seq<char>>::Scroll(
                    ScrollLocation::Delta(Vector { x: Single { bits: 0 }, y }),
                    window.mouse_pos,
                    TouchEventType::Move,
                );
            &&& window.scroll_page(PageDirection::Up, distance) == (WindowView {
                events: window.events.push(scroll(distance)),
                ..window
            })
            &&& window.scroll_page(PageDirection::Down, distance) == (WindowView {
                events: window.events.push(scroll(Single { bits: turned as u32 })),
                ..window
            })
        }),
{
    crate::single::lemma_magnitude_is_ordered_as_bits(Single::zero(), distance);
    crate::single::lemma_magnitude_is_ordered_as_bits(Single::zero(), distance.opposite());
    crate::single::lemma_opposites_cancel(distance);
}

/// With exactly Control, the keys F10 to F12 toggle the debugging aids of the renderer. With exactly
/// Control and Shift, `3` captures a frame, and it does nothing otherwise.
pub proof fn debugging_keys(
    window: WindowView,
    from: Option<BrowserId>,
    key: Key,
    modifiers: KeyModifiers,
    shortcuts: Option<bool>,
)
    requires
        window.browser_id is Some,
    ensures
        ({
            let control = KeyModifiers { shift: false, control: true, alt: false, logo: false };
            let three = let_go(from, Some('3'), key, modifiers);
            &&& only_adds(
                window,
                let_go(from, None, Key::F10, control),
                shortcuts,
                WindowEvent::ToggleWebRenderDebug(WebRenderDebugOption::RenderTargetDebug),
            )
            &&& only_adds(
                window,
                let_go(from, None, Key::F11, control),
                shortcuts,
                WindowEvent::ToggleWebRenderDebug(WebRenderDebugOption::TextureCacheDebug),
            )
            &&& only_adds(
                window,
                let_go(from, None, Key::F12, control),
                shortcuts,
                WindowEvent::ToggleWebRenderDebug(WebRenderDebugOption::Profiler),
            )
            &&& if modifiers == (KeyModifiers { shift: true, ..control }) {
                only_adds(window, three, shortcuts, WindowEvent::CaptureWebRender)
            } else {
                does_nothing(window, three, shortcuts)
            }
        }),
{
}

/// A key that types a character does nothing unless the character or a bracket has a meaning with
/// exactly the modifiers that are held.
pub proof fn other_characters_do_nothing(
    window: WindowView,
    from: Option<BrowserId>,
    ch: char,
    key: Key,
    modifiers: KeyModifiers,
    shortcuts: Option<bool>,
)
    requires
        window.browser_id is Some,
        ch != '+',
        ch != '3',
        ({
            let cmd = window.platform.cmd_or_control;
            &&& modifiers == cmd ==> ch != '-' && ch != '0' && ch != 'r' && ch != 'l' && ch != 'q'
                && key != Key::LeftBracket && key != Key::RightBracket
            &&& modifiers == (KeyModifiers { alt: true, ..cmd }) ==> ch != '-'
        }),
    ensures
        does_nothing(window, let_go(from, Some(ch), key, modifiers), shortcuts),
{
}

/// A key that types no character does nothing unless it has a meaning with exactly the modifiers
/// that are held.
pub proof fn other_keys_do_nothing(
    window: WindowView,
    from: Option<BrowserId>,
    key: Key,
    modifiers: KeyModifiers,
    shortcuts: Option<bool>,
)
    requires
        window.browser_id is Some,
        ({
            let none = KeyModifiers { shift: false, control: false, alt: false, logo: false };
            let control = KeyModifiers { control: true, ..none };
            &&& key == Key::LeftBracket || key == Key::RightBracket ==> modifiers
                != window.platform.cmd_or_control
            &&& key == Key::Left || key == Key::Right ==> modifiers != window.platform.cmd_or_alt
                && modifiers != none
            &&& key == Key::F10 || key == Key::F11 || key == Key::F12 ==> modifiers != control
            &&& key == Key::NavigateBackward || key == Key::NavigateForward || key == Key::Escape
                || key == Key::PageDown || key == Key::PageUp || key == Key::Home || key
                == Key::End || key == Key::Up || key == Key::Down ==> modifiers != none
        }),
    ensures
        does_nothing(window, let_go(from, None, key, modifiers), shortcuts),
{
}

} // verus!

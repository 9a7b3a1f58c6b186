//! What each input event does to the window, and what it leaves alone.

use super::after_inputs;
use crate::events::{
    InputEvent, MouseButton, MouseWindowEvent, ScrollLocation, TouchEventType, TouchId, TouchPhase,
    WindowEvent,
};
use crate::geometry::{FinePoint, Point, Vector};
use crate::keys::{ElementState, GlutinKeyModifiers, Key, KeyState, VirtualKeyCode};
use crate::single::Single;
use crate::state::WindowView;
use vstd::prelude::*;

verus! {

/// The mouse is where it moved last: the pixel that it moved to, until it moves again. Each
/// movement is reported as it was.
pub proof fn mouse_is_where_it_moved_last(window: WindowView, event: InputEvent)
    ensures
        event matches InputEvent::CursorMoved { pixel, position } ==> {
            &&& window.window_event(event).mouse_pos == pixel
            &&& window.window_event(event).events == window.events.push(
                WindowEvent::MouseWindowMoveEventClass(position),
            )
        },
        !(event is CursorMoved) ==> window.window_event(event).mouse_pos == window.mouse_pos,
{
}

/// Whatever else happens, the mouse stays where it is until it moves.
pub proof fn mouse_stays_until_it_moves(window: WindowView, inputs: Seq<InputEvent>)
    requires
        forall|i: int| 0 <= i < inputs.len() ==> !((#[trigger] inputs[i]) is CursorMoved),
    ensures
        after_inputs(window, inputs).mouse_pos == window.mouse_pos,
    decreases inputs.len(),
{
    if inputs.len() > 0 {
        let rest = inputs.drop_first();
        mouse_is_where_it_moved_last(window, inputs[0]);
        assert forall|i: int| 0 <= i < rest.len() implies !((#[trigger] rest[i]) is CursorMoved) by {
            assert(rest[i] == inputs[i + 1]);
        }
        mouse_stays_until_it_moves(window.window_event(inputs[0]), rest);
    }
}

/// The wheel scrolls at the place of the mouse: after the mouse moved to a pixel, and until it
/// moves again, each wheel movement adds one scroll, at that pixel and of the stage of the
/// movement. It goes along the axis of the larger distance, which it keeps as it is, and along the
/// vertical one if they are equal. Where one of the two is no number it keeps the horizontal one.
pub proof fn wheel_scrolls_at_the_mouse(
    window: WindowView,
    pixel: Point,
    position: FinePoint,
    between: Seq<InputEvent>,
    delta: Vector,
    phase: TouchPhase,
)
    requires
        forall|i: int| 0 <= i < between.len() ==> !((#[trigger] between[i]) is CursorMoved),
    ensures
        ({
            let moved = window.window_event(InputEvent::CursorMoved { pixel, position });
            let before = after_inputs(moved, between);
            let after = before.window_event(InputEvent::MouseWheel { delta, phase });
            let x = delta.x.bits % 0x8000_0000;
            let y = delta.y.bits % 0x8000_0000;
            let kept = if x <= 0x7f80_0000 && y <= 0x7f80_0000 && y >= x {
                Vector { x: Single { bits: 0 }, y: delta.y }
            } else {
                Vector { x: delta.x, y: Single { bits: 0 } }
            };
            let kind = match phase {
                TouchPhase::Started => TouchEventType::Down,
                TouchPhase::Moved => TouchEventType::Move,
                TouchPhase::Ended => TouchEventType::Up,
                TouchPhase::Cancelled => TouchEventType::Cancel,
            };
            after == (WindowView {
                events: before.events.push(
                    WindowEvent::Scroll(ScrollLocation::Delta(kept), pixel, kind),
                ),
                ..before
            })
        }),
{
    let moved = window.window_event(InputEvent::CursorMoved { pixel, position });
    mouse_stays_until_it_moves(moved, between);
    crate::single::lemma_magnitude_is_ordered_as_bits(delta.x, delta.y);
}

/// A modifier is turned over by its own key, each time that goes down or up, and by nothing else.
pub proof fn modifier_is_turned_by_its_own_key(window: WindowView, event: InputEvent)
    ensures
        ({
            let before = window.key_modifiers;
            let after = window.window_event(event).key_modifiers;
            let turns = |code: VirtualKeyCode|
                event matches InputEvent::KeyboardInput { state: _, code: c, key: _, printable: _ }
                    && c == code;
            &&& after.left_control == (before.left_control != turns(VirtualKeyCode::LControl))
            &&& after.right_control == (before.right_control != turns(VirtualKeyCode::RControl))
            &&& after.left_shift == (before.left_shift != turns(VirtualKeyCode::LShift))
            &&& after.right_shift == (before.right_shift != turns(VirtualKeyCode::RShift))
            &&& after.left_alt == (before.left_alt != turns(VirtualKeyCode::LAlt))
            &&& after.right_alt == (before.right_alt != turns(VirtualKeyCode::RAlt))
            &&& after.left_super == (before.left_super != turns(VirtualKeyCode::LWin))
            &&& after.right_super == (before.right_super != turns(VirtualKeyCode::RWin))
        }),
{
}

/// How often a key went down or up.
pub open spec fn strokes(inputs: Seq<InputEvent>, code: VirtualKeyCode) -> nat
    decreases inputs.len(),
{
    if inputs.len() == 0 {
        0
    } else {
        let rest = strokes(inputs.drop_first(), code);
        match inputs[0] {
            InputEvent::KeyboardInput { state: _, code: c, key: _, printable: _ } if c == code => 1
                + rest,
            _ => rest,
        }
    }
}

/// Whether a modifier that was up or down before is down after some strokes of its key.
pub open spec fn is_down(before: bool, strokes: nat) -> bool {
    before != (strokes % 2 == 1)
}

/// After any inputs, a modifier is held exactly if its own key is down, whatever else happened in
/// between.
pub proof fn modifiers_follow_their_keys(window: WindowView, inputs: Seq<InputEvent>)
    ensures
        ({
            let before = window.key_modifiers;
            let held = after_inputs(window, inputs).key_modifiers;
            &&& held.left_control == is_down(
                before.left_control,
                strokes(inputs, VirtualKeyCode::LControl),
            )
            &&& held.right_control == is_down(
                before.right_control,
                strokes(inputs, VirtualKeyCode::RControl),
            )
            &&& held.left_shift == is_down(
                before.left_shift,
                strokes(inputs, VirtualKeyCode::LShift),
            )
            &&& held.right_shift == is_down(
                before.right_shift,
                strokes(inputs, VirtualKeyCode::RShift),
            )
            &&& held.left_alt == is_down(before.left_alt, strokes(inputs, VirtualKeyCode::LAlt))
            &&& held.right_alt == is_down(before.right_alt, strokes(inputs, VirtualKeyCode::RAlt))
            &&& held.left_super == is_down(before.left_super, strokes(inputs, VirtualKeyCode::LWin))
            &&& held.right_super == is_down(
                before.right_super,
                strokes(inputs, VirtualKeyCode::RWin),
            )
        }),
    decreases inputs.len(),
{
    if inputs.len() > 0 {
        modifier_is_turned_by_its_own_key(window, inputs[0]);
        modifiers_follow_their_keys(window.window_event(inputs[0]), inputs.drop_first());
    }
}

/// A key that pages know is reported to them when it goes down and when it goes up, with each
/// modifier that is held on either side then, its own included, whatever else is held. A key that
/// they do not know is not reported.
pub proof fn keys_are_reported_with_all_held_modifiers(
    window: WindowView,
    state: ElementState,
    code: VirtualKeyCode,
    key: Option<Key>,
    printable: bool,
)
    ensures
        ({
            let after = window.window_event(
                InputEvent::KeyboardInput { state, code, key, printable },
            );
            let held = after.key_modifiers;
            match key {
                Some(key) => {
                    &&& after.events.len() == window.events.len() + 1
                    &&& after.events.drop_last() == window.events
                    &&& after.events.last() matches WindowEvent::KeyEvent(ch, k, s, seen) && {
                        &&& ch is None
                        &&& k == key
                        &&& s == KeyState::Pressed <==> state == ElementState::Pressed
                        &&& seen.control == (held.left_control || held.right_control)
                        &&& seen.shift == (held.left_shift || held.right_shift)
                        &&& seen.alt == (held.left_alt || held.right_alt)
                        &&& seen.logo == (held.left_super || held.right_super)
                    }
                },
                None => after.events == window.events,
            }
        }),
{
    let after = window.window_event(InputEvent::KeyboardInput { state, code, key, printable });
    if key is Some {
        assert(after.events.drop_last() =~= window.events);
    }
}

/// After any inputs, a key is reported with Control exactly if one of the keys for it is down, and
/// likewise with Shift, with Alt and with the logo key.
pub proof fn reported_modifiers_follow_their_keys(
    window: WindowView,
    inputs: Seq<InputEvent>,
    state: ElementState,
    code: VirtualKeyCode,
    key: Key,
    printable: bool,
)
    ensures
        ({
            let stroke = InputEvent::KeyboardInput { state, code, key: Some(key), printable };
            let all = inputs.push(stroke);
            let was = window.key_modifiers;
            after_inputs(window, all).events.last() matches WindowEvent::KeyEvent(_, _, _, seen) && {
                &&& seen.control == (is_down(
                    was.left_control,
                    strokes(all, VirtualKeyCode::LControl),
                ) || is_down(was.right_control, strokes(all, VirtualKeyCode::RControl)))
                &&& seen.shift == (is_down(was.left_shift, strokes(all, VirtualKeyCode::LShift))
                    || is_down(was.right_shift, strokes(all, VirtualKeyCode::RShift)))
                &&& seen.alt == (is_down(was.left_alt, strokes(all, VirtualKeyCode::LAlt))
                    || is_down(was.right_alt, strokes(all, VirtualKeyCode::RAlt)))
                &&& seen.logo == (is_down(was.left_super, strokes(all, VirtualKeyCode::LWin))
                    || is_down(was.right_super, strokes(all, VirtualKeyCode::RWin)))
            }
        }),
{
    let stroke = InputEvent::KeyboardInput { state, code, key: Some(key), printable };
    let all = inputs.push(stroke);
    let before = after_inputs(window, inputs);
    super::inputs_can_come_in_parts(window, inputs, seq![stroke]);
    assert(inputs + seq![stroke] =~= all);
    assert(seq![stroke].drop_first() =~= Seq::<InputEvent>::empty());
    reveal_with_fuel(after_inputs, 2);
    assert(after_inputs(before, seq![stroke]) == before.window_event(stroke));
    keys_are_reported_with_all_held_modifiers(before, state, code, Some(key), printable);
    modifiers_follow_their_keys(window, all);
}

/// A key waits for its character from when it goes down, if it types one, until a character comes
/// that is not left out. Nothing else makes a key wait, nor stops it from waiting.
pub proof fn keys_wait_for_their_characters(window: WindowView, event: InputEvent)
    ensures
        ({
            let after = window.window_event(event).last_pressed_key;
            match event {
                InputEvent::KeyboardInput {
                    state: ElementState::Pressed,
                    code: _,
                    key: Some(key),
                    printable: true,
                } => after == Some(key),
                InputEvent::ReceivedCharacter { ch: _, ignorable: false, key: _ } => after is None,
                _ => after == window.last_pressed_key,
            }
        }),
{
}

/// A character is reported as a key that goes down, with each modifier that is held: as the key
/// that waits for it, or else, if it is no control character, as the one that usually types it.
/// No other character is reported.
pub proof fn characters_are_reported_with_their_keys(
    window: WindowView,
    ch: char,
    ignorable: bool,
    key: Option<Key>,
)
    ensures
        ({
            let after = window.window_event(InputEvent::ReceivedCharacter { ch, ignorable, key });
            let held = window.key_modifiers;
            let is_control = ch as u32 <= 0x1f || 0x7f <= ch as u32 <= 0x9f;
            let typed_by = if window.last_pressed_key is Some {
                window.last_pressed_key
            } else if is_control {
                None
            } else {
                key
            };
            &&& ignorable ==> after == window
            &&& !ignorable && typed_by is None ==> after.events == window.events
            &&& !ignorable && typed_by is Some ==> {
                &&& after.events.len() == window.events.len() + 1
                &&& after.events.drop_last() == window.events
                &&& after.events.last() matches WindowEvent::KeyEvent(c, k, s, seen) && {
                    &&& c == Some(ch)
                    &&& Some(k) == typed_by
                    &&& s == KeyState::Pressed
                    &&& seen.control == (held.left_control || held.right_control)
                    &&& seen.shift == (held.left_shift || held.right_shift)
                    &&& seen.alt == (held.left_alt || held.right_alt)
                    &&& seen.logo == (held.left_super || held.right_super)
                }
            }
        }),
{
    let after = window.window_event(InputEvent::ReceivedCharacter { ch, ignorable, key });
    if after.events.len() > window.events.len() {
        assert(after.events.drop_last() =~= window.events);
    }
}

/// A left or right button that goes down is noted with the place of the mouse, and reported there.
/// Nothing else is noted as the button that is down.
pub proof fn button_is_noted_where_it_goes_down(window: WindowView, event: InputEvent)
    ensures
        ({
            let after = window.window_event(event);
            match event {
                InputEvent::MouseInput { state: ElementState::Pressed, button, click_limit: _ } if {
                    button == MouseButton::Left || button == MouseButton::Right
                } => after == (WindowView {
                    mouse_down_button: Some(button),
                    mouse_down_point: window.mouse_pos,
                    events: window.events.push(
                        WindowEvent::MouseWindowEventClass(
                            MouseWindowEvent::MouseDown(MouseButton::Left, window.mouse_pos),
                        ),
                    ),
                    ..window
                }),
                _ => {
                    &&& after.mouse_down_button == window.mouse_down_button
                    &&& after.mouse_down_point == window.mouse_down_point
                },
            }
        }),
{
}

/// A left or right button that goes up is reported at the place of the mouse. A click follows
/// there exactly if the same button went down last, and the square of the distance in between is
/// below the limit.
pub proof fn button_that_goes_up_may_click(
    window: WindowView,
    button: MouseButton,
    click_limit: u64,
)
    requires
        button == MouseButton::Left || button == MouseButton::Right,
    ensures
        ({
            let after = window.window_event(
                InputEvent::MouseInput { state: ElementState::Released, button, click_limit },
            );
            let at = window.mouse_pos;
            let dx = window.mouse_down_point.x - at.x;
            let dy = window.mouse_down_point.y - at.y;
            let is_click = window.mouse_down_button == Some(button) && dx * dx + dy * dy
                < click_limit;
            let up = window.events.push(
                WindowEvent::MouseWindowEventClass(
                    MouseWindowEvent::MouseUp(MouseButton::Left, at),
                ),
            );
            let click = WindowEvent::MouseWindowEventClass(
                MouseWindowEvent::Click(MouseButton::Left, at),
            );
            after == (WindowView {
                events: if is_click {
                    up.push(click)
                } else {
                    up
                },
                ..window
            })
        }),
{
}

/// No other button does anything.
pub proof fn further_buttons_do_nothing(
    window: WindowView,
    state: ElementState,
    button: MouseButton,
    click_limit: u64,
)
    requires
        button != MouseButton::Left,
        button != MouseButton::Right,
    ensures
        window.window_event(InputEvent::MouseInput { state, button, click_limit }) == window,
{
}

/// A button that goes down at one place and up at another gives a press at the first and a release
/// at the second, and a click at the second if they are near enough, however the mouse got there.
pub proof fn click_is_where_the_mouse_is(
    window: WindowView,
    button: MouseButton,
    down_limit: u64,
    pixel: Point,
    position: FinePoint,
    click_limit: u64,
)
    requires
        button == MouseButton::Left || button == MouseButton::Right,
    ensures
        ({
            let pressed = window.window_event(
                InputEvent::MouseInput {
                    state: ElementState::Pressed,
                    button,
                    click_limit: down_limit,
                },
            );
            let moved = pressed.window_event(InputEvent::CursorMoved { pixel, position });
            let released = moved.window_event(
                InputEvent::MouseInput { state: ElementState::Released, button, click_limit },
            );
            let from = window.mouse_pos;
            let (dx, dy) = (from.x - pixel.x, from.y - pixel.y);
            let start = window.events.push(
                WindowEvent::MouseWindowEventClass(
                    MouseWindowEvent::MouseDown(MouseButton::Left, from),
                ),
            ).push(WindowEvent::MouseWindowMoveEventClass(position)).push(
                WindowEvent::MouseWindowEventClass(
                    MouseWindowEvent::MouseUp(MouseButton::Left, pixel),
                ),
            );
            released.events == if dx * dx + dy * dy < click_limit {
                start.push(
                    WindowEvent::MouseWindowEventClass(
                        MouseWindowEvent::Click(MouseButton::Left, pixel),
                    ),
                )
            } else {
                start
            }
        }),
{
}

/// A touch is reported where it is, at the stage that it is in, and by a number of 32 bits that
/// differs from its own by a multiple of 2 to the power 32. Nothing else changes.
pub proof fn touches_are_reported(
    window: WindowView,
    phase: TouchPhase,
    id: u64,
    location: FinePoint,
)
    ensures
        ({
            let after = window.window_event(InputEvent::Touch { phase, id, location });
            let kind = match phase {
                TouchPhase::Started => TouchEventType::Down,
                TouchPhase::Moved => TouchEventType::Move,
                TouchPhase::Ended => TouchEventType::Up,
                TouchPhase::Cancelled => TouchEventType::Cancel,
            };
            &&& after == (WindowView { events: after.events, ..window })
            &&& after.events.len() == window.events.len() + 1
            &&& after.events.drop_last() == window.events
            &&& after.events.last() matches WindowEvent::Touch(k, TouchId(number), at) && {
                &&& k == kind
                &&& at == location
                &&& (id - number) % 0x1_0000_0000 == 0
            }
        }),
{
    let after = window.window_event(InputEvent::Touch { phase, id, location });
    assert(after.events.drop_last() =~= window.events);
}

/// A new size is noted, and reported once. The surface of a native window is given it, and there
/// is none in a headless window.
pub proof fn new_sizes_are_noted(window: WindowView, event: InputEvent)
    ensures
        event matches InputEvent::Resized { surface, inner } ==> {
            &&& window.window_event(event) == (WindowView {
                inner_size: inner,
                events: if window.inner_size == inner {
                    window.events
                } else {
                    window.events.push(WindowEvent::Resize)
                },
                ..window
            })
            &&& window.surface_size(event) == if window.headless is None {
                Some(surface)
            } else {
                None
            }
        },
        !(event is Resized) ==> {
            &&& window.window_event(event).inner_size == window.inner_size
            &&& window.surface_size(event) is None
        },
{
    if let InputEvent::Resized { surface, inner } = event {
        assert(window.window_event(event).inner_size == inner);
    }
}

/// The application is suspended or not as it was told last. To resume it is reported.
pub proof fn suspension_is_noted(window: WindowView, event: InputEvent)
    ensures
        event matches InputEvent::Suspended(suspended) ==> window.window_event(event) == (
        WindowView {
            suspended,
            events: if suspended {
                window.events
            } else {
                window.events.push(WindowEvent::Idle)
            },
            ..window
        }),
        !(event is Suspended) ==> window.window_event(event).suspended == window.suspended,
{
}

/// A window that is asked to close wants to quit, one that has to be painted again asks for it, and
/// one that is woken up has the browser engine look for work. None of this changes the window.
pub proof fn requests_of_the_system_are_passed_on(window: WindowView)
    ensures
        window.window_event(InputEvent::Closed) == (WindowView {
            events: window.events.push(WindowEvent::Quit),
            ..window
        }),
        window.window_event(InputEvent::Refresh) == (WindowView {
            events: window.events.push(WindowEvent::Refresh),
            ..window
        }),
        window.window_event(InputEvent::Awakened) == (WindowView {
            events: window.events.push(WindowEvent::Idle),
            ..window
        }),
        window.window_event(InputEvent::Other) == window,
{
}

/// No input changes what the window draws to, what it is made with, what it shows or the state of
/// the browser engine.
pub proof fn input_leaves_the_rest_alone(window: WindowView, event: InputEvent)
    ensures
        ({
            let after = window.window_event(event);
            &&& after.headless == window.headless
            &&& after.pixels == window.pixels
            &&& after.no_native_titlebar == window.no_native_titlebar
            &&& after.platform == window.platform
            &&& after.screen_size == window.screen_size
            &&& after.browser_id == window.browser_id
            &&& after.current_url == window.current_url
            &&& after.animation_state == window.animation_state
            &&& after.fullscreen == window.fullscreen
        }),
{
}

/// Nothing is held, and the corner is at zero, when nothing has happened yet.
pub proof fn nothing_is_held_at_first()
    ensures
        ({
            let none = GlutinKeyModifiers::empty();
            &&& !none.left_control && !none.right_control && !none.left_shift && !none.right_shift
            &&& !none.left_alt && !none.right_alt && !none.left_super && !none.right_super
        }),
        Point::zero().x == 0 && Point::zero().y == 0,
        Single::zero().bits == 0,
{
}

} // verus!

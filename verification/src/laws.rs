//! What holds of windows whatever happens to them.

use crate::cursor::{mouse_cursor, CursorKind};
use crate::events::{
    BrowserId, InputEvent, MouseButton, MouseWindowEvent, ScrollLocation, TouchEventType, TouchId,
    WindowEvent,
};
use crate::geometry::{Point, Size, Vector};
use crate::keys::{
    ElementState, GlutinKeyModifiers, Key, KeyModifiers, KeyState, PlatformModifiers,
    VirtualKeyCode,
};
use crate::messages::{Action, EmbedderMsg, PageDirection};
use crate::run::{RunAction, RunPhase};
use crate::shortcuts::{key_command, KeyCommand};
use crate::single::Single;
use crate::state::WindowView;
use vstd::prelude::*;

pub mod addresses;
pub mod input;
pub mod pages;
pub mod shortcuts;
pub mod turns;

verus! {

/// The messages as contracts speak of them.
pub type Msg = EmbedderMsg<Seq<char>, Seq<Seq<char>>>;

/// An input event takes no event out of the queue and changes none: it adds at most two.
pub proof fn input_only_adds_events(window: WindowView, event: InputEvent)
    ensures
        window.events.is_prefix_of(window.window_event(event).events),
        window.window_event(event).events.len() <= window.events.len() + 2,
{
}

/// A message takes no event out of the queue and changes none: it adds at most one, and none if
/// it asks a question.
pub proof fn message_only_adds_events(window: WindowView, msg: Msg, shortcuts: Option<bool>)
    ensures
        window.events.is_prefix_of(window.message(msg, shortcuts).events),
        window.message(msg, shortcuts).events.len() <= window.events.len() + 1,
        window.message_action(msg, shortcuts) matches Some(action) && action.spec_is_question()
            ==> window.message(msg, shortcuts) == window,
{
}

/// What comes of a sequence of input events.
pub open spec fn after_inputs(window: WindowView, inputs: Seq<InputEvent>) -> WindowView
    decreases inputs.len(),
{
    if inputs.len() == 0 {
        window
    } else {
        after_inputs(window.window_event(inputs[0]), inputs.drop_first())
    }
}

/// The same window with other events in its queue.
pub open spec fn with_events(
    window: WindowView,
    events: Seq<WindowEvent<Seq<char>>>,
) -> WindowView {
    WindowView { events, ..window }
}

/// What an input event does depends on no event in the queue.
pub proof fn input_ignores_the_queue(
    window: WindowView,
    event: InputEvent,
    queue: Seq<WindowEvent<Seq<char>>>,
)
    ensures
        with_events(window, queue).window_event(event) == with_events(
            window.window_event(event),
            queue + window.window_event(event).events.skip(window.events.len() as int),
        ),
{
    match event {
        InputEvent::ReceivedCharacter { ch, ignorable, key } => {
            lemma_character_ignores_the_queue(window, ch, ignorable, key, queue);
        },
        InputEvent::KeyboardInput { state, code, key, printable } => {
            lemma_key_ignores_the_queue(window, state, code, key, printable, queue);
        },
        InputEvent::MouseInput { state, button, click_limit } => {
            lemma_mouse_ignores_the_queue(window, button, state, click_limit, queue);
            lemma_nothing_added(window, queue);
        },
        _ => {
            lemma_nothing_added(window, queue);
            lemma_other_input_ignores_the_queue(window, event, queue);
        },
    }
}

proof fn lemma_nothing_added(window: WindowView, queue: Seq<WindowEvent<Seq<char>>>)
    ensures
        with_events(window, queue) == with_events(
            window,
            queue + window.events.skip(window.events.len() as int),
        ),
{
    assert(queue + window.events.skip(window.events.len() as int) =~= queue);
}

proof fn lemma_one_added(
    window: WindowView,
    event: WindowEvent<Seq<char>>,
    queue: Seq<WindowEvent<Seq<char>>>,
)
    ensures
        queue.push(event) == queue + window.events.push(event).skip(window.events.len() as int),
{
    assert(queue.push(event) =~= queue + window.events.push(event).skip(
        window.events.len() as int,
    ));
}

proof fn lemma_push_ignores_the_queue(
    window: WindowView,
    event: WindowEvent<Seq<char>>,
    queue: Seq<WindowEvent<Seq<char>>>,
)
    ensures
        with_events(window, queue).push(event) == with_events(
            window.push(event),
            queue + window.push(event).events.skip(window.events.len() as int),
        ),
{
    lemma_one_added(window, event, queue);
}

proof fn lemma_character_ignores_the_queue(
    window: WindowView,
    ch: char,
    ignorable: bool,
    key: Option<Key>,
    queue: Seq<WindowEvent<Seq<char>>>,
)
    ensures
        with_events(window, queue).received_character(ch, ignorable, key) == with_events(
            window.received_character(ch, ignorable, key),
            queue + window.received_character(ch, ignorable, key).events.skip(
                window.events.len() as int,
            ),
        ),
{
    if let Some(key) = window.key_of_character(ch, key) {
        lemma_one_added(
            window,
            WindowEvent::KeyEvent(Some(ch), key, KeyState::Pressed, window.modifiers()),
            queue,
        );
    }
    lemma_nothing_added(window, queue);
}

proof fn lemma_key_ignores_the_queue(
    window: WindowView,
    state: ElementState,
    code: VirtualKeyCode,
    key: Option<Key>,
    printable: bool,
    queue: Seq<WindowEvent<Seq<char>>>,
)
    ensures
        with_events(window, queue).keyboard_input(state, code, key, printable) == with_events(
            window.keyboard_input(state, code, key, printable),
            queue + window.keyboard_input(state, code, key, printable).events.skip(
                window.events.len() as int,
            ),
        ),
{
    let added = window.keyboard_input(state, code, key, printable).events.skip(
        window.events.len() as int,
    );
    assert(with_events(window, queue).keyboard_input(state, code, key, printable).events =~= queue
        + added);
}

proof fn lemma_mouse_ignores_the_queue(
    window: WindowView,
    button: MouseButton,
    action: ElementState,
    click_limit: u64,
    queue: Seq<WindowEvent<Seq<char>>>,
)
    ensures
        with_events(window, queue).handle_mouse(button, action, window.mouse_pos, click_limit)
            == with_events(
            window.handle_mouse(button, action, window.mouse_pos, click_limit),
            queue + window.handle_mouse(
                button,
                action,
                window.mouse_pos,
                click_limit,
            ).events.skip(window.events.len() as int),
        ),
{
    let added = window.handle_mouse(button, action, window.mouse_pos, click_limit).events.skip(
        window.events.len() as int,
    );
    assert(with_events(window, queue).handle_mouse(
        button,
        action,
        window.mouse_pos,
        click_limit,
    ).events =~= queue + added);
}

proof fn lemma_other_input_ignores_the_queue(
    window: WindowView,
    event: InputEvent,
    queue: Seq<WindowEvent<Seq<char>>>,
)
    requires
        !(event is ReceivedCharacter || event is KeyboardInput || event is MouseInput),
    ensures
        with_events(window, queue).window_event(event) == with_events(
            window.window_event(event),
            queue + window.window_event(event).events.skip(window.events.len() as int),
        ),
{
    match event {
        InputEvent::CursorMoved { pixel, position } => {
            let base = WindowView { mouse_pos: pixel, ..window };
            lemma_push_ignores_the_queue(
                base,
                WindowEvent::MouseWindowMoveEventClass(position),
                queue,
            );
        },
        InputEvent::MouseWheel { delta, phase } => {
            let event = WindowEvent::Scroll(
                crate::events::snapped(ScrollLocation::Delta(delta)),
                window.mouse_pos,
                crate::events::glutin_phase_to_touch_event_type(phase),
            );
            lemma_push_ignores_the_queue(window, event, queue);
        },
        InputEvent::Touch { phase, id, location } => {
            let event = WindowEvent::Touch(
                crate::events::glutin_phase_to_touch_event_type(phase),
                TouchId(crate::events::touch_number(id) as i32),
                location,
            );
            lemma_push_ignores_the_queue(window, event, queue);
        },
        InputEvent::Refresh => {
            lemma_push_ignores_the_queue(window, WindowEvent::Refresh, queue);
        },
        InputEvent::Closed => {
            lemma_push_ignores_the_queue(window, WindowEvent::Quit, queue);
        },
        InputEvent::Resized { surface: _, inner } => {
            lemma_nothing_added(window, queue);
            let base = WindowView { inner_size: inner, ..window };
            lemma_push_ignores_the_queue(base, WindowEvent::Resize, queue);
        },
        InputEvent::Suspended(suspended) => {
            let base = WindowView { suspended, ..window };
            lemma_nothing_added(base, queue);
            lemma_push_ignores_the_queue(base, WindowEvent::Idle, queue);
        },
        InputEvent::Awakened => {
            lemma_push_ignores_the_queue(window, WindowEvent::Idle, queue);
        },
        _ => {
            lemma_nothing_added(window, queue);
        },
    }
}

/// Input events take no event out of the queue and change none.
pub proof fn inputs_only_add_events(window: WindowView, inputs: Seq<InputEvent>)
    ensures
        window.events.is_prefix_of(after_inputs(window, inputs).events),
    decreases inputs.len(),
{
    if inputs.len() > 0 {
        let next = window.window_event(inputs[0]);
        input_only_adds_events(window, inputs[0]);
        inputs_only_add_events(next, inputs.drop_first());
        assert(next.events.is_prefix_of(after_inputs(next, inputs.drop_first()).events));
    }
}

/// What a sequence of input events does depends on no event in the queue.
pub proof fn inputs_ignore_the_queue(
    window: WindowView,
    inputs: Seq<InputEvent>,
    queue: Seq<WindowEvent<Seq<char>>>,
)
    ensures
        after_inputs(with_events(window, queue), inputs) == with_events(
            after_inputs(window, inputs),
            queue + after_inputs(window, inputs).events.skip(window.events.len() as int),
        ),
    decreases inputs.len(),
{
    let after = after_inputs(window, inputs);
    if inputs.len() == 0 {
        assert(queue + after.events.skip(window.events.len() as int) =~= queue);
    } else {
        let rest = inputs.drop_first();
        let next = window.window_event(inputs[0]);
        let added = next.events.skip(window.events.len() as int);
        input_only_adds_events(window, inputs[0]);
        input_ignores_the_queue(window, inputs[0], queue);
        inputs_only_add_events(next, rest);
        inputs_ignore_the_queue(next, rest, queue + added);
        assert((queue + added) + after.events.skip(next.events.len() as int) =~= queue
            + after.events.skip(window.events.len() as int));
    }
}

/// It makes no difference when the events are fetched: those that are fetched in between and
/// those that are left at the end are the events that would be there if none had been fetched.
pub proof fn fetching_loses_no_event(
    window: WindowView,
    before: Seq<InputEvent>,
    after: Seq<InputEvent>,
)
    ensures
        ({
            let halfway = after_inputs(window, before);
            let fetched = halfway.events;
            let left = after_inputs(with_events(halfway, seq![]), after);
            let unfetched = after_inputs(window, before + after);
            &&& fetched + left.events == unfetched.events
            &&& left == with_events(unfetched, left.events)
        }),
{
    let halfway = after_inputs(window, before);
    let unfetched = after_inputs(halfway, after);
    inputs_can_come_in_parts(window, before, after);
    inputs_only_add_events(halfway, after);
    inputs_ignore_the_queue(halfway, after, seq![]);
    let left = after_inputs(with_events(halfway, seq![]), after);
    assert(left.events =~= unfetched.events.skip(halfway.events.len() as int));
    assert(halfway.events + left.events =~= unfetched.events);
}

/// Input events that come in two parts do what they do together.
pub proof fn inputs_can_come_in_parts(
    window: WindowView,
    before: Seq<InputEvent>,
    after: Seq<InputEvent>,
)
    ensures
        after_inputs(window, before + after) == after_inputs(after_inputs(window, before), after),
    decreases before.len(),
{
    if before.len() == 0 {
        assert(before + after =~= after);
    } else {
        let next = window.window_event(before[0]);
        assert((before + after).drop_first() =~= before.drop_first() + after);
        inputs_can_come_in_parts(next, before.drop_first(), after);
    }
}

/// A scroll runs along one axis.
pub open spec fn is_axial(event: WindowEvent<Seq<char>>) -> bool {
    event matches WindowEvent::Scroll(ScrollLocation::Delta(delta), _, _) ==> delta.x
        == Single::zero() || delta.y == Single::zero()
}

/// Every scroll in the queue runs along one axis.
pub open spec fn scrolls_are_axial(window: WindowView) -> bool {
    forall|i: int| 0 <= i < window.events.len() ==> is_axial(#[trigger] window.events[i])
}

proof fn lemma_axial_events_keep_scrolls_axial(before: WindowView, after: WindowView)
    requires
        scrolls_are_axial(before),
        before.events.is_prefix_of(after.events),
        forall|i: int|
            before.events.len() <= i < after.events.len() ==> is_axial(#[trigger] after.events[i]),
    ensures
        scrolls_are_axial(after),
{
    assert forall|i: int| 0 <= i < after.events.len() implies is_axial(
        #[trigger] after.events[i],
    ) by {
        if i < before.events.len() {
            assert(after.events[i] == before.events[i]);
        }
    }
}

/// Whatever happens to the window, every scroll that it reports runs along one axis.
pub proof fn input_keeps_scrolls_axial(window: WindowView, event: InputEvent)
    requires
        scrolls_are_axial(window),
    ensures
        scrolls_are_axial(window.window_event(event)),
{
    lemma_axial_events_keep_scrolls_axial(window, window.window_event(event));
}

/// Whatever happens to the window one after another, every scroll that it reports runs along one
/// axis.
pub proof fn inputs_keep_scrolls_axial(window: WindowView, inputs: Seq<InputEvent>)
    requires
        scrolls_are_axial(window),
    ensures
        scrolls_are_axial(after_inputs(window, inputs)),
    decreases inputs.len(),
{
    if inputs.len() > 0 {
        input_keeps_scrolls_axial(window, inputs[0]);
        inputs_keep_scrolls_axial(window.window_event(inputs[0]), inputs.drop_first());
    }
}

/// Whatever the browser engine asks for, every scroll that the window reports runs along one
/// axis.
pub proof fn message_keeps_scrolls_axial(window: WindowView, msg: Msg, shortcuts: Option<bool>)
    requires
        scrolls_are_axial(window),
    ensures
        scrolls_are_axial(window.message(msg, shortcuts)),
{
    lemma_axial_events_keep_scrolls_axial(window, window.message(msg, shortcuts));
}

/// To page up or down keeps every scroll along one axis.
pub proof fn paging_keeps_scrolls_axial(
    window: WindowView,
    direction: PageDirection,
    distance: Single,
)
    requires
        scrolls_are_axial(window),
    ensures
        scrolls_are_axial(window.scroll_page(direction, distance)),
{
    lemma_axial_events_keep_scrolls_axial(window, window.scroll_page(direction, distance));
}

/// The event of a vertical scroll at the place of the mouse.
pub open spec fn vertical_scroll(window: WindowView, y: Single) -> WindowEvent<Seq<char>> {
    WindowEvent::Scroll(
        ScrollLocation::Delta(Vector { x: Single::zero(), y }),
        window.mouse_pos,
        TouchEventType::Move,
    )
}

/// The key Page Down and then the key Page Up, on a page of one height, give two vertical scrolls
/// at the place of the mouse, down and up by the same distance, which cancel.
pub proof fn page_down_and_page_up_cancel(
    window: WindowView,
    id: Option<BrowserId>,
    distance: Single,
    shortcuts: Option<bool>,
)
    requires
        window.browser_id is Some,
        !distance.is_nan(),
    ensures
        ({
            let none = KeyModifiers::none();
            let down: Msg = EmbedderMsg::KeyEvent(id, None, Key::PageDown, KeyState::Released, none);
            let up: Msg = EmbedderMsg::KeyEvent(id, None, Key::PageUp, KeyState::Released, none);
            let asked_down = window.message(down, shortcuts);
            let is_down = asked_down.scroll_page(PageDirection::Down, distance);
            let asked_up = is_down.message(up, shortcuts);
            &&& window.message_action(down, shortcuts) == Some(
                Action::<Seq<char>>::ScrollPage(PageDirection::Down),
            )
            &&& is_down.message_action(up, shortcuts) == Some(
                Action::<Seq<char>>::ScrollPage(PageDirection::Up),
            )
            &&& asked_up.scroll_page(PageDirection::Up, distance) == window.push(
                vertical_scroll(window, distance.opposite()),
            ).push(vertical_scroll(window, distance))
        }),
        distance.opposite().value() + distance.value() == 0,
{
    crate::single::lemma_opposites_cancel(distance);
    crate::single::lemma_zero_has_no_magnitude();
}

/// A scroll keeps the larger of its two distances as it is and drops the other one. It keeps the
/// vertical distance if they are equal.
pub proof fn scroll_keeps_the_major_axis(delta: Vector)
    requires
        !delta.x.is_nan(),
        !delta.y.is_nan(),
    ensures
        crate::events::snapped(ScrollLocation::Delta(delta)) matches ScrollLocation::Delta(kept)
            && {
            ||| kept.x == Single::zero() && kept.y == delta.y && delta.y.magnitude()
                >= delta.x.magnitude()
            ||| kept.y == Single::zero() && kept.x == delta.x && delta.x.magnitude()
                > delta.y.magnitude()
        },
{
}

/// To snap a scroll again changes nothing, but for the sign of a zero that came with no number.
pub proof fn snapping_is_idempotent(location: ScrollLocation)
    requires
        location matches ScrollLocation::Delta(delta) ==> !(delta.y.is_nan() && delta.x.bits
            == 0x8000_0000),
    ensures
        crate::events::snapped(crate::events::snapped(location)) == crate::events::snapped(
            location,
        ),
{
    if let ScrollLocation::Delta(delta) = location {
        let zero = Single::zero();
        crate::single::lemma_zero_has_no_magnitude();
        crate::single::lemma_magnitude_is_ordered_as_bits(delta.x, zero);
    }
}

/// To turn a set of modifiers over twice changes nothing.
pub proof fn toggling_twice_restores(modifiers: GlutinKeyModifiers, other: GlutinKeyModifiers)
    ensures
        modifiers.toggled(other).toggled(other) == modifiers,
{
}

/// When a key that was pressed is released, the modifiers are what they were before.
pub proof fn release_restores_modifiers(
    window: WindowView,
    code: VirtualKeyCode,
    key: Option<Key>,
    printable: bool,
)
    ensures
        window.keyboard_input(ElementState::Pressed, code, key, printable).keyboard_input(
            ElementState::Released,
            code,
            key,
            printable,
        ).key_modifiers == window.key_modifiers,
{
    toggling_twice_restores(window.key_modifiers, crate::keys::modifier_of(code));
}

/// A character that follows a key which types one is reported with that key, whatever key usually
/// types it, and the next character is not.
pub proof fn character_belongs_to_pressed_key(
    window: WindowView,
    code: VirtualKeyCode,
    key: Key,
    ch: char,
    char_key: Option<Key>,
)
    ensures
        ({
            let pressed = window.keyboard_input(ElementState::Pressed, code, Some(key), true);
            let typed = pressed.received_character(ch, false, char_key);
            let seen = pressed.modifiers();
            &&& typed.events == window.events.push(
                WindowEvent::KeyEvent(None, key, KeyState::Pressed, seen),
            ).push(WindowEvent::KeyEvent(Some(ch), key, KeyState::Pressed, seen))
            &&& typed.last_pressed_key is None
        }),
{
}

/// A control character that no key was pressed for is not reported.
pub proof fn control_characters_are_dropped(
    window: WindowView,
    ch: char,
    ignorable: bool,
    char_key: Option<Key>,
)
    requires
        crate::keys::is_control(ch),
        window.last_pressed_key is None,
    ensures
        window.received_character(ch, ignorable, char_key) == window,
{
}

/// The event of a mouse button at a point.
pub open spec fn mouse_event(event: MouseWindowEvent) -> WindowEvent<Seq<char>> {
    WindowEvent::MouseWindowEventClass(event)
}

/// A button that goes down and up again within the distance of a click gives a press, a release
/// and a click, in this order; beyond that distance it gives a press and a release.
pub proof fn press_and_release_click(
    window: WindowView,
    button: MouseButton,
    down: Point,
    up: Point,
    down_limit: u64,
    click_limit: u64,
)
    ensures
        ({
            let pressed = window.handle_mouse(button, ElementState::Pressed, down, down_limit);
            let released = pressed.handle_mouse(button, ElementState::Released, up, click_limit);
            let both = window.events.push(
                mouse_event(MouseWindowEvent::MouseDown(MouseButton::Left, down)),
            ).push(mouse_event(MouseWindowEvent::MouseUp(MouseButton::Left, up)));
            released.events == if down.distance_squared(up) < click_limit {
                both.push(mouse_event(MouseWindowEvent::Click(MouseButton::Left, up)))
            } else {
                both
            }
        }),
{
}

/// Another button that goes up gives no click.
pub proof fn other_button_does_not_click(
    window: WindowView,
    button: MouseButton,
    other: MouseButton,
    down: Point,
    up: Point,
    down_limit: u64,
    click_limit: u64,
)
    requires
        button != other,
    ensures
        ({
            let pressed = window.handle_mouse(button, ElementState::Pressed, down, down_limit);
            pressed.handle_mouse(other, ElementState::Released, up, click_limit) == pressed.push(
                mouse_event(MouseWindowEvent::MouseUp(MouseButton::Left, up)),
            )
        }),
{
}

/// A mouse event names the left button.
pub open spec fn names_left_button(event: WindowEvent<Seq<char>>) -> bool {
    event matches WindowEvent::MouseWindowEventClass(event) ==> match event {
        MouseWindowEvent::Click(button, _) => button == MouseButton::Left,
        MouseWindowEvent::MouseDown(button, _) => button == MouseButton::Left,
        MouseWindowEvent::MouseUp(button, _) => button == MouseButton::Left,
    }
}

/// Whichever button is used, pages see the left one.
pub proof fn pages_see_the_left_button(window: WindowView, event: InputEvent)
    requires
        forall|i: int|
            0 <= i < window.events.len() ==> names_left_button(#[trigger] window.events[i]),
    ensures
        forall|i: int|
            0 <= i < window.window_event(event).events.len() ==> names_left_button(
                #[trigger] window.window_event(event).events[i],
            ),
{
    let after = window.window_event(event);
    input_only_adds_events(window, event);
    assert forall|i: int| 0 <= i < after.events.len() implies names_left_button(
        #[trigger] after.events[i],
    ) by {
        if i < window.events.len() {
            assert(after.events[i] == window.events[i]);
        }
    }
}

/// Pages tell two touches apart unless their numbers differ by a multiple of 2 to the power 32.
pub proof fn touches_are_told_apart(a: u64, b: u64)
    ensures
        i32::MIN <= crate::events::touch_number(a) <= i32::MAX,
        crate::events::touch_number(a) == crate::events::touch_number(b) <==> a % 0x1_0000_0000
            == b % 0x1_0000_0000,
{
}

/// The buttons that can be held down are the left one and the right one.
pub open spec fn holds_left_or_right(window: WindowView) -> bool {
    window.mouse_down_button matches Some(button) ==> button == MouseButton::Left || button
        == MouseButton::Right
}

/// Whatever happens to the window, no other button than the left and the right one is noted.
pub proof fn only_left_and_right_are_held(window: WindowView, event: InputEvent)
    requires
        holds_left_or_right(window),
    ensures
        holds_left_or_right(window.window_event(event)),
        event matches InputEvent::MouseInput { state: _, button, click_limit: _ } && button
            != MouseButton::Left && button != MouseButton::Right ==> window.window_event(event)
            == window,
{
}

/// A window reports a new size once, however often it is told of it.
pub proof fn same_size_is_not_reported_again(
    window: WindowView,
    surface: Size,
    again: Size,
    inner: Size,
)
    ensures
        ({
            let resized = window.window_event(InputEvent::Resized { surface, inner });
            &&& resized.inner_size == inner
            &&& resized.window_event(InputEvent::Resized { surface: again, inner }) == resized
        }),
{
}

/// A key does something when it is released, not when it is pressed.
pub proof fn pressed_keys_do_nothing(
    window: WindowView,
    id: Option<BrowserId>,
    ch: Option<char>,
    key: Key,
    modifiers: KeyModifiers,
    shortcuts: Option<bool>,
)
    ensures
        ({
            let msg: Msg = EmbedderMsg::KeyEvent(id, ch, key, KeyState::Pressed, modifiers);
            &&& window.can_handle(msg)
            &&& window.message(msg, shortcuts) == window
            &&& window.message_action(msg, shortcuts) is None
        }),
{
}

/// Unless the built-in shortcuts are enabled, no key quits, reloads or asks for a URL.
pub proof fn disabled_shortcuts_do_nothing(
    platform: PlatformModifiers,
    shortcuts: Option<bool>,
    modifiers: KeyModifiers,
    ch: Option<char>,
    key: Key,
)
    requires
        shortcuts != Some(true),
    ensures
        ({
            let command = key_command(platform, shortcuts, modifiers, ch, key);
            command != KeyCommand::Quit && command != KeyCommand::Reload && command
                != KeyCommand::PromptForUrl
        }),
{
}

/// A headless window never has anything done to a native one.
pub proof fn headless_windows_touch_no_native_window(
    window: WindowView,
    msg: Msg,
    shortcuts: Option<bool>,
)
    requires
        window.headless is Some,
    ensures
        window.message_action(msg, shortcuts) matches Some(action) ==> action is Reply
            || action.spec_is_question(),
{
}

/// Every navigation is allowed.
pub proof fn navigation_is_always_allowed(window: WindowView, msg: Msg, shortcuts: Option<bool>)
    ensures
        msg matches EmbedderMsg::AllowNavigation(_, _, reply) ==> window.message_action(
            msg,
            shortcuts,
        ) == Some(Action::<Seq<char>>::Reply(reply, true)),
        window.message_action(msg, shortcuts) matches Some(Action::Reply(_, answer)) ==> answer,
{
}

/// After a history message, an untitled page goes by the URL of the current entry.
pub proof fn untitled_pages_go_by_their_url(
    window: WindowView,
    id: BrowserId,
    history: Seq<Seq<char>>,
    current: usize,
    shortcuts: Option<bool>,
)
    requires
        window.headless is None,
        current < history.len(),
    ensures
        ({
            let changed: Msg = EmbedderMsg::HistoryChanged(id, history, current);
            let untitled: Msg = EmbedderMsg::ChangePageTitle(id, None);
            window.message(changed, shortcuts).message_action(untitled, shortcuts) == Some(
                Action::SetTitle(history[current as int] + " - Servo"@),
            )
        }),
{
}

/// The window remembers its full screen state, and to ask for it again does nothing.
pub proof fn fullscreen_is_entered_once(
    window: WindowView,
    id: BrowserId,
    state: bool,
    shortcuts: Option<bool>,
)
    ensures
        ({
            let msg: Msg = EmbedderMsg::SetFullscreenState(id, state);
            let after = window.message(msg, shortcuts);
            &&& after.fullscreen == state
            &&& after.message(msg, shortcuts) == after
            &&& after.message_action(msg, shortcuts) is None
        }),
{
}

/// A native window without a title bar is shown when its page has loaded.
pub proof fn window_without_titlebar_is_shown_on_load(
    window: WindowView,
    id: BrowserId,
    shortcuts: Option<bool>,
)
    requires
        window.headless is None,
        window.no_native_titlebar,
    ensures
        ({
            let msg: Msg = EmbedderMsg::LoadComplete(id);
            window.message_action(msg, shortcuts) == Some(Action::<Seq<char>>::Show)
        }),
{
}

/// A window without a title bar is not shown before its page has loaded: it is created invisible,
/// it is not shown then, and no message before that shows it.
pub proof fn window_without_titlebar_is_hidden_until_load(
    window: WindowView,
    is_foreground: bool,
    msgs: Seq<Msg>,
    shortcuts: Option<bool>,
)
    requires
        window.no_native_titlebar,
        forall|i: int| 0 <= i < msgs.len() ==> !((#[trigger] msgs[i]) is LoadComplete),
    ensures
        !crate::plan::starts_visible(is_foreground, window.no_native_titlebar),
        !crate::plan::shown_when_created(window.no_native_titlebar),
        forall|i: int|
            0 <= i < crate::state::serve(window, msgs, shortcuts).actions.len() ==> !((
            #[trigger] crate::state::serve(window, msgs, shortcuts).actions[i]) is Show),
    decreases msgs.len(),
{
    if msgs.len() > 0 {
        let next = window.message(msgs[0], shortcuts);
        let rest = msgs.drop_first();
        assert forall|i: int| 0 <= i < rest.len() implies !((
        #[trigger] rest[i]) is LoadComplete) by {
            assert(rest[i] == msgs[i + 1]);
        }
        window_without_titlebar_is_hidden_until_load(next, is_foreground, rest, shortcuts);
        let served = crate::state::serve(window, msgs, shortcuts);
        let after = crate::state::serve(next, rest, shortcuts);
        assert forall|i: int| 0 <= i < served.actions.len() implies !((
        #[trigger] served.actions[i]) is Show) by {
            if let Some(action) = window.message_action(msgs[0], shortcuts) {
                if i > 0 {
                    assert(served.actions[i] == after.actions[i - 1]);
                }
            }
        }
    }
}

/// Each cursor that a page can ask for looks different, but that the automatic cursor is the
/// default one.
pub proof fn cursors_are_told_apart(a: CursorKind, b: CursorKind)
    requires
        mouse_cursor(a) == mouse_cursor(b),
        a != b,
    ensures
        a == CursorKind::Auto || a == CursorKind::Default,
        b == CursorKind::Auto || b == CursorKind::Default,
{
}

/// A message that can be handled can still be handled after others.
pub proof fn messages_stay_serviceable(
    window: WindowView,
    msg: Msg,
    later: Msg,
    shortcuts: Option<bool>,
)
    requires
        window.can_handle(later),
    ensures
        window.message(msg, shortcuts).browser_id == window.browser_id,
        window.message(msg, shortcuts).can_handle(later),
{
}

/// The messages that wait are the last ones, in their order: none is lost.
pub proof fn waiting_messages_are_the_last(
    window: WindowView,
    msgs: Seq<Msg>,
    shortcuts: Option<bool>,
)
    ensures
        crate::state::serve(window, msgs, shortcuts).waiting.len() <= msgs.len(),
        crate::state::serve(window, msgs, shortcuts).waiting == msgs.skip(
            msgs.len() - crate::state::serve(window, msgs, shortcuts).waiting.len(),
        ),
    decreases msgs.len(),
{
    let waiting = crate::state::serve(window, msgs, shortcuts).waiting;
    if msgs.len() > 0 {
        let next = window.message(msgs[0], shortcuts);
        waiting_messages_are_the_last(next, msgs.drop_first(), shortcuts);
        assert(msgs.drop_first() =~= msgs.skip(1));
        assert(msgs.skip(msgs.len() - waiting.len()) =~= msgs.drop_first().skip(
            msgs.drop_first().len() - waiting.len(),
        ));
    } else {
        assert(waiting =~= msgs.skip(0));
    }
}

/// What comes of a sequence of messages, one after another.
pub open spec fn after_messages(
    window: WindowView,
    msgs: Seq<Msg>,
    shortcuts: Option<bool>,
) -> WindowView
    decreases msgs.len(),
{
    if msgs.len() == 0 {
        window
    } else {
        after_messages(window.message(msgs[0], shortcuts), msgs.drop_first(), shortcuts)
    }
}

/// Every message that does not wait has its effect, in the order in which they came.
pub proof fn messages_take_effect_in_order(
    window: WindowView,
    msgs: Seq<Msg>,
    shortcuts: Option<bool>,
)
    ensures
        ({
            let served = crate::state::serve(window, msgs, shortcuts);
            served.window == after_messages(
                window,
                msgs.take(msgs.len() - served.waiting.len()),
                shortcuts,
            )
        }),
    decreases msgs.len(),
{
    let served = crate::state::serve(window, msgs, shortcuts);
    if msgs.len() > 0 {
        let next = window.message(msgs[0], shortcuts);
        let rest = msgs.drop_first();
        let handled = msgs.take(msgs.len() - served.waiting.len());
        waiting_messages_are_the_last(next, rest, shortcuts);
        messages_take_effect_in_order(next, rest, shortcuts);
        assert(handled.len() > 0);
        assert(handled.drop_first() =~= rest.take(rest.len() - served.waiting.len()));
        let asks = match window.message_action(msgs[0], shortcuts) {
            Some(action) => action.spec_is_question(),
            None => false,
        };
        if asks {
            assert(handled.drop_first().len() == 0);
            assert(after_messages(next, handled.drop_first(), shortcuts) == next);
        }
        assert(after_messages(window, handled, shortcuts) == after_messages(
            next,
            handled.drop_first(),
            shortcuts,
        ));
    } else {
        assert(msgs.take(0).len() == 0);
    }
}

/// Only the last thing to be done from outside can be a question, and messages wait only for a
/// question.
pub proof fn messages_wait_for_questions(
    window: WindowView,
    msgs: Seq<Msg>,
    shortcuts: Option<bool>,
)
    ensures
        ({
            let served = crate::state::serve(window, msgs, shortcuts);
            &&& forall|i: int|
                0 <= i < served.actions.len() - 1 ==> !(
                #[trigger] served.actions[i]).spec_is_question()
            &&& served.waiting.len() > 0 ==> served.actions.len() > 0
                && served.actions.last().spec_is_question()
        }),
    decreases msgs.len(),
{
    if msgs.len() > 0 {
        let next = window.message(msgs[0], shortcuts);
        messages_wait_for_questions(next, msgs.drop_first(), shortcuts);
        let rest = crate::state::serve(next, msgs.drop_first(), shortcuts);
        let served = crate::state::serve(window, msgs, shortcuts);
        if let Some(action) = window.message_action(msgs[0], shortcuts) {
            if !action.spec_is_question() {
                assert forall|i: int| 0 <= i < served.actions.len() - 1 implies !(
                #[trigger] served.actions[i]).spec_is_question() by {
                    if i > 0 {
                        assert(served.actions[i] == rest.actions[i - 1]);
                    }
                }
            }
        }
    }
}

/// As long as no message asks a question, messages that come in two parts are handled as if they
/// had come together.
pub proof fn messages_can_come_in_parts(
    window: WindowView,
    first: Seq<Msg>,
    second: Seq<Msg>,
    shortcuts: Option<bool>,
)
    requires
        forall|i: int|
            0 <= i < crate::state::serve(window, first, shortcuts).actions.len() ==> !(
            #[trigger] crate::state::serve(
                window,
                first,
                shortcuts,
            ).actions[i]).spec_is_question(),
    ensures
        ({
            let before = crate::state::serve(window, first, shortcuts);
            let after = crate::state::serve(before.window, second, shortcuts);
            let together = crate::state::serve(window, first + second, shortcuts);
            &&& together.window == after.window
            &&& together.actions == before.actions + after.actions
            &&& together.waiting == after.waiting
        }),
    decreases first.len(),
{
    let all = first + second;
    let before = crate::state::serve(window, first, shortcuts);
    if first.len() == 0 {
        assert(all =~= second);
        assert(before.actions + crate::state::serve(window, second, shortcuts).actions
            =~= crate::state::serve(window, second, shortcuts).actions);
    } else {
        let next = window.message(first[0], shortcuts);
        let rest = crate::state::serve(next, first.drop_first(), shortcuts);
        assert(all.drop_first() =~= first.drop_first() + second);
        match window.message_action(first[0], shortcuts) {
            Some(action) => {
                assert(before.actions[0] == action);
                assert forall|i: int| 0 <= i < rest.actions.len() implies !(
                #[trigger] rest.actions[i]).spec_is_question() by {
                    assert(rest.actions[i] == before.actions[i + 1]);
                }
                messages_can_come_in_parts(next, first.drop_first(), second, shortcuts);
                let after = crate::state::serve(before.window, second, shortcuts);
                assert(seq![action] + (rest.actions + after.actions) =~= before.actions
                    + after.actions);
            },
            None => {
                messages_can_come_in_parts(next, first.drop_first(), second, shortcuts);
            },
        }
    }
}

/// If one of the messages of the first part asks a question, those that come later wait with the
/// rest of that part.
pub proof fn later_messages_wait_too(
    window: WindowView,
    first: Seq<Msg>,
    second: Seq<Msg>,
    shortcuts: Option<bool>,
)
    requires
        exists|i: int|
            0 <= i < crate::state::serve(window, first, shortcuts).actions.len() && (
            #[trigger] crate::state::serve(
                window,
                first,
                shortcuts,
            ).actions[i]).spec_is_question(),
    ensures
        ({
            let before = crate::state::serve(window, first, shortcuts);
            let together = crate::state::serve(window, first + second, shortcuts);
            &&& together.window == before.window
            &&& together.actions == before.actions
            &&& together.waiting == before.waiting + second
        }),
    decreases first.len(),
{
    let before = crate::state::serve(window, first, shortcuts);
    let i = choose|i: int|
        0 <= i < before.actions.len() && (#[trigger] before.actions[i]).spec_is_question();
    let next = window.message(first[0], shortcuts);
    let rest = crate::state::serve(next, first.drop_first(), shortcuts);
    assert((first + second).drop_first() =~= first.drop_first() + second);
    match window.message_action(first[0], shortcuts) {
        Some(action) => {
            if !action.spec_is_question() {
                assert(before.actions[0] == action);
                assert(rest.actions[i - 1] == before.actions[i]);
                later_messages_wait_too(next, first.drop_first(), second, shortcuts);
            }
        },
        None => {
            later_messages_wait_too(next, first.drop_first(), second, shortcuts);
        },
    }
}

/// While the application is suspended, no event makes the loop call the browser engine, and the
/// loop does not draw frame after frame.
pub proof fn suspended_windows_rest(window: WindowView, phase: RunPhase, stop: bool)
    requires
        window.suspended,
        window.headless is None,
    ensures
        crate::run::next_step(window, RunPhase::EventHandled, stop).1 != RunAction::CallServo,
        crate::run::next_step(window, phase, stop).1 != RunAction::PollEvents,
{
}

/// The loop ends when the browser engine wants to stop, and only then.
pub proof fn loop_ends_when_asked(window: WindowView, phase: RunPhase, stop: bool)
    ensures
        crate::run::next_step(window, phase, stop).1 == RunAction::Exit ==> stop,
        crate::run::next_step(window, RunPhase::Called, true).1 == RunAction::Exit,
        ({
            let (unblocked, action) = crate::run::next_step(window, RunPhase::CalledOnEvent, true);
            &&& action == RunAction::StopWaiting
            &&& crate::run::next_step(window, unblocked, true).1 == RunAction::Exit
        }),
{
}

/// To wake the event loop up, or to resume the application, makes the loop call the browser
/// engine.
pub proof fn waking_up_calls_servo(window: WindowView, stop: bool)
    ensures
        crate::run::next_step(
            window.window_event(InputEvent::Suspended(false)),
            RunPhase::EventHandled,
            stop,
        ).1 == RunAction::CallServo,
        !window.suspended ==> crate::run::next_step(
            window.window_event(InputEvent::Awakened),
            RunPhase::EventHandled,
            stop,
        ).1 == RunAction::CallServo,
{
}

/// The loop waits for events only while the page is not animated, and sleeps only while there is
/// nothing to do.
pub proof fn loop_waits_only_when_idle(window: WindowView, phase: RunPhase, stop: bool)
    ensures
        ({
            let action = crate::run::next_step(window, phase, stop).1;
            &&& action == RunAction::WaitForEvents || action == RunAction::KeepWaiting
                ==> !window.is_animating()
            &&& action is Sleep ==> window.headless is Some && window.events.len() == 0
        }),
{
}

/// A request that is a URL is loaded as it is, without the white space at its ends.
pub proof fn urls_are_loaded_as_typed(
    request: Seq<char>,
    is_reg_domain: bool,
    search_page: Option<Seq<char>>,
)
    requires
        crate::address::parsed_url(crate::address::trimmed(request)) is Some,
    ensures
        crate::address::sanitized(request, is_reg_domain, search_page)
            == crate::address::parsed_url(crate::address::trimmed(request)),
{
    let results = crate::address::candidates(request, is_reg_domain, search_page).map_values(
        |text: Seq<char>| crate::address::parsed_url(text),
    );
    assert(results[0] == crate::address::parsed_url(crate::address::trimmed(request)));
}

/// Whatever is typed, the texts to try can be read if none of them has more than 2 to the power 31
/// less one characters.
pub proof fn ordinary_requests_can_be_sanitized(
    request: Seq<char>,
    is_reg_domain: bool,
    search_page: Option<Seq<char>>,
)
    requires
        ({
            let texts = crate::address::candidates(request, is_reg_domain, search_page);
            forall|i: int| 0 <= i < texts.len() ==> (#[trigger] texts[i]).len() <= i32::MAX
        }),
    ensures
        crate::address::can_be_sanitized(request, is_reg_domain, search_page),
{
    lemma_short_texts_can_be_read(
        crate::address::candidates(request, is_reg_domain, search_page),
    );
}

proof fn lemma_short_texts_can_be_read(texts: Seq<Seq<char>>)
    requires
        forall|i: int| 0 <= i < texts.len() ==> (#[trigger] texts[i]).len() <= i32::MAX,
    ensures
        crate::address::can_read(texts),
    decreases texts.len(),
{
    if texts.len() > 0 {
        crate::limits::lemma_short_text_fits(texts[0]);
        lemma_short_texts_can_be_read(texts.drop_first());
    }
}

/// A URL that is loaded was read from one of the texts that are tried, and none before it is a
/// URL. Nothing is loaded only if none of them is.
pub proof fn first_candidate_is_loaded(
    request: Seq<char>,
    is_reg_domain: bool,
    search_page: Option<Seq<char>>,
)
    ensures
        ({
            let texts = crate::address::candidates(request, is_reg_domain, search_page);
            match crate::address::sanitized(request, is_reg_domain, search_page) {
                Some(url) => exists|i: int|
                    #![trigger texts[i]]
                    0 <= i < texts.len() && crate::address::parsed_url(texts[i]) == Some(url)
                        && forall|j: int|
                        0 <= j < i ==> crate::address::parsed_url(#[trigger] texts[j]) is None,
                None => forall|i: int|
                    0 <= i < texts.len() ==> crate::address::parsed_url(
                        #[trigger] texts[i],
                    ) is None,
            }
        }),
{
    let texts = crate::address::candidates(request, is_reg_domain, search_page);
    let results = texts.map_values(|text: Seq<char>| crate::address::parsed_url(text));
    lemma_first_some(results);
    match crate::address::first_some(results) {
        Some(url) => {
            let i = choose|i: int|
                #![trigger results[i]]
                0 <= i < results.len() && results[i] == Some(url) && forall|j: int|
                    0 <= j < i ==> (#[trigger] results[j]) is None;
            assert(crate::address::parsed_url(texts[i]) == Some(url));
            assert forall|j: int| 0 <= j < i implies crate::address::parsed_url(
                #[trigger] texts[j],
            ) is None by {
                assert(results[j] is None);
            }
        },
        None => {
            assert forall|i: int| 0 <= i < texts.len() implies crate::address::parsed_url(
                #[trigger] texts[i],
            ) is None by {
                assert(results[i] is None);
            }
        },
    }
}

proof fn lemma_first_some(results: Seq<Option<Seq<char>>>)
    ensures
        match crate::address::first_some(results) {
            Some(url) => exists|i: int|
                #![trigger results[i]]
                0 <= i < results.len() && results[i] == Some(url) && forall|j: int|
                    0 <= j < i ==> (#[trigger] results[j]) is None,
            None => forall|i: int| 0 <= i < results.len() ==> (#[trigger] results[i]) is None,
        },
    decreases results.len(),
{
    if results.len() > 0 {
        if results[0] is None {
            let rest = results.drop_first();
            lemma_first_some(rest);
            match crate::address::first_some(rest) {
                Some(url) => {
                    let i = choose|i: int|
                        #![trigger rest[i]]
                        0 <= i < rest.len() && rest[i] == Some(url) && forall|j: int|
                            0 <= j < i ==> (#[trigger] rest[j]) is None;
                    assert(results[i + 1] == Some(url));
                    assert forall|j: int| 0 <= j < i + 1 implies (#[trigger] results[j]) is None by {
                        if j > 0 {
                            assert(rest[j - 1] is None);
                        }
                    }
                },
                None => {
                    assert forall|i: int| 0 <= i < results.len() implies (
                    #[trigger] results[i]) is None by {
                        if i > 0 {
                            assert(rest[i - 1] is None);
                        }
                    }
                },
            }
        } else {
            assert(results[0] == crate::address::first_some(results));
        }
    }
}

/// White space at the ends of a request makes no difference.
pub proof fn outer_white_space_is_ignored(
    request: Seq<char>,
    is_reg_domain: bool,
    search_page: Option<Seq<char>>,
)
    ensures
        crate::address::sanitized(
            crate::address::trimmed(request),
            is_reg_domain,
            search_page,
        ) == crate::address::sanitized(request, is_reg_domain, search_page),
{
    let start = crate::address::without_leading_space(request);
    lemma_leading(request);
    lemma_trailing(start);
    let text = crate::address::trimmed(request);
    assert(crate::address::without_leading_space(text) == text);
    assert(crate::address::without_trailing_space(text) == text);
}

proof fn lemma_leading(text: Seq<char>)
    ensures
        crate::address::without_leading_space(text).len() > 0 ==> !crate::address::is_white_space(
            crate::address::without_leading_space(text)[0],
        ),
    decreases text.len(),
{
    if text.len() > 0 && crate::address::is_white_space(text[0]) {
        lemma_leading(text.drop_first());
    }
}

proof fn lemma_trailing(text: Seq<char>)
    requires
        text.len() > 0 ==> !crate::address::is_white_space(text[0]),
    ensures
        ({
            let kept = crate::address::without_trailing_space(text);
            kept.len() > 0 ==> !crate::address::is_white_space(kept.last())
                && !crate::address::is_white_space(kept[0])
        }),
    decreases text.len(),
{
    if text.len() > 0 && crate::address::is_white_space(text.last()) {
        assert(text.len() > 1);
        assert(text.drop_last()[0] == text[0]);
        lemma_trailing(text.drop_last());
    }
}

/// A search page without a placeholder is opened as it is.
pub proof fn search_page_without_placeholder_is_kept(page: Seq<char>, request: Seq<char>)
    requires
        forall|i: int| 0 <= i <= page.len() ==> !crate::address::starts_with_placeholder(
            #[trigger] page.skip(i),
        ),
    ensures
        crate::address::search_url(page, request) == page,
    decreases page.len(),
{
    if page.len() > 0 {
        assert(page.skip(0) =~= page);
        let rest = page.drop_first();
        assert forall|i: int| 0 <= i <= rest.len() implies !crate::address::starts_with_placeholder(
            #[trigger] rest.skip(i),
        ) by {
            assert(rest.skip(i) =~= page.skip(i + 1));
        }
        search_page_without_placeholder_is_kept(rest, request);
        assert(seq![page[0]] + rest =~= page);
    }
}

} // verus!

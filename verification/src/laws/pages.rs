//! What each message of the browser engine does, and in which order.

use super::Msg;
use crate::coordinates::{headless_coordinates, native_coordinates, Measurements};
use crate::cursor::{CursorKind, MouseCursor};
use crate::events::{BrowserId, WindowEvent};
use crate::geometry::{Point, Rect, Size};
use crate::keys::KeyState;
use crate::messages::{Action, EmbedderMsg, LoadData, ReplyId};
use crate::plan::GlVersion;
use crate::state::{serve, WindowView};
use vstd::prelude::*;

verus! {

/// A page that has a title goes by it, whatever its URL is. One that has none, or an empty one,
/// goes by its URL, or by `Untitled` if that is not known.
pub proof fn pages_go_by_their_titles(
    window: WindowView,
    id: BrowserId,
    title: Option<Seq<char>>,
    shortcuts: Option<bool>,
)
    requires
        window.headless is None,
    ensures
        ({
            let msg: Msg = EmbedderMsg::ChangePageTitle(id, title);
            let action = window.message_action(msg, shortcuts);
            &&& title is Some && title->0.len() > 0 ==> action == Some(
                Action::SetTitle(title->0 + " - Servo"@),
            )
            &&& !(title is Some && title->0.len() > 0) && window.current_url is Some ==> action
                == Some(Action::SetTitle(window.current_url->0 + " - Servo"@))
            &&& !(title is Some && title->0.len() > 0) && window.current_url is None ==> action
                == Some(Action::SetTitle("Untitled"@ + " - Servo"@))
            &&& window.message(msg, shortcuts) == window
        }),
{
}

/// A native window is moved and resized as a page asks, and nothing is noted of it.
pub proof fn windows_are_moved_and_resized(
    window: WindowView,
    id: BrowserId,
    point: Point,
    size: Size,
    shortcuts: Option<bool>,
)
    requires
        window.headless is None,
    ensures
        ({
            let move_to: Msg = EmbedderMsg::MoveTo(id, point);
            let resize_to: Msg = EmbedderMsg::ResizeTo(id, size);
            &&& window.message_action(move_to, shortcuts) == Some(
                Action::<Seq<char>>::SetPosition(point),
            )
            &&& window.message_action(resize_to, shortcuts) == Some(
                Action::<Seq<char>>::SetInnerSize(size),
            )
            &&& window.message(move_to, shortcuts) == window
            &&& window.message(resize_to, shortcuts) == window
        }),
{
}

/// Every window, native or headless, answers each question about a navigation to where the answer
/// is to go, and allows it.
pub proof fn navigations_are_answered(
    window: WindowView,
    id: BrowserId,
    url: Seq<char>,
    reply: ReplyId,
    shortcuts: Option<bool>,
)
    ensures
        ({
            let msg: Msg = EmbedderMsg::AllowNavigation(id, url, reply);
            &&& window.message_action(msg, shortcuts) == Some(
                Action::<Seq<char>>::Reply(reply, true),
            )
            &&& window.message(msg, shortcuts) == window
        }),
{
}

/// The history says which URL is the current one: that of the entry that it points to.
pub proof fn history_tells_the_current_url(
    window: WindowView,
    id: BrowserId,
    history: Seq<Seq<char>>,
    current: usize,
    shortcuts: Option<bool>,
)
    requires
        current < history.len(),
    ensures
        ({
            let msg: Msg = EmbedderMsg::HistoryChanged(id, history, current);
            &&& window.message(msg, shortcuts) == (WindowView {
                current_url: Some(history[current as int]),
                ..window
            })
            &&& window.message_action(msg, shortcuts) is None
        }),
{
}

/// The full screen state is noted. A native window changes it exactly if it is another one.
pub proof fn fullscreen_state_follows_the_page(
    window: WindowView,
    id: BrowserId,
    state: bool,
    shortcuts: Option<bool>,
)
    ensures
        ({
            let msg: Msg = EmbedderMsg::SetFullscreenState(id, state);
            &&& window.message(msg, shortcuts) == (WindowView { fullscreen: state, ..window })
            &&& window.message_action(msg, shortcuts) == if window.headless is None
                && window.fullscreen != state {
                Some(Action::<Seq<char>>::SetFullscreen)
            } else {
                None
            }
        }),
{
}

/// When a page has loaded, a native window without a title bar is shown, and nothing is done
/// otherwise.
pub proof fn loaded_pages_show_windows_without_titlebar(
    window: WindowView,
    id: BrowserId,
    shortcuts: Option<bool>,
)
    ensures
        ({
            let msg: Msg = EmbedderMsg::LoadComplete(id);
            &&& window.message(msg, shortcuts) == window
            &&& window.message_action(msg, shortcuts) == if window.headless is None
                && window.no_native_titlebar {
                Some(Action::<Seq<char>>::Show)
            } else {
                None
            }
        }),
{
}

/// Messages that only inform do nothing.
pub proof fn news_does_nothing(window: WindowView, msg: Msg, shortcuts: Option<bool>)
    requires
        msg is Status || msg is NewFavicon || msg is HeadParsed || msg is LoadStart || msg is Panic,
    ensures
        window.message(msg, shortcuts) == window,
        window.message_action(msg, shortcuts) is None,
{
}

/// No message to a headless window asks for anything to be done to a native one.
pub proof fn headless_windows_only_answer_and_ask(
    window: WindowView,
    msg: Msg,
    shortcuts: Option<bool>,
)
    requires
        window.headless is Some,
        !(msg is AllowNavigation),
        !(msg is KeyEvent),
    ensures
        window.message_action(msg, shortcuts) is None,
{
}

/// A message changes the events, the current URL and the full screen state, and nothing else: the
/// URL only if it is about the history, and that state only if it is about it.
pub proof fn messages_leave_the_rest_alone(window: WindowView, msg: Msg, shortcuts: Option<bool>)
    ensures
        ({
            let after = window.message(msg, shortcuts);
            &&& after == (WindowView {
                events: after.events,
                current_url: after.current_url,
                fullscreen: after.fullscreen,
                ..window
            })
            &&& !(msg is KeyEvent) ==> after.events == window.events
            &&& !(msg is HistoryChanged) ==> after.current_url == window.current_url
            &&& !(msg is SetFullscreenState) ==> after.fullscreen == window.fullscreen
        }),
{
}

/// Each cursor that a page asks a native window for is shown as the one that looks like it.
pub proof fn cursors_look_as_asked(
    window: WindowView,
    cursor: CursorKind,
    shortcuts: Option<bool>,
)
    requires
        window.headless is None,
    ensures
        ({
            let msg: Msg = EmbedderMsg::SetCursor(cursor);
            &&& window.message(msg, shortcuts) == window
            &&& window.message_action(msg, shortcuts) matches Some(Action::SetCursor(shown)) && {
                &&& shown == MouseCursor::Default <==> cursor == CursorKind::Auto || cursor
                    == CursorKind::Default
                &&& shown == MouseCursor::NoneCursor <==> cursor == CursorKind::Hidden
                &&& shown == MouseCursor::Hand <==> cursor == CursorKind::Pointer
                &&& shown == MouseCursor::ContextMenu <==> cursor == CursorKind::ContextMenu
                &&& shown == MouseCursor::Help <==> cursor == CursorKind::Help
                &&& shown == MouseCursor::Progress <==> cursor == CursorKind::Progress
                &&& shown == MouseCursor::Wait <==> cursor == CursorKind::Wait
                &&& shown == MouseCursor::Cell <==> cursor == CursorKind::Cell
                &&& shown == MouseCursor::Crosshair <==> cursor == CursorKind::Crosshair
                &&& shown == MouseCursor::Text <==> cursor == CursorKind::Text
                &&& shown == MouseCursor::VerticalText <==> cursor == CursorKind::VerticalText
                &&& shown == MouseCursor::Alias <==> cursor == CursorKind::Alias
                &&& shown == MouseCursor::Copy <==> cursor == CursorKind::Copy
                &&& shown == MouseCursor::Move <==> cursor == CursorKind::Move
                &&& shown == MouseCursor::NoDrop <==> cursor == CursorKind::NoDrop
                &&& shown == MouseCursor::NotAllowed <==> cursor == CursorKind::NotAllowed
                &&& shown == MouseCursor::Grab <==> cursor == CursorKind::Grab
                &&& shown == MouseCursor::Grabbing <==> cursor == CursorKind::Grabbing
                &&& shown == MouseCursor::EResize <==> cursor == CursorKind::EResize
                &&& shown == MouseCursor::NResize <==> cursor == CursorKind::NResize
                &&& shown == MouseCursor::NeResize <==> cursor == CursorKind::NeResize
                &&& shown == MouseCursor::NwResize <==> cursor == CursorKind::NwResize
                &&& shown == MouseCursor::SResize <==> cursor == CursorKind::SResize
                &&& shown == MouseCursor::SeResize <==> cursor == CursorKind::SeResize
                &&& shown == MouseCursor::SwResize <==> cursor == CursorKind::SwResize
                &&& shown == MouseCursor::WResize <==> cursor == CursorKind::WResize
                &&& shown == MouseCursor::EwResize <==> cursor == CursorKind::EwResize
                &&& shown == MouseCursor::NsResize <==> cursor == CursorKind::NsResize
                &&& shown == MouseCursor::NeswResize <==> cursor == CursorKind::NeswResize
                &&& shown == MouseCursor::NwseResize <==> cursor == CursorKind::NwseResize
                &&& shown == MouseCursor::ColResize <==> cursor == CursorKind::ColResize
                &&& shown == MouseCursor::RowResize <==> cursor == CursorKind::RowResize
                &&& shown == MouseCursor::AllScroll <==> cursor == CursorKind::AllScroll
                &&& shown == MouseCursor::ZoomIn <==> cursor == CursorKind::ZoomIn
                &&& shown == MouseCursor::ZoomOut <==> cursor == CursorKind::ZoomOut
            }
        }),
{
}

/// A message can be handled unless it is a key that was let go before there is a browsing context,
/// or a history whose current entry is none of its entries.
pub proof fn most_messages_can_be_handled(window: WindowView, msg: Msg)
    ensures
        !window.can_handle(msg) <==> {
            ||| msg matches EmbedderMsg::KeyEvent(_, _, _, state, _) && state == KeyState::Released
                && window.browser_id is None
            ||| msg matches EmbedderMsg::HistoryChanged(_, history, current) && current
                >= history.len()
        },
{
}

/// A message that asks for a page to be scrolled or for a URL is the last that is served: what it
/// asks for is the last thing to do, and all that follow it wait.
pub proof fn question_ends_the_service(
    window: WindowView,
    msg: Msg,
    later: Seq<Msg>,
    shortcuts: Option<bool>,
)
    requires
        window.message_action(msg, shortcuts) matches Some(action) && (action is ScrollPage
            || action is PromptForUrl),
    ensures
        ({
            let served = serve(window, seq![msg] + later, shortcuts);
            &&& served.window == window.message(msg, shortcuts)
            &&& served.actions == seq![window.message_action(msg, shortcuts)->0]
            &&& served.waiting == later
        }),
{
    assert((seq![msg] + later).drop_first() =~= later);
}

/// Any other message is followed by the next ones at once: what it asks for comes first, and then
/// what they ask for, after its effect.
pub proof fn other_messages_go_on(
    window: WindowView,
    msg: Msg,
    later: Seq<Msg>,
    shortcuts: Option<bool>,
)
    requires
        window.message_action(msg, shortcuts) matches Some(action) ==> !(action is ScrollPage)
            && !(action is PromptForUrl),
    ensures
        ({
            let served = serve(window, seq![msg] + later, shortcuts);
            let rest = serve(window.message(msg, shortcuts), later, shortcuts);
            &&& served.window == rest.window
            &&& served.waiting == rest.waiting
            &&& served.actions == match window.message_action(msg, shortcuts) {
                Some(action) => seq![action] + rest.actions,
                None => rest.actions,
            }
        }),
{
    assert((seq![msg] + later).drop_first() =~= later);
}

/// No message does nothing.
pub proof fn silence_does_nothing(window: WindowView, shortcuts: Option<bool>)
    ensures
        ({
            let served = serve(window, seq![], shortcuts);
            &&& served.window == window
            &&& served.actions == Seq::<Action<Seq<char>>>::empty()
            &&& served.waiting == Seq::<Msg>::empty()
        }),
{
}

/// To load a URL adds the event for it, for the browsing context that it is meant for. Without a
/// URL nothing happens.
pub proof fn urls_are_loaded_where_they_belong(
    window: WindowView,
    id: BrowserId,
    url: Option<Seq<char>>,
)
    ensures
        url is Some ==> window.load(id, url) == (WindowView {
            events: window.events.push(WindowEvent::LoadUrl(id, url->0)),
            ..window
        }),
        url is None ==> window.load(id, url) == window,
{
}

/// The page is drawn over all of the framebuffer, which is the inside of the window. A native window
/// is as large as it is with its borders and is where it is, or at the corner if that is not known,
/// and may use all of the screen. A headless window is its own screen.
pub proof fn coordinates_are_those_measured(measured: Measurements)
    ensures
        ({
            let native = native_coordinates(measured);
            let headless = headless_coordinates(measured);
            let inside = Rect { x: 0, y: 0, size: measured.inner };
            &&& native.hidpi_factor == measured.hidpi_factor
            &&& native.framebuffer == measured.inner
            &&& native.viewport == inside
            &&& native.window.0 == measured.outer
            &&& measured.position is Some ==> native.window.1 == measured.position->0
            &&& measured.position is None ==> native.window.1 == (Point { x: 0, y: 0 })
            &&& native.screen == measured.screen
            &&& native.screen_avail == measured.screen
            &&& headless.hidpi_factor == measured.hidpi_factor
            &&& headless.framebuffer == measured.inner
            &&& headless.viewport == inside
            &&& headless.window == (measured.inner, Point { x: 0, y: 0 })
            &&& headless.screen == measured.inner
            &&& headless.screen_avail == measured.inner
        }),
{
}

/// A window with a title bar starts visible in the foreground and is shown as soon as it is created;
/// one without is neither. OpenGL ES 3.0 is used on ARM processors, and OpenGL 3.2 elsewhere.
pub proof fn windows_start_as_planned(is_foreground: bool, no_native_titlebar: bool)
    ensures
        crate::plan::starts_visible(is_foreground, no_native_titlebar) <==> is_foreground
            && !no_native_titlebar,
        crate::plan::shown_when_created(no_native_titlebar) <==> !no_native_titlebar,
        crate::plan::gl_version(true) == GlVersion::OpenGlEs(3, 0),
        crate::plan::gl_version(false) == GlVersion::OpenGl(3, 2),
{
}

/// What is said of an event holds of the event itself: it is of the same kind, with the same
/// contents.
pub proof fn events_are_what_is_said_of_them(event: WindowEvent<String>)
    ensures
        match event {
            WindowEvent::Idle => event@ == WindowEvent::<Seq<char>>::Idle,
            WindowEvent::Refresh => event@ == WindowEvent::<Seq<char>>::Refresh,
            WindowEvent::Resize => event@ == WindowEvent::<Seq<char>>::Resize,
            WindowEvent::LoadUrl(id, url) => event@ == WindowEvent::LoadUrl(id, url@),
            WindowEvent::MouseWindowEventClass(mouse) => event@
                == WindowEvent::<Seq<char>>::MouseWindowEventClass(mouse),
            WindowEvent::MouseWindowMoveEventClass(point) => event@
                == WindowEvent::<Seq<char>>::MouseWindowMoveEventClass(point),
            WindowEvent::Touch(kind, id, point) => event@ == WindowEvent::<Seq<char>>::Touch(
                kind,
                id,
                point,
            ),
            WindowEvent::Scroll(location, point, kind) => event@
                == WindowEvent::<Seq<char>>::Scroll(location, point, kind),
            WindowEvent::Zoom(factor) => event@ == WindowEvent::<Seq<char>>::Zoom(factor),
            WindowEvent::PinchZoom(factor) => event@ == WindowEvent::<Seq<char>>::PinchZoom(factor),
            WindowEvent::ResetZoom => event@ == WindowEvent::<Seq<char>>::ResetZoom,
            WindowEvent::Navigation(id, direction) => event@
                == WindowEvent::<Seq<char>>::Navigation(id, direction),
            WindowEvent::Quit => event@ == WindowEvent::<Seq<char>>::Quit,
            WindowEvent::KeyEvent(ch, key, state, modifiers) => event@
                == WindowEvent::<Seq<char>>::KeyEvent(ch, key, state, modifiers),
            WindowEvent::Reload(id) => event@ == WindowEvent::<Seq<char>>::Reload(id),
            WindowEvent::ToggleWebRenderDebug(option) => event@
                == WindowEvent::<Seq<char>>::ToggleWebRenderDebug(option),
            WindowEvent::CaptureWebRender => event@ == WindowEvent::<Seq<char>>::CaptureWebRender,
        },
{
}

/// What is said of an action holds of the action itself.
pub proof fn actions_are_what_is_said_of_them(action: Action<String>)
    ensures
        match action {
            Action::SetTitle(title) => action@ == Action::SetTitle(title@),
            Action::SetPosition(point) => action@ == Action::<Seq<char>>::SetPosition(point),
            Action::SetInnerSize(size) => action@ == Action::<Seq<char>>::SetInnerSize(size),
            Action::SetFullscreen => action@ == Action::<Seq<char>>::SetFullscreen,
            Action::Show => action@ == Action::<Seq<char>>::Show,
            Action::SetCursor(cursor) => action@ == Action::<Seq<char>>::SetCursor(cursor),
            Action::Reply(reply, answer) => action@ == Action::<Seq<char>>::Reply(reply, answer),
            Action::ScrollPage(direction) => action@ == Action::<Seq<char>>::ScrollPage(direction),
            Action::PromptForUrl(id, text) => action@ == Action::PromptForUrl(id, text@),
        },
{
}

/// What is said of a message that changes something holds of the message itself.
pub proof fn messages_are_what_is_said_of_them(msg: EmbedderMsg<String, Vec<LoadData>>)
    ensures
        match msg {
            EmbedderMsg::ChangePageTitle(id, Some(title)) => msg@ == Msg::ChangePageTitle(
                id,
                Some(title@),
            ),
            EmbedderMsg::ChangePageTitle(id, None) => msg@ == Msg::ChangePageTitle(id, None),
            EmbedderMsg::MoveTo(id, point) => msg@ == Msg::MoveTo(id, point),
            EmbedderMsg::ResizeTo(id, size) => msg@ == Msg::ResizeTo(id, size),
            EmbedderMsg::AllowNavigation(id, url, reply) => msg@ == Msg::AllowNavigation(
                id,
                url@,
                reply,
            ),
            EmbedderMsg::KeyEvent(id, ch, key, state, modifiers) => msg@ == Msg::KeyEvent(
                id,
                ch,
                key,
                state,
                modifiers,
            ),
            EmbedderMsg::SetCursor(cursor) => msg@ == Msg::SetCursor(cursor),
            EmbedderMsg::HistoryChanged(id, history, current) => msg@ matches Msg::HistoryChanged(
                i,
                urls,
                c,
            ) && {
                &&& i == id
                &&& c == current
                &&& urls.len() == history.len()
                &&& forall|k: int|
                    0 <= k < urls.len() ==> (#[trigger] urls[k]) == history@[k].url@
            },
            EmbedderMsg::SetFullscreenState(id, state) => msg@ == Msg::SetFullscreenState(
                id,
                state,
            ),
            EmbedderMsg::LoadComplete(id) => msg@ == Msg::LoadComplete(id),
            EmbedderMsg::Status(_, _) => msg@ is Status,
            EmbedderMsg::NewFavicon(_, _) => msg@ is NewFavicon,
            EmbedderMsg::HeadParsed(_) => msg@ is HeadParsed,
            EmbedderMsg::LoadStart(_) => msg@ is LoadStart,
            EmbedderMsg::Panic(_, _, _) => msg@ is Panic,
        },
{
}

} // verus!

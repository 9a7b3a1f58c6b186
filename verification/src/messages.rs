//! What the browser engine asks of the window, and what the window asks of its surroundings.

use crate::cursor::{CursorKind, MouseCursor};
use crate::events::BrowserId;
use crate::geometry::{Point, Size};
use crate::keys::{Key, KeyModifiers, KeyState};
use vstd::prelude::*;

verus! {

/// An entry of the session history.
#[derive(Debug, PartialEq)]
pub struct LoadData {
    pub url: String,
}

/// Where an answer goes, by a number that the embedder gives it.
#[derive(Clone, Copy, Debug, PartialEq, Eq, Structural)]
pub struct ReplyId(pub u64);

/// A message from the browser engine. In a contract, `Text` is `Seq<char>` and `History` is the
/// sequence of the URLs.
#[derive(Debug, PartialEq)]
pub enum EmbedderMsg<Text = String, History = Vec<LoadData>> {
    /// A status message to display.
    Status(BrowserId, Option<Text>),
    /// The title of the page.
    ChangePageTitle(BrowserId, Option<Text>),
    /// Move the window to a point.
    MoveTo(BrowserId, Point),
    /// Resize the window.
    ResizeTo(BrowserId, Size),
    /// Whether to load a URL; the answer goes to `ReplyId`.
    AllowNavigation(BrowserId, Text, ReplyId),
    /// A key that no page took.
    KeyEvent(Option<BrowserId>, Option<char>, Key, KeyState, KeyModifiers),
    /// The cursor to show.
    SetCursor(CursorKind),
    /// The page has a favicon.
    NewFavicon(BrowserId, Text),
    /// The head of the page was read.
    HeadParsed(BrowserId),
    /// The history, and the index of the current entry in it.
    HistoryChanged(BrowserId, History, usize),
    /// Enter or leave full screen.
    SetFullscreenState(BrowserId, bool),
    /// A page started to load.
    LoadStart(BrowserId),
    /// A page has loaded.
    LoadComplete(BrowserId),
    /// A page crashed, with a reason and a backtrace.
    Panic(BrowserId, Text, Option<Text>),
}

/// The URLs of a history.
pub open spec fn urls(history: Seq<LoadData>) -> Seq<Seq<char>> {
    history.map_values(|entry: LoadData| entry.url@)
}

impl View for EmbedderMsg<String, Vec<LoadData>> {
    type V = EmbedderMsg<Seq<char>, Seq<Seq<char>>>;

    open spec fn view(&self) -> EmbedderMsg<Seq<char>, Seq<Seq<char>>> {
        match *self {
            EmbedderMsg::Status(id, text) => EmbedderMsg::Status(id, crate::address::text_of(text)),
            EmbedderMsg::ChangePageTitle(id, title) => {
                EmbedderMsg::ChangePageTitle(id, crate::address::text_of(title))
            },
            EmbedderMsg::MoveTo(id, point) => EmbedderMsg::MoveTo(id, point),
            EmbedderMsg::ResizeTo(id, size) => EmbedderMsg::ResizeTo(id, size),
            EmbedderMsg::AllowNavigation(id, url, reply) => {
                EmbedderMsg::AllowNavigation(id, url@, reply)
            },
            EmbedderMsg::KeyEvent(id, ch, key, state, modifiers) => {
                EmbedderMsg::KeyEvent(id, ch, key, state, modifiers)
            },
            EmbedderMsg::SetCursor(cursor) => EmbedderMsg::SetCursor(cursor),
            EmbedderMsg::NewFavicon(id, url) => EmbedderMsg::NewFavicon(id, url@),
            EmbedderMsg::HeadParsed(id) => EmbedderMsg::HeadParsed(id),
            EmbedderMsg::HistoryChanged(id, history, current) => {
                EmbedderMsg::HistoryChanged(id, urls(history@), current)
            },
            EmbedderMsg::SetFullscreenState(id, state) => EmbedderMsg::SetFullscreenState(id, state),
            EmbedderMsg::LoadStart(id) => EmbedderMsg::LoadStart(id),
            EmbedderMsg::LoadComplete(id) => EmbedderMsg::LoadComplete(id),
            EmbedderMsg::Panic(id, reason, backtrace) => {
                EmbedderMsg::Panic(id, reason@, crate::address::text_of(backtrace))
            },
        }
    }
}

/// A direction to turn pages in.
#[derive(Clone, Copy, Debug, PartialEq, Eq, Structural)]
pub enum PageDirection {
    Down,
    Up,
}

/// Something that the window has done for it. In a contract, `Text` is `Seq<char>`.
#[derive(Debug, PartialEq)]
pub enum Action<Text = String> {
    /// Give the window a title.
    SetTitle(Text),
    /// Move the window to a point in device pixels.
    SetPosition(Point),
    /// Give the window a size in device pixels.
    SetInnerSize(Size),
    /// Change the full screen state of the window, with no monitor.
    SetFullscreen,
    /// Show the window.
    Show,
    /// Show a cursor.
    SetCursor(MouseCursor),
    /// Answer a question of the browser engine.
    Reply(ReplyId, bool),
    /// Find out the height of the page, and scroll by it.
    ScrollPage(PageDirection),
    /// Ask for a URL, with a text to start from, and load it in a browsing context.
    PromptForUrl(BrowserId, Text),
}

impl<Text> Action<Text> {
    /// Whether the window goes on only when the action is done.
    pub open spec fn spec_is_question(self) -> bool {
        self is ScrollPage || self is PromptForUrl
    }
}

impl Action<String> {
    /// Whether the window goes on only when the action is done.
    pub fn is_question(&self) -> (yes: bool)
        ensures
            yes == self@.spec_is_question(),
    {
        match self {
            Action::ScrollPage(_) => true,
            Action::PromptForUrl(_, _) => true,
            _ => false,
        }
    }
}

impl View for Action<String> {
    type V = Action<Seq<char>>;

    open spec fn view(&self) -> Action<Seq<char>> {
        match *self {
            Action::SetTitle(title) => Action::SetTitle(title@),
            Action::SetPosition(point) => Action::SetPosition(point),
            Action::SetInnerSize(size) => Action::SetInnerSize(size),
            Action::SetFullscreen => Action::SetFullscreen,
            Action::Show => Action::Show,
            Action::SetCursor(cursor) => Action::SetCursor(cursor),
            Action::Reply(reply, answer) => Action::Reply(reply, answer),
            Action::ScrollPage(direction) => Action::ScrollPage(direction),
            Action::PromptForUrl(id, text) => Action::PromptForUrl(id, text@),
        }
    }
}

/// The contract side of an optional action.
pub open spec fn action_of(action: Option<Action<String>>) -> Option<Action<Seq<char>>> {
    match action {
        Some(action) => Some(action@),
        None => None,
    }
}

} // verus!

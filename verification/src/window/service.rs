//! Serving the browser engine: its messages, one by one and in a row.

use super::Window;
use crate::address::{can_sanitize, sanitize_url};
use crate::cursor::mouse_cursor;
use crate::events::{BrowserId, TouchEventType, TraversalDirection, WindowEvent};
use crate::keys::{Key, KeyModifiers, KeyState};
use crate::messages::{Action, EmbedderMsg, LoadData};
use crate::shortcuts::{key_command, KeyCommand};
use crate::state::WindowView;
use vstd::prelude::*;

verus! {

impl Window {
    fn if_native(&self, action: Action) -> (chosen: Option<Action>)
        ensures
            crate::messages::action_of(chosen) == self@.if_native(action@),
    {
        if self.headless.is_none() {
            Some(action)
        } else {
            None
        }
    }

    fn set_fullscreen_state(&mut self, state: bool) -> (action: Option<Action>)
        ensures
            final(self)@ == (WindowView { fullscreen: state, ..old(self)@ }),
            crate::messages::action_of(action) == if old(self)@.fullscreen != state {
                old(self)@.if_native(Action::SetFullscreen)
            } else {
                None
            },
    {
        let action = if self.fullscreen != state {
            self.if_native(Action::SetFullscreen)
        } else {
            None
        };
        self.fullscreen = state;
        action
    }

    fn title_text(&self, title: &Option<String>) -> (text: String)
        ensures
            text@ == self@.title_text(crate::address::text_of(*title)),
    {
        let mut text = match title {
            Some(title) if !title.as_str().is_empty() => title.clone(),
            _ => match &self.current_url {
                Some(current_url) => current_url.clone(),
                None => "Untitled".to_owned(),
            },
        };
        text.append(" - Servo");
        text
    }

    fn load_end(&self) -> (action: Option<Action>)
        ensures
            crate::messages::action_of(action) == if self@.no_native_titlebar {
                self@.if_native(Action::Show)
            } else {
                None
            },
    {
        if self.no_native_titlebar {
            self.if_native(Action::Show)
        } else {
            None
        }
    }

    fn history_changed(&mut self, history: &Vec<LoadData>, current: usize)
        requires
            current < history.len(),
        ensures
            final(self)@ == (WindowView {
                current_url: Some(history@[current as int].url@),
                ..old(self)@
            }),
    {
        self.current_url = Some(history[current].url.clone());
    }

    fn prompt_text(&self) -> (text: String)
        ensures
            text@ == self@.prompt_text(),
    {
        match &self.current_url {
            Some(url) => url.clone(),
            None => String::new(),
        }
    }

    fn carry_out(&mut self, command: KeyCommand, browser_id: BrowserId) -> (action: Option<Action>)
        ensures
            final(self)@ == old(self)@.command(command, browser_id),
            crate::messages::action_of(action) == old(self)@.command_action(command, browser_id),
    {
        match command {
            KeyCommand::Nothing => {},
            KeyCommand::Zoom(factor) => self.push_event(WindowEvent::Zoom(factor)),
            KeyCommand::PinchZoom(factor) => self.push_event(WindowEvent::PinchZoom(factor)),
            KeyCommand::ResetZoom => self.push_event(WindowEvent::ResetZoom),
            KeyCommand::GoForward => {
                self.push_event(WindowEvent::Navigation(browser_id, TraversalDirection::Forward(1)))
            },
            KeyCommand::GoBack => {
                self.push_event(WindowEvent::Navigation(browser_id, TraversalDirection::Back(1)))
            },
            KeyCommand::Quit => self.push_event(WindowEvent::Quit),
            KeyCommand::Reload => self.push_event(WindowEvent::Reload(browser_id)),
            KeyCommand::PromptForUrl => {
                return Some(Action::PromptForUrl(browser_id, self.prompt_text()));
            },
            KeyCommand::Scroll(location) => self.scroll_window(location, TouchEventType::Move),
            KeyCommand::ScrollPage(direction) => {
                return Some(Action::ScrollPage(direction));
            },
            KeyCommand::CaptureWebRender => self.push_event(WindowEvent::CaptureWebRender),
            KeyCommand::ToggleDebug(option) => {
                self.push_event(WindowEvent::ToggleWebRenderDebug(option))
            },
        }
        None
    }

    /// Helper function to handle keyboard events.
    fn handle_key(
        &mut self,
        shortcuts: Option<bool>,
        ch: Option<char>,
        key: Key,
        state: KeyState,
        modifiers: KeyModifiers,
    ) -> (action: Option<Action>)
        requires
            state == KeyState::Pressed || old(self)@.browser_id is Some,
        ensures
            final(self)@ == old(self)@.command(
                old(self)@.key_meaning(shortcuts, ch, key, state, modifiers),
                old(self)@.browser_id->0,
            ),
            crate::messages::action_of(action) == old(self)@.command_action(
                old(self)@.key_meaning(shortcuts, ch, key, state, modifiers),
                old(self)@.browser_id->0,
            ),
    {
        if state == KeyState::Pressed {
            return None;
        }
        match self.browser_id {
            Some(browser_id) => {
                let command = key_command(self.platform, shortcuts, modifiers, ch, key);
                self.carry_out(command, browser_id)
            },
            None => None,
        }
    }

    /// Whether the window can handle a message: keys are for a browsing context, and the current
    /// entry of a history is one of its entries.
    pub fn can_handle(&self, event: &EmbedderMsg) -> (yes: bool)
        ensures
            yes == self@.can_handle(event@),
    {
        match event {
            EmbedderMsg::KeyEvent(_, _, _, state, _) => {
                *state == KeyState::Pressed || self.browser_id.is_some()
            },
            EmbedderMsg::HistoryChanged(_, history, current) => *current < history.len(),
            _ => true,
        }
    }

    /// Handles one message. The result is what it leaves to be done from outside. `shortcuts` is
    /// the preference that enables the built-in shortcuts, if it is set.
    pub fn handle_servo_event(&mut self, event: &EmbedderMsg, shortcuts: Option<bool>) -> (action:
        Option<Action>)
        requires
            old(self)@.can_handle(event@),
        ensures
            final(self)@ == old(self)@.message(event@, shortcuts),
            crate::messages::action_of(action) == old(self)@.message_action(event@, shortcuts),
    {
        match event {
            EmbedderMsg::Status(_, _) => None,
            EmbedderMsg::ChangePageTitle(_, title) => {
                let text = self.title_text(title);
                self.if_native(Action::SetTitle(text))
            },
            EmbedderMsg::MoveTo(_, point) => self.if_native(Action::SetPosition(*point)),
            EmbedderMsg::ResizeTo(_, size) => self.if_native(Action::SetInnerSize(*size)),
            EmbedderMsg::AllowNavigation(_, _, reply) => Some(Action::Reply(*reply, true)),
            EmbedderMsg::KeyEvent(_, ch, key, state, modifiers) => {
                self.handle_key(shortcuts, *ch, *key, *state, *modifiers)
            },
            EmbedderMsg::SetCursor(cursor) => {
                self.if_native(Action::SetCursor(mouse_cursor(*cursor)))
            },
            EmbedderMsg::NewFavicon(_, _) => None,
            EmbedderMsg::HeadParsed(_) => None,
            EmbedderMsg::HistoryChanged(_, history, current) => {
                self.history_changed(history, *current);
                None
            },
            EmbedderMsg::SetFullscreenState(_, state) => self.set_fullscreen_state(*state),
            EmbedderMsg::LoadStart(_) => None,
            EmbedderMsg::LoadComplete(_) => self.load_end(),
            EmbedderMsg::Panic(_, _, _) => None,
        }
    }

    /// Handles messages in order, up to the first that asks a question. The result is what they
    /// leave to be done from outside, and the messages that are to be handed in again when that
    /// is done.
    pub fn handle_servo_events(&mut self, events: Vec<EmbedderMsg>, shortcuts: Option<bool>) -> (
    served: (Vec<Action>, Vec<EmbedderMsg>))
        requires
            forall|i: int| 0 <= i < events.len() ==> old(self)@.can_handle(#[trigger] events@[i]@),
        ensures
            ({
                let msgs = events@.map_values(|msg: EmbedderMsg| msg@);
                let expected = crate::state::serve(old(self)@, msgs, shortcuts);
                &&& final(self)@ == expected.window
                &&& served.0@.map_values(|action: Action| action@) == expected.actions
                &&& served.1@.map_values(|msg: EmbedderMsg| msg@) == expected.waiting
            }),
    {
        let ghost msgs = events@.map_values(|msg: EmbedderMsg| msg@);
        let ghost expected = crate::state::serve(self@, msgs, shortcuts);
        let mut pending = events;
        let mut actions: Vec<Action> = Vec::new();
        let mut i: usize = 0;
        proof {
            assert(msgs.skip(0) =~= msgs);
            assert(actions@.map_values(|action: Action| action@) + expected.actions
                =~= expected.actions);
        }
        while i < pending.len()
            invariant
                i <= pending.len(),
                msgs == events@.map_values(|msg: EmbedderMsg| msg@),
                expected == crate::state::serve(old(self)@, msgs, shortcuts),
                pending@ == events@,
                self@.browser_id == old(self)@.browser_id,
                forall|j: int|
                    0 <= j < pending.len() ==> old(self)@.can_handle(#[trigger] pending@[j]@),
                ({
                    let rest = crate::state::serve(self@, msgs.skip(i as int), shortcuts);
                    &&& expected.window == rest.window
                    &&& expected.actions == actions@.map_values(|action: Action| action@)
                        + rest.actions
                    &&& expected.waiting == rest.waiting
                }),
            decreases pending.len() - i,
        {
            let ghost done = actions@.map_values(|action: Action| action@);
            let ghost rest = msgs.skip(i as int);
            assert(rest[0] == pending@[i as int]@);
            assert(rest.drop_first() =~= msgs.skip(i + 1));
            let action = self.handle_servo_event(&pending[i], shortcuts);
            i += 1;
            if let Some(action) = action {
                let is_question = action.is_question();
                let ghost asked = action@;
                actions.push(action);
                assert(actions@.map_values(|action: Action| action@) =~= done.push(asked));
                if is_question {
                    let waiting = pending.split_off(i);
                    proof {
                        assert(waiting@.map_values(|msg: EmbedderMsg| msg@) =~= rest.drop_first());
                        assert(done.push(asked) =~= done + seq![asked]);
                    }
                    return (actions, waiting);
                }
                proof {
                    let after = crate::state::serve(self@, rest.drop_first(), shortcuts);
                    assert(done.push(asked) + after.actions =~= done + (seq![asked]
                        + after.actions));
                }
            }
        }
        proof {
            assert(msgs.skip(i as int) =~= seq![]);
            assert(actions@.map_values(|action: Action| action@) =~= expected.actions);
        }
        let waiting: Vec<EmbedderMsg> = Vec::new();
        assert(waiting@.map_values(|msg: EmbedderMsg| msg@) =~= expected.waiting);
        (actions, waiting)
    }

    /// Loads a URL, if there is one, in a browsing context.
    pub fn load_url(&mut self, browser_id: BrowserId, url: Option<String>)
        ensures
            final(self)@ == old(self)@.load(browser_id, crate::address::text_of(url)),
    {
        if let Some(url) = url {
            self.push_event(WindowEvent::LoadUrl(browser_id, url));
        }
    }

    /// Loads what was typed into the prompt for a URL, if anything was. `is_reg_domain` says
    /// whether it is a registrable domain without the white space at its ends, and `search_page`
    /// is the URL of the search page, with `%s` where the request goes. The result is whether the
    /// texts to try could be read; if not, nothing is loaded.
    pub fn load_request(
        &mut self,
        browser_id: BrowserId,
        input: Option<&str>,
        is_reg_domain: bool,
        search_page: Option<&str>,
    ) -> (read: bool)
        ensures
            read == match input {
                Some(input) => crate::address::can_be_sanitized(
                    input@,
                    is_reg_domain,
                    crate::address::slice_of(search_page),
                ),
                None => true,
            },
            final(self)@ == match input {
                Some(input) if read => old(self)@.load(
                    browser_id,
                    crate::address::sanitized(
                        input@,
                        is_reg_domain,
                        crate::address::slice_of(search_page),
                    ),
                ),
                _ => old(self)@,
            },
    {
        match input {
            Some(input) => {
                if !can_sanitize(input, is_reg_domain, search_page) {
                    return false;
                }
                self.load_url(browser_id, sanitize_url(input, is_reg_domain, search_page));
                true
            },
            None => true,
        }
    }
}

} // verus!

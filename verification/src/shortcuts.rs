//! What the keys mean to the shell.

use crate::events::{ScrollLocation, WebRenderDebugOption};
use crate::geometry::Vector;
use crate::keys::{Key, KeyModifiers, PlatformModifiers};
use crate::messages::PageDirection;
use crate::single::Single;
use vstd::prelude::*;

verus! {

/// The height of a line of text, 38.0 device pixels, which an arrow key to the side scrolls by.
pub const LINE_HEIGHT: u32 = 0x4218_0000;

/// Minus the height of a line.
pub const MINUS_LINE_HEIGHT: u32 = 0xc218_0000;

/// Three lines, which an arrow key up or down scrolls by.
pub const THREE_LINES: u32 = 0x42e4_0000;

/// Minus three lines.
pub const MINUS_THREE_LINES: u32 = 0xc2e4_0000;

/// The factor 1.1, by which a page is zoomed in.
pub const ZOOM_IN: u32 = 0x3f8c_cccd;

/// The factor 1.0 / 1.1, by which a page is zoomed out.
pub const ZOOM_OUT: u32 = 0x3f68_ba2e;

/// What a key means.
#[derive(Clone, Copy, Debug, PartialEq, Eq, Structural)]
pub enum KeyCommand {
    Nothing,
    Zoom(Single),
    PinchZoom(Single),
    ResetZoom,
    GoForward,
    GoBack,
    Quit,
    Reload,
    PromptForUrl,
    Scroll(ScrollLocation),
    ScrollPage(PageDirection),
    CaptureWebRender,
    ToggleDebug(WebRenderDebugOption),
}

/// A scroll by the numbers with the bits `x` and `y`.
pub open spec fn scroll_by(x: u32, y: u32) -> KeyCommand {
    KeyCommand::Scroll(ScrollLocation::Delta(Vector { x: Single { bits: x }, y: Single { bits: y } }))
}

/// `command` if the built-in shortcuts are enabled.
pub open spec fn if_enabled(shortcuts: Option<bool>, command: KeyCommand) -> KeyCommand {
    if shortcuts == Some(true) {
        command
    } else {
        KeyCommand::Nothing
    }
}

/// What a key that types `ch` means.
pub open spec fn character_command(
    platform: PlatformModifiers,
    shortcuts: Option<bool>,
    modifiers: KeyModifiers,
    ch: char,
    key: Key,
) -> KeyCommand {
    let with_cmd = modifiers == platform.cmd_or_control;
    if ch == '+' {
        if modifiers.without_shift() == platform.cmd_or_control {
            KeyCommand::Zoom(Single { bits: ZOOM_IN })
        } else if modifiers.without_shift() == platform.cmd_or_control.with_alt() {
            KeyCommand::PinchZoom(Single { bits: ZOOM_IN })
        } else {
            KeyCommand::Nothing
        }
    } else if ch == '3' {
        if modifiers.is_control_shift() {
            KeyCommand::CaptureWebRender
        } else {
            KeyCommand::Nothing
        }
    } else if ch == '-' && with_cmd {
        KeyCommand::Zoom(Single { bits: ZOOM_OUT })
    } else if ch == '-' && modifiers == platform.cmd_or_control.with_alt() {
        KeyCommand::PinchZoom(Single { bits: ZOOM_OUT })
    } else if ch == '0' && with_cmd {
        KeyCommand::ResetZoom
    } else if ch == 'r' && with_cmd {
        if_enabled(shortcuts, KeyCommand::Reload)
    } else if ch == 'l' && with_cmd {
        if_enabled(shortcuts, KeyCommand::PromptForUrl)
    } else if ch == 'q' && with_cmd {
        if_enabled(shortcuts, KeyCommand::Quit)
    } else {
        platform_command(platform, modifiers, key)
    }
}

/// What a key that types no character means.
pub open spec fn silent_command(
    platform: PlatformModifiers,
    shortcuts: Option<bool>,
    modifiers: KeyModifiers,
    key: Key,
) -> KeyCommand {
    let plain = modifiers == KeyModifiers::none();
    if key == Key::NavigateForward && plain {
        KeyCommand::GoForward
    } else if key == Key::NavigateBackward && plain {
        KeyCommand::GoBack
    } else if key == Key::Escape && plain {
        if_enabled(shortcuts, KeyCommand::Quit)
    } else if key == Key::Right && modifiers == platform.cmd_or_alt {
        KeyCommand::GoForward
    } else if key == Key::Left && modifiers == platform.cmd_or_alt {
        KeyCommand::GoBack
    } else if key == Key::PageDown && plain {
        KeyCommand::ScrollPage(PageDirection::Down)
    } else if key == Key::PageUp && plain {
        KeyCommand::ScrollPage(PageDirection::Up)
    } else if key == Key::Home && plain {
        KeyCommand::Scroll(ScrollLocation::Start)
    } else if key == Key::End && plain {
        KeyCommand::Scroll(ScrollLocation::End)
    } else if key == Key::Up && plain {
        scroll_by(0, THREE_LINES)
    } else if key == Key::Down && plain {
        scroll_by(0, MINUS_THREE_LINES)
    } else if key == Key::Left && plain {
        scroll_by(LINE_HEIGHT, 0)
    } else if key == Key::Right && plain {
        scroll_by(MINUS_LINE_HEIGHT, 0)
    } else if key == Key::F10 && modifiers == KeyModifiers::control() {
        KeyCommand::ToggleDebug(WebRenderDebugOption::RenderTargetDebug)
    } else if key == Key::F11 && modifiers == KeyModifiers::control() {
        KeyCommand::ToggleDebug(WebRenderDebugOption::TextureCacheDebug)
    } else if key == Key::F12 && modifiers == KeyModifiers::control() {
        KeyCommand::ToggleDebug(WebRenderDebugOption::Profiler)
    } else {
        platform_command(platform, modifiers, key)
    }
}

pub open spec fn spec_platform_command(
    platform: PlatformModifiers,
    modifiers: KeyModifiers,
    key: Key,
) -> KeyCommand {
    if key == Key::LeftBracket && modifiers == platform.cmd_or_control {
        KeyCommand::GoBack
    } else if key == Key::RightBracket && modifiers == platform.cmd_or_control {
        KeyCommand::GoForward
    } else {
        KeyCommand::Nothing
    }
}

/// What a key means with the modifiers of the platform, if it has no other meaning.
#[verifier::when_used_as_spec(spec_platform_command)]
pub fn platform_command(platform: PlatformModifiers, modifiers: KeyModifiers, key: Key) -> (command:
    KeyCommand)
    ensures
        command == platform_command(platform, modifiers, key),
{
    match key {
        Key::LeftBracket if modifiers == platform.cmd_or_control => KeyCommand::GoBack,
        Key::RightBracket if modifiers == platform.cmd_or_control => KeyCommand::GoForward,
        _ => KeyCommand::Nothing,
    }
}

/// What a key means. `shortcuts` is the preference that enables the built-in shortcuts, if it is
/// set.
pub open spec fn spec_key_command(
    platform: PlatformModifiers,
    shortcuts: Option<bool>,
    modifiers: KeyModifiers,
    ch: Option<char>,
    key: Key,
) -> KeyCommand {
    match ch {
        Some(ch) => character_command(platform, shortcuts, modifiers, ch, key),
        None => silent_command(platform, shortcuts, modifiers, key),
    }
}

fn enabled(shortcuts: Option<bool>, command: KeyCommand) -> (chosen: KeyCommand)
    ensures
        chosen == if_enabled(shortcuts, command),
{
    match shortcuts {
        Some(true) => command,
        _ => KeyCommand::Nothing,
    }
}

fn scroll(x: u32, y: u32) -> (command: KeyCommand)
    ensures
        command == scroll_by(x, y),
{
    KeyCommand::Scroll(ScrollLocation::Delta(Vector { x: Single { bits: x }, y: Single { bits: y } }))
}

/// What a key means. `shortcuts` is the preference that enables the built-in shortcuts, if it is
/// set.
#[verifier::when_used_as_spec(spec_key_command)]
pub fn key_command(
    platform: PlatformModifiers,
    shortcuts: Option<bool>,
    modifiers: KeyModifiers,
    ch: Option<char>,
    key: Key,
) -> (command: KeyCommand)
    ensures
        command == key_command(platform, shortcuts, modifiers, ch, key),
{
    let plain = modifiers == KeyModifiers::none();
    let with_cmd = modifiers == platform.cmd_or_control;
    match (ch, key) {
        (Some('+'), _) => {
            if modifiers.without_shift() == platform.cmd_or_control {
                KeyCommand::Zoom(Single { bits: ZOOM_IN })
            } else if modifiers.without_shift() == platform.cmd_or_control.with_alt() {
                KeyCommand::PinchZoom(Single { bits: ZOOM_IN })
            } else {
                KeyCommand::Nothing
            }
        },
        (Some('-'), _) if with_cmd => KeyCommand::Zoom(Single { bits: ZOOM_OUT }),
        (Some('-'), _) if modifiers == platform.cmd_or_control.with_alt() => {
            KeyCommand::PinchZoom(Single { bits: ZOOM_OUT })
        },
        (Some('0'), _) if with_cmd => KeyCommand::ResetZoom,
        (None, Key::NavigateForward) if plain => KeyCommand::GoForward,
        (None, Key::NavigateBackward) if plain => KeyCommand::GoBack,
        (None, Key::Escape) if plain => enabled(shortcuts, KeyCommand::Quit),
        (None, Key::Right) if modifiers == platform.cmd_or_alt => KeyCommand::GoForward,
        (None, Key::Left) if modifiers == platform.cmd_or_alt => KeyCommand::GoBack,
        (None, Key::PageDown) if plain => KeyCommand::ScrollPage(PageDirection::Down),
        (None, Key::PageUp) if plain => KeyCommand::ScrollPage(PageDirection::Up),
        (None, Key::Home) if plain => KeyCommand::Scroll(ScrollLocation::Start),
        (None, Key::End) if plain => KeyCommand::Scroll(ScrollLocation::End),
        (None, Key::Up) if plain => scroll(0, THREE_LINES),
        (None, Key::Down) if plain => scroll(0, MINUS_THREE_LINES),
        (None, Key::Left) if plain => scroll(LINE_HEIGHT, 0),
        (None, Key::Right) if plain => scroll(MINUS_LINE_HEIGHT, 0),
        (Some('r'), _) if with_cmd => enabled(shortcuts, KeyCommand::Reload),
        (Some('l'), _) if with_cmd => enabled(shortcuts, KeyCommand::PromptForUrl),
        (Some('q'), _) if with_cmd => enabled(shortcuts, KeyCommand::Quit),
        (Some('3'), _) => {
            if modifiers.is_control_shift() {
                KeyCommand::CaptureWebRender
            } else {
                KeyCommand::Nothing
            }
        },
        (None, Key::F10) if modifiers == KeyModifiers::control() => {
            KeyCommand::ToggleDebug(WebRenderDebugOption::RenderTargetDebug)
        },
        (None, Key::F11) if modifiers == KeyModifiers::control() => {
            KeyCommand::ToggleDebug(WebRenderDebugOption::TextureCacheDebug)
        },
        (None, Key::F12) if modifiers == KeyModifiers::control() => {
            KeyCommand::ToggleDebug(WebRenderDebugOption::Profiler)
        },
        _ => platform_command(platform, modifiers, key),
    }
}

} // verus!

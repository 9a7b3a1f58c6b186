//! Mouse cursors.

use vstd::prelude::*;

verus! {

/// A cursor that a page asks for.
#[derive(Clone, Copy, Debug, PartialEq, Eq, Structural)]
pub enum CursorKind {
    Auto,
    /// No cursor at all.
    Hidden,
    Default,
    Pointer,
    ContextMenu,
    Help,
    Progress,
    Wait,
    Cell,
    Crosshair,
    Text,
    VerticalText,
    Alias,
    Copy,
    Move,
    NoDrop,
    NotAllowed,
    Grab,
    Grabbing,
    EResize,
    NResize,
    NeResize,
    NwResize,
    SResize,
    SeResize,
    SwResize,
    WResize,
    EwResize,
    NsResize,
    NeswResize,
    NwseResize,
    ColResize,
    RowResize,
    AllScroll,
    ZoomIn,
    ZoomOut,
}

/// A cursor of the windowing system.
#[derive(Clone, Copy, Debug, PartialEq, Eq, Structural)]
pub enum MouseCursor {
    Default,
    NoneCursor,
    Hand,
    ContextMenu,
    Help,
    Progress,
    Wait,
    Cell,
    Crosshair,
    Text,
    VerticalText,
    Alias,
    Copy,
    Move,
    NoDrop,
    NotAllowed,
    Grab,
    Grabbing,
    EResize,
    NResize,
    NeResize,
    NwResize,
    SResize,
    SeResize,
    SwResize,
    WResize,
    EwResize,
    NsResize,
    NeswResize,
    NwseResize,
    ColResize,
    RowResize,
    AllScroll,
    ZoomIn,
    ZoomOut,
}

pub open spec fn spec_mouse_cursor(cursor: CursorKind) -> MouseCursor {
    match cursor {
        CursorKind::Auto => MouseCursor::Default,
        CursorKind::Hidden => MouseCursor::NoneCursor,
        CursorKind::Default => MouseCursor::Default,
        CursorKind::Pointer => MouseCursor::Hand,
        CursorKind::ContextMenu => MouseCursor::ContextMenu,
        CursorKind::Help => MouseCursor::Help,
        CursorKind::Progress => MouseCursor::Progress,
        CursorKind::Wait => MouseCursor::Wait,
        CursorKind::Cell => MouseCursor::Cell,
        CursorKind::Crosshair => MouseCursor::Crosshair,
        CursorKind::Text => MouseCursor::Text,
        CursorKind::VerticalText => MouseCursor::VerticalText,
        CursorKind::Alias => MouseCursor::Alias,
        CursorKind::Copy => MouseCursor::Copy,
        CursorKind::Move => MouseCursor::Move,
        CursorKind::NoDrop => MouseCursor::NoDrop,
        CursorKind::NotAllowed => MouseCursor::NotAllowed,
        CursorKind::Grab => MouseCursor::Grab,
        CursorKind::Grabbing => MouseCursor::Grabbing,
        CursorKind::EResize => MouseCursor::EResize,
        CursorKind::NResize => MouseCursor::NResize,
        CursorKind::NeResize => MouseCursor::NeResize,
        CursorKind::NwResize => MouseCursor::NwResize,
        CursorKind::SResize => MouseCursor::SResize,
        CursorKind::SeResize => MouseCursor::SeResize,
        CursorKind::SwResize => MouseCursor::SwResize,
        CursorKind::WResize => MouseCursor::WResize,
        CursorKind::EwResize => MouseCursor::EwResize,
        CursorKind::NsResize => MouseCursor::NsResize,
        CursorKind::NeswResize => MouseCursor::NeswResize,
        CursorKind::NwseResize => MouseCursor::NwseResize,
        CursorKind::ColResize => MouseCursor::ColResize,
        CursorKind::RowResize => MouseCursor::RowResize,
        CursorKind::AllScroll => MouseCursor::AllScroll,
        CursorKind::ZoomIn => MouseCursor::ZoomIn,
        CursorKind::ZoomOut => MouseCursor::ZoomOut,
    }
}

/// The cursor that is shown where a page asks for `cursor`.
#[verifier::when_used_as_spec(spec_mouse_cursor)]
pub fn mouse_cursor(cursor: CursorKind) -> (shown: MouseCursor)
    ensures
        shown == mouse_cursor(cursor),
{
    match cursor {
        CursorKind::Auto => MouseCursor::Default,
        CursorKind::Hidden => MouseCursor::NoneCursor,
        CursorKind::Default => MouseCursor::Default,
        CursorKind::Pointer => MouseCursor::Hand,
        CursorKind::ContextMenu => MouseCursor::ContextMenu,
        CursorKind::Help => MouseCursor::Help,
        CursorKind::Progress => MouseCursor::Progress,
        CursorKind::Wait => MouseCursor::Wait,
        CursorKind::Cell => MouseCursor::Cell,
        CursorKind::Crosshair => MouseCursor::Crosshair,
        CursorKind::Text => MouseCursor::Text,
        CursorKind::VerticalText => MouseCursor::VerticalText,
        CursorKind::Alias => MouseCursor::Alias,
        CursorKind::Copy => MouseCursor::Copy,
        CursorKind::Move => MouseCursor::Move,
        CursorKind::NoDrop => MouseCursor::NoDrop,
        CursorKind::NotAllowed => MouseCursor::NotAllowed,
        CursorKind::Grab => MouseCursor::Grab,
        CursorKind::Grabbing => MouseCursor::Grabbing,
        CursorKind::EResize => MouseCursor::EResize,
        CursorKind::NResize => MouseCursor::NResize,
        CursorKind::NeResize => MouseCursor::NeResize,
        CursorKind::NwResize => MouseCursor::NwResize,
        CursorKind::SResize => MouseCursor::SResize,
        CursorKind::SeResize => MouseCursor::SeResize,
        CursorKind::SwResize => MouseCursor::SwResize,
        CursorKind::WResize => MouseCursor::WResize,
        CursorKind::EwResize => MouseCursor::EwResize,
        CursorKind::NsResize => MouseCursor::NsResize,
        CursorKind::NeswResize => MouseCursor::NeswResize,
        CursorKind::NwseResize => MouseCursor::NwseResize,
        CursorKind::ColResize => MouseCursor::ColResize,
        CursorKind::RowResize => MouseCursor::RowResize,
        CursorKind::AllScroll => MouseCursor::AllScroll,
        CursorKind::ZoomIn => MouseCursor::ZoomIn,
        CursorKind::ZoomOut => MouseCursor::ZoomOut,
    }
}

} // verus!

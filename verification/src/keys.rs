//! Keys and modifiers, as the windowing system reports them and as pages see them.

use vstd::prelude::*;

verus! {

/// Whether a key or a button went down or up.
#[derive(Clone, Copy, Debug, PartialEq, Eq, Structural)]
pub enum ElementState {
    Pressed,
    Released,
}

/// A key as the windowing system names it. The shell tells the modifier keys apart.
#[derive(Clone, Copy, Debug, PartialEq, Eq, Structural)]
pub enum VirtualKeyCode {
    LControl,
    RControl,
    LShift,
    RShift,
    LAlt,
    RAlt,
    LWin,
    RWin,
    Other,
}

/// The state of a key in an event for a page.
#[derive(Clone, Copy, Debug, PartialEq, Eq, Structural)]
pub enum KeyState {
    Pressed,
    Released,
}

/// A key as pages see it: the ones that the shell has a meaning for, and every other one by a
/// number that the embedder gives it.
#[derive(Clone, Copy, Debug, PartialEq, Eq, Structural)]
pub enum Key {
    NavigateBackward,
    NavigateForward,
    Escape,
    Right,
    Left,
    Down,
    Up,
    PageDown,
    PageUp,
    Home,
    End,
    F10,
    F11,
    F12,
    LeftBracket,
    RightBracket,
    Other(u16),
}

/// The modifier keys that are held down, each side by itself.
#[derive(Clone, Copy, Debug, PartialEq, Eq, Structural)]
pub struct GlutinKeyModifiers {
    pub left_control: bool,
    pub right_control: bool,
    pub left_shift: bool,
    pub right_shift: bool,
    pub left_alt: bool,
    pub right_alt: bool,
    pub left_super: bool,
    pub right_super: bool,
}

impl GlutinKeyModifiers {
    pub open spec fn spec_empty() -> GlutinKeyModifiers {
        GlutinKeyModifiers {
            left_control: false,
            right_control: false,
            left_shift: false,
            right_shift: false,
            left_alt: false,
            right_alt: false,
            left_super: false,
            right_super: false,
        }
    }

    /// No modifier key.
    #[verifier::when_used_as_spec(spec_empty)]
    pub fn empty() -> (modifiers: GlutinKeyModifiers)
        ensures
            modifiers == GlutinKeyModifiers::empty(),
    {
        GlutinKeyModifiers {
            left_control: false,
            right_control: false,
            left_shift: false,
            right_shift: false,
            left_alt: false,
            right_alt: false,
            left_super: false,
            right_super: false,
        }
    }

    /// These modifiers, with those in `other` turned over.
    pub open spec fn toggled(self, other: GlutinKeyModifiers) -> GlutinKeyModifiers {
        GlutinKeyModifiers {
            left_control: self.left_control != other.left_control,
            right_control: self.right_control != other.right_control,
            left_shift: self.left_shift != other.left_shift,
            right_shift: self.right_shift != other.right_shift,
            left_alt: self.left_alt != other.left_alt,
            right_alt: self.right_alt != other.right_alt,
            left_super: self.left_super != other.left_super,
            right_super: self.right_super != other.right_super,
        }
    }

    /// Turns over the modifiers in `other`.
    pub fn toggle(&mut self, other: GlutinKeyModifiers)
        ensures
            *final(self) == old(self).toggled(other),
    {
        self.left_control = self.left_control != other.left_control;
        self.right_control = self.right_control != other.right_control;
        self.left_shift = self.left_shift != other.left_shift;
        self.right_shift = self.right_shift != other.right_shift;
        self.left_alt = self.left_alt != other.left_alt;
        self.right_alt = self.right_alt != other.right_alt;
        self.left_super = self.left_super != other.left_super;
        self.right_super = self.right_super != other.right_super;
    }
}

/// The set that holds the modifier key `code`, and nothing for any other key.
pub open spec fn modifier_of(code: VirtualKeyCode) -> GlutinKeyModifiers {
    GlutinKeyModifiers {
        left_control: code == VirtualKeyCode::LControl,
        right_control: code == VirtualKeyCode::RControl,
        left_shift: code == VirtualKeyCode::LShift,
        right_shift: code == VirtualKeyCode::RShift,
        left_alt: code == VirtualKeyCode::LAlt,
        right_alt: code == VirtualKeyCode::RAlt,
        left_super: code == VirtualKeyCode::LWin,
        right_super: code == VirtualKeyCode::RWin,
    }
}

/// The set that holds the modifier key `code`, and nothing for any other key.
pub fn modifier_key(code: VirtualKeyCode) -> (modifier: GlutinKeyModifiers)
    ensures
        modifier == modifier_of(code),
{
    let none = GlutinKeyModifiers::empty();
    match code {
        VirtualKeyCode::LControl => GlutinKeyModifiers { left_control: true, ..none },
        VirtualKeyCode::RControl => GlutinKeyModifiers { right_control: true, ..none },
        VirtualKeyCode::LShift => GlutinKeyModifiers { left_shift: true, ..none },
        VirtualKeyCode::RShift => GlutinKeyModifiers { right_shift: true, ..none },
        VirtualKeyCode::LAlt => GlutinKeyModifiers { left_alt: true, ..none },
        VirtualKeyCode::RAlt => GlutinKeyModifiers { right_alt: true, ..none },
        VirtualKeyCode::LWin => GlutinKeyModifiers { left_super: true, ..none },
        VirtualKeyCode::RWin => GlutinKeyModifiers { right_super: true, ..none },
        VirtualKeyCode::Other => none,
    }
}

/// The modifiers of an event for a page.
#[derive(Clone, Copy, Debug, PartialEq, Eq, Structural)]
pub struct KeyModifiers {
    pub shift: bool,
    pub control: bool,
    pub alt: bool,
    pub logo: bool,
}

impl KeyModifiers {
    pub open spec fn spec_none() -> KeyModifiers {
        KeyModifiers { shift: false, control: false, alt: false, logo: false }
    }

    /// No modifier.
    #[verifier::when_used_as_spec(spec_none)]
    pub fn none() -> (modifiers: KeyModifiers)
        ensures
            modifiers == KeyModifiers::none(),
    {
        KeyModifiers { shift: false, control: false, alt: false, logo: false }
    }

    pub open spec fn spec_control() -> KeyModifiers {
        KeyModifiers { shift: false, control: true, alt: false, logo: false }
    }

    /// Control alone.
    #[verifier::when_used_as_spec(spec_control)]
    pub fn control() -> (modifiers: KeyModifiers)
        ensures
            modifiers == KeyModifiers::control(),
    {
        KeyModifiers { shift: false, control: true, alt: false, logo: false }
    }

    /// These modifiers and Alt.
    pub open spec fn spec_with_alt(self) -> KeyModifiers {
        KeyModifiers { alt: true, ..self }
    }

    /// These modifiers and Alt.
    #[verifier::when_used_as_spec(spec_with_alt)]
    pub fn with_alt(self) -> (modifiers: KeyModifiers)
        ensures
            modifiers == self.with_alt(),
    {
        KeyModifiers { alt: true, ..self }
    }

    /// These modifiers but for Shift.
    pub open spec fn spec_without_shift(self) -> KeyModifiers {
        KeyModifiers { shift: false, ..self }
    }

    /// These modifiers but for Shift.
    #[verifier::when_used_as_spec(spec_without_shift)]
    pub fn without_shift(self) -> (modifiers: KeyModifiers)
        ensures
            modifiers == self.without_shift(),
    {
        KeyModifiers { shift: false, ..self }
    }

    /// Whether these are Control and Shift, and nothing else.
    pub open spec fn spec_is_control_shift(self) -> bool {
        self.shift && self.control && !self.alt && !self.logo
    }

    /// Whether these are Control and Shift, and nothing else.
    #[verifier::when_used_as_spec(spec_is_control_shift)]
    pub fn is_control_shift(self) -> (yes: bool)
        ensures
            yes == self.is_control_shift(),
    {
        self.shift && self.control && !self.alt && !self.logo
    }
}

/// The modifiers that a page sees: a modifier counts if it is held on either side.
pub open spec fn spec_glutin_mods_to_script_mods(modifiers: GlutinKeyModifiers) -> KeyModifiers {
    KeyModifiers {
        shift: modifiers.left_shift || modifiers.right_shift,
        control: modifiers.left_control || modifiers.right_control,
        alt: modifiers.left_alt || modifiers.right_alt,
        logo: modifiers.left_super || modifiers.right_super,
    }
}

/// The modifiers that a page sees: a modifier counts if it is held on either side.
#[verifier::when_used_as_spec(spec_glutin_mods_to_script_mods)]
pub fn glutin_mods_to_script_mods(modifiers: GlutinKeyModifiers) -> (seen: KeyModifiers)
    ensures
        seen == glutin_mods_to_script_mods(modifiers),
{
    KeyModifiers {
        shift: modifiers.left_shift || modifiers.right_shift,
        control: modifiers.left_control || modifiers.right_control,
        alt: modifiers.left_alt || modifiers.right_alt,
        logo: modifiers.left_super || modifiers.right_super,
    }
}

/// The modifiers of the shortcuts that differ between platforms.
#[derive(Clone, Copy, Debug, PartialEq, Eq, Structural)]
pub struct PlatformModifiers {
    /// Command on a Mac and Control elsewhere.
    pub cmd_or_control: KeyModifiers,
    /// Command on a Mac and Alt elsewhere.
    pub cmd_or_alt: KeyModifiers,
}

/// The control characters of Unicode, general category `Cc`.
pub open spec fn spec_is_control(ch: char) -> bool {
    ch <= '\u{1f}' || '\u{7f}' <= ch <= '\u{9f}'
}

/// Whether `ch` is a control character, such as a backspace.
#[verifier::when_used_as_spec(spec_is_control)]
pub fn is_control(ch: char) -> (yes: bool)
    ensures
        yes == is_control(ch),
{
    ch <= '\u{1f}' || ('\u{7f}' <= ch && ch <= '\u{9f}')
}

} // verus!

//! Key presses as the editor's logic reads them: a key code, the modifier
//! bits and whether the event reports a release.
use vstd::prelude::*;

verus! {

/// No modifier held.
pub const MOD_NONE: u8 = 0;
/// Shift held.
pub const MOD_SHIFT: u8 = 1;
/// Control held.
pub const MOD_CONTROL: u8 = 2;
/// Alt held.
pub const MOD_ALT: u8 = 4;

/// The key that was pressed. Keys the editor has no use for are `Other`.
#[derive(Clone, Copy, Debug, PartialEq, Eq, Structural)]
pub enum KeyCode {
    Char(char),
    F(u8),
    Backspace,
    Enter,
    Left,
    Right,
    Up,
    Down,
    Tab,
    Delete,
    Home,
    End,
    PageUp,
    PageDown,
    Esc,
    Other,
}

/// A key event: the key, the set of held modifiers (bit 0 Shift, bit 1
/// Control, bit 2 Alt, higher bits other modifiers) and whether the key was
/// released rather than pressed.
#[derive(Clone, Copy, Debug, PartialEq, Eq)]
pub struct KeyEvent {
    pub code: KeyCode,
    pub modifiers: u8,
    pub release: bool,
}

/// What the text editor receives for a key: the key and the three modifier
/// flags it distinguishes.
#[derive(Clone, Copy, Debug, PartialEq, Eq)]
pub struct TextInput {
    pub key: KeyCode,
    pub ctrl: bool,
    pub alt: bool,
    pub shift: bool,
}

/// Whether modifier bit `m` is set in `mods`.
pub open spec fn has_mod(mods: u8, m: u8) -> bool {
    mods & m == m
}

/// The editor input for a key event: a release is no input at all; otherwise
/// the key with its Control, Alt and Shift flags.
pub open spec fn text_input_spec(k: KeyEvent) -> TextInput {
    if k.release {
        TextInput { key: KeyCode::Other, ctrl: false, alt: false, shift: false }
    } else {
        TextInput {
            key: k.code,
            ctrl: has_mod(k.modifiers, MOD_CONTROL),
            alt: has_mod(k.modifiers, MOD_ALT),
            shift: has_mod(k.modifiers, MOD_SHIFT),
        }
    }
}

impl KeyEvent {
    /// A key press with the given modifiers.
    pub fn new(code: KeyCode, modifiers: u8) -> (k: KeyEvent)
        ensures
            k == (KeyEvent { code, modifiers, release: false }),
    {
        KeyEvent { code, modifiers, release: false }
    }

    /// The editor input for this key event.
    pub fn text_input(&self) -> (t: TextInput)
        ensures
            t == text_input_spec(*self),
    {
        if self.release {
            TextInput { key: KeyCode::Other, ctrl: false, alt: false, shift: false }
        } else {
            TextInput {
                key: self.code,
                ctrl: self.modifiers & MOD_CONTROL == MOD_CONTROL,
                alt: self.modifiers & MOD_ALT == MOD_ALT,
                shift: self.modifiers & MOD_SHIFT == MOD_SHIFT,
            }
        }
    }
}

} // verus!

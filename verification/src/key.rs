//! Key presses, as far as the console tells them apart.

use vstd::prelude::*;

verus! {

/// The key that was pressed.
#[derive(Clone, Copy, Debug, PartialEq, Eq, Structural)]
pub enum KeyCode {
    /// A key that types the character.
    Char(char),
    /// The function key with the number.
    F(u8),
    Backspace,
    Delete,
    Left,
    Right,
    Home,
    End,
    Enter,
    Esc,
    /// Any key that the console does not react to.
    Other,
}

/// The modifier keys held down with a key.
#[derive(Clone, Copy, Debug, PartialEq, Eq, Structural)]
pub struct KeyModifiers {
    pub shift: bool,
    pub control: bool,
    pub alt: bool,
    pub super_key: bool,
    pub hyper: bool,
    pub meta: bool,
}

impl KeyModifiers {
    /// No modifier is held down.
    pub open spec fn spec_is_empty(self) -> bool {
        !self.shift && !self.control && !self.alt && !self.super_key && !self.hyper && !self.meta
    }

    /// No modifier.
    pub open spec fn spec_none() -> KeyModifiers {
        KeyModifiers {
            shift: false,
            control: false,
            alt: false,
            super_key: false,
            hyper: false,
            meta: false,
        }
    }

    /// The control key alone.
    pub open spec fn spec_control() -> KeyModifiers {
        KeyModifiers { control: true, ..Self::spec_none() }
    }

    #[verifier::when_used_as_spec(spec_none)]
    pub fn none() -> (modifiers: KeyModifiers)
        ensures
            modifiers == Self::spec_none(),
            modifiers.spec_is_empty(),
    {
        KeyModifiers {
            shift: false,
            control: false,
            alt: false,
            super_key: false,
            hyper: false,
            meta: false,
        }
    }

    #[verifier::when_used_as_spec(spec_control)]
    pub fn control() -> (modifiers: KeyModifiers)
        ensures
            modifiers == Self::spec_control(),
    {
        KeyModifiers {
            shift: false,
            control: true,
            alt: false,
            super_key: false,
            hyper: false,
            meta: false,
        }
    }

    #[verifier::when_used_as_spec(spec_is_empty)]
    pub fn is_empty(self) -> (empty: bool)
        ensures
            empty == self.spec_is_empty(),
    {
        !self.shift && !self.control && !self.alt && !self.super_key && !self.hyper && !self.meta
    }
}

/// One key press: the key and the modifiers held down with it.
#[derive(Clone, Copy, Debug, PartialEq, Eq, Structural)]
pub struct KeyEvent {
    pub code: KeyCode,
    pub modifiers: KeyModifiers,
}

impl KeyEvent {
    pub open spec fn spec_new(code: KeyCode, modifiers: KeyModifiers) -> KeyEvent {
        KeyEvent { code, modifiers }
    }

    /// The press of `code` with `modifiers` held down.
    #[verifier::when_used_as_spec(spec_new)]
    pub fn new(code: KeyCode, modifiers: KeyModifiers) -> (key: KeyEvent)
        ensures
            key == Self::spec_new(code, modifiers),
    {
        KeyEvent { code, modifiers }
    }

    /// The press of `code` alone.
    pub fn plain(code: KeyCode) -> (key: KeyEvent)
        ensures
            key == KeyEvent::spec_new(code, KeyModifiers::spec_none()),
    {
        KeyEvent { code, modifiers: KeyModifiers::none() }
    }

    /// The press of `code` with the control key held down.
    pub fn with_control(code: KeyCode) -> (key: KeyEvent)
        ensures
            key == KeyEvent::spec_new(code, KeyModifiers::spec_control()),
    {
        KeyEvent { code, modifiers: KeyModifiers::control() }
    }
}

} // verus!

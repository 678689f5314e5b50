//! Key events as the prompt sees them: a base key and the modifiers held with it.

use vstd::prelude::*;

verus! {

/// Bit of the Shift modifier.
pub const SHIFT: u8 = 0b0000_0001;

/// Bit of the Control modifier.
pub const CONTROL: u8 = 0b0000_0010;

/// Bit of the Alt modifier.
pub const ALT: u8 = 0b0000_0100;

/// Bit of the Super modifier.
pub const SUPER: u8 = 0b0000_1000;

/// Bit of the Hyper modifier.
pub const HYPER: u8 = 0b0001_0000;

/// Bit of the Meta modifier.
pub const META: u8 = 0b0010_0000;

/// The set of modifier keys held down together with a key, one bit for each.
#[derive(Copy, Clone, Debug, PartialEq, Eq, Hash, Structural)]
pub struct KeyModifiers {
    /// The modifiers as a bit set over [`SHIFT`], [`CONTROL`], [`ALT`],
    /// [`SUPER`], [`HYPER`] and [`META`].
    pub bits: u8,
}

impl KeyModifiers {
    /// Whether every modifier of `other` is also in `self`.
    pub open spec fn holds(self, other: KeyModifiers) -> bool {
        self.bits & other.bits == other.bits
    }

    /// No modifier at all.
    pub fn none() -> (modifiers: KeyModifiers)
        ensures
            modifiers.bits == 0,
    {
        KeyModifiers { bits: 0 }
    }

    /// Control and nothing else.
    pub fn control() -> (modifiers: KeyModifiers)
        ensures
            modifiers.bits == CONTROL,
    {
        KeyModifiers { bits: CONTROL }
    }

    /// The modifiers whose bits are set in `bits`.
    pub fn from_bits(bits: u8) -> (modifiers: KeyModifiers)
        ensures
            modifiers.bits == bits,
    {
        KeyModifiers { bits }
    }

    /// Whether no modifier is held.
    pub fn is_empty(&self) -> (empty: bool)
        ensures
            empty == (self.bits == 0),
    {
        self.bits == 0
    }

    /// Whether every modifier of `other` is also in `self`.
    pub fn contains(&self, other: KeyModifiers) -> (inside: bool)
        ensures
            inside == self.holds(other),
    {
        self.bits & other.bits == other.bits
    }
}

/// A key press, reduced to what the prompts tell apart.
#[derive(Copy, Clone, Debug, PartialEq, Eq, Hash, Structural)]
pub enum Key {
    /// The Escape key.
    Escape,
    /// The Enter key.
    Enter,
    /// The Backspace key.
    Backspace,
    /// The Tab key.
    Tab,
    /// The Delete key, with the modifiers held.
    Delete(KeyModifiers),
    /// The Home key.
    Home,
    /// The End key.
    End,
    /// The PageUp key.
    PageUp,
    /// The PageDown key.
    PageDown,
    /// The Up arrow, with the modifiers held.
    Up(KeyModifiers),
    /// The Down arrow, with the modifiers held.
    Down(KeyModifiers),
    /// The Left arrow, with the modifiers held.
    Left(KeyModifiers),
    /// The Right arrow, with the modifiers held.
    Right(KeyModifiers),
    /// A character key, with the modifiers held.
    Char(char, KeyModifiers),
    /// Any key that is none of the others.
    Any,
}

} // verus!

//! The text input that holds the filter: the edit actions it understands, the
//! keys that stand for them, and the interface through which a prompt drives it.

use vstd::prelude::*;
use crate::key::{Key, KeyModifiers, CONTROL};

verus! {

/// How much text an edit action covers.
#[derive(Copy, Clone, Debug, PartialEq, Eq, Structural)]
pub enum Magnitude {
    /// One character.
    Char,
    /// One word.
    Word,
    /// The rest of the line.
    Line,
}

/// The side of the text cursor on which an edit action works.
#[derive(Copy, Clone, Debug, PartialEq, Eq, Structural)]
pub enum LineDirection {
    /// Towards the start of the line.
    Left,
    /// Towards the end of the line.
    Right,
}

/// An edit of the filter text, or a move of the cursor inside it.
#[derive(Copy, Clone, Debug, PartialEq, Eq, Structural)]
pub enum InputAction {
    /// Deletes the given amount of text on the given side of the cursor.
    Delete(Magnitude, LineDirection),
    /// Moves the cursor by the given amount to the given side.
    MoveCursor(Magnitude, LineDirection),
    /// Writes a character at the cursor.
    Write(char),
}

/// What a text input reports after it has handled an action.
#[derive(Copy, Clone, Debug, PartialEq, Eq, Structural)]
pub enum InputActionResult {
    /// The text is no longer what it was.
    ContentChanged,
    /// The text is the same, the cursor inside it has moved.
    PositionChanged,
    /// Nothing has changed.
    Clean,
}

impl InputActionResult {
    /// Whether the input has to be drawn again.
    pub open spec fn redraw(self) -> bool {
        self != InputActionResult::Clean
    }

    /// Whether the input has to be drawn again.
    pub fn needs_redraw(&self) -> (needed: bool)
        ensures
            needed == self.redraw(),
    {
        match self {
            InputActionResult::Clean => false,
            _ => true,
        }
    }
}

/// The amount that a key covers: a word with Control held, else a character.
pub open spec fn reach(modifiers: KeyModifiers) -> Magnitude {
    if modifiers.holds(KeyModifiers { bits: CONTROL }) {
        Magnitude::Word
    } else {
        Magnitude::Char
    }
}

impl InputAction {
    /// The edit action that a key stands for, if any.
    ///
    /// Backspace and Delete remove text to the left and to the right, Left
    /// and Right move the cursor, each by a word when Control is held and by a
    /// character otherwise. Control-H removes the word to the left. Home and
    /// End move to the ends of the line. Every other character is written,
    /// whatever the modifiers. The remaining keys mean nothing to a text input.
    pub open spec fn decode(key: Key) -> Option<InputAction> {
        match key {
            Key::Backspace => Some(InputAction::Delete(Magnitude::Char, LineDirection::Left)),
            Key::Char(c, m) => if c == 'h' && m.holds(KeyModifiers { bits: CONTROL }) {
                Some(InputAction::Delete(Magnitude::Word, LineDirection::Left))
            } else {
                Some(InputAction::Write(c))
            },
            Key::Delete(m) => Some(InputAction::Delete(reach(m), LineDirection::Right)),
            Key::Home => Some(InputAction::MoveCursor(Magnitude::Line, LineDirection::Left)),
            Key::Left(m) => Some(InputAction::MoveCursor(reach(m), LineDirection::Left)),
            Key::End => Some(InputAction::MoveCursor(Magnitude::Line, LineDirection::Right)),
            Key::Right(m) => Some(InputAction::MoveCursor(reach(m), LineDirection::Right)),
            _ => None,
        }
    }

    /// Decodes a key into the edit action it stands for.
    pub fn from_key(key: Key, _config: &()) -> (action: Option<InputAction>)
        ensures
            action == Self::decode(key),
    {
        let action = match key {
            Key::Backspace => InputAction::Delete(Magnitude::Char, LineDirection::Left),
            Key::Char('h', m) if m.contains(KeyModifiers::control()) => {
                InputAction::Delete(Magnitude::Word, LineDirection::Left)
            },
            Key::Delete(m) if m.contains(KeyModifiers::control()) => {
                InputAction::Delete(Magnitude::Word, LineDirection::Right)
            },
            Key::Delete(_) => InputAction::Delete(Magnitude::Char, LineDirection::Right),
            Key::Home => InputAction::MoveCursor(Magnitude::Line, LineDirection::Left),
            Key::Left(m) if m.contains(KeyModifiers::control()) => {
                InputAction::MoveCursor(Magnitude::Word, LineDirection::Left)
            },
            Key::Left(_) => InputAction::MoveCursor(Magnitude::Char, LineDirection::Left),
            Key::End => InputAction::MoveCursor(Magnitude::Line, LineDirection::Right),
            Key::Right(m) if m.contains(KeyModifiers::control()) => {
                InputAction::MoveCursor(Magnitude::Word, LineDirection::Right)
            },
            Key::Right(_) => InputAction::MoveCursor(Magnitude::Char, LineDirection::Right),
            Key::Char(c, _) => InputAction::Write(c),
            _ => {
                return None;
            },
        };
        Some(action)
    }
}

/// The text input that a prompt keeps its filter in.
///
/// A prompt creates its input, hands it the edit actions that it decodes, and
/// reads the text back whenever it fetches options. Nothing is promised of
/// what an action does to the text: a prompt goes by the report alone.
pub trait TextInput: Sized {
    /// An input with no text.
    fn new() -> Self;

    /// An input that starts out with `content`.
    fn new_with(content: &str) -> Self;

    /// The text as it stands.
    fn content(&self) -> &str;

    /// Carries out `action` and reports what came of it.
    fn handle(&mut self, action: InputAction) -> InputActionResult;
}

} // verus!

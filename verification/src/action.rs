//! The actions of a select prompt, and the keys that stand for them.

use vstd::prelude::*;
use crate::config::CustomSelectConfig;
use crate::input::InputAction;
use crate::key::{Key, KeyModifiers, CONTROL};

verus! {

/// Set of actions for a select prompt.
#[derive(Copy, Clone, Debug, PartialEq, Eq, Structural)]
pub enum CustomSelectPromptAction {
    /// Action on the text input that holds the filter.
    FilterInput(InputAction),
    /// Moves the cursor to the option above.
    MoveUp,
    /// Moves the cursor to the option below.
    MoveDown,
    /// Moves the cursor to the page above.
    PageUp,
    /// Moves the cursor to the page below.
    PageDown,
    /// Moves the cursor to the start of the list.
    MoveToStart,
    /// Moves the cursor to the end of the list.
    MoveToEnd,
}

impl CustomSelectPromptAction {
    /// The action that moves the cursor for `key`, if it is one of the keys
    /// that do.
    ///
    /// With vim-style bindings, a bare `k` goes up and a bare `j` goes down,
    /// before anything else is looked at. Then the arrows Up and Down without
    /// a modifier, and `p` and `n` with Control and nothing else, go up and
    /// down by one; PageUp and PageDown go by a page; Home and End go to the
    /// ends of the list.
    pub open spec fn navigation(key: Key, config: CustomSelectConfig) -> Option<Self> {
        let bare = KeyModifiers { bits: 0 };
        let control = KeyModifiers { bits: CONTROL };
        if config.vim_mode && key == Key::Char('k', bare) {
            Some(CustomSelectPromptAction::MoveUp)
        } else if config.vim_mode && key == Key::Char('j', bare) {
            Some(CustomSelectPromptAction::MoveDown)
        } else if key == Key::Up(bare) || key == Key::Char('p', control) {
            Some(CustomSelectPromptAction::MoveUp)
        } else if key == Key::Down(bare) || key == Key::Char('n', control) {
            Some(CustomSelectPromptAction::MoveDown)
        } else if key == Key::PageUp {
            Some(CustomSelectPromptAction::PageUp)
        } else if key == Key::PageDown {
            Some(CustomSelectPromptAction::PageDown)
        } else if key == Key::Home {
            Some(CustomSelectPromptAction::MoveToStart)
        } else if key == Key::End {
            Some(CustomSelectPromptAction::MoveToEnd)
        } else {
            None
        }
    }

    /// The action that `key` stands for, if any: the one that moves the
    /// cursor where there is one, else the edit of the filter text that the
    /// key means to a text input, else nothing.
    pub open spec fn decode(key: Key, config: CustomSelectConfig) -> Option<Self> {
        match Self::navigation(key, config) {
            Some(action) => Some(action),
            None => match InputAction::decode(key) {
                Some(edit) => Some(CustomSelectPromptAction::FilterInput(edit)),
                None => None,
            },
        }
    }

    /// Decodes a key into the action it stands for under `config`. A key that
    /// stands for nothing gives `None`, and is to be ignored.
    pub fn from_key(key: Key, config: &CustomSelectConfig) -> (action: Option<Self>)
        ensures
            action == Self::decode(key, *config),
    {
        if config.vim_mode {
            let action = match key {
                Key::Char('k', m) if m.is_empty() => Some(CustomSelectPromptAction::MoveUp),
                Key::Char('j', m) if m.is_empty() => Some(CustomSelectPromptAction::MoveDown),
                _ => None,
            };
            if action.is_some() {
                return action;
            }
        }
        let action = match key {
            Key::Up(m) if m.is_empty() => CustomSelectPromptAction::MoveUp,
            Key::Char('p', m) if m == KeyModifiers::control() => CustomSelectPromptAction::MoveUp,
            Key::PageUp => CustomSelectPromptAction::PageUp,
            Key::Home => CustomSelectPromptAction::MoveToStart,
            Key::Down(m) if m.is_empty() => CustomSelectPromptAction::MoveDown,
            Key::Char('n', m) if m == KeyModifiers::control() => CustomSelectPromptAction::MoveDown,
            Key::PageDown => CustomSelectPromptAction::PageDown,
            Key::End => CustomSelectPromptAction::MoveToEnd,
            key => match InputAction::from_key(key, &()) {
                Some(action) => CustomSelectPromptAction::FilterInput(action),
                None => {
                    return None;
                },
            },
        };
        Some(action)
    }
}

} // verus!

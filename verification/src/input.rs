//! Navigation commands and the key-to-command mapping.
//!
//! The explorer core only ever sees an [`Input`]: one of a closed set of
//! navigation commands. Host input systems deliver their own raw event types;
//! an embedding translates a raw key press into a [`KeyEvent`] and obtains the
//! command through `Input::from`. The mapping is total: keys outside the table
//! yield `Input::NoOp`.

use vstd::prelude::*;

verus! {

/// A navigation command for a file explorer.
#[derive(Debug, Clone, Copy, PartialEq, Eq, Hash, Structural)]
pub enum Input {
    /// Move the selection up.
    Up,
    /// Move the selection down.
    Down,
    /// Select the first entry.
    Home,
    /// Select the last entry.
    End,
    /// Scroll several entries up.
    PageUp,
    /// Scroll several entries down.
    PageDown,
    /// Go to the parent directory.
    Left,
    /// Go to the child directory (if the selected entry is a directory).
    Right,
    /// Toggle between showing and hiding hidden files.
    ToggleShowHidden,
    /// Do nothing (unrecognized keys map here).
    NoOp,
}

/// A key, as far as the command table cares: either a printable character or
/// one of the named navigation keys. Everything else is `Other`.
#[derive(Debug, Clone, Copy, PartialEq, Eq, Hash, Structural)]
pub enum Key {
    /// A printable character.
    Char(char),
    /// The up arrow.
    Up,
    /// The down arrow.
    Down,
    /// The left arrow.
    Left,
    /// The right arrow.
    Right,
    /// The backspace key.
    Backspace,
    /// The enter key.
    Enter,
    /// The home key.
    Home,
    /// The end key.
    End,
    /// The page-up key.
    PageUp,
    /// The page-down key.
    PageDown,
    /// Any key the table does not recognize.
    Other,
}

/// A key press: the key together with whether the control modifier was held.
#[derive(Debug, Clone, Copy, PartialEq, Eq, Hash, Structural)]
pub struct KeyEvent {
    /// The key that was pressed.
    pub key: Key,
    /// Whether the control modifier was held.
    pub ctrl: bool,
}

/// The command table: vi-style and named-key synonyms for moving the
/// selection, entering the child or parent directory, and (on control-h)
/// toggling hidden-file visibility.
pub open spec fn input_for(ev: KeyEvent) -> Input {
    match ev.key {
        Key::Char(c) => {
            if c == 'j' {
                Input::Down
            } else if c == 'k' {
                Input::Up
            } else if c == 'h' {
                if ev.ctrl {
                    Input::ToggleShowHidden
                } else {
                    Input::Left
                }
            } else if c == 'l' {
                Input::Right
            } else {
                Input::NoOp
            }
        },
        Key::Up => Input::Up,
        Key::Down => Input::Down,
        Key::Left => Input::Left,
        Key::Backspace => Input::Left,
        Key::Right => Input::Right,
        Key::Enter => Input::Right,
        Key::Home => Input::Home,
        Key::End => Input::End,
        Key::PageUp => Input::PageUp,
        Key::PageDown => Input::PageDown,
        Key::Other => Input::NoOp,
    }
}

impl From<KeyEvent> for Input {
    /// Translate a key press into a navigation command, following the
    /// command table.
    fn from(ev: KeyEvent) -> (r: Input)
        ensures
            r == input_for(ev),
    {
        match ev.key {
            Key::Char(c) => {
                if c == 'j' {
                    Input::Down
                } else if c == 'k' {
                    Input::Up
                } else if c == 'h' {
                    if ev.ctrl {
                        Input::ToggleShowHidden
                    } else {
                        Input::Left
                    }
                } else if c == 'l' {
                    Input::Right
                } else {
                    Input::NoOp
                }
            },
            Key::Up => Input::Up,
            Key::Down => Input::Down,
            Key::Left => Input::Left,
            Key::Backspace => Input::Left,
            Key::Right => Input::Right,
            Key::Enter => Input::Right,
            Key::Home => Input::Home,
            Key::End => Input::End,
            Key::PageUp => Input::PageUp,
            Key::PageDown => Input::PageDown,
            Key::Other => Input::NoOp,
        }
    }
}

impl vstd::std_specs::convert::FromSpecImpl<KeyEvent> for Input {
    open spec fn obeys_from_spec() -> bool {
        true
    }

    open spec fn from_spec(ev: KeyEvent) -> Input {
        input_for(ev)
    }
}

} // verus!

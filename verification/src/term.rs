//! Line editing for the terminal of the interactive interpreter.
//!
//! The terminal reads key events one at a time; `edit_line` decides what
//! each one does to the line being typed and what the terminal must do.

use vstd::prelude::*;

verus! {

/// Why no line was read.
#[derive(Debug, Clone, Copy, PartialEq, Eq, Structural)]
pub enum Error {
    /// Ctrl-D was pressed.
    Eof,
    /// The terminal failed.
    Other,
}

/// A raw-mode terminal.
pub struct Term {}

/// A key event, as far as line editing tells them apart.
#[derive(Debug, Clone, Copy, PartialEq, Eq, Structural)]
pub enum Key {
    /// Backspace without modifiers.
    Backspace,
    /// Enter without modifiers.
    Enter,
    /// A character key without modifiers.
    Char(char),
    /// Ctrl-D.
    CtrlD,
    /// Any other key or modifier combination.
    Other,
}

/// What the terminal must do after a key event.
#[derive(Debug, Clone, Copy, PartialEq, Eq, Structural)]
pub enum Edit {
    /// Keep reading; echo a character, or move the cursor one place left.
    Continue { echo: Option<char>, move_left: bool },
    /// The line is complete.
    Done,
    /// End of input.
    Eof,
}

/// The line and the terminal action after key `key` on line `line`.
pub open spec fn edit_spec(line: Seq<char>, key: Key) -> (Seq<char>, Edit) {
    match key {
        Key::Backspace => if line.len() > 0 {
            (line.drop_last(), Edit::Continue { echo: None, move_left: true })
        } else {
            (line, Edit::Continue { echo: None, move_left: false })
        },
        Key::Enter => (line, Edit::Done),
        Key::Char(ch) => (line.push(ch), Edit::Continue { echo: Some(ch), move_left: false }),
        Key::CtrlD => (line, Edit::Eof),
        Key::Other => (line, Edit::Continue { echo: None, move_left: false }),
    }
}

/// Apply key `key` to the line being typed.
pub fn edit_line(buffer: &mut Vec<char>, key: Key) -> (r: Edit)
    ensures
        (final(buffer)@, r) == edit_spec(old(buffer)@, key),
{
    match key {
        Key::Backspace => {
            if buffer.len() > 0 {
                buffer.pop();
                Edit::Continue { echo: None, move_left: true }
            } else {
                Edit::Continue { echo: None, move_left: false }
            }
        },
        Key::Enter => Edit::Done,
        Key::Char(ch) => {
            buffer.push(ch);
            Edit::Continue { echo: Some(ch), move_left: false }
        },
        Key::CtrlD => Edit::Eof,
        Key::Other => Edit::Continue { echo: None, move_left: false },
    }
}

} // verus!

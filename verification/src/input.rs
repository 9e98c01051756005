//! Result and error types of an editing session, and the key events that
//! drive it.

use vstd::prelude::*;
use vstd::string::StringExecFns;

verus! {

/// An error reported by the terminal: a failed write or cursor query.
#[derive(Debug)]
pub struct TermError {
    pub message: String,
}

impl TermError {
    pub fn new(message: String) -> (r: TermError)
        ensures
            r.message == message,
    {
        TermError { message }
    }
}

/// The outcome of a finalized editing session: the typed text, or an
/// explicit cancel signal.
#[derive(Debug)]
pub enum Input {
    Text(String),
    Exit,
}

/// Why an edit or a whole editing session was rejected.
#[derive(Debug)]
pub enum InputError {
    /// The finalized buffer was empty or whitespace-only.
    EmptyString,
    /// A typed character does not fit in a single byte.
    NotSingleByte(char),
    /// A terminal write or cursor query failed; the message carries the
    /// cause.
    Io(String),
}

/// The line reported to the user for each input error.
pub open spec fn error_message(e: InputError) -> Seq<char> {
    match e {
        InputError::EmptyString => "Input was empty"@,
        InputError::NotSingleByte(_) => "Input was not a single-byte character"@,
        InputError::Io(m) => m@,
    }
}

impl InputError {
    /// The human-readable description of this error.
    pub fn message(&self) -> (r: String)
        ensures
            r@ == error_message(*self),
    {
        match self {
            InputError::EmptyString => String::from_str("Input was empty"),
            InputError::NotSingleByte(_) => String::from_str("Input was not a single-byte character"),
            InputError::Io(m) => m.clone(),
        }
    }
}

/// A key event fed to the dispatcher or the line editor.
#[derive(PartialEq, Eq, Structural, Clone, Copy, Debug)]
pub enum KeyEvent {
    /// A typed character; enter arrives as `Char('\n')`.
    Char(char),
    Backspace,
    Left,
    Right,
    Esc,
    /// Any key the launcher does not react to.
    Unknown,
}

} // verus!

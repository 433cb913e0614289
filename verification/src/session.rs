//! Session-level data shapes: the terminal size handed to the
//! pseudo-terminal, one tagged chunk of raw output, and the record kept per
//! open session.

use vstd::prelude::*;

verus! {

/// A terminal size in character cells and optional pixel dimensions.
#[derive(Debug, Clone, Copy, PartialEq, Eq, Structural)]
pub struct TerminalSize {
    pub cols: u16,
    pub rows: u16,
    pub pixel_width: u16,
    pub pixel_height: u16,
}

/// One chunk of raw output read from a session's pseudo-terminal. Chunk
/// boundaries carry no meaning: a chunk may end in the middle of an escape
/// sequence, and every consumer tolerates that.
#[derive(Debug, Clone, PartialEq, Eq)]
pub struct TerminalOutput {
    pub session_id: String,
    pub data: String,
}

/// The descriptive record of one pseudo-terminal session.
#[derive(Debug, Clone, PartialEq, Eq)]
pub struct PtySession {
    pub id: String,
    pub size: TerminalSize,
    pub shell: String,
    pub working_dir: String,
}

/// Why a session operation was refused. Errors are values: one session's
/// failure never unwinds another's processing.
#[derive(Debug, Clone, Copy, PartialEq, Eq, Structural)]
pub enum TermError {
    /// The named session is not registered (or no longer is).
    SessionNotFound,
    /// A requested size had no rows or no columns.
    InvalidSize,
    /// A freshly drawn session id collided with a registered one.
    DuplicateSession,
}

impl TermError {
    /// A descriptive message for the failure.
    pub fn message(&self) -> (r: String)
        ensures
            self is SessionNotFound ==> r@ == "Session not found"@,
            self is InvalidSize ==> r@ == "Terminal size must have at least one row and one column"@,
            self is DuplicateSession ==> r@ == "Session id already registered"@,
    {
        match self {
            TermError::SessionNotFound => String::from_str("Session not found"),
            TermError::InvalidSize => String::from_str(
                "Terminal size must have at least one row and one column",
            ),
            TermError::DuplicateSession => String::from_str("Session id already registered"),
        }
    }
}

} // verus!

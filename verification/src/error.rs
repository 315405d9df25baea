//! The failure values extraction can return: an underlying I/O failure, a
//! starting position that cannot be left in the requested direction, or a
//! bound on the wrong side of the start.

use vstd::prelude::*;
use vstd::string::StringExecFns;

verus! {

/// Why a call failed. Every failure is terminal; nothing is retried.
#[derive(Debug)]
pub enum Error {
    /// An underlying filesystem or read failure, with its description.
    File(String),
    /// The starting position and the direction are logically incompatible:
    /// nothing lies behind the first line or ahead of the last.
    InvalidDirection { pos: String, dir: String },
    /// The bound lies on the wrong side of the starting line for the
    /// direction of travel.
    MaxLinePosition { cmp: String, dir: String },
}

/// The rendered description of an error, character for character.
pub open spec fn error_message(e: Error) -> Seq<char> {
    match e {
        Error::File(_) => "File error."@,
        Error::InvalidDirection { pos, dir } => "Cannot go \""@ + dir@ + "\" from the \""@
            + pos@ + "\" position."@,
        Error::MaxLinePosition { cmp, dir } => "Cannot have a max line position \""@ + cmp@
            + "\" than the current line position when the direction is \""@ + dir@ + "\"."@,
    }
}

impl Error {
    /// Renders the error as the message a caller would show.
    pub fn message(&self) -> (m: String)
        ensures
            m@ == error_message(*self),
    {
        match self {
            Error::File(_) => String::from_str("File error."),
            Error::InvalidDirection { pos, dir } => {
                let mut m = String::from_str("Cannot go \"");
                m.append(dir.as_str());
                m.append("\" from the \"");
                m.append(pos.as_str());
                m.append("\" position.");
                m
            },
            Error::MaxLinePosition { cmp, dir } => {
                let mut m = String::from_str("Cannot have a max line position \"");
                m.append(cmp.as_str());
                m.append("\" than the current line position when the direction is \"");
                m.append(dir.as_str());
                m.append("\".");
                m
            },
        }
    }
}

} // verus!

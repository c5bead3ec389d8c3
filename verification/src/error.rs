//! The ways in which a run fails, the line that reports each, and the exit
//! code of a run.

use vstd::prelude::*;

verus! {

/// Why a path names no repository.
#[derive(Clone, Copy, Debug, PartialEq, Eq, Structural)]
pub enum Missing {
    /// The path leads to no directory: to a file, or to nothing at all.
    NotADirectory,
    /// The path has no final component to take a name from, as `/` has none.
    NoName,
}

/// The ways in which a run fails. Each ends the run: nothing is tried again.
#[derive(Clone, Copy, Debug, PartialEq, Eq, Structural)]
pub enum Error {
    /// The repository path names no repository.
    NotFound(Missing),
    /// The update command did not end in success.
    UpdateFailed,
    /// The table of last updates could not be read or written.
    StorageError,
}

impl Error {
    /// The line that reports this error.
    pub open spec fn message_text(self) -> Seq<char> {
        match self {
            Error::NotFound(Missing::NotADirectory) => "not a directory"@,
            Error::NotFound(Missing::NoName) => "did you attempt to update root?"@,
            Error::UpdateFailed => "repository failed to update"@,
            Error::StorageError => "update times could not be read or written"@,
        }
    }

    /// The line that reports this error, for the error stream.
    pub fn message(&self) -> (line: String)
        ensures
            line@ == self.message_text(),
    {
        match self {
            Error::NotFound(Missing::NotADirectory) => "not a directory".to_owned(),
            Error::NotFound(Missing::NoName) => "did you attempt to update root?".to_owned(),
            Error::UpdateFailed => "repository failed to update".to_owned(),
            Error::StorageError => "update times could not be read or written".to_owned(),
        }
    }
}

/// The exit code of a run: 0 where it succeeded, an update that was skipped
/// included, and 1 where it failed.
pub fn exit_code(outcome: &Result<(), Error>) -> (code: i32)
    ensures
        code == if outcome is Ok {
            0i32
        } else {
            1i32
        },
{
    match outcome {
        Ok(_) => 0,
        Err(_) => 1,
    }
}

} // verus!

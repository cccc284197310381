//! The two ways in which fetching text can fail.

use vstd::prelude::*;
use vstd::string::StringExecFns;

verus! {

/// Why no text could be handed out. Each kind carries what the failing call
/// said of the failure, word for word.
#[derive(Debug, PartialEq, Eq)]
pub enum Error {
    /// The clipboard could not be opened, read or written.
    Clipboard(String),
    /// Standard input could not be read, or what it held is not UTF-8.
    Io(String),
}

impl Error {
    /// What the failing call said.
    pub open spec fn detail(&self) -> Seq<char> {
        match self {
            Error::Clipboard(detail) => detail@,
            Error::Io(detail) => detail@,
        }
    }

    /// The words that open the message of an error of this kind.
    pub open spec fn prefix(&self) -> Seq<char> {
        match self {
            Error::Clipboard(_) => "clipboard: "@,
            Error::Io(_) => "io: "@,
        }
    }

    /// The error in words: the kind, then what the failing call said.
    pub fn message(&self) -> (text: String)
        ensures
            text@ == self.prefix() + self.detail(),
    {
        match self {
            Error::Clipboard(detail) => String::from_str("clipboard: ").concat(detail.as_str()),
            Error::Io(detail) => String::from_str("io: ").concat(detail.as_str()),
        }
    }
}

/// Files a failure of the clipboard under `Error::Clipboard`, with what the
/// failing call said, and leaves a success as it is.
pub fn clipboard_failure<T>(outcome: Result<T, String>) -> (r: Result<T, Error>)
    ensures
        r == match outcome {
            Ok(value) => Ok::<T, Error>(value),
            Err(detail) => Err::<T, Error>(Error::Clipboard(detail)),
        },
{
    match outcome {
        Ok(value) => Ok(value),
        Err(detail) => Err(Error::Clipboard(detail)),
    }
}

/// Files a failure of standard input under `Error::Io`, with what the failing
/// read said, and leaves a success as it is.
pub fn io_failure<T>(outcome: Result<T, String>) -> (r: Result<T, Error>)
    ensures
        r == match outcome {
            Ok(value) => Ok::<T, Error>(value),
            Err(detail) => Err::<T, Error>(Error::Io(detail)),
        },
{
    match outcome {
        Ok(value) => Ok(value),
        Err(detail) => Err(Error::Io(detail)),
    }
}

} // verus!

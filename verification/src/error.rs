//! Error values shared by every operation of the library.

use vstd::prelude::*;

verus! {

/// What went wrong, independent of the message text.
#[derive(Clone, Copy, Debug, PartialEq, Eq, Structural)]
pub enum ErrorKind {
    /// An archive, program or directory that must exist does not.
    NotFound,
    /// A parameter has the wrong shape: wrong file type, unsafe entry name.
    InvalidInput,
    /// The operating system or the archive reader refused an operation.
    OsOperationFailed,
    /// A directory could not be derived from the given path.
    Unresolvable,
}

/// A terminal failure: its kind and a message for the user.
#[derive(Debug)]
pub struct HostError {
    pub kind: ErrorKind,
    pub message: String,
}

/// An error as plain values.
pub struct ErrorView {
    pub kind: ErrorKind,
    pub message: Seq<char>,
}

impl View for HostError {
    type V = ErrorView;

    open spec fn view(&self) -> ErrorView {
        ErrorView { kind: self.kind, message: self.message@ }
    }
}

impl HostError {
    /// Builds an error of `kind` whose message is `message`.
    pub fn new(kind: ErrorKind, message: &str) -> (e: HostError)
        ensures
            e.kind == kind,
            e.message@ == message@,
            e@ == (ErrorView { kind, message: message@ }),
    {
        HostError { kind, message: String::from_str(message) }
    }

    /// The message as an owned string.
    pub fn text(&self) -> (s: String)
        ensures
            s@ == self.message@,
    {
        self.message.clone()
    }
}

} // verus!

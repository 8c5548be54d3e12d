//! The errors that value operations report.

use vstd::prelude::*;

verus! {

/// The kind of failure that an operation on a value ended in.
#[derive(Clone, Copy, Debug, PartialEq, Eq, Structural)]
pub enum ErrorKind {
    /// The call has a shape the callee does not take, or reaches for state
    /// that is gone.
    InvalidOperation,
    /// The object has no method of the requested name.
    UnknownMethod,
    /// More arguments were passed than the callee binds: a surplus positional
    /// argument, a parameter bound twice, or a keyword nobody consumes.
    TooManyArguments,
}

/// A failure: its kind and, where there is more to say, a detail message.
#[derive(Debug)]
pub struct Error {
    pub kind: ErrorKind,
    pub detail: Option<String>,
}

/// What an [`Error`] says: its kind and the characters of its detail message.
pub struct ErrorView {
    pub kind: ErrorKind,
    pub detail: Option<Seq<char>>,
}

impl View for Error {
    type V = ErrorView;

    open spec fn view(&self) -> ErrorView {
        ErrorView {
            kind: self.kind,
            detail: match self.detail {
                Some(d) => Some(d@),
                None => None,
            },
        }
    }
}

impl Error {
    /// An error of the given kind with a detail message.
    pub fn new(kind: ErrorKind, detail: String) -> (e: Error)
        ensures
            e@ == (ErrorView { kind, detail: Some(detail@) }),
    {
        Error { kind, detail: Some(detail) }
    }

    /// An error of the given kind without a detail message.
    pub fn from_kind(kind: ErrorKind) -> (e: Error)
        ensures
            e@ == (ErrorView { kind, detail: None }),
    {
        Error { kind, detail: None }
    }

    /// The kind of this error.
    pub fn kind(&self) -> (k: ErrorKind)
        ensures
            k == self@.kind,
    {
        self.kind
    }

    /// The detail message, if the error carries one.
    pub fn detail(&self) -> (d: Option<&str>)
        ensures
            match d {
                Some(s) => self@.detail == Some(s@),
                None => self@.detail is None,
            },
    {
        match &self.detail {
            Some(s) => Some(s.as_str()),
            None => None,
        }
    }
}

} // verus!

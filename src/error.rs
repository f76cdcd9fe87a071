//! The closed set of error kinds, each with a message for humans.

use vstd::prelude::*;

verus! {

/// What went wrong, as far as callers need to decide what to do about it.
#[derive(Clone, Copy, Debug, PartialEq, Eq, Structural)]
pub enum ErrorKind {
    /// A filesystem failure other than a missing file.
    Io,
    /// Data that could not be decoded or lacks a required value.
    InvalidData,
    /// No project, or a file that was looked for does not exist.
    NotFound,
}

/// An error of a given kind with a message for humans.
#[derive(Clone, Debug)]
pub struct Error {
    pub kind: ErrorKind,
    pub message: String,
}

/// The mathematical value of an [`Error`].
pub ghost struct ErrorView {
    pub kind: ErrorKind,
    pub message: Seq<char>,
}

impl View for Error {
    type V = ErrorView;

    open spec fn view(&self) -> ErrorView {
        ErrorView { kind: self.kind, message: self.message@ }
    }
}

/// The value of an error of `kind` with `message`.
pub open spec fn error_view(kind: ErrorKind, message: Seq<char>) -> ErrorView {
    ErrorView { kind, message }
}

impl Error {
    /// Creates an error of the given kind.
    pub fn new(kind: ErrorKind, message: String) -> (r: Error)
        ensures
            r@ == error_view(kind, message@),
    {
        Error { kind, message }
    }

    /// Gets the kind of this error.
    pub fn kind(&self) -> (r: &ErrorKind)
        ensures
            *r == self.kind,
    {
        &self.kind
    }

    /// Gets the message of this error.
    pub fn message(&self) -> (r: &str)
        ensures
            r@ == self.message@,
    {
        self.message.as_str()
    }
}

} // verus!

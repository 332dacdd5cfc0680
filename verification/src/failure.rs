//! Errors of the workspace operations.

use vstd::prelude::*;

verus! {

/// The kinds of error, each with its own policy.
#[derive(Debug, Clone, Copy, PartialEq, Eq, Structural)]
pub enum ErrorKind {
    /// The user's input cannot be acted on: an ambiguous reference, a path
    /// that escapes the workspace, a malformed repository ID.
    UserInput,
    /// Something that the operation relies on does not hold: the path is no
    /// baum, the repository is not registered, the destination exists.
    Precondition,
    /// A run of `git` failed.
    Git,
    /// A file or a directory is missing or cannot be read or written.
    Filesystem,
    /// A file that the workspace manages is missing.
    Integrity,
    /// The driver answered a request with a reply of another kind.
    Driver,
}

/// An error: its kind and the message for the user.
#[derive(Debug, PartialEq, Eq)]
pub struct Failure {
    pub kind: ErrorKind,
    pub message: String,
}

/// The value of a `Failure`.
pub struct FailureView {
    pub kind: ErrorKind,
    pub message: Seq<char>,
}

impl View for Failure {
    type V = FailureView;

    open spec fn view(&self) -> FailureView {
        FailureView { kind: self.kind, message: self.message@ }
    }
}

impl DeepView for Failure {
    type V = FailureView;

    open spec fn deep_view(&self) -> FailureView {
        self@
    }
}

impl Clone for Failure {
    fn clone(&self) -> (r: Self)
        ensures
            r@ == self@,
    {
        Failure { kind: self.kind, message: self.message.clone() }
    }
}

/// The error of the given kind with the given message.
pub open spec fn failure(kind: ErrorKind, message: Seq<char>) -> FailureView {
    FailureView { kind, message }
}

impl Failure {
    /// The failure of the given kind with the given message.
    pub fn new(kind: ErrorKind, message: String) -> (out: Self)
        ensures
            out@ == failure(kind, message@),
    {
        Failure { kind, message }
    }
}

} // verus!

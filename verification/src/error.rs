//! The two kinds of failure of a board operation, and what a storage
//! operation reports when it does not succeed.

use vstd::prelude::*;

verus! {

/// Why a board operation failed. Either kind fails the whole request: there is
/// no retry and no partial page.
#[derive(Clone, Copy, Debug, PartialEq, Eq, Structural)]
pub enum BoardError {
    /// The storage failed in some way other than the document being absent.
    StorageFailure,
    /// The template engine did not produce the page.
    RenderFailure,
}

/// What the storage reports when an operation on the document did not succeed.
#[derive(Clone, Copy, Debug, PartialEq, Eq, Structural)]
pub enum Fault {
    /// The backing resource does not exist.
    NotFound,
    /// Anything else: missing permissions, a disk error.
    Other,
}

impl BoardError {
    /// The text of the message for this kind of failure.
    pub open spec fn message_text(self) -> Seq<char> {
        match self {
            BoardError::StorageFailure => "the document could not be stored or read"@,
            BoardError::RenderFailure => "the page could not be rendered"@,
        }
    }

    /// A short message for the response that reports the failure.
    pub fn message(&self) -> (text: &'static str)
        ensures
            text@ == self.message_text(),
    {
        match self {
            BoardError::StorageFailure => "the document could not be stored or read",
            BoardError::RenderFailure => "the page could not be rendered",
        }
    }
}

} // verus!

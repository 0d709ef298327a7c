//! Why a resolution ended without an address.

use crate::slots::Slot;
use vstd::prelude::*;
use vstd::string::*;

verus! {

/// The kinds of failure.
#[derive(Clone, Copy, Debug, PartialEq, Eq, Structural)]
pub enum ErrorKind {
    /// The backend could not be reached, or did not answer in its format.
    BackendQueryError,
    /// An answer did not have the shape of the record asked for.
    DeserializationError,
    /// Nothing refers to an anchor string.
    NoReferencesFound,
    /// Nothing calls the sleep primitive.
    NoCandidateFunctionsFound,
    /// No caller of the wait routine is itself referred to.
    NoCallerChainFound,
    /// The update routine names no function exactly twice.
    NoCandidateWithExpectedCount,
    /// The binary does not import the sleep primitive.
    ImportNotFound,
}

impl ErrorKind {
    /// The kind in words.
    pub open spec fn text(self) -> Seq<char> {
        match self {
            ErrorKind::BackendQueryError => "backend query failed"@,
            ErrorKind::DeserializationError => "response does not have the expected shape"@,
            ErrorKind::NoReferencesFound => "no references found"@,
            ErrorKind::NoCandidateFunctionsFound => "no candidate functions found"@,
            ErrorKind::NoCallerChainFound => "no caller chain found"@,
            ErrorKind::NoCandidateWithExpectedCount => "no candidate with the expected count"@,
            ErrorKind::ImportNotFound => "import not found"@,
        }
    }

    /// The kind in words.
    pub fn describe(&self) -> (words: &'static str)
        ensures
            words@ == self.text(),
    {
        match self {
            ErrorKind::BackendQueryError => "backend query failed",
            ErrorKind::DeserializationError => "response does not have the expected shape",
            ErrorKind::NoReferencesFound => "no references found",
            ErrorKind::NoCandidateFunctionsFound => "no candidate functions found",
            ErrorKind::NoCallerChainFound => "no caller chain found",
            ErrorKind::NoCandidateWithExpectedCount => "no candidate with the expected count",
            ErrorKind::ImportNotFound => "import not found",
        }
    }
}

/// A failure, with the resolution whose step it ended.
#[derive(Clone, Copy, Debug, PartialEq, Eq, Structural)]
pub struct ResolveError {
    /// The slot whose heuristic failed. Where a resolution fails in a
    /// dependency, this is the dependency.
    pub slot: Slot,
    pub kind: ErrorKind,
}

impl ResolveError {
    /// The message of the failure: the slot's name, a colon and the kind in
    /// words.
    pub open spec fn message_text(self) -> Seq<char> {
        self.slot.name_text() + ": "@ + self.kind.text()
    }

    /// The message of the failure.
    pub fn message(&self) -> (message: String)
        ensures
            message@ == self.message_text(),
    {
        let mut message = String::from_str(self.slot.name());
        message.append(": ");
        message.append(self.kind.describe());
        message
    }
}

} // verus!

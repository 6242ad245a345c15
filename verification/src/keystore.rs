//! Failures of the store that holds the peer's key material.
//!
//! The cases of the store stay hidden. A failure answers two questions, whether
//! the passphrase was wrong and whether a key exists already, and describes
//! itself in text.

use vstd::prelude::*;

verus! {

/// Failure of creating or unsealing the key.
#[derive(Clone, Debug, PartialEq, Eq)]
pub struct Error {
    invalid_passphrase: bool,
    key_exists: bool,
    description: String,
}

/// Mathematical content of an [`Error`].
pub struct ErrorView {
    pub invalid_passphrase: bool,
    pub key_exists: bool,
    pub description: Seq<char>,
}

impl View for Error {
    type V = ErrorView;

    closed spec fn view(&self) -> ErrorView {
        ErrorView {
            invalid_passphrase: self.invalid_passphrase,
            key_exists: self.key_exists,
            description: self.description@,
        }
    }
}

impl Error {
    /// A failure that gives the two answers and describes itself as `description`.
    pub fn new(invalid_passphrase: bool, key_exists: bool, description: String) -> (err: Error)
        ensures
            err@ == (ErrorView { invalid_passphrase, key_exists, description: description@ }),
    {
        Error { invalid_passphrase, key_exists, description }
    }

    /// Whether the key could not be unsealed because the passphrase was wrong.
    pub fn is_invalid_passphrase(&self) -> (answer: bool)
        ensures
            answer == self@.invalid_passphrase,
    {
        self.invalid_passphrase
    }

    /// Whether a key could not be created because one exists already.
    pub fn is_key_exists(&self) -> (answer: bool)
        ensures
            answer == self@.key_exists,
    {
        self.key_exists
    }

    /// The text that describes the failure.
    pub fn to_string(&self) -> (text: String)
        ensures
            text@ == self@.description,
    {
        self.description.clone()
    }
}

} // verus!

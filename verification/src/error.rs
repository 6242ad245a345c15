//! Failures that a request handler can end in.

use vstd::prelude::*;
use crate::keystore;
use crate::source;
use crate::state;

verus! {

/// All failures that the handlers of the API report.
///
/// A case that wraps a failure of a collaborator without looking into it
/// carries that failure's text.
#[derive(Clone, Debug, PartialEq, Eq)]
pub enum Error {
    /// The key store failed.
    Keystore(keystore::Error),
    /// An operation on the peer's state failed.
    State(state::Error),
    /// Browsing the source code failed.
    Source(source::Error),
    /// The peer failed.
    Peer(String),
    /// An I/O failure occurred.
    Io(String),
    /// The session is claimed by the identity with the given address.
    SessionInUse(String),
    /// The persistent storage failed.
    Store(String),
    /// The key store is sealed.
    KeystoreSealed,
    /// The authentication token of the request differs from the expected one.
    InvalidAuthCookie,
    /// The waiting room for requests failed.
    WaitingRoom(String),
    /// The project is unknown.
    ProjectNotFound,
    /// The project has no default branch.
    MissingDefaultBranch,
}

/// Mathematical content of an [`Error`].
pub enum ErrorView {
    Keystore(keystore::ErrorView),
    State(state::ErrorView),
    Source(source::ErrorView),
    Peer(Seq<char>),
    Io(Seq<char>),
    SessionInUse(Seq<char>),
    Store(Seq<char>),
    KeystoreSealed,
    InvalidAuthCookie,
    WaitingRoom(Seq<char>),
    ProjectNotFound,
    MissingDefaultBranch,
}

impl View for Error {
    type V = ErrorView;

    open spec fn view(&self) -> ErrorView {
        match self {
            Error::Keystore(err) => ErrorView::Keystore(err@),
            Error::State(err) => ErrorView::State(err@),
            Error::Source(err) => ErrorView::Source(err@),
            Error::Peer(description) => ErrorView::Peer(description@),
            Error::Io(description) => ErrorView::Io(description@),
            Error::SessionInUse(urn) => ErrorView::SessionInUse(urn@),
            Error::Store(description) => ErrorView::Store(description@),
            Error::KeystoreSealed => ErrorView::KeystoreSealed,
            Error::InvalidAuthCookie => ErrorView::InvalidAuthCookie,
            Error::WaitingRoom(description) => ErrorView::WaitingRoom(description@),
            Error::ProjectNotFound => ErrorView::ProjectNotFound,
            Error::MissingDefaultBranch => ErrorView::MissingDefaultBranch,
        }
    }
}

} // verus!

//! Failures reported by the peer state engine: project checkout, project
//! creation, storage access and identity management.
//!
//! Every case either ends in descriptive text or wraps exactly one failure of
//! the next deeper layer, so a value is a tree of finite depth. The text a
//! case carries is the text a client is shown for it.

use vstd::prelude::*;

verus! {

/// Failure of checking out a working copy of a project.
#[derive(Clone, Debug, PartialEq, Eq)]
pub enum Checkout {
    /// The target path is already taken.
    AlreadyExists { description: String },
    /// The version-control engine failed; `message` is the engine's own message.
    Git { message: String },
    /// The include file could not be written.
    Include { description: String },
    /// Reading or writing the working copy failed.
    Io { description: String },
    /// The transport to the remote failed.
    Transport { description: String },
    /// The path prefix could not be determined.
    Prefix { description: String },
}

/// Mathematical content of a [`Checkout`].
pub enum CheckoutView {
    AlreadyExists { description: Seq<char> },
    Git { message: Seq<char> },
    Include { description: Seq<char> },
    Io { description: Seq<char> },
    Transport { description: Seq<char> },
    Prefix { description: Seq<char> },
}

impl View for Checkout {
    type V = CheckoutView;

    open spec fn view(&self) -> CheckoutView {
        match self {
            Checkout::AlreadyExists { description } => CheckoutView::AlreadyExists {
                description: description@,
            },
            Checkout::Git { message } => CheckoutView::Git { message: message@ },
            Checkout::Include { description } => CheckoutView::Include {
                description: description@,
            },
            Checkout::Io { description } => CheckoutView::Io { description: description@ },
            Checkout::Transport { description } => CheckoutView::Transport {
                description: description@,
            },
            Checkout::Prefix { description } => CheckoutView::Prefix { description: description@ },
        }
    }
}

/// Failure of validating the inputs for a new project.
#[derive(Clone, Debug, PartialEq, Eq)]
pub enum Validation {
    /// A repository already exists at the path.
    AlreadyExists { description: String },
    /// The existing path is empty.
    EmptyExistingPath { description: String },
    /// The version-control engine failed.
    Git { description: String },
    /// The engine configuration names no author email.
    MissingAuthorEmail { description: String },
    /// No engine configuration was found.
    MissingGitConfig { description: String },
    /// The engine configuration names no author name.
    MissingAuthorName { description: String },
    /// The repository lacks the requested default branch.
    MissingDefaultBranch { description: String },
    /// The remote has no URL.
    MissingUrl { description: String },
    /// The path does not exist.
    PathDoesNotExist { description: String },
    /// The path holds no repository.
    NotARepo { description: String },
    /// Reading the path failed; `description` is the text of the I/O failure.
    Io { description: String },
    /// The remote's URL differs from the expected one.
    UrlMismatch { description: String },
    /// The transport to the remote failed.
    Transport { description: String },
    /// The expected remote is missing.
    Remote { description: String },
}

/// Mathematical content of a [`Validation`].
pub enum ValidationView {
    AlreadyExists { description: Seq<char> },
    EmptyExistingPath { description: Seq<char> },
    Git { description: Seq<char> },
    MissingAuthorEmail { description: Seq<char> },
    MissingGitConfig { description: Seq<char> },
    MissingAuthorName { description: Seq<char> },
    MissingDefaultBranch { description: Seq<char> },
    MissingUrl { description: Seq<char> },
    PathDoesNotExist { description: Seq<char> },
    NotARepo { description: Seq<char> },
    Io { description: Seq<char> },
    UrlMismatch { description: Seq<char> },
    Transport { description: Seq<char> },
    Remote { description: Seq<char> },
}

impl View for Validation {
    type V = ValidationView;

    open spec fn view(&self) -> ValidationView {
        match self {
            Validation::AlreadyExists { description } => ValidationView::AlreadyExists {
                description: description@,
            },
            Validation::EmptyExistingPath { description } => ValidationView::EmptyExistingPath {
                description: description@,
            },
            Validation::Git { description } => ValidationView::Git { description: description@ },
            Validation::MissingAuthorEmail { description } => ValidationView::MissingAuthorEmail {
                description: description@,
            },
            Validation::MissingGitConfig { description } => ValidationView::MissingGitConfig {
                description: description@,
            },
            Validation::MissingAuthorName { description } => ValidationView::MissingAuthorName {
                description: description@,
            },
            Validation::MissingDefaultBranch { description } => {
                ValidationView::MissingDefaultBranch { description: description@ }
            },
            Validation::MissingUrl { description } => ValidationView::MissingUrl {
                description: description@,
            },
            Validation::PathDoesNotExist { description } => ValidationView::PathDoesNotExist {
                description: description@,
            },
            Validation::NotARepo { description } => ValidationView::NotARepo {
                description: description@,
            },
            Validation::Io { description } => ValidationView::Io { description: description@ },
            Validation::UrlMismatch { description } => ValidationView::UrlMismatch {
                description: description@,
            },
            Validation::Transport { description } => ValidationView::Transport {
                description: description@,
            },
            Validation::Remote { description } => ValidationView::Remote {
                description: description@,
            },
        }
    }
}

/// Failure of creating a project.
#[derive(Clone, Debug, PartialEq, Eq)]
pub enum Create {
    /// The inputs did not pass validation.
    Validation(Validation),
    /// Any other failure of creation; `description` is the text of the whole
    /// state failure.
    Other { description: String },
}

/// Mathematical content of a [`Create`].
pub enum CreateView {
    Validation(ValidationView),
    Other { description: Seq<char> },
}

impl View for Create {
    type V = CreateView;

    open spec fn view(&self) -> CreateView {
        match self {
            Create::Validation(validation) => CreateView::Validation(validation@),
            Create::Other { description } => CreateView::Other { description: description@ },
        }
    }
}

/// Failure of looking up a blob.
#[derive(Clone, Debug, PartialEq, Eq)]
pub enum Blob {
    /// No blob is stored under the requested name.
    NotFound,
    /// Any other failure of the lookup; `description` is the text of the whole
    /// state failure.
    Other { description: String },
}

/// Mathematical content of a [`Blob`].
pub enum BlobView {
    NotFound,
    Other { description: Seq<char> },
}

impl View for Blob {
    type V = BlobView;

    open spec fn view(&self) -> BlobView {
        match self {
            Blob::NotFound => BlobView::NotFound,
            Blob::Other { description } => BlobView::Other { description: description@ },
        }
    }
}

/// Failure of the storage below the state engine.
#[derive(Clone, Debug, PartialEq, Eq)]
pub enum Storage {
    /// A blob could not be served.
    Blob(Blob),
    /// Any other storage failure; `description` is the text of the whole state
    /// failure.
    Other { description: String },
}

/// Mathematical content of a [`Storage`].
pub enum StorageView {
    Blob(BlobView),
    Other { description: Seq<char> },
}

impl View for Storage {
    type V = StorageView;

    open spec fn view(&self) -> StorageView {
        match self {
            Storage::Blob(blob) => StorageView::Blob(blob@),
            Storage::Other { description } => StorageView::Other { description: description@ },
        }
    }
}

/// Failure of an operation on the peer's state.
#[derive(Clone, Debug, PartialEq, Eq)]
pub enum Error {
    /// A checkout failed.
    Checkout(Checkout),
    /// A project could not be created.
    Create(Create),
    /// The version-control engine failed; `debug` is the engine failure in its
    /// diagnostic rendering.
    Git { debug: String },
    /// The operation needs a default owner and none is set.
    MissingOwner { description: String },
    /// The storage failed.
    Storage(Storage),
    /// The identity to create exists already.
    IdentityExists { description: String },
    /// Any failure without a case of its own.
    Other { description: String },
}

/// Mathematical content of an [`Error`].
pub enum ErrorView {
    Checkout(CheckoutView),
    Create(CreateView),
    Git { debug: Seq<char> },
    MissingOwner { description: Seq<char> },
    Storage(StorageView),
    IdentityExists { description: Seq<char> },
    Other { description: Seq<char> },
}

impl View for Error {
    type V = ErrorView;

    open spec fn view(&self) -> ErrorView {
        match self {
            Error::Checkout(checkout) => ErrorView::Checkout(checkout@),
            Error::Create(create) => ErrorView::Create(create@),
            Error::Git { debug } => ErrorView::Git { debug: debug@ },
            Error::MissingOwner { description } => ErrorView::MissingOwner {
                description: description@,
            },
            Error::Storage(storage) => ErrorView::Storage(storage@),
            Error::IdentityExists { description } => ErrorView::IdentityExists {
                description: description@,
            },
            Error::Other { description } => ErrorView::Other { description: description@ },
        }
    }
}

} // verus!

//! Recovery of a response from a failed request: every failure is classified
//! into a status code, a variant for API consumers to act on, and a message.

use vstd::prelude::*;
use crate::error;
use crate::keystore;
use crate::source;
use crate::state;

verus! {

/// Status of a request that the client got wrong.
pub const BAD_REQUEST: u16 = 400;

/// Status of a request that lacks an owner to act for.
pub const UNAUTHORIZED: u16 = 401;

/// Status of a request that is refused.
pub const FORBIDDEN: u16 = 403;

/// Status of a request for something that does not exist.
pub const NOT_FOUND: u16 = 404;

/// Status of a request that collides with what exists already.
pub const CONFLICT: u16 = 409;

/// Status of a request that failed on the server's side.
pub const INTERNAL_SERVER_ERROR: u16 = 500;

/// Whether `status` is one of the status codes that a failure is answered with.
pub open spec fn is_failure_status(status: u16) -> bool {
    ||| status == BAD_REQUEST
    ||| status == UNAUTHORIZED
    ||| status == FORBIDDEN
    ||| status == NOT_FOUND
    ||| status == CONFLICT
    ||| status == INTERNAL_SERVER_ERROR
}

/// The symbolic codes that API consumers branch on.
#[derive(Clone, Copy, Debug, PartialEq, Eq)]
pub enum Variant {
    EmptyPath,
    Forbidden,
    GitError,
    IdentityExists,
    IncorrectPassphrase,
    InternalError,
    InternalServerError,
    InvalidQuery,
    IoError,
    KeyExists,
    MissingAuthorEmail,
    MissingAuthorName,
    MissingDefaultBranch,
    MissingGitConfig,
    MissingRemote,
    MissingUrl,
    NotARepo,
    NotFound,
    PathDoesNotExist,
    PathExists,
    PrefixError,
    QueryMissing,
    SessionInUse,
    TransportError,
    Unauthorized,
    UrlMismatch,
}

impl Variant {
    /// The code as it appears on the wire.
    pub open spec fn text(self) -> Seq<char> {
        match self {
            Variant::EmptyPath => "EMPTY_PATH"@,
            Variant::Forbidden => "FORBIDDEN"@,
            Variant::GitError => "GIT_ERROR"@,
            Variant::IdentityExists => "IDENTITY_EXISTS"@,
            Variant::IncorrectPassphrase => "INCORRECT_PASSPHRASE"@,
            Variant::InternalError => "INTERNAL_ERROR"@,
            Variant::InternalServerError => "INTERNAL_SERVER_ERROR"@,
            Variant::InvalidQuery => "INVALID_QUERY"@,
            Variant::IoError => "IO_ERROR"@,
            Variant::KeyExists => "KEY_EXISTS"@,
            Variant::MissingAuthorEmail => "MISSING_AUTHOR_EMAIL"@,
            Variant::MissingAuthorName => "MISSING_AUTHOR_NAME"@,
            Variant::MissingDefaultBranch => "MISSING_DEFAULT_BRANCH"@,
            Variant::MissingGitConfig => "MISSING_GIT_CONFIG"@,
            Variant::MissingRemote => "MISSING_REMOTE"@,
            Variant::MissingUrl => "MISSING_URL"@,
            Variant::NotARepo => "NOT_A_REPO"@,
            Variant::NotFound => "NOT_FOUND"@,
            Variant::PathDoesNotExist => "PATH_DOES_NOT_EXIST"@,
            Variant::PathExists => "PATH_EXISTS"@,
            Variant::PrefixError => "PREFIX_ERROR"@,
            Variant::QueryMissing => "QUERY_MISSING"@,
            Variant::SessionInUse => "SESSION_IN_USE"@,
            Variant::TransportError => "TRANSPORT_ERROR"@,
            Variant::Unauthorized => "UNAUTHORIZED"@,
            Variant::UrlMismatch => "URL_MISMATCH"@,
        }
    }

    /// The code as it appears on the wire.
    pub fn as_str(&self) -> (code: &'static str)
        ensures
            code@ == self.text(),
    {
        match self {
            Variant::EmptyPath => "EMPTY_PATH",
            Variant::Forbidden => "FORBIDDEN",
            Variant::GitError => "GIT_ERROR",
            Variant::IdentityExists => "IDENTITY_EXISTS",
            Variant::IncorrectPassphrase => "INCORRECT_PASSPHRASE",
            Variant::InternalError => "INTERNAL_ERROR",
            Variant::InternalServerError => "INTERNAL_SERVER_ERROR",
            Variant::InvalidQuery => "INVALID_QUERY",
            Variant::IoError => "IO_ERROR",
            Variant::KeyExists => "KEY_EXISTS",
            Variant::MissingAuthorEmail => "MISSING_AUTHOR_EMAIL",
            Variant::MissingAuthorName => "MISSING_AUTHOR_NAME",
            Variant::MissingDefaultBranch => "MISSING_DEFAULT_BRANCH",
            Variant::MissingGitConfig => "MISSING_GIT_CONFIG",
            Variant::MissingRemote => "MISSING_REMOTE",
            Variant::MissingUrl => "MISSING_URL",
            Variant::NotARepo => "NOT_A_REPO",
            Variant::NotFound => "NOT_FOUND",
            Variant::PathDoesNotExist => "PATH_DOES_NOT_EXIST",
            Variant::PathExists => "PATH_EXISTS",
            Variant::PrefixError => "PREFIX_ERROR",
            Variant::QueryMissing => "QUERY_MISSING",
            Variant::SessionInUse => "SESSION_IN_USE",
            Variant::TransportError => "TRANSPORT_ERROR",
            Variant::Unauthorized => "UNAUTHORIZED",
            Variant::UrlMismatch => "URL_MISMATCH",
        }
    }

    /// No code is the empty text.
    pub proof fn lemma_text_is_not_empty(self)
        ensures
            self.text().len() > 0,
    {
        reveal_strlit("EMPTY_PATH");
        reveal_strlit("FORBIDDEN");
        reveal_strlit("GIT_ERROR");
        reveal_strlit("IDENTITY_EXISTS");
        reveal_strlit("INCORRECT_PASSPHRASE");
        reveal_strlit("INTERNAL_ERROR");
        reveal_strlit("INTERNAL_SERVER_ERROR");
        reveal_strlit("INVALID_QUERY");
        reveal_strlit("IO_ERROR");
        reveal_strlit("KEY_EXISTS");
        reveal_strlit("MISSING_AUTHOR_EMAIL");
        reveal_strlit("MISSING_AUTHOR_NAME");
        reveal_strlit("MISSING_DEFAULT_BRANCH");
        reveal_strlit("MISSING_GIT_CONFIG");
        reveal_strlit("MISSING_REMOTE");
        reveal_strlit("MISSING_URL");
        reveal_strlit("NOT_A_REPO");
        reveal_strlit("NOT_FOUND");
        reveal_strlit("PATH_DOES_NOT_EXIST");
        reveal_strlit("PATH_EXISTS");
        reveal_strlit("PREFIX_ERROR");
        reveal_strlit("QUERY_MISSING");
        reveal_strlit("SESSION_IN_USE");
        reveal_strlit("TRANSPORT_ERROR");
        reveal_strlit("UNAUTHORIZED");
        reveal_strlit("URL_MISMATCH");
    }
}

/// Failures of the routing layer, raised before a handler runs.
#[derive(Clone, Debug, PartialEq, Eq)]
pub enum Routing {
    /// The key store is sealed, so no session has been created yet.
    NoSession,
    /// The query part of the URL cannot be read.
    InvalidQuery {
        /// The query string as it was received.
        query: String,
        /// What the reader of the query string objected to.
        error: String,
    },
    /// A query string is required and missing.
    QueryMissing,
}

/// Mathematical content of a [`Routing`].
pub enum RoutingView {
    NoSession,
    InvalidQuery { query: Seq<char>, error: Seq<char> },
    QueryMissing,
}

impl View for Routing {
    type V = RoutingView;

    open spec fn view(&self) -> RoutingView {
        match self {
            Routing::NoSession => RoutingView::NoSession,
            Routing::InvalidQuery { query, error } => RoutingView::InvalidQuery {
                query: query@,
                error: error@,
            },
            Routing::QueryMissing => RoutingView::QueryMissing,
        }
    }
}

impl RoutingView {
    /// The text that describes the failure.
    pub open spec fn text(self) -> Seq<char> {
        match self {
            RoutingView::NoSession => "no session has been created yet"@,
            RoutingView::InvalidQuery { query, error } => "invalid query string \""@ + query
                + "\": "@ + error,
            RoutingView::QueryMissing => "required query string is missing"@,
        }
    }
}

impl Routing {
    /// The text that describes the failure.
    pub fn to_string(&self) -> (text: String)
        ensures
            text@ == self@.text(),
    {
        match self {
            Routing::NoSession => String::from_str("no session has been created yet"),
            Routing::InvalidQuery { query, error } => {
                let mut text = String::from_str("invalid query string \"");
                text.append(query.as_str());
                text.append("\": ");
                text.append(error.as_str());
                text
            },
            Routing::QueryMissing => String::from_str("required query string is missing"),
        }
    }
}

/// What a failure is classified as.
#[derive(Clone, Debug, PartialEq, Eq)]
pub struct Classification {
    /// The status code of the response.
    pub status: u16,
    /// The code for API consumers to act on.
    pub variant: Variant,
    /// The message for a human reader.
    pub message: String,
}

/// Mathematical content of a [`Classification`].
pub struct ClassificationView {
    pub status: u16,
    pub variant: Variant,
    pub message: Seq<char>,
}

impl View for Classification {
    type V = ClassificationView;

    open spec fn view(&self) -> ClassificationView {
        ClassificationView { status: self.status, variant: self.variant, message: self.message@ }
    }
}

/// The classification made of the three parts.
pub open spec fn classified(status: u16, variant: Variant, message: Seq<char>)
    -> ClassificationView {
    ClassificationView { status, variant, message }
}

/// What a failure of the routing layer is classified as.
pub open spec fn routing_classification(err: RoutingView) -> ClassificationView {
    match err {
        RoutingView::NoSession => classified(NOT_FOUND, Variant::NotFound, err.text()),
        RoutingView::InvalidQuery { .. } => classified(
            BAD_REQUEST,
            Variant::InvalidQuery,
            err.text(),
        ),
        RoutingView::QueryMissing => classified(BAD_REQUEST, Variant::QueryMissing, err.text()),
    }
}

/// Classifies a failure of the routing layer.
pub fn recover_routing(err: &Routing) -> (classification: Classification)
    ensures
        classification@ == routing_classification(err@),
{
    let message = err.to_string();
    match err {
        Routing::NoSession => Classification {
            status: NOT_FOUND,
            variant: Variant::NotFound,
            message,
        },
        Routing::InvalidQuery { .. } => Classification {
            status: BAD_REQUEST,
            variant: Variant::InvalidQuery,
            message,
        },
        Routing::QueryMissing => Classification {
            status: BAD_REQUEST,
            variant: Variant::QueryMissing,
            message,
        },
    }
}

/// What a failure of browsing the source code is classified as.
pub open spec fn source_classification(err: source::ErrorView) -> ClassificationView {
    match err {
        source::ErrorView::Git { description } => classified(
            BAD_REQUEST,
            Variant::GitError,
            "Internal Git error: "@ + description,
        ),
        source::ErrorView::NoBranches => classified(
            BAD_REQUEST,
            Variant::GitError,
            source::no_branches_text(),
        ),
        source::ErrorView::PathNotFound { path } => classified(NOT_FOUND, Variant::NotFound, path),
        source::ErrorView::Other { description } => classified(
            INTERNAL_SERVER_ERROR,
            Variant::InternalServerError,
            description,
        ),
    }
}

/// Classifies a failure of browsing the source code.
pub fn recover_source(err: &source::Error) -> (classification: Classification)
    ensures
        classification@ == source_classification(err@),
{
    match err {
        source::Error::Git { description } => {
            let mut message = String::from_str("Internal Git error: ");
            message.append(description.as_str());
            Classification { status: BAD_REQUEST, variant: Variant::GitError, message }
        },
        source::Error::NoBranches => Classification {
            status: BAD_REQUEST,
            variant: Variant::GitError,
            message: source::no_branches_description(),
        },
        source::Error::PathNotFound { path } => Classification {
            status: NOT_FOUND,
            variant: Variant::NotFound,
            message: path.clone(),
        },
        source::Error::Other { description } => Classification {
            status: INTERNAL_SERVER_ERROR,
            variant: Variant::InternalServerError,
            message: description.clone(),
        },
    }
}

/// What a failed checkout is classified as.
pub open spec fn checkout_classification(err: state::CheckoutView) -> ClassificationView {
    match err {
        state::CheckoutView::AlreadyExists { description } => classified(
            CONFLICT,
            Variant::PathExists,
            description,
        ),
        state::CheckoutView::Git { message } => classified(
            INTERNAL_SERVER_ERROR,
            Variant::GitError,
            message,
        ),
        state::CheckoutView::Include { description } => classified(
            INTERNAL_SERVER_ERROR,
            Variant::InternalError,
            description,
        ),
        state::CheckoutView::Io { description } => classified(
            INTERNAL_SERVER_ERROR,
            Variant::InternalError,
            description,
        ),
        state::CheckoutView::Transport { description } => classified(
            INTERNAL_SERVER_ERROR,
            Variant::TransportError,
            description,
        ),
        state::CheckoutView::Prefix { description } => classified(
            INTERNAL_SERVER_ERROR,
            Variant::PrefixError,
            description,
        ),
    }
}

/// Classifies a failed checkout.
pub fn recover_checkout(err: &state::Checkout) -> (classification: Classification)
    ensures
        classification@ == checkout_classification(err@),
{
    match err {
        state::Checkout::AlreadyExists { description } => Classification {
            status: CONFLICT,
            variant: Variant::PathExists,
            message: description.clone(),
        },
        state::Checkout::Git { message } => Classification {
            status: INTERNAL_SERVER_ERROR,
            variant: Variant::GitError,
            message: message.clone(),
        },
        state::Checkout::Include { description } => Classification {
            status: INTERNAL_SERVER_ERROR,
            variant: Variant::InternalError,
            message: description.clone(),
        },
        state::Checkout::Io { description } => Classification {
            status: INTERNAL_SERVER_ERROR,
            variant: Variant::InternalError,
            message: description.clone(),
        },
        state::Checkout::Transport { description } => Classification {
            status: INTERNAL_SERVER_ERROR,
            variant: Variant::TransportError,
            message: description.clone(),
        },
        state::Checkout::Prefix { description } => Classification {
            status: INTERNAL_SERVER_ERROR,
            variant: Variant::PrefixError,
            message: description.clone(),
        },
    }
}

/// What a failed validation of a new project is classified as.
pub open spec fn validation_classification(err: state::ValidationView) -> ClassificationView {
    match err {
        state::ValidationView::AlreadyExists { description } => classified(
            CONFLICT,
            Variant::PathExists,
            description,
        ),
        state::ValidationView::EmptyExistingPath { description } => classified(
            BAD_REQUEST,
            Variant::EmptyPath,
            description,
        ),
        state::ValidationView::Git { description } => classified(
            INTERNAL_SERVER_ERROR,
            Variant::GitError,
            description,
        ),
        state::ValidationView::MissingAuthorEmail { description } => classified(
            BAD_REQUEST,
            Variant::MissingAuthorEmail,
            description,
        ),
        state::ValidationView::MissingGitConfig { description } => classified(
            BAD_REQUEST,
            Variant::MissingGitConfig,
            description,
        ),
        state::ValidationView::MissingAuthorName { description } => classified(
            BAD_REQUEST,
            Variant::MissingAuthorName,
            description,
        ),
        state::ValidationView::MissingDefaultBranch { description } => classified(
            BAD_REQUEST,
            Variant::MissingDefaultBranch,
            description,
        ),
        state::ValidationView::MissingUrl { description } => classified(
            BAD_REQUEST,
            Variant::MissingUrl,
            description,
        ),
        state::ValidationView::PathDoesNotExist { description } => classified(
            NOT_FOUND,
            Variant::PathDoesNotExist,
            description,
        ),
        state::ValidationView::NotARepo { description } => classified(
            BAD_REQUEST,
            Variant::NotARepo,
            description,
        ),
        state::ValidationView::Io { description } => classified(
            BAD_REQUEST,
            Variant::IoError,
            description,
        ),
        state::ValidationView::UrlMismatch { description } => classified(
            BAD_REQUEST,
            Variant::UrlMismatch,
            description,
        ),
        state::ValidationView::Transport { description } => classified(
            INTERNAL_SERVER_ERROR,
            Variant::TransportError,
            description,
        ),
        state::ValidationView::Remote { description } => classified(
            INTERNAL_SERVER_ERROR,
            Variant::MissingRemote,
            description,
        ),
    }
}

/// Classifies a failed validation of a new project.
pub fn recover_validation(err: &state::Validation) -> (classification: Classification)
    ensures
        classification@ == validation_classification(err@),
{
    match err {
        state::Validation::AlreadyExists { description } => Classification {
            status: CONFLICT,
            variant: Variant::PathExists,
            message: description.clone(),
        },
        state::Validation::EmptyExistingPath { description } => Classification {
            status: BAD_REQUEST,
            variant: Variant::EmptyPath,
            message: description.clone(),
        },
        state::Validation::Git { description } => Classification {
            status: INTERNAL_SERVER_ERROR,
            variant: Variant::GitError,
            message: description.clone(),
        },
        state::Validation::MissingAuthorEmail { description } => Classification {
            status: BAD_REQUEST,
            variant: Variant::MissingAuthorEmail,
            message: description.clone(),
        },
        state::Validation::MissingGitConfig { description } => Classification {
            status: BAD_REQUEST,
            variant: Variant::MissingGitConfig,
            message: description.clone(),
        },
        state::Validation::MissingAuthorName { description } => Classification {
            status: BAD_REQUEST,
            variant: Variant::MissingAuthorName,
            message: description.clone(),
        },
        state::Validation::MissingDefaultBranch { description } => Classification {
            status: BAD_REQUEST,
            variant: Variant::MissingDefaultBranch,
            message: description.clone(),
        },
        state::Validation::MissingUrl { description } => Classification {
            status: BAD_REQUEST,
            variant: Variant::MissingUrl,
            message: description.clone(),
        },
        state::Validation::PathDoesNotExist { description } => Classification {
            status: NOT_FOUND,
            variant: Variant::PathDoesNotExist,
            message: description.clone(),
        },
        state::Validation::NotARepo { description } => Classification {
            status: BAD_REQUEST,
            variant: Variant::NotARepo,
            message: description.clone(),
        },
        state::Validation::Io { description } => Classification {
            status: BAD_REQUEST,
            variant: Variant::IoError,
            message: description.clone(),
        },
        state::Validation::UrlMismatch { description } => Classification {
            status: BAD_REQUEST,
            variant: Variant::UrlMismatch,
            message: description.clone(),
        },
        state::Validation::Transport { description } => Classification {
            status: INTERNAL_SERVER_ERROR,
            variant: Variant::TransportError,
            message: description.clone(),
        },
        state::Validation::Remote { description } => Classification {
            status: INTERNAL_SERVER_ERROR,
            variant: Variant::MissingRemote,
            message: description.clone(),
        },
    }
}

/// What a failed operation on the peer's state is classified as.
///
/// A nested failure with a case of its own decides; a failure without one is
/// a server error that is answered with its text.
pub open spec fn state_classification(err: state::ErrorView) -> ClassificationView {
    match err {
        state::ErrorView::Checkout(checkout) => checkout_classification(checkout),
        state::ErrorView::Create(state::CreateView::Validation(validation)) => {
            validation_classification(validation)
        },
        state::ErrorView::Create(state::CreateView::Other { description }) => classified(
            INTERNAL_SERVER_ERROR,
            Variant::InternalServerError,
            description,
        ),
        state::ErrorView::Git { debug } => classified(
            BAD_REQUEST,
            Variant::GitError,
            "Internal Git error: "@ + debug,
        ),
        state::ErrorView::MissingOwner { description } => classified(
            UNAUTHORIZED,
            Variant::Unauthorized,
            description,
        ),
        state::ErrorView::Storage(state::StorageView::Blob(state::BlobView::NotFound)) => {
            classified(NOT_FOUND, Variant::NotFound, "entity not found"@)
        },
        state::ErrorView::Storage(
            state::StorageView::Blob(state::BlobView::Other { description }),
        ) => classified(INTERNAL_SERVER_ERROR, Variant::InternalServerError, description),
        state::ErrorView::Storage(state::StorageView::Other { description }) => classified(
            INTERNAL_SERVER_ERROR,
            Variant::InternalServerError,
            description,
        ),
        state::ErrorView::IdentityExists { description } => classified(
            CONFLICT,
            Variant::IdentityExists,
            description,
        ),
        state::ErrorView::Other { description } => classified(
            INTERNAL_SERVER_ERROR,
            Variant::InternalServerError,
            description,
        ),
    }
}

/// Classifies a failed operation on the peer's state.
pub fn recover_state(err: &state::Error) -> (classification: Classification)
    ensures
        classification@ == state_classification(err@),
{
    match err {
        state::Error::Checkout(checkout) => recover_checkout(checkout),
        state::Error::Create(state::Create::Validation(validation)) => recover_validation(
            validation,
        ),
        state::Error::Git { debug } => {
            let mut message = String::from_str("Internal Git error: ");
            message.append(debug.as_str());
            Classification { status: BAD_REQUEST, variant: Variant::GitError, message }
        },
        state::Error::MissingOwner { description } => Classification {
            status: UNAUTHORIZED,
            variant: Variant::Unauthorized,
            message: description.clone(),
        },
        state::Error::Storage(state::Storage::Blob(state::Blob::NotFound)) => Classification {
            status: NOT_FOUND,
            variant: Variant::NotFound,
            message: String::from_str("entity not found"),
        },
        state::Error::IdentityExists { description } => Classification {
            status: CONFLICT,
            variant: Variant::IdentityExists,
            message: description.clone(),
        },
        state::Error::Create(state::Create::Other { description })
        | state::Error::Storage(state::Storage::Blob(state::Blob::Other { description }))
        | state::Error::Storage(state::Storage::Other { description })
        | state::Error::Other { description } => Classification {
            status: INTERNAL_SERVER_ERROR,
            variant: Variant::InternalServerError,
            message: description.clone(),
        },
    }
}

/// What a failure of the key store is classified as.
///
/// A wrong passphrase decides before an existing key does, and only a
/// failure that is neither is answered with its own text.
pub open spec fn keystore_classification(err: keystore::ErrorView) -> ClassificationView {
    if err.invalid_passphrase {
        classified(FORBIDDEN, Variant::IncorrectPassphrase, "That's the wrong passphrase."@)
    } else if err.key_exists {
        classified(CONFLICT, Variant::KeyExists, "A key already exists"@)
    } else {
        classified(INTERNAL_SERVER_ERROR, Variant::InternalServerError, err.description)
    }
}

/// Classifies a failure of the key store.
pub fn recover_keystore(err: &keystore::Error) -> (classification: Classification)
    ensures
        classification@ == keystore_classification(err@),
{
    if err.is_invalid_passphrase() {
        Classification {
            status: FORBIDDEN,
            variant: Variant::IncorrectPassphrase,
            message: String::from_str("That's the wrong passphrase."),
        }
    } else if err.is_key_exists() {
        Classification {
            status: CONFLICT,
            variant: Variant::KeyExists,
            message: String::from_str("A key already exists"),
        }
    } else {
        Classification {
            status: INTERNAL_SERVER_ERROR,
            variant: Variant::InternalServerError,
            message: err.to_string(),
        }
    }
}

/// What a failure reported by a handler is classified as.
pub open spec fn failure_classification(err: error::ErrorView) -> ClassificationView {
    match err {
        error::ErrorView::State(err) => state_classification(err),
        error::ErrorView::Source(err) => source_classification(err),
        error::ErrorView::Keystore(err) => keystore_classification(err),
        error::ErrorView::KeystoreSealed => classified(
            FORBIDDEN,
            Variant::Forbidden,
            "keystore is sealed"@,
        ),
        error::ErrorView::InvalidAuthCookie => classified(
            FORBIDDEN,
            Variant::Forbidden,
            "invalid authentication token"@,
        ),
        error::ErrorView::SessionInUse(urn) => classified(
            BAD_REQUEST,
            Variant::SessionInUse,
            "the current session is in use by `"@ + urn + "`"@,
        ),
        error::ErrorView::Peer(description) => classified(
            INTERNAL_SERVER_ERROR,
            Variant::InternalServerError,
            description,
        ),
        error::ErrorView::Io(description) => classified(
            INTERNAL_SERVER_ERROR,
            Variant::InternalServerError,
            description,
        ),
        error::ErrorView::Store(description) => classified(
            INTERNAL_SERVER_ERROR,
            Variant::InternalServerError,
            description,
        ),
        error::ErrorView::WaitingRoom(description) => classified(
            INTERNAL_SERVER_ERROR,
            Variant::InternalServerError,
            description,
        ),
        error::ErrorView::ProjectNotFound => classified(
            INTERNAL_SERVER_ERROR,
            Variant::InternalServerError,
            "project not found"@,
        ),
        error::ErrorView::MissingDefaultBranch => classified(
            INTERNAL_SERVER_ERROR,
            Variant::InternalServerError,
            "missing default branch"@,
        ),
    }
}

/// Classifies a failure reported by a handler.
pub fn recover_failure(err: &error::Error) -> (classification: Classification)
    ensures
        classification@ == failure_classification(err@),
{
    match err {
        error::Error::State(err) => recover_state(err),
        error::Error::Source(err) => recover_source(err),
        error::Error::Keystore(err) => recover_keystore(err),
        error::Error::KeystoreSealed => Classification {
            status: FORBIDDEN,
            variant: Variant::Forbidden,
            message: String::from_str("keystore is sealed"),
        },
        error::Error::InvalidAuthCookie => Classification {
            status: FORBIDDEN,
            variant: Variant::Forbidden,
            message: String::from_str("invalid authentication token"),
        },
        error::Error::SessionInUse(urn) => {
            let mut message = String::from_str("the current session is in use by `");
            message.append(urn.as_str());
            message.append("`");
            Classification { status: BAD_REQUEST, variant: Variant::SessionInUse, message }
        },
        error::Error::Peer(description)
        | error::Error::Io(description)
        | error::Error::Store(description)
        | error::Error::WaitingRoom(description) => Classification {
            status: INTERNAL_SERVER_ERROR,
            variant: Variant::InternalServerError,
            message: description.clone(),
        },
        error::Error::ProjectNotFound => Classification {
            status: INTERNAL_SERVER_ERROR,
            variant: Variant::InternalServerError,
            message: String::from_str("project not found"),
        },
        error::Error::MissingDefaultBranch => Classification {
            status: INTERNAL_SERVER_ERROR,
            variant: Variant::InternalServerError,
            message: String::from_str("missing default branch"),
        },
    }
}

/// The signal that a failed request leaves at the end of the handling
/// pipeline.
///
/// It records whether the dispatch found no handler for the request, the
/// failure of the routing layer that it carries, if any, and the failure of a
/// handler that it carries, if any. A signal with none of the three stands for
/// a failure of an unknown kind.
#[derive(Clone, Debug, PartialEq, Eq)]
pub struct Rejection {
    /// No handler matched the request.
    pub not_found: bool,
    /// The failure of the routing layer, where there is one.
    pub routing: Option<Routing>,
    /// The failure of a handler, where there is one.
    pub failure: Option<error::Error>,
}

/// Mathematical content of a [`Rejection`].
pub struct RejectionView {
    pub not_found: bool,
    pub routing: Option<RoutingView>,
    pub failure: Option<error::ErrorView>,
}

impl View for Rejection {
    type V = RejectionView;

    open spec fn view(&self) -> RejectionView {
        RejectionView {
            not_found: self.not_found,
            routing: match self.routing {
                Some(routing) => Some(routing@),
                None => None,
            },
            failure: match self.failure {
                Some(failure) => Some(failure@),
                None => None,
            },
        }
    }
}

/// What a rejected request is classified as.
///
/// The dispatch decides first, then the routing layer, then the handler's
/// failure; a signal that carries nothing known is an internal error.
pub open spec fn rejection_classification(rejection: RejectionView) -> ClassificationView {
    if rejection.not_found {
        classified(NOT_FOUND, Variant::NotFound, "Resource not found"@)
    } else if let Some(routing) = rejection.routing {
        routing_classification(routing)
    } else if let Some(failure) = rejection.failure {
        failure_classification(failure)
    } else {
        classified(INTERNAL_SERVER_ERROR, Variant::InternalError, "Something went wrong"@)
    }
}

/// Classifies a rejected request.
pub fn classify(rejection: &Rejection) -> (classification: Classification)
    ensures
        classification@ == rejection_classification(rejection@),
        is_failure_status(classification.status),
        classification.variant.text().len() > 0,
{
    let classification = if rejection.not_found {
        Classification {
            status: NOT_FOUND,
            variant: Variant::NotFound,
            message: String::from_str("Resource not found"),
        }
    } else if let Some(routing) = &rejection.routing {
        recover_routing(routing)
    } else if let Some(failure) = &rejection.failure {
        recover_failure(failure)
    } else {
        Classification {
            status: INTERNAL_SERVER_ERROR,
            variant: Variant::InternalError,
            message: String::from_str("Something went wrong"),
        }
    };
    proof {
        lemma_classification_is_total(rejection@);
    }
    classification
}

/// Every rejected request is classified, with one of the six failure statuses
/// and a variant that is not empty.
pub proof fn lemma_classification_is_total(rejection: RejectionView)
    ensures
        is_failure_status(rejection_classification(rejection).status),
        rejection_classification(rejection).variant.text().len() > 0,
{
    rejection_classification(rejection).variant.lemma_text_is_not_empty();
}

/// Body of the response to a failed request.
#[derive(Clone, Debug, PartialEq, Eq)]
pub struct Error {
    /// Human readable message to convey the failure.
    pub message: String,
    /// The triggered variant.
    pub variant: String,
}

/// Mathematical content of an [`Error`].
pub struct ErrorView {
    pub message: Seq<char>,
    pub variant: Seq<char>,
}

impl View for Error {
    type V = ErrorView;

    open spec fn view(&self) -> ErrorView {
        ErrorView { message: self.message@, variant: self.variant@ }
    }
}

/// The response to a failed request: the status code, the content type of the
/// body, and the body before it is written as JSON.
#[derive(Clone, Debug, PartialEq, Eq)]
pub struct Response {
    /// The status code.
    pub status: u16,
    /// The value of the `content-type` header.
    pub content_type: String,
    /// The body.
    pub body: Error,
}

/// Mathematical content of a [`Response`].
pub struct ResponseView {
    pub status: u16,
    pub content_type: Seq<char>,
    pub body: ErrorView,
}

impl View for Response {
    type V = ResponseView;

    open spec fn view(&self) -> ResponseView {
        ResponseView {
            status: self.status,
            content_type: self.content_type@,
            body: self.body@,
        }
    }
}

/// The response that renders a classification: its status, a JSON body, the
/// message as it is and the variant's code.
pub open spec fn response_to(classification: ClassificationView) -> ResponseView {
    ResponseView {
        status: classification.status,
        content_type: "application/json"@,
        body: ErrorView {
            message: classification.message,
            variant: classification.variant.text(),
        },
    }
}

/// Renders a classification as a response.
pub fn respond(classification: Classification) -> (response: Response)
    ensures
        response@ == response_to(classification@),
{
    Response {
        status: classification.status,
        content_type: String::from_str("application/json"),
        body: Error {
            message: classification.message,
            variant: String::from_str(classification.variant.as_str()),
        },
    }
}

/// Turns a rejected request into the response that the client receives.
///
/// Every rejection is answered: there is no signal for which no response is
/// made.
pub fn recover(err: &Rejection) -> (response: Response)
    ensures
        response@ == response_to(rejection_classification(err@)),
        is_failure_status(response.status),
        response.body.variant@.len() > 0,
{
    let classification = classify(err);
    respond(classification)
}

/// Classifying is a function of what a rejection holds: two rejections with
/// the same content are classified alike, so classifying one rejection twice
/// gives the same triple twice.
pub proof fn lemma_classification_is_deterministic(
    first: Rejection,
    second: Rejection,
    once: Classification,
    twice: Classification,
)
    requires
        first@ == second@,
        once@ == rejection_classification(first@),
        twice@ == rejection_classification(second@),
    ensures
        once@ == twice@,
        response_to(once@) == response_to(twice@),
{
}

/// The cause that a state failure wraps decides how it is classified: a failed
/// checkout and a failed validation keep their own status and variant however
/// deep they are wrapped, and a taken path is a conflict, not a server error.
pub proof fn lemma_nested_cause_takes_precedence(
    checkout: state::CheckoutView,
    validation: state::ValidationView,
    description: Seq<char>,
)
    ensures
        failure_classification(error::ErrorView::State(state::ErrorView::Checkout(checkout)))
            == checkout_classification(checkout),
        failure_classification(
            error::ErrorView::State(
                state::ErrorView::Create(state::CreateView::Validation(validation)),
            ),
        ) == validation_classification(validation),
        failure_classification(
            error::ErrorView::State(
                state::ErrorView::Checkout(state::CheckoutView::AlreadyExists { description }),
            ),
        ) == classified(CONFLICT, Variant::PathExists, description),
{
}

/// A request that no handler matched is answered as not found, whatever
/// failure the rejection carries besides.
pub proof fn lemma_not_found_takes_precedence(rejection: RejectionView)
    requires
        rejection.not_found,
    ensures
        rejection_classification(rejection) == classified(
            NOT_FOUND,
            Variant::NotFound,
            "Resource not found"@,
        ),
{
}

/// A failure of the routing layer decides before the failure of a handler.
pub proof fn lemma_routing_takes_precedence(rejection: RejectionView)
    requires
        !rejection.not_found,
        rejection.routing is Some,
    ensures
        rejection_classification(rejection) == routing_classification(rejection.routing->0),
{
}

/// Where neither the dispatch nor the routing layer decides, the failure of
/// the handler does, and a rejection that carries nothing known is an internal
/// error.
pub proof fn lemma_handler_failure_decides_last(rejection: RejectionView)
    requires
        !rejection.not_found,
        rejection.routing is None,
    ensures
        rejection.failure is Some ==> rejection_classification(rejection) == failure_classification(
            rejection.failure->0,
        ),
        rejection.failure is None ==> rejection_classification(rejection) == classified(
            INTERNAL_SERVER_ERROR,
            Variant::InternalError,
            "Something went wrong"@,
        ),
{
}

/// A failure of the key store that says the passphrase was wrong is answered
/// as such, whatever else it says of itself.
pub proof fn lemma_wrong_passphrase_decides(err: keystore::ErrorView)
    requires
        err.invalid_passphrase,
    ensures
        failure_classification(error::ErrorView::Keystore(err)) == classified(
            FORBIDDEN,
            Variant::IncorrectPassphrase,
            "That's the wrong passphrase."@,
        ),
{
}

} // verus!

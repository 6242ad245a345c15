//! Failures of browsing the source code of a project.

use vstd::prelude::*;

verus! {

/// Failure of a source-browsing operation.
#[derive(Clone, Debug, PartialEq, Eq)]
pub enum Error {
    /// The version-control engine failed.
    Git { description: String },
    /// The repository has no branches.
    NoBranches,
    /// Nothing is stored under `path`.
    PathNotFound { path: String },
    /// Any failure without a case of its own.
    Other { description: String },
}

/// Mathematical content of an [`Error`].
pub enum ErrorView {
    Git { description: Seq<char> },
    NoBranches,
    PathNotFound { path: Seq<char> },
    Other { description: Seq<char> },
}

impl View for Error {
    type V = ErrorView;

    open spec fn view(&self) -> ErrorView {
        match self {
            Error::Git { description } => ErrorView::Git { description: description@ },
            Error::NoBranches => ErrorView::NoBranches,
            Error::PathNotFound { path } => ErrorView::PathNotFound { path: path@ },
            Error::Other { description } => ErrorView::Other { description: description@ },
        }
    }
}

/// The text by which the source browser describes a repository without
/// branches.
pub open spec fn no_branches_text() -> Seq<char> {
    "the repository has no branches"@
}

/// The source browser's description of a repository without branches.
///
/// Trusted: the body formats `radicle_source::error::Error::NoBranches`, and
/// the contract claims that its `Display`, which that crate declares on the
/// variant, writes exactly [`no_branches_text`].
#[verifier::external_body]
pub(crate) fn no_branches_description() -> (text: String)
    ensures
        text@ == no_branches_text(),
{
    radicle_source::error::Error::NoBranches.to_string()
}

} // verus!

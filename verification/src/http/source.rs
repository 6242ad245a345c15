//! Query parameters of the endpoints for source code browsing.

use vstd::prelude::*;

verus! {

/// Bundled query params to pass to the blob handler.
#[derive(Clone, Debug, PartialEq, Eq)]
pub struct BlobQuery {
    /// Location of the blob in tree.
    pub path: Option<String>,
    /// Revision to use for the history of the repo.
    pub revision: Option<String>,
}

/// Mathematical content of a [`BlobQuery`].
pub struct BlobQueryView {
    pub path: Option<Seq<char>>,
    pub revision: Option<Seq<char>>,
}

impl View for BlobQuery {
    type V = BlobQueryView;

    open spec fn view(&self) -> BlobQueryView {
        BlobQueryView {
            path: match self.path {
                Some(path) => Some(path@),
                None => None,
            },
            revision: match self.revision {
                Some(revision) => Some(revision@),
                None => None,
            },
        }
    }
}

/// Bundled query params to pass to the tree handler.
#[derive(Clone, Debug, PartialEq, Eq)]
pub struct TreeQuery {
    /// Path prefix to query the tree.
    pub prefix: Option<String>,
    /// Revision to query at.
    pub revision: Option<String>,
}

/// Mathematical content of a [`TreeQuery`].
pub struct TreeQueryView {
    pub prefix: Option<Seq<char>>,
    pub revision: Option<Seq<char>>,
}

impl View for TreeQuery {
    type V = TreeQueryView;

    open spec fn view(&self) -> TreeQueryView {
        TreeQueryView {
            prefix: match self.prefix {
                Some(prefix) => Some(prefix@),
                None => None,
            },
            revision: match self.revision {
                Some(revision) => Some(revision@),
                None => None,
            },
        }
    }
}

} // verus!

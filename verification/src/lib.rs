//! Classification of the failures of an HTTP API and their recovery into
//! responses.
//!
//! A request can fail in the dispatch, in the routing layer or in a handler,
//! and a handler can fail for reasons that lie several layers deep. Whatever
//! the failure, the client receives a status code, a variant to branch on and
//! a message, in a JSON envelope.
//!
//! - [`error`], [`state`], [`source`] and [`keystore`] hold the failures that
//!   handlers report.
//! - [`http::error`] classifies a rejected request and renders the response;
//!   [`http::error::recover`] does both.
//! - [`http::source`] holds the query parameters of the endpoints for source
//!   code browsing.

pub mod error;
pub mod http;
pub mod keystore;
pub mod source;
pub mod state;

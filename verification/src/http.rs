//! The HTTP face of the API.

pub mod error;
pub mod source;

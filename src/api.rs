//! The protocol layer: token exchange, authorized dispatch and pagination.

use vstd::prelude::*;

pub mod auth;
pub mod client;
pub mod pager;

verus! {

/// What can go wrong in this layer. None is recovered from here: each is
/// handed to the caller.
#[derive(Debug)]
pub enum ApiError {
    /// A response body did not match the shape expected.
    Json(serde_json::Error),
    /// The transport failed.
    Http(http_types::Error),
    /// An authorized request was asked for while no token was cached.
    MissingToken,
    /// An authorization-code exchange answered without a refresh token.
    MissingRefreshToken,
    /// A URL did not parse.
    Url(http_types::url::ParseError),
}

} // verus!

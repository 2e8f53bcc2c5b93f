//! Authorized dispatch: every catalog request receives its bearer
//! credentials here, from the token cache.

use vstd::prelude::*;
use crate::api::ApiError;
use crate::oauth::{Token, TokenCache};

verus! {

/// The `Authorization` header value for a request made with `token`, or
/// `MissingToken` when there is none: then no request may be sent.
pub fn authorization_value(token: Option<&Token>) -> (r: Result<String, ApiError>)
    ensures
        token is None <==> r is Err,
        r is Err ==> r->Err_0 is MissingToken,
        r is Ok ==> r->Ok_0@ == "Bearer "@ + token->0.access_token@,
{
    match token {
        Some(t) => {
            let mut v = String::from_str("Bearer ");
            v.append(t.access_token.as_str());
            Ok(v)
        },
        None => Err(ApiError::MissingToken),
    }
}

/// A transport paired with the cache of the current token. Requests sent
/// through it as authorized carry the cached token as bearer credentials.
#[derive(Debug)]
pub struct BasicSpotifyClient<C, T> {
    client: C,
    token_cache: T,
}

impl<C, T> BasicSpotifyClient<C, T> {
    /// The transport.
    pub closed spec fn spec_client(&self) -> C {
        self.client
    }

    /// The token cache.
    pub closed spec fn spec_token_cache(&self) -> T {
        self.token_cache
    }

    pub fn new(client: C, token_cache: T) -> (r: Self)
        ensures
            r.spec_client() == client,
            r.spec_token_cache() == token_cache,
    {
        BasicSpotifyClient { client, token_cache }
    }

    /// The transport, for requests that need no authorization.
    pub fn client(&self) -> (r: &C)
        ensures
            *r == self.spec_client(),
    {
        &self.client
    }

    pub fn token_cache(&self) -> (r: &T)
        ensures
            *r == self.spec_token_cache(),
    {
        &self.token_cache
    }

    /// The token cache, to store a new token in it.
    pub fn token_cache_mut(&mut self) -> (r: &mut T)
        ensures
            *r == old(self).spec_token_cache(),
            final(self).spec_client() == old(self).spec_client(),
            final(self).spec_token_cache() == *final(r),
    {
        &mut self.token_cache
    }
}

impl<C, T: TokenCache> BasicSpotifyClient<C, T> {
    /// The `Authorization` header value for the next authorized request,
    /// from the token that the cache holds now; `MissingToken` when it holds
    /// none.
    pub fn bearer_authorization(&self) -> (r: Result<String, ApiError>)
        ensures
            self.spec_token_cache().cached() is None <==> r is Err,
            r is Err ==> r->Err_0 is MissingToken,
            r is Ok ==> r->Ok_0@ == "Bearer "@ + self.spec_token_cache().cached()->0.access_token@,
    {
        authorization_value(self.token_cache.current())
    }
}

} // verus!

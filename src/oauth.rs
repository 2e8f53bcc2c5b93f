//! Application credentials, access tokens and the store of the current token.

use vstd::prelude::*;
use crate::clock::{Clock, Timestamp};

verus! {

/// Standard base64 (with padding) of the UTF-8 bytes of a text.
pub uninterp spec fn base64_of(s: Seq<char>) -> Seq<char>;

/// Relies on base64::encode: the standard, padded base64 of the UTF-8 bytes
/// of `s`, which depends on those bytes alone.
#[verifier::external_body]
fn base64_encode(s: &str) -> (r: String)
    ensures
        r@ == base64_of(s@),
{
    base64::encode(s)
}

/// The credentials of an application, fixed for its lifetime.
#[derive(Debug)]
pub struct ClientCredentials {
    pub client_id: String,
    pub client_secret: String,
    pub redirect_uri: String,
}

/// The value of a Basic `Authorization` header whose encoded credentials are
/// `encoded`.
pub fn basic_authorization(encoded: &str) -> (r: String)
    ensures
        r@ == "Basic "@ + encoded@,
{
    let mut r = String::from_str("Basic ");
    r.append(encoded);
    r
}

impl ClientCredentials {
    pub fn new(client_id: String, client_secret: String, redirect_uri: String) -> (r: Self)
        ensures
            r.client_id == client_id,
            r.client_secret == client_secret,
            r.redirect_uri == redirect_uri,
    {
        ClientCredentials { client_id, client_secret, redirect_uri }
    }

    /// The text that the Basic header encodes: `client_id:client_secret`.
    pub open spec fn basic_text(&self) -> Seq<char> {
        self.client_id@ + ":"@ + self.client_secret@
    }

    /// The Basic `Authorization` header value that the token endpoint asks for.
    pub fn authorization_header(&self) -> (r: String)
        ensures
            r@ == "Basic "@ + base64_of(self.basic_text()),
    {
        let mut s = self.client_id.clone();
        s.append(":");
        s.append(self.client_secret.as_str());
        let encoded = base64_encode(s.as_str());
        basic_authorization(encoded.as_str())
    }
}

/// The absolute expiry, in seconds since the epoch, of a token issued at
/// `now` and valid for `expires_in` seconds; the largest `u64` where the sum
/// would not fit.
pub open spec fn expiry(now: Timestamp, expires_in: u16) -> u64 {
    if now.secs + expires_in <= u64::MAX {
        (now.secs + expires_in) as u64
    } else {
        u64::MAX
    }
}

/// An access token with its refresh token and absolute expiry.
#[derive(Debug, Clone)]
pub struct Token {
    pub access_token: String,
    pub token_type: String,
    /// Seconds of validity, as the server reported them.
    pub expires_in: u16,
    /// Seconds since the epoch at which the token expires, computed from a
    /// clock when the token was built.
    pub expires_at: u64,
    pub refresh_token: String,
    pub scope: String,
}

impl Token {
    /// A token issued at the instant `now`.
    pub fn issued_at(
        now: Timestamp,
        access_token: String,
        token_type: String,
        expires_in: u16,
        refresh_token: String,
        scope: String,
    ) -> (r: Self)
        ensures
            r.access_token == access_token,
            r.token_type == token_type,
            r.expires_in == expires_in,
            r.expires_at == expiry(now, expires_in),
            r.refresh_token == refresh_token,
            r.scope == scope,
    {
        let expires_at = now.secs.saturating_add(expires_in as u64);
        Token { access_token, token_type, expires_in, expires_at, refresh_token, scope }
    }

    /// A token issued now, as `clock` tells the time.
    pub fn new<C: Clock + ?Sized>(
        clock: &C,
        access_token: String,
        token_type: String,
        expires_in: u16,
        refresh_token: String,
        scope: String,
    ) -> (r: Self)
        ensures
            r.access_token == access_token,
            r.token_type == token_type,
            r.expires_in == expires_in,
            exists|now: Timestamp|
                clock.gives_reading(now) && r.expires_at == #[trigger] expiry(now, expires_in),
            r.refresh_token == refresh_token,
            r.scope == scope,
    {
        let now = clock.now();
        Token::issued_at(now, access_token, token_type, expires_in, refresh_token, scope)
    }
}

/// A store for the single current token.
pub trait TokenCache {
    type Error;

    /// The token held, if any.
    spec fn cached(&self) -> Option<Token>;

    /// The token held, if any.
    fn current(&self) -> (r: Option<&Token>)
        ensures
            match r {
                Some(t) => self.cached() == Some(*t),
                None => self.cached() is None,
            },
    ;

    /// Replaces the token held: on success it is `token`, wholly.
    fn update(&mut self, token: Token) -> (r: Result<(), Self::Error>)
        ensures
            r is Ok ==> final(self).cached() == Some(token),
    ;
}

} // verus!

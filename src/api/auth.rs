//! The authorization-code and refresh exchanges with the identity provider.

use vstd::prelude::*;
use crate::api::ApiError;
use crate::clock::{Clock, Timestamp};
use crate::encoding::{
    lemma_query_round_trip, lemma_value_of_first, opt_view, pairs_bytes, parse_query, push_char,
    push_pair, query_text, value_of,
};
use crate::oauth::{base64_of, expiry, ClientCredentials, Token};
use crate::outside::{parse_error_of, parse_url, parsed_url, url_accepts};

verus! {

/// The body of the identity provider's answer to a token request.
#[derive(Debug, Clone)]
pub struct TokenResponse {
    pub access_token: String,
    pub token_type: String,
    pub scope: String,
    pub expires_in: u16,
    /// Absent from a refresh answer when the refresh token stays the same.
    pub refresh_token: Option<String>,
}

impl TokenResponse {
    /// The token of an authorization-code exchange, which must carry a
    /// refresh token.
    pub fn try_into_token<C: Clock + ?Sized>(self, clock: &C) -> (r: Result<Token, ApiError>)
        ensures
            r is Err <==> self.refresh_token is None,
            r is Err ==> r->Err_0 is MissingRefreshToken,
            r is Ok ==> {
                let t = r->Ok_0;
                &&& t.access_token == self.access_token
                &&& t.token_type == self.token_type
                &&& t.expires_in == self.expires_in
                &&& exists|now: Timestamp|
                    clock.gives_reading(now) && t.expires_at == #[trigger] expiry(now, self.expires_in)
                &&& Some(t.refresh_token) == self.refresh_token
                &&& t.scope == self.scope
            },
    {
        match self.refresh_token {
            Some(refresh_token) => Ok(
                Token::new(
                    clock,
                    self.access_token,
                    self.token_type,
                    self.expires_in,
                    refresh_token,
                    self.scope,
                ),
            ),
            None => Err(ApiError::MissingRefreshToken),
        }
    }

    /// The token of a refresh exchange: the answer's refresh token where it
    /// has one, else `refresh_token`, the one held before.
    pub fn into_token<C: Clock + ?Sized>(self, clock: &C, refresh_token: &str) -> (r: Token)
        ensures
            r.access_token == self.access_token,
            r.token_type == self.token_type,
            r.expires_in == self.expires_in,
            exists|now: Timestamp|
                clock.gives_reading(now) && r.expires_at == #[trigger] expiry(now, self.expires_in),
            r.refresh_token@ == match self.refresh_token {
                Some(t) => t@,
                None => refresh_token@,
            },
            r.scope == self.scope,
    {
        let refresh_token = match self.refresh_token {
            Some(t) => t,
            None => refresh_token.to_owned(),
        };
        Token::new(
            clock,
            self.access_token,
            self.token_type,
            self.expires_in,
            refresh_token,
            self.scope,
        )
    }
}

/// Where the identity provider asks users for their consent.
pub const AUTHORIZE_ENDPOINT: &'static str = "https://accounts.spotify.com/authorize";

/// Where codes and refresh tokens are exchanged for access tokens.
pub const TOKEN_ENDPOINT: &'static str = "https://accounts.spotify.com/api/token";

/// The text of a flag in a query.
pub open spec fn bool_text(b: bool) -> Seq<char> {
    if b {
        "true"@
    } else {
        "false"@
    }
}

/// The pair `(key, value)` where a value is given, else nothing.
pub open spec fn optional_pair(key: Seq<char>, value: Option<Seq<char>>) -> Seq<
    (Seq<char>, Seq<char>),
> {
    match value {
        Some(v) => seq![(key, v)],
        None => seq![],
    }
}

/// The query pairs of the consent URL: `response_type=code`, the client id
/// and the redirect URI always; `state`, `scope` and `show_dialog` where
/// given.
pub open spec fn authorize_pairs(
    client_id: Seq<char>,
    redirect_uri: Seq<char>,
    state: Option<Seq<char>>,
    scope: Option<Seq<char>>,
    show_dialog: Option<bool>,
) -> Seq<(Seq<char>, Seq<char>)> {
    seq![
        ("response_type"@, "code"@),
        ("client_id"@, client_id),
        ("redirect_uri"@, redirect_uri),
    ] + optional_pair("state"@, state) + optional_pair("scope"@, scope) + optional_pair(
        "show_dialog"@,
        match show_dialog {
            Some(b) => Some(bool_text(b)),
            None => None,
        },
    )
}

/// The full text of the consent URL.
pub open spec fn authorize_url_spec(
    credentials: &ClientCredentials,
    state: Option<&str>,
    scope: Option<&str>,
    show_dialog: Option<bool>,
) -> Seq<char> {
    AUTHORIZE_ENDPOINT@ + seq!['?'] + query_text(
        authorize_pairs(
            credentials.client_id@,
            credentials.redirect_uri@,
            opt_view(state),
            opt_view(scope),
            show_dialog,
        ),
    )
}

/// The text of the URL at which users grant the application access; each
/// value is percent-encoded.
pub fn authorize_url_text(
    credentials: &ClientCredentials,
    state: Option<&str>,
    scope: Option<&str>,
    show_dialog: Option<bool>,
) -> (r: String)
    ensures
        r@ == authorize_url_spec(credentials, state, scope, show_dialog),
{
    let ghost cid = credentials.client_id@;
    let ghost uri = credentials.redirect_uri@;
    let mut q = String::new();
    let ghost mut pairs: Seq<(Seq<char>, Seq<char>)> = seq![];
    push_pair(&mut q, "response_type", "code", Ghost(pairs));
    proof { pairs = pairs.push(("response_type"@, "code"@)); }
    push_pair(&mut q, "client_id", credentials.client_id.as_str(), Ghost(pairs));
    proof { pairs = pairs.push(("client_id"@, cid)); }
    push_pair(&mut q, "redirect_uri", credentials.redirect_uri.as_str(), Ghost(pairs));
    proof { pairs = pairs.push(("redirect_uri"@, uri)); }
    let ghost base = pairs;
    if let Some(s) = state {
        push_pair(&mut q, "state", s, Ghost(pairs));
        proof { pairs = pairs.push(("state"@, s@)); }
    }
    let ghost with_state = pairs;
    if let Some(s) = scope {
        push_pair(&mut q, "scope", s, Ghost(pairs));
        proof { pairs = pairs.push(("scope"@, s@)); }
    }
    let ghost with_scope = pairs;
    if let Some(b) = show_dialog {
        let v = if b { "true" } else { "false" };
        push_pair(&mut q, "show_dialog", v, Ghost(pairs));
        proof { pairs = pairs.push(("show_dialog"@, v@)); }
    }
    proof {
        let sd = match show_dialog {
            Some(b) => Some(bool_text(b)),
            None => None,
        };
        assert(with_state =~= base + optional_pair("state"@, opt_view(state)));
        assert(with_scope =~= with_state + optional_pair("scope"@, opt_view(scope)));
        assert(pairs =~= with_scope + optional_pair("show_dialog"@, sd));
        assert(pairs =~= authorize_pairs(cid, uri, opt_view(state), opt_view(scope), show_dialog));
    }
    let mut url = String::from_str(AUTHORIZE_ENDPOINT);
    push_char(&mut url, '?');
    url.append(q.as_str());
    url
}

/// The URL at which users grant the application access. After consent the
/// provider redirects to `redirect_uri` with a `code` to exchange.
pub fn authorize_url(
    credentials: &ClientCredentials,
    state: Option<&str>,
    scope: Option<&str>,
    show_dialog: Option<bool>,
) -> (r: Result<http_types::Url, ApiError>)
    ensures
        r is Ok <==> url_accepts(authorize_url_spec(credentials, state, scope, show_dialog)),
        r is Ok ==> r->Ok_0 == parsed_url(authorize_url_spec(credentials, state, scope, show_dialog)),
        r is Err ==> r == Err::<http_types::Url, ApiError>(
            ApiError::Url(parse_error_of(authorize_url_spec(credentials, state, scope, show_dialog))),
        ),
{
    let text = authorize_url_text(credentials, state, scope, show_dialog);
    match parse_url(text.as_str()) {
        Ok(u) => Ok(u),
        Err(e) => Err(ApiError::Url(e)),
    }
}

/// The consent URL is its endpoint, `?`, and its query. The query always
/// carries `response_type=code`, the client id and the redirect URI; it
/// carries `state`, `scope` and `show_dialog` exactly when they are given,
/// each with the value given; and reading the query back gives every key and
/// value exactly, however many reserved characters they hold.
pub proof fn lemma_authorize_url_query(
    credentials: &ClientCredentials,
    state: Option<&str>,
    scope: Option<&str>,
    show_dialog: Option<bool>,
)
    ensures
        ({
            let pairs = authorize_pairs(
                credentials.client_id@,
                credentials.redirect_uri@,
                opt_view(state),
                opt_view(scope),
                show_dialog,
            );
            &&& authorize_url_spec(credentials, state, scope, show_dialog) == AUTHORIZE_ENDPOINT@
                + seq!['?'] + query_text(pairs)
            &&& value_of(pairs, "response_type"@) == Some("code"@)
            &&& value_of(pairs, "client_id"@) == Some(credentials.client_id@)
            &&& value_of(pairs, "redirect_uri"@) == Some(credentials.redirect_uri@)
            &&& value_of(pairs, "state"@) == opt_view(state)
            &&& value_of(pairs, "scope"@) == opt_view(scope)
            &&& value_of(pairs, "show_dialog"@) == match show_dialog {
                Some(b) => Some(bool_text(b)),
                None => None,
            }
            &&& parse_query(query_text(pairs)) == pairs_bytes(pairs)
        }),
{
    reveal_strlit("response_type");
    reveal_strlit("client_id");
    reveal_strlit("redirect_uri");
    reveal_strlit("state");
    reveal_strlit("scope");
    reveal_strlit("show_dialog");
    let st = optional_pair("state"@, opt_view(state));
    let sc = optional_pair("scope"@, opt_view(scope));
    let sd = optional_pair(
        "show_dialog"@,
        match show_dialog {
            Some(b) => Some(bool_text(b)),
            None => None,
        },
    );
    let head = seq![
        ("response_type"@, "code"@),
        ("client_id"@, credentials.client_id@),
        ("redirect_uri"@, credentials.redirect_uri@),
    ];
    let pairs = head + st + sc + sd;
    lemma_query_round_trip(pairs);
    assert(pairs =~= authorize_pairs(
        credentials.client_id@,
        credentials.redirect_uri@,
        opt_view(state),
        opt_view(scope),
        show_dialog,
    ));
    let keys = seq!["response_type"@, "client_id"@, "redirect_uri"@, "state"@, "scope"@, "show_dialog"@];
    assert(forall|i: int, j: int| 0 <= i < j < 6 ==> keys[i] != keys[j]) by {
        assert(keys[0].len() == 13 && keys[1].len() == 9 && keys[2].len() == 12);
        assert(keys[3].len() == 5 && keys[4].len() == 5 && keys[5].len() == 11);
        assert(keys[3][1] != keys[4][1]);
    }
    let n = (head.len() + st.len()) as int;
    let m = n + sc.len() as int;
    assert(pairs[0].0 == keys[0] && pairs[1].0 == keys[1] && pairs[2].0 == keys[2]);
    assert(state is Some ==> pairs[3].0 == keys[3] && pairs[3].1 == opt_view(state)->0);
    assert(scope is Some ==> pairs[n].0 == keys[4] && pairs[n].1 == opt_view(scope)->0);
    assert(show_dialog is Some ==> pairs[m].0 == keys[5]);
    assert(forall|j: int| 3 <= j < n ==> pairs[j].0 == keys[3]);
    assert(forall|j: int| n <= j < m ==> pairs[j].0 == keys[4]);
    assert(forall|j: int| m <= j < pairs.len() ==> pairs[j].0 == keys[5]);
    lemma_value_of_first(pairs, keys[0], 0);
    lemma_value_of_first(pairs, keys[1], 1);
    lemma_value_of_first(pairs, keys[2], 2);
    lemma_value_of_first(pairs, keys[3], if state is Some { 3 } else { pairs.len() as int });
    lemma_value_of_first(pairs, keys[4], if scope is Some { n } else { pairs.len() as int });
    lemma_value_of_first(pairs, keys[5], if show_dialog is Some { m } else { pairs.len() as int });
}

/// The form body of an authorization-code exchange.
pub open spec fn authorization_code_pairs(code: Seq<char>, redirect_uri: Seq<char>) -> Seq<
    (Seq<char>, Seq<char>),
> {
    seq![
        ("grant_type"@, "authorization_code"@),
        ("code"@, code),
        ("redirect_uri"@, redirect_uri),
    ]
}

/// The form body of a refresh exchange.
pub open spec fn refresh_pairs(refresh_token: Seq<char>) -> Seq<(Seq<char>, Seq<char>)> {
    seq![("grant_type"@, "refresh_token"@), ("refresh_token"@, refresh_token)]
}

/// A request to the token endpoint, as plain values: where it goes, its
/// Basic `Authorization` header and its form-encoded body.
#[derive(Debug)]
pub struct TokenRequest {
    pub url: String,
    pub authorization: String,
    pub body: String,
}

/// The request that exchanges an authorization `code` for a token.
pub fn authorization_code_request(credentials: &ClientCredentials, code: &str) -> (r:
    TokenRequest)
    ensures
        r.url@ == TOKEN_ENDPOINT@,
        r.authorization@ == "Basic "@ + base64_of(credentials.basic_text()),
        r.body@ == query_text(authorization_code_pairs(code@, credentials.redirect_uri@)),
{
    let mut body = String::new();
    let ghost mut pairs: Seq<(Seq<char>, Seq<char>)> = seq![];
    push_pair(&mut body, "grant_type", "authorization_code", Ghost(pairs));
    proof { pairs = pairs.push(("grant_type"@, "authorization_code"@)); }
    push_pair(&mut body, "code", code, Ghost(pairs));
    proof { pairs = pairs.push(("code"@, code@)); }
    push_pair(&mut body, "redirect_uri", credentials.redirect_uri.as_str(), Ghost(pairs));
    proof {
        pairs = pairs.push(("redirect_uri"@, credentials.redirect_uri@));
        assert(pairs =~= authorization_code_pairs(code@, credentials.redirect_uri@));
    }
    TokenRequest {
        url: String::from_str(TOKEN_ENDPOINT),
        authorization: credentials.authorization_header(),
        body,
    }
}

/// The request that renews `token` through its refresh token.
pub fn refresh_request(credentials: &ClientCredentials, token: &Token) -> (r: TokenRequest)
    ensures
        r.url@ == TOKEN_ENDPOINT@,
        r.authorization@ == "Basic "@ + base64_of(credentials.basic_text()),
        r.body@ == query_text(refresh_pairs(token.refresh_token@)),
{
    let mut body = String::new();
    let ghost mut pairs: Seq<(Seq<char>, Seq<char>)> = seq![];
    push_pair(&mut body, "grant_type", "refresh_token", Ghost(pairs));
    proof { pairs = pairs.push(("grant_type"@, "refresh_token"@)); }
    push_pair(&mut body, "refresh_token", token.refresh_token.as_str(), Ghost(pairs));
    proof {
        pairs = pairs.push(("refresh_token"@, token.refresh_token@));
        assert(pairs =~= refresh_pairs(token.refresh_token@));
    }
    TokenRequest {
        url: String::from_str(TOKEN_ENDPOINT),
        authorization: credentials.authorization_header(),
        body,
    }
}

} // verus!

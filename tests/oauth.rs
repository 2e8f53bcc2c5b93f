use spotify_api::api::auth::{
    authorization_code_request, authorize_url, authorize_url_text, refresh_request, TokenResponse,
    AUTHORIZE_ENDPOINT, TOKEN_ENDPOINT,
};
use spotify_api::api::client::{authorization_value, BasicSpotifyClient};
use spotify_api::api::ApiError;
use spotify_api::clock::{Clock, SystemClock, Timestamp};
use spotify_api::oauth::{basic_authorization, ClientCredentials, Token, TokenCache};

struct FixedClock(Timestamp);

impl Clock for FixedClock {
    fn gives_reading(&self, t: Timestamp) -> bool {
        t == self.0
    }

    fn now(&self) -> Timestamp {
        self.0
    }
}

#[derive(Debug, Default)]
struct MemoryCache(Option<Token>);

impl TokenCache for MemoryCache {
    type Error = ();

    fn cached(&self) -> Option<Token> {
        self.0.clone()
    }

    fn current(&self) -> Option<&Token> {
        self.0.as_ref()
    }

    fn update(&mut self, token: Token) -> Result<(), ()> {
        self.0 = Some(token);
        Ok(())
    }
}

fn credentials() -> ClientCredentials {
    ClientCredentials::new(
        "id".to_string(),
        "secret".to_string(),
        "http://localhost:8888/callback".to_string(),
    )
}

fn token(refresh: &str) -> Token {
    Token::issued_at(
        Timestamp::new(100, 0),
        "old-access".to_string(),
        "Bearer".to_string(),
        60,
        refresh.to_string(),
        "s".to_string(),
    )
}

fn response(refresh: Option<&str>) -> TokenResponse {
    TokenResponse {
        access_token: "X".to_string(),
        token_type: "Bearer".to_string(),
        scope: "s".to_string(),
        expires_in: 3600,
        refresh_token: refresh.map(|s| s.to_string()),
    }
}

#[test]
fn token_expiry_is_clock_seconds_plus_lifetime() {
    let t = Token::issued_at(
        Timestamp::new(1_600_000_000, 999_999_999),
        "a".to_string(),
        "Bearer".to_string(),
        3600,
        "r".to_string(),
        "".to_string(),
    );
    assert_eq!(t.expires_at, 1_600_003_600);
    assert_eq!(t.expires_in, 3600);
    assert_eq!(t.access_token, "a");
    assert_eq!(t.refresh_token, "r");
}

#[test]
fn token_expiry_saturates_at_the_largest_instant() {
    let t = Token::issued_at(
        Timestamp::new(u64::MAX - 10, 0),
        "a".to_string(),
        "Bearer".to_string(),
        3600,
        "r".to_string(),
        "".to_string(),
    );
    assert_eq!(t.expires_at, u64::MAX);
}

#[test]
fn token_new_reads_the_clock() {
    let clock = FixedClock(Timestamp::new(5_000, 10));
    let t = Token::new(&clock, "a".into(), "Bearer".into(), 60, "r".into(), "x y".into());
    assert_eq!(t.expires_at, 5_060);
    assert_eq!(t.scope, "x y");
}

#[test]
fn token_new_with_system_clock_is_after_lifetime() {
    let clock = SystemClock::new();
    let t = Token::new(&clock, "a".into(), "Bearer".into(), 60, "r".into(), "".into());
    assert!(t.expires_at > 1_500_000_000);
}

#[test]
fn code_exchange_without_refresh_token_fails() {
    let clock = FixedClock(Timestamp::new(0, 0));
    let r = response(None).try_into_token(&clock);
    assert!(matches!(r, Err(ApiError::MissingRefreshToken)));
}

#[test]
fn code_exchange_with_refresh_token_builds_token() {
    let clock = FixedClock(Timestamp::new(1_000, 0));
    let t = response(Some("R")).try_into_token(&clock).unwrap();
    assert_eq!(t.access_token, "X");
    assert_eq!(t.token_type, "Bearer");
    assert_eq!(t.scope, "s");
    assert_eq!(t.refresh_token, "R");
    assert_eq!(t.expires_at, 4_600);
}

#[test]
fn refresh_without_new_refresh_token_keeps_old_one() {
    let clock = FixedClock(Timestamp::new(2_000, 0));
    let old = token("old-refresh");
    let t = response(None).into_token(&clock, &old.refresh_token);
    assert_eq!(t.refresh_token, "old-refresh");
    assert_eq!(t.access_token, "X");
    assert_eq!(t.expires_at, 5_600);
}

#[test]
fn refresh_with_new_refresh_token_replaces_it() {
    let clock = FixedClock(Timestamp::new(2_000, 0));
    let old = token("old-refresh");
    let t = response(Some("new-refresh")).into_token(&clock, &old.refresh_token);
    assert_eq!(t.refresh_token, "new-refresh");
}

#[test]
fn authorization_header_is_basic_base64() {
    assert_eq!(credentials().authorization_header(), "Basic aWQ6c2VjcmV0");
    let c = ClientCredentials::new("client".into(), "s3cré t".replace(' ', ""), "u".into());
    assert_eq!(c.authorization_header(), "Basic Y2xpZW50OnMzY3LDqXQ=");
}

#[test]
fn basic_authorization_prefixes_encoded_credentials() {
    assert_eq!(basic_authorization("abc="), "Basic abc=");
}

#[test]
fn authorization_value_without_token_is_missing_token() {
    assert!(matches!(authorization_value(None), Err(ApiError::MissingToken)));
}

#[test]
fn authorization_value_with_token_is_bearer() {
    let t = token("r");
    assert_eq!(authorization_value(Some(&t)).unwrap(), "Bearer old-access");
}

#[test]
fn client_with_empty_cache_refuses_to_authorize() {
    let client = BasicSpotifyClient::new((), MemoryCache::default());
    assert!(matches!(client.bearer_authorization(), Err(ApiError::MissingToken)));
}

#[test]
fn client_uses_token_stored_in_cache() {
    let mut client = BasicSpotifyClient::new((), MemoryCache::default());
    client.token_cache_mut().update(token("r")).unwrap();
    assert_eq!(client.bearer_authorization().unwrap(), "Bearer old-access");
    assert!(client.token_cache().current().is_some());
}

#[test]
fn authorize_url_has_required_params_only() {
    let text = authorize_url_text(&credentials(), None, None, None);
    assert_eq!(
        text,
        "https://accounts.spotify.com/authorize?response_type=code&client_id=id&redirect_uri=http%3A%2F%2Flocalhost%3A8888%2Fcallback"
    );
    let url = authorize_url(&credentials(), None, None, None).unwrap();
    let keys: Vec<String> = url.query_pairs().map(|(k, _)| k.into_owned()).collect();
    assert_eq!(keys, vec!["response_type", "client_id", "redirect_uri"]);
}

#[test]
fn authorize_url_has_optional_params_when_given() {
    let url = authorize_url(
        &credentials(),
        Some("a b&c=d/é"),
        Some("user-read-private user-read-email"),
        Some(true),
    )
    .unwrap();
    assert!(url.as_str().contains("state=a%20b%26c%3Dd%2F%C3%A9"));
    let pairs: Vec<(String, String)> =
        url.query_pairs().map(|(k, v)| (k.into_owned(), v.into_owned())).collect();
    assert_eq!(
        pairs,
        vec![
            ("response_type".to_string(), "code".to_string()),
            ("client_id".to_string(), "id".to_string()),
            ("redirect_uri".to_string(), "http://localhost:8888/callback".to_string()),
            ("state".to_string(), "a b&c=d/é".to_string()),
            ("scope".to_string(), "user-read-private user-read-email".to_string()),
            ("show_dialog".to_string(), "true".to_string()),
        ]
    );
}

#[test]
fn authorize_url_show_dialog_false() {
    let text = authorize_url_text(&credentials(), None, Some("streaming"), Some(false));
    assert!(text.ends_with("&scope=streaming&show_dialog=false"));
    assert!(!text.contains("state="));
}

#[test]
fn authorization_code_request_body() {
    let r = authorization_code_request(&credentials(), "abc/123");
    assert_eq!(r.url, TOKEN_ENDPOINT);
    assert_eq!(r.authorization, "Basic aWQ6c2VjcmV0");
    assert_eq!(
        r.body,
        "grant_type=authorization_code&code=abc%2F123&redirect_uri=http%3A%2F%2Flocalhost%3A8888%2Fcallback"
    );
}

#[test]
fn refresh_request_body() {
    let r = refresh_request(&credentials(), &token("r+t"));
    assert_eq!(r.url, "https://accounts.spotify.com/api/token");
    assert_eq!(r.authorization, "Basic aWQ6c2VjcmV0");
    assert_eq!(r.body, "grant_type=refresh_token&refresh_token=r%2Bt");
    assert!(AUTHORIZE_ENDPOINT.starts_with("https://"));
}

#[test]
fn timestamp_and_credentials_keep_their_parts() {
    let t = Timestamp::new(12, 34);
    assert_eq!((t.secs, t.subsec_nanos), (12, 34));
    let c = credentials();
    assert_eq!(c.client_id, "id");
    assert_eq!(c.client_secret, "secret");
    assert_eq!(c.redirect_uri, "http://localhost:8888/callback");
    let client = BasicSpotifyClient::new(7u8, MemoryCache::default());
    assert_eq!(*client.client(), 7u8);
}

#[test]
fn refresh_expiry_is_clock_reading_plus_lifetime() {
    let clock = FixedClock(Timestamp::new(100, 0));
    let t = response(None).into_token(&clock, "keep");
    assert_eq!(t.expires_at, 3_700);
    assert_eq!(t.refresh_token, "keep");
}

#[test]
fn authorize_url_state_with_reserved_characters_reads_back_intact() {
    let c = ClientCredentials::new("id".into(), "sec".into(), "http://localhost/cb".into());
    let url = authorize_url(&c, Some("a b&c=d"), None, Some(true)).unwrap();
    let pairs: Vec<(String, String)> =
        url.query_pairs().map(|(k, v)| (k.into_owned(), v.into_owned())).collect();
    assert_eq!(
        pairs,
        vec![
            ("response_type".to_string(), "code".to_string()),
            ("client_id".to_string(), "id".to_string()),
            ("redirect_uri".to_string(), "http://localhost/cb".to_string()),
            ("state".to_string(), "a b&c=d".to_string()),
            ("show_dialog".to_string(), "true".to_string()),
        ]
    );
    assert_eq!(url.host_str(), Some("accounts.spotify.com"));
    assert_eq!(url.path(), "/authorize");
}

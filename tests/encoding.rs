use spotify_api::encoding::{percent_encode, text_eq, url_with_query};

#[test]
fn percent_encode_keeps_unreserved() {
    assert_eq!(percent_encode("AZaz09-._~"), "AZaz09-._~");
}

#[test]
fn percent_encode_escapes_reserved_and_non_ascii() {
    assert_eq!(percent_encode("a b&c=d/é"), "a%20b%26c%3Dd%2F%C3%A9");
    assert_eq!(percent_encode("+%?#"), "%2B%25%3F%23");
}

#[test]
fn percent_encode_empty() {
    assert_eq!(percent_encode(""), "");
}

#[test]
fn text_eq_compares_texts() {
    assert!(text_eq("album", "album"));
    assert!(!text_eq("album", "albums"));
    assert!(!text_eq("album", "Album"));
    assert!(text_eq("", ""));
    assert!(text_eq("é", "é"));
}

#[test]
fn url_with_query_joins_encoded_pairs() {
    let pairs = vec![
        ("ids".to_string(), "a,b".to_string()),
        ("market".to_string(), "ES".to_string()),
    ];
    assert_eq!(
        url_with_query("https://api.spotify.com/v1/albums", &pairs),
        "https://api.spotify.com/v1/albums?ids=a%2Cb&market=ES"
    );
}

#[test]
fn url_with_query_without_pairs_is_base() {
    assert_eq!(url_with_query("https://x.test/p", &Vec::new()), "https://x.test/p");
}

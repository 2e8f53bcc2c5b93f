use spotify_api::api::pager::{Pager, PagerStep};
use spotify_api::api::ApiError;
use spotify_api::model::page::{Cursor, CursorBasedPage, Page};

fn page(items: Vec<&str>, next: Option<&str>) -> Page<String> {
    Page {
        href: "https://api.example.com/v1/items".to_string(),
        items: items.into_iter().map(|s| s.to_string()).collect(),
        limit: 2,
        next: next.map(|s| s.to_string()),
        offset: 0,
        previous: None,
        total: 0,
    }
}

/// Drives a pager to its end, one item at a time; `serve` answers each fetch.
/// Returns the items, the URLs fetched, and whether the walk ended cleanly.
fn drive<F>(mut pager: Pager<String>, mut serve: F) -> (Vec<String>, Vec<String>, bool)
where
    F: FnMut(&str) -> Result<Page<String>, ApiError>,
{
    let mut out = Vec::new();
    let mut fetched = Vec::new();
    let mut step = pager.pull();
    loop {
        match step {
            PagerStep::Item(t) => {
                assert!(!pager.is_fetching());
                out.push(t);
                step = pager.pull();
            }
            PagerStep::Fetch(url) => {
                assert!(pager.is_fetching());
                fetched.push(url.as_str().to_string());
                let answer = serve(url.as_str());
                step = pager.fetched(answer);
            }
            PagerStep::Failed(_) => return (out, fetched, false),
            PagerStep::End => return (out, fetched, true),
        }
    }
}

#[test]
fn pager_two_pages_yields_all_items_with_one_fetch() {
    let first = page(vec!["a", "b"], Some("https://api.example.com/p2"));
    let pager = first.into_stream().unwrap();
    let (items, fetched, ended) = drive(pager, |url| {
        assert_eq!(url, "https://api.example.com/p2");
        Ok(page(vec!["c"], None))
    });
    assert_eq!(items, vec!["a", "b", "c"]);
    assert_eq!(fetched.len(), 1);
    assert!(ended);
}

#[test]
fn pager_without_next_never_fetches() {
    let first = page(vec!["x", "y", "z"], None);
    let pager = first.into_stream().unwrap();
    let (items, fetched, ended) = drive(pager, |_| panic!("no fetch expected"));
    assert_eq!(items, vec!["x", "y", "z"]);
    assert!(fetched.is_empty());
    assert!(ended);
}

#[test]
fn pager_walks_many_pages_in_order() {
    let first = page(vec!["1", "2"], Some("https://api.example.com/p?offset=2"));
    let pager = first.into_stream().unwrap();
    let mut served = 0;
    let (items, fetched, ended) = drive(pager, |url| {
        served += 1;
        match url {
            "https://api.example.com/p?offset=2" => {
                Ok(page(vec!["3", "4"], Some("https://api.example.com/p?offset=4")))
            }
            "https://api.example.com/p?offset=4" => {
                Ok(page(vec![], Some("https://api.example.com/p?offset=6")))
            }
            "https://api.example.com/p?offset=6" => Ok(page(vec!["5"], None)),
            other => panic!("unexpected fetch of {}", other),
        }
    });
    assert_eq!(items, vec!["1", "2", "3", "4", "5"]);
    assert_eq!(fetched.len(), 3);
    assert_eq!(served, 3);
    assert!(ended);
}

#[test]
fn pager_fetches_only_when_buffer_is_empty() {
    let first = page(vec!["a", "b"], Some("https://api.example.com/p2"));
    let mut pager = first.into_stream().unwrap();
    assert!(matches!(pager.pull(), PagerStep::Item(ref t) if t == "a"));
    assert!(!pager.is_fetching());
    assert!(matches!(pager.pull(), PagerStep::Item(ref t) if t == "b"));
    assert!(!pager.is_fetching());
    assert!(matches!(pager.pull(), PagerStep::Fetch(_)));
    assert!(pager.is_fetching());
}

#[test]
fn pager_empty_seed_fetches_on_first_pull() {
    let first = page(vec![], Some("https://api.example.com/p2"));
    let pager = first.into_stream().unwrap();
    let (items, fetched, ended) = drive(pager, |_| Ok(page(vec!["only"], None)));
    assert_eq!(items, vec!["only"]);
    assert_eq!(fetched, vec!["https://api.example.com/p2"]);
    assert!(ended);
}

#[test]
fn pager_empty_without_next_ends_at_once() {
    let mut pager = page(vec![], None).into_stream().unwrap();
    assert!(matches!(pager.pull(), PagerStep::End));
    assert!(matches!(pager.pull(), PagerStep::End));
}

#[test]
fn pager_transport_error_ends_walk() {
    let first = page(vec!["a"], Some("https://api.example.com/p2"));
    let mut pager = first.into_stream().unwrap();
    assert!(matches!(pager.pull(), PagerStep::Item(_)));
    assert!(matches!(pager.pull(), PagerStep::Fetch(_)));
    let step = pager.fetched::<Page<String>>(Err(ApiError::MissingToken));
    assert!(matches!(step, PagerStep::Failed(ApiError::MissingToken)));
    assert!(!pager.is_fetching());
    assert!(matches!(pager.pull(), PagerStep::End));
}

#[test]
fn pager_bad_next_link_fails_with_url_error() {
    let first = page(vec![], Some("https://api.example.com/p2"));
    let mut pager = first.into_stream().unwrap();
    assert!(matches!(pager.pull(), PagerStep::Fetch(_)));
    let step = pager.fetched(Ok(page(vec!["lost"], Some("not a url"))));
    assert!(matches!(step, PagerStep::Failed(ApiError::Url(_))));
    assert!(matches!(pager.pull(), PagerStep::End));
}

#[test]
fn into_stream_rejects_bad_next_link() {
    let r = page(vec!["a"], Some("::not a url::")).into_stream();
    assert!(matches!(r, Err(ApiError::Url(_))));
}

#[test]
fn cursor_page_walks_both_pages() {
    let first = CursorBasedPage {
        href: "h".to_string(),
        items: vec!["a".to_string()],
        limit: 1,
        next: Some("https://api.example.com/c?after=a".to_string()),
        cursors: Cursor { after: Some("a".to_string()) },
        total: Some(2),
    };
    let mut pager = first.into_stream().unwrap();
    assert!(matches!(pager.pull(), PagerStep::Item(ref t) if t == "a"));
    let url = match pager.pull() {
        PagerStep::Fetch(u) => u,
        _ => panic!("expected a fetch"),
    };
    assert_eq!(url.as_str(), "https://api.example.com/c?after=a");
    let second = CursorBasedPage {
        href: "h".to_string(),
        items: vec!["b".to_string()],
        limit: 1,
        next: None,
        cursors: Cursor { after: None },
        total: None,
    };
    assert!(matches!(pager.fetched(Ok(second)), PagerStep::Item(ref t) if t == "b"));
    assert!(matches!(pager.pull(), PagerStep::End));
}

#[test]
fn with_items_seeds_buffer() {
    let next = http_types::Url::parse("https://api.example.com/n").unwrap();
    let mut pager = Pager::with_items(vec![7u32], Some(next));
    assert!(matches!(pager.pull(), PagerStep::Item(7)));
    match pager.pull() {
        PagerStep::Fetch(u) => assert_eq!(u.as_str(), "https://api.example.com/n"),
        _ => panic!("expected a fetch"),
    }
}

#[test]
fn pager_never_has_two_fetches_outstanding() {
    let first = page(vec!["a"], Some("https://api.example.com/p2"));
    let mut pager = first.into_stream().unwrap();
    let mut outstanding = 0;
    let mut served = 0;
    let mut items = Vec::new();
    let mut step = pager.pull();
    loop {
        match step {
            PagerStep::Item(t) => {
                assert_eq!(outstanding, 0);
                items.push(t);
                step = pager.pull();
            }
            PagerStep::Fetch(_) => {
                outstanding += 1;
                assert_eq!(outstanding, 1, "a second fetch started while one was outstanding");
                served += 1;
                let next = if served < 3 { Some("https://api.example.com/more") } else { None };
                let answer = page(vec!["b", "c"], next);
                outstanding -= 1;
                step = pager.fetched(Ok(answer));
            }
            PagerStep::Failed(_) => panic!("unexpected failure"),
            PagerStep::End => break,
        }
    }
    assert_eq!(served, 3);
    assert_eq!(items, vec!["a", "b", "c", "b", "c", "b", "c"]);
}

#[test]
fn pager_fetch_error_is_returned_unchanged() {
    let mut pager = page(vec![], Some("https://api.example.com/p2")).into_stream().unwrap();
    match pager.pull() {
        PagerStep::Fetch(u) => assert_eq!(u.as_str(), "https://api.example.com/p2"),
        _ => panic!("expected a fetch"),
    }
    let step = pager.fetched::<Page<String>>(Err(ApiError::MissingRefreshToken));
    assert!(matches!(step, PagerStep::Failed(ApiError::MissingRefreshToken)));
}

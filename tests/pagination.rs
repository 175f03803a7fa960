use paging::{
    AuthFailure, CopyrightType, Cursor, CursorPage, DatePrecision, Drain, Error, Page, PageIter,
    Pull, RestrictionReason,
};

fn window(items: Vec<u32>, offset: u32, next: Option<&str>, previous: Option<&str>) -> Page<u32> {
    Page {
        href: format!("https://api.test/list?offset={}", offset),
        limit: 3,
        next: next.map(|s| s.to_string()),
        offset,
        previous: previous.map(|s| s.to_string()),
        total: 7,
        items,
    }
}

const SECOND: &str = "https://api.test/list?offset=3";
const THIRD: &str = "https://api.test/list?offset=6";

/// A fixed chain of three windows: 3 + 3 + 1 items.
fn chain() -> Vec<Page<u32>> {
    vec![
        window(vec![1, 2, 3], 0, Some(SECOND), None),
        window(vec![4, 5, 6], 3, Some(THIRD), Some("https://api.test/list?offset=0")),
        window(vec![7], 6, None, Some(SECOND)),
    ]
}

/// Answers a request from the fixed chain, by link.
fn serve(url: &str) -> Result<Page<u32>, Error> {
    for p in chain() {
        if p.href == url {
            return Ok(p);
        }
    }
    Err(Error::Transport(format!("no such window: {}", url)))
}

fn drain_with(first: Page<u32>, mut fetch: impl FnMut(&str) -> Result<Page<u32>, Error>) -> (Result<Vec<u32>, Error>, Vec<String>) {
    let mut requests = Vec::new();
    let mut d = first.fetch_all();
    loop {
        let url = match &d {
            Drain::Fetching { url, .. } => url.clone(),
            Drain::Done(_) | Drain::Failed(_) => break,
        };
        requests.push(url.clone());
        d = d.advance(fetch(&url));
    }
    match d {
        Drain::Done(items) => (Ok(items), requests),
        Drain::Failed(e) => (Err(e), requests),
        Drain::Fetching { .. } => unreachable!(),
    }
}

/// Pulls until the end, answering each fetch with `fetch`; stops after `limit` elements.
fn pull_all(first: Page<u32>, limit: usize, mut fetch: impl FnMut(&str) -> Result<Page<u32>, Error>) -> (Vec<Result<u32, Error>>, Vec<String>) {
    let mut it = PageIter::new(first);
    let mut out = Vec::new();
    let mut requests = Vec::new();
    while out.len() < limit {
        let mut step = it.pull();
        let elem = loop {
            match step {
                Pull::Fetch(url) => {
                    assert!(it.is_awaiting_page());
                    requests.push(url.clone());
                    step = it.deliver(fetch(&url));
                }
                Pull::Ready(r) => break Some(r),
                Pull::End => break None,
            }
        };
        match elem {
            Some(r) => out.push(r),
            None => break,
        }
    }
    (out, requests)
}

#[test]
fn get_next_follows_the_server_link() {
    let p = window(vec![1], 0, Some(SECOND), None);
    assert_eq!(p.get_next(), Ok(SECOND.to_string()));
    assert_eq!(p.get_previous(), Err(Error::NoPreviousPage));
}

#[test]
fn get_previous_follows_the_server_link() {
    let p = window(vec![7], 6, None, Some(SECOND));
    assert_eq!(p.get_previous(), Ok(SECOND.to_string()));
    assert_eq!(p.get_next(), Err(Error::NoNextPage));
}

#[test]
fn get_next_twice_leaves_page_unchanged() {
    let p = window(vec![1, 2], 0, Some(SECOND), None);
    let a = p.get_next();
    let b = p.get_next();
    assert_eq!(a, b);
    assert_eq!(p.next.as_deref(), Some(SECOND));
    assert_eq!(p.items, vec![1, 2]);
}

#[test]
fn fetch_all_collects_whole_chain_in_order() {
    let c = chain();
    let (r, requests) = drain_with(c[0].clone(), serve);
    assert_eq!(r, Ok(vec![1, 2, 3, 4, 5, 6, 7]));
    assert_eq!(requests, vec![SECOND.to_string(), THIRD.to_string()]);
}

#[test]
fn fetch_all_single_window_fetches_nothing() {
    let p = window(vec![9, 8], 0, None, None);
    let (r, requests) = drain_with(p, serve);
    assert_eq!(r, Ok(vec![9, 8]));
    assert!(requests.is_empty());
}

#[test]
fn fetch_all_empty_single_window() {
    let p = window(vec![], 0, None, None);
    let (r, requests) = drain_with(p, serve);
    assert_eq!(r, Ok(vec![]));
    assert!(requests.is_empty());
}

#[test]
fn fetch_all_failure_mid_chain_returns_error_only() {
    let c = chain();
    let (r, requests) = drain_with(c[0].clone(), |_| Err(Error::Transport("connection reset".to_string())));
    assert_eq!(r, Err(Error::Transport("connection reset".to_string())));
    assert_eq!(requests, vec![SECOND.to_string()]);
}

#[test]
fn fetch_all_surfaces_auth_and_decode_errors() {
    let c = chain();
    let (r, _) = drain_with(c[0].clone(), |_| Err(Error::Auth(AuthFailure::MissingCredentials)));
    assert_eq!(r, Err(Error::Auth(AuthFailure::MissingCredentials)));
    let (r, _) = drain_with(c[0].clone(), |u| {
        if u == THIRD {
            Err(Error::Decode("missing field `items`".to_string()))
        } else {
            serve(u)
        }
    });
    assert_eq!(r, Err(Error::Decode("missing field `items`".to_string())));
    let (r, _) = drain_with(c[0].clone(), |_| Err(Error::Auth(AuthFailure::InvalidCredentials("expired".to_string()))));
    assert_eq!(r, Err(Error::Auth(AuthFailure::InvalidCredentials("expired".to_string()))));
}

#[test]
fn fetch_all_last_window_is_done_at_once() {
    let d: Drain<u32> = window(vec![5], 0, None, None).fetch_all();
    assert!(matches!(d, Drain::Done(ref v) if v == &vec![5]));
}

#[test]
fn iterator_single_window_yields_items_then_ends() {
    let p = window(vec![4, 5, 6], 0, None, None);
    let mut it = PageIter::new(p);
    assert!(matches!(it.pull(), Pull::Ready(Ok(4))));
    assert!(matches!(it.pull(), Pull::Ready(Ok(5))));
    assert!(matches!(it.pull(), Pull::Ready(Ok(6))));
    assert!(matches!(it.pull(), Pull::End));
    assert!(matches!(it.pull(), Pull::End));
    assert!(!it.is_awaiting_page());
}

#[test]
fn iterator_matches_fetch_all() {
    let c = chain();
    let (lazy, lazy_requests) = pull_all(c[0].clone(), 100, serve);
    let (eager, eager_requests) = drain_with(c[0].clone(), serve);
    let lazy: Vec<u32> = lazy.into_iter().map(|r| r.unwrap()).collect();
    assert_eq!(Ok(lazy), eager);
    assert_eq!(lazy_requests, eager_requests);
}

#[test]
fn iterator_skips_over_empty_window() {
    let first = window(vec![1], 0, Some(SECOND), None);
    let (out, requests) = pull_all(first, 100, |u| {
        if u == SECOND {
            Ok(window(vec![], 1, Some(THIRD), None))
        } else {
            serve(u)
        }
    });
    let out: Vec<u32> = out.into_iter().map(|r| r.unwrap()).collect();
    assert_eq!(out, vec![1, 7]);
    assert_eq!(requests, vec![SECOND.to_string(), THIRD.to_string()]);
}

#[test]
fn iterator_error_mid_chain_does_not_skip_ahead() {
    let c = chain();
    let mut it = PageIter::new(c[0].clone());
    assert!(matches!(it.pull(), Pull::Ready(Ok(1))));
    assert!(matches!(it.pull(), Pull::Ready(Ok(2))));
    assert!(matches!(it.pull(), Pull::Ready(Ok(3))));
    let url = match it.pull() {
        Pull::Fetch(u) => u,
        other => panic!("expected a fetch, got {:?}", other),
    };
    assert_eq!(url, SECOND);
    let failed = it.deliver(Err(Error::Transport("timeout".to_string())));
    assert!(matches!(failed, Pull::Ready(Err(Error::Transport(ref m))) if m == "timeout"));
    // Retrying asks for the same window again.
    assert!(it.is_awaiting_page());
    match it.pull() {
        Pull::Fetch(u) => assert_eq!(u, SECOND),
        other => panic!("expected a fetch, got {:?}", other),
    }
    let again = it.deliver(Err(Error::Transport("timeout".to_string())));
    assert!(matches!(again, Pull::Ready(Err(Error::Transport(_)))));
    // Once the server recovers, the pass resumes at window two.
    let resumed = it.deliver(serve(SECOND));
    assert!(matches!(resumed, Pull::Ready(Ok(4))));
}

#[test]
fn iterator_three_windows_second_fails() {
    let c = chain();
    let (out, requests) = pull_all(c[0].clone(), 4, |_| Err(Error::Transport("down".to_string())));
    assert_eq!(out.len(), 4);
    assert_eq!(out[0], Ok(1));
    assert_eq!(out[1], Ok(2));
    assert_eq!(out[2], Ok(3));
    assert_eq!(out[3], Err(Error::Transport("down".to_string())));
    assert_eq!(requests, vec![SECOND.to_string()]);
}

#[test]
fn cursor_page_without_next_is_last() {
    let p: CursorPage<u32> = CursorPage {
        href: "https://api.test/me/following".to_string(),
        limit: 2,
        next: None,
        cursors: Cursor { after: Some("abc".to_string()), before: None },
        total: Some(2),
        items: vec![1, 2],
    };
    assert!(p.is_last());
}

#[test]
fn cursor_page_with_next_is_not_last() {
    let p: CursorPage<u32> = CursorPage {
        href: "https://api.test/me/following".to_string(),
        limit: 2,
        next: Some("https://api.test/me/following?after=abc".to_string()),
        cursors: Cursor { after: Some("abc".to_string()), before: None },
        total: None,
        items: vec![1, 2],
    };
    assert!(!p.is_last());
}

#[test]
fn restriction_reason_unknown_value_is_tolerated() {
    assert_eq!(RestrictionReason::from_wire("banana"), RestrictionReason::Unknown);
    assert_eq!(RestrictionReason::from_wire(""), RestrictionReason::Unknown);
    assert_eq!(RestrictionReason::from_wire("Market"), RestrictionReason::Unknown);
}

#[test]
fn restriction_reason_known_values() {
    assert_eq!(RestrictionReason::from_wire("market"), RestrictionReason::Market);
    assert_eq!(RestrictionReason::from_wire("product"), RestrictionReason::Product);
    assert_eq!(RestrictionReason::from_wire("explicit"), RestrictionReason::Explicit);
}

#[test]
fn copyright_type_values() {
    assert_eq!(CopyrightType::from_wire("C"), Some(CopyrightType::Copyright));
    assert_eq!(CopyrightType::from_wire("P"), Some(CopyrightType::Performance));
    assert_eq!(CopyrightType::from_wire("c"), None);
}

#[test]
fn date_precision_values() {
    assert_eq!(DatePrecision::from_wire("year"), Some(DatePrecision::Year));
    assert_eq!(DatePrecision::from_wire("month"), Some(DatePrecision::Month));
    assert_eq!(DatePrecision::from_wire("day"), Some(DatePrecision::Day));
    assert_eq!(DatePrecision::from_wire("week"), None);
}

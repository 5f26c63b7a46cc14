//! The four navigation operations: boundary failures, exact neighbours,
//! and the random draw staying inside the listing.

use daily_strip::fetcher::build_fetcher;
use daily_strip::fetcher::Fetcher;
use daily_strip::sites::Sites;

const ARCHIVE: &str = r#"<html><body>
<a class="post-link" href="/c1">One</a>
<a class="post-link" href="/c2">Two</a>
<a class="post-link" href="/c3">Three</a>
</body></html>"#;

#[test]
fn next_at_newest_always_fails() {
    let f = build_fetcher(Sites::TurnoffUs, ARCHIVE).unwrap();
    assert!(f.next(0).is_err());
}

#[test]
fn prev_at_oldest_always_fails() {
    let f = build_fetcher(Sites::TurnoffUs, ARCHIVE).unwrap();
    assert!(f.prev(2).is_err());
    assert!(f.prev(usize::MAX).is_err());
}

#[test]
fn next_resolves_the_stub_one_newer() {
    let f = build_fetcher(Sites::TurnoffUs, ARCHIVE).unwrap();
    let s = f.next(1).unwrap();
    assert_eq!(s.idx, 0);
    assert_eq!(s.title, "One");
    let s = f.next(2).unwrap();
    assert_eq!(s.idx, 1);
    assert_eq!(s.title, "Two");
    let s = f.next(3).unwrap();
    assert_eq!(s.idx, 2);
    assert!(f.next(4).is_err());
}

#[test]
fn prev_resolves_the_stub_one_older() {
    let f = build_fetcher(Sites::TurnoffUs, ARCHIVE).unwrap();
    let s = f.prev(0).unwrap();
    assert_eq!(s.idx, 1);
    assert_eq!(s.title, "Two");
    let s = f.prev(1).unwrap();
    assert_eq!(s.idx, 2);
    assert_eq!(s.title, "Three");
}

#[test]
fn last_returns_index_zero() {
    let f = build_fetcher(Sites::TurnoffUs, ARCHIVE).unwrap();
    let s = f.last().unwrap();
    assert_eq!(s.idx, 0);
    assert_eq!(s.title, "One");
}

#[test]
fn random_draws_a_listed_stub() {
    let f = build_fetcher(Sites::TurnoffUs, ARCHIVE).unwrap();
    for _ in 0..32 {
        let s = f.random().unwrap();
        assert!(s.idx < 3);
        let expected = ["One", "Two", "Three"][s.idx];
        assert_eq!(s.title, expected);
    }
}

#[test]
fn file_name_takes_extension_after_last_dot() {
    let f = build_fetcher(Sites::TurnoffUs, ARCHIVE).unwrap();
    let mut s = f.last().unwrap();
    s.url = String::from("https://turnoff.us/image/strip.v2.png");
    assert_eq!(s.file_name(), "One.png");
    s.url = String::from("no-dot-here");
    assert_eq!(s.file_name(), "One.no-dot-here");
}

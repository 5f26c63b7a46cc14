//! The dispatcher's decisions: adapter caching without negative caching,
//! last-request-wins cancellation, and downloads bypassing cancellation.

use daily_strip::backend::Backend;
use daily_strip::backend::Dispatch;
use daily_strip::backend::Request;
use daily_strip::backend::RequestStripType;
use daily_strip::backend::Response;
use daily_strip::cancel::Coordinator;
use daily_strip::sites::Sites;

const ARCHIVE: &str = r#"<a class="post-link" href="/c1">One</a>
<a class="post-link" href="/c2">Two</a>"#;

fn strip_request(site: Sites) -> Request {
    Request::Strip { site, ty: RequestStripType::Last }
}

#[test]
fn failing_source_is_fetched_again_not_cached() {
    let mut b = Backend::new();
    let req = strip_request(Sites::TurnoffUs);

    let first = b.plan(&req);
    let url = match first {
        Dispatch::BuildThenNavigate { site, listing_url } => {
            assert_eq!(site, Sites::TurnoffUs);
            listing_url
        },
        _ => panic!("a never-seen source must be built"),
    };
    assert_eq!(url, "https://turnoff.us/all");
    assert!(!b.install_listing(Sites::TurnoffUs, Some("<html>empty</html>")));

    let second = b.plan(&req);
    match second {
        Dispatch::BuildThenNavigate { site, listing_url } => {
            assert_eq!(site, Sites::TurnoffUs);
            assert_eq!(listing_url, "https://turnoff.us/all");
        },
        _ => panic!("a failed build must not be cached"),
    }
}

#[test]
fn failed_fetch_is_not_cached_either() {
    let mut b = Backend::new();
    assert!(!b.install_listing(Sites::CatAndGirl, None));
    match b.plan(&strip_request(Sites::CatAndGirl)) {
        Dispatch::BuildThenNavigate { .. } => {},
        _ => panic!("a failed fetch must not be cached"),
    }
}

#[test]
fn successful_build_is_cached() {
    let mut b = Backend::new();
    assert!(b.install_listing(Sites::TurnoffUs, Some(ARCHIVE)));
    match b.plan(&strip_request(Sites::TurnoffUs)) {
        Dispatch::Navigate { site } => assert_eq!(site, Sites::TurnoffUs),
        _ => panic!("a built adapter must be reused"),
    }
    match b.plan(&strip_request(Sites::Xkcd)) {
        Dispatch::BuildThenNavigate { .. } => {},
        _ => panic!("other sources stay unbuilt"),
    }
}

#[test]
fn navigation_picks_the_requested_stub() {
    let mut b = Backend::new();
    assert!(b.install_listing(Sites::TurnoffUs, Some(ARCHIVE)));
    let (_, out) = b.begin_navigation(Sites::TurnoffUs, RequestStripType::Last);
    let s = out.expect("a loaded adapter answers Last");
    assert_eq!(s.idx, 0);
    assert_eq!(s.title, "One");
    let (_, out) = b.begin_navigation(Sites::TurnoffUs, RequestStripType::Prev(Some(0)));
    assert_eq!(out.expect("one older strip exists").title, "Two");
    let (_, out) = b.begin_navigation(Sites::TurnoffUs, RequestStripType::Next(Some(0)));
    assert!(out.is_none());
    let (_, out) = b.begin_navigation(Sites::TurnoffUs, RequestStripType::Next(None));
    assert!(out.is_none());
    let (_, out) = b.begin_navigation(Sites::Oglaf, RequestStripType::Last);
    assert!(out.is_none());
}

#[test]
fn newer_navigation_discards_the_older_one() {
    let mut b = Backend::new();
    assert!(b.install_listing(Sites::TurnoffUs, Some(ARCHIVE)));
    let (gen_a, out_a) = b.begin_navigation(Sites::TurnoffUs, RequestStripType::Last);
    let (gen_b, out_b) = b.begin_navigation(Sites::TurnoffUs, RequestStripType::Prev(Some(0)));
    assert_ne!(gen_a, gen_b);

    // Both tasks complete; only the later request's result is delivered.
    assert!(b.finish_navigation(gen_a, out_a).is_none());
    let delivered = b.finish_navigation(gen_b, out_b.clone());
    match delivered {
        Some(Response::Strip(Some(s))) => assert_eq!(s.title, "Two"),
        _ => panic!("the latest request's result must be delivered"),
    }
}

#[test]
fn coordinator_slot_holds_one_generation() {
    let mut c = Coordinator::new();
    let a = c.issue();
    assert!(c.should_deliver(a));
    let b = c.issue();
    assert!(!c.should_deliver(a));
    assert!(c.should_deliver(b));
}

#[test]
fn download_is_delivered_regardless_of_navigation() {
    let mut b = Backend::new();
    assert!(b.install_listing(Sites::TurnoffUs, Some(ARCHIVE)));
    let (gen_a, out_a) = b.begin_navigation(Sites::TurnoffUs, RequestStripType::Last);

    // A download planned and finished while the navigation is in flight.
    let req = Request::Download {
        path: String::from("/tmp/strip.png"),
        url: String::from("https://turnoff.us/c1.png"),
    };
    match b.plan(&req) {
        Dispatch::Download { path, url } => {
            assert_eq!(path, "/tmp/strip.png");
            assert_eq!(url, "https://turnoff.us/c1.png");
        },
        _ => panic!("a download is performed as it stands"),
    }
    match b.download_response(Ok(())) {
        Response::Download(Ok(())) => {},
        _ => panic!("a download response is always delivered"),
    }
    match b.download_response(Err(String::from("connection reset"))) {
        Response::Download(Err(msg)) => assert_eq!(msg, "connection reset"),
        _ => panic!("download failure detail is preserved"),
    }

    // The download did not cancel the navigation in flight.
    let delivered = b.finish_navigation(gen_a, out_a);
    match delivered {
        Some(Response::Strip(Some(s))) => assert_eq!(s.title, "One"),
        _ => panic!("a download must not cancel a navigation request"),
    }
}

#[test]
fn navigation_failure_is_an_absent_result() {
    let mut b = Backend::new();
    let (gen, out) = b.begin_navigation(Sites::TurnoffUs, RequestStripType::Last);
    assert!(out.is_none());
    match b.finish_navigation(gen, out) {
        Some(Response::Strip(None)) => {},
        _ => panic!("failures collapse to an absent navigation result"),
    }
}

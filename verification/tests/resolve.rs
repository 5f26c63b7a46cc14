//! Stub resolution: each rewrite rule on a literal page, the sources that
//! resolve out of the stub itself, and the not-found failure.

use daily_strip::fetcher::build_fetcher;
use daily_strip::fetcher::resolve_needs_fetch;
use daily_strip::fetcher::resolve_strip;
use daily_strip::fetcher::Fetcher;
use daily_strip::sites::Sites;
use daily_strip::strip::Strip;
use daily_strip::strip::StripType;

fn stub(site: Sites, title: &str, url: &str) -> Strip {
    Strip {
        title: String::from(title),
        url: String::from(url),
        idx: 0,
        strip_type: StripType::Unique,
        site,
    }
}

#[test]
fn turnoff_prefixes_the_endpoint() {
    let s = stub(Sites::TurnoffUs, "One", "https://turnoff.us/c1");
    let page = r#"<p><img src="/image/one.png"></p>"#;
    let out = resolve_strip(&s, page).unwrap();
    assert_eq!(out.url, "https://turnoff.us/image/one.png");
    assert_eq!(out.title, "One");
    assert_eq!(out.idx, 0);
    assert_eq!(out.site, Sites::TurnoffUs);
}

#[test]
fn resolution_fails_when_nothing_matches() {
    let s = stub(Sites::TurnoffUs, "One", "https://turnoff.us/c1");
    assert!(resolve_strip(&s, "<p>no image here</p>").is_err());
}

#[test]
fn js_power_hour_completes_the_scheme() {
    let s = stub(Sites::JSPowerHour, "Ep", "https://www.jspowerhour.com/comics/1");
    let page = r#"<img id="comic-img" src="//cdn.example/ep.png">"#;
    let out = resolve_strip(&s, page).unwrap();
    assert_eq!(out.url, "https://cdn.example/ep.png");
}

#[test]
fn butter_safe_rewrites_dots_and_takes_alt_title() {
    let s = stub(Sites::ButterSafe, "https://buttersafe.com", "https://www.buttersafe.com/x");
    let page = r#"<div id="comic"><img src="../2020/strip.jpg" alt="The Title"></div>"#;
    let out = resolve_strip(&s, page).unwrap();
    assert_eq!(out.url, "https://buttersafe.com/2020/strip.jpg");
    assert_eq!(out.title, "The Title");
}

#[test]
fn butter_safe_fails_without_alt_title() {
    let s = stub(Sites::ButterSafe, "https://buttersafe.com", "https://www.buttersafe.com/x");
    let page = r#"<div id="comic"><img src="../2020/strip.jpg"></div>"#;
    assert!(resolve_strip(&s, page).is_err());
}

#[test]
fn xkcd_reads_the_og_image() {
    let s = stub(Sites::Xkcd, "5", "https://xkcd.com/5");
    let page = r#"<head><meta property="og:image" content="https://imgs.xkcd.com/comics/a.png"></head>"#;
    let out = resolve_strip(&s, page).unwrap();
    assert_eq!(out.url, "https://imgs.xkcd.com/comics/a.png");
    assert_eq!(out.title, "5");
}

#[test]
fn questionable_content_resolves_out_of_the_stored_markup() {
    assert!(!resolve_needs_fetch(Sites::QuestionableContent));
    let s = stub(
        Sites::QuestionableContent,
        "QC",
        r#"<img src="https://www.questionablecontent.net/comics/1.png">"#,
    );
    let out = resolve_strip(&s, "").unwrap();
    assert_eq!(out.url, "https://www.questionablecontent.net/comics/1.png");
}

#[test]
fn identity_sources_return_the_stub_unchanged() {
    assert!(!resolve_needs_fetch(Sites::BonkersWorld));
    assert!(!resolve_needs_fetch(Sites::DieselSweeties3_0));
    let s = stub(Sites::DieselSweeties3_0, "T", "https://www.dieselsweeties.com/i.png");
    let out = resolve_strip(&s, "").unwrap();
    assert_eq!(out.url, "https://www.dieselsweeties.com/i.png");
    assert_eq!(out.title, "T");
}

#[test]
fn most_sources_need_a_resolution_fetch() {
    assert!(resolve_needs_fetch(Sites::TurnoffUs));
    assert!(resolve_needs_fetch(Sites::Xkcd));
    assert!(resolve_needs_fetch(Sites::Achewood));
}

#[test]
fn dinosaur_comics_inserts_a_slash() {
    let s = stub(Sites::DinosaurComics, "T", "https://www.qwantz.com/index.php?comic=1");
    let page = r#"<img class="comic" src="comics/one.png">"#;
    let out = resolve_strip(&s, page).unwrap();
    assert_eq!(out.url, "https://www.qwantz.com/comics/one.png");
}

#[test]
fn monkey_user_prefixes_the_homepage() {
    let s = stub(Sites::MonkeyUser, "T", "https://www.monkeyuser.com/one");
    let page = r#"<p><img src="/assets/images/one.png"></p>"#;
    let out = resolve_strip(&s, page).unwrap();
    assert_eq!(out.url, "https://monkeyuser.com/assets/images/one.png");
}

#[test]
fn full_scenario_listing_then_resolution() {
    let archive = r#"<a class="post-link" href="/c1">One</a>
<a class="post-link" href="/c2">Two</a>
<a class="post-link" href="/c3">Three</a>"#;
    let f = build_fetcher(Sites::TurnoffUs, archive).unwrap();
    let s = f.next(1).unwrap();
    assert_eq!(s.idx, 0);
    let page = r#"<p><img src="/image/one.png"></p>"#;
    let out = resolve_strip(&s, page).unwrap();
    assert_eq!(out.title, "One");
    assert_eq!(out.url, "https://turnoff.us/image/one.png");
    assert_eq!(out.idx, 0);
    assert!(!out.has_next());
    assert!(out.has_prev());
}

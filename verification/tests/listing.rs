//! Listing construction: recipes on literal page bodies, dense indices,
//! boundary markers, ordering, and the no-stubs failure.

use daily_strip::fetcher::build_fetcher;
use daily_strip::fetcher::Fetcher;
use daily_strip::sites::Sites;

const TURNOFF_ARCHIVE: &str = r#"<html><body>
<a class="post-link" href="/c1">First Comic</a>
<a class="post-link" href="/c2">Second Comic</a>
<a class="post-link" href="/c3">Third Comic</a>
</body></html>"#;

#[test]
fn turnoff_listing_indices_and_markers() {
    let f = build_fetcher(Sites::TurnoffUs, TURNOFF_ARCHIVE).expect("listing should build");
    let s0 = f.last().expect("index 0 exists");
    assert_eq!(s0.title, "First Comic");
    assert_eq!(s0.url, "https://turnoff.us/c1");
    assert_eq!(s0.idx, 0);
    assert!(!s0.has_next());
    assert!(s0.has_prev());

    let s1 = f.prev(0).expect("index 1 exists");
    assert_eq!(s1.title, "Second Comic");
    assert_eq!(s1.idx, 1);
    assert!(s1.has_next());
    assert!(s1.has_prev());

    let s2 = f.prev(1).expect("index 2 exists");
    assert_eq!(s2.title, "Third Comic");
    assert_eq!(s2.url, "https://turnoff.us/c3");
    assert_eq!(s2.idx, 2);
    assert!(s2.has_next());
    assert!(!s2.has_prev());
}

#[test]
fn empty_listing_fails_to_build() {
    assert!(build_fetcher(Sites::TurnoffUs, "<html><body>nothing</body></html>").is_none());
    assert!(build_fetcher(Sites::CatAndGirl, "").is_none());
    assert!(build_fetcher(Sites::MonkeyUser, "not a feed at all").is_none());
}

#[test]
fn feed_listing_single_item_is_unique() {
    let body = r#"<rss version="2.0"><channel>
<title>c</title><link>https://x</link><description>d</description>
<item><title>Only One</title><link>https://x/only</link></item>
</channel></rss>"#;
    let f = build_fetcher(Sites::MonkeyUser, body).expect("feed should build");
    let s = f.last().expect("sole item");
    assert_eq!(s.title, "Only One");
    assert_eq!(s.url, "https://x/only");
    assert_eq!(s.idx, 0);
    assert!(!s.has_next());
    assert!(!s.has_prev());
}

#[test]
fn feed_listing_drops_items_missing_fields() {
    let body = r#"<rss version="2.0"><channel>
<title>c</title><link>https://x</link><description>d</description>
<item><title>Kept</title><link>https://x/kept</link></item>
<item><title></title><link>https://x/untitled</link></item>
<item><title>No Link</title></item>
</channel></rss>"#;
    let f = build_fetcher(Sites::MonkeyUser, body).expect("feed should build");
    let s = f.last().expect("kept item");
    assert_eq!(s.title, "Kept");
    assert!(!s.has_next());
    assert!(!s.has_prev());
    assert!(f.prev(0).is_err());
}

#[test]
fn markers_unique_per_listing() {
    let f = build_fetcher(Sites::TurnoffUs, TURNOFF_ARCHIVE).expect("listing should build");
    let mut firsts = 0;
    let mut lasts = 0;
    for idx in 0..3usize {
        let s = if idx == 0 { f.last().unwrap() } else { f.prev(idx - 1).unwrap() };
        assert_eq!(s.idx, idx);
        if !s.has_next() {
            firsts += 1;
        }
        if !s.has_prev() {
            lasts += 1;
        }
    }
    assert_eq!(firsts, 1);
    assert_eq!(lasts, 1);
}

#[test]
fn achewood_listing_is_reversed_oldest_first_source() {
    let body = r#"<table>
<td class="archiveLink"><a href="/a_old">Oldest</a></td>
<td class="archiveLink"><a href="/a_new">Newest</a></td>
</table>"#;
    let f = build_fetcher(Sites::Achewood, body).expect("listing should build");
    let s0 = f.last().expect("newest");
    assert_eq!(s0.title, "Newest");
    assert_eq!(s0.url, "https://achewood.com/a_new");
    let s1 = f.prev(0).expect("oldest");
    assert_eq!(s1.title, "Oldest");
    assert_eq!(s1.url, "https://achewood.com/a_old");
    assert!(!s1.has_prev());
}

#[test]
fn softer_world_skips_first_link_and_reverses() {
    let body = r#"<table>
<td><a href="/banner">Banner</a></td>
<td><a href="/ep1">1</a></td>
<td><a href="/ep2">2</a></td>
</table>"#;
    let f = build_fetcher(Sites::ASofterWorld, body).expect("listing should build");
    let s0 = f.last().expect("newest");
    assert_eq!(s0.url, "/ep2");
    assert_eq!(s0.title, "https://asofterworld.com");
    let s1 = f.prev(0).expect("older");
    assert_eq!(s1.url, "/ep1");
    assert!(f.prev(1).is_err());
}

#[test]
fn cornet_listing_zips_titles_with_cleaned_thumbnails() {
    let body = r##"<div>
<span><a class="post-link" href="#"> Robots </a></span>
<a class="post-link" href="#"><img src="/thumbs/robots_thumbnail.png"></a>
<span><a class="post-link" href="#"> Cloud </a></span>
<a class="post-link" href="#"><img src="/thumbs/cloud_thumbnail.png"></a>
</div>"##;
    let f = build_fetcher(Sites::BonkersWorld, body).expect("listing should build");
    let s0 = f.last().expect("newest");
    assert_eq!(s0.title, "Robots");
    assert_eq!(s0.url, "https://bonkersworld.net/robots.png");
    let s1 = f.prev(0).expect("second");
    assert_eq!(s1.title, "Cloud");
    assert_eq!(s1.url, "https://bonkersworld.net/cloud.png");
}

#[test]
fn xkcd_listing_counts_down_from_front_page_number() {
    let body = r#"<html><head>
<meta property="og:site_name" content="xkcd">
<meta property="og:url" content="https://xkcd.com/5/">
</head></html>"#;
    let f = build_fetcher(Sites::Xkcd, body).expect("listing should build");
    let s0 = f.last().expect("newest");
    assert_eq!(s0.title, "5");
    assert_eq!(s0.url, "https://xkcd.com/5");
    assert_eq!(s0.idx, 0);
    let s4 = f.prev(3).expect("oldest");
    assert_eq!(s4.title, "1");
    assert_eq!(s4.url, "https://xkcd.com/1");
    assert!(!s4.has_prev());
    assert!(f.prev(4).is_err());
}

#[test]
fn xkcd_listing_fails_without_count() {
    assert!(build_fetcher(Sites::Xkcd, "<html><head></head></html>").is_none());
}

#[test]
fn buttercup_keeps_only_numbered_links() {
    let body = r#"<center>
<a href="2-01.png">1</a>
<a href="about.html">About the author</a>
<a href="2-02.png">2</a>
</center>"#;
    let f = build_fetcher(Sites::ButtercupFestival, body).expect("listing should build");
    let s0 = f.last().expect("newest");
    assert_eq!(s0.title, "2-02");
    assert_eq!(s0.url, "https://www.buttercupfestival.com/2-02.png");
    let s1 = f.prev(0).expect("older");
    assert_eq!(s1.title, "2-01");
    assert!(f.prev(1).is_err());
}

#[test]
fn work_chronicles_titles_follow_comic_marker() {
    let body = r#"<div>
<a class="sitemap-link" href="/p/one">(comic) Standup</a>
<a class="sitemap-link" href="/p/about">About</a>
<a class="sitemap-link" href="/p/two">(comic) Deadline</a>
</div>"#;
    let f = build_fetcher(Sites::WorkChronicles, body).expect("listing should build");
    let s0 = f.last().expect("newest");
    assert_eq!(s0.title, "Standup");
    assert_eq!(s0.url, "/p/one");
    let s1 = f.prev(0).expect("second");
    assert_eq!(s1.title, "Deadline");
    assert_eq!(s1.url, "/p/two");
    assert!(f.prev(1).is_err());
}

#[test]
fn oglaf_feed_reads_link_out_of_description() {
    let body = r#"<rss version="2.0"><channel>
<title>c</title><link>https://x</link><description>d</description>
<item><title>Story</title><description>&lt;p&gt;&lt;a href="https://media.oglaf.com/story"&gt;go&lt;/a&gt;&lt;/p&gt;</description></item>
</channel></rss>"#;
    let f = build_fetcher(Sites::Oglaf, body).expect("feed should build");
    let s = f.last().expect("item");
    assert_eq!(s.title, "Story");
    assert_eq!(s.url, "https://media.oglaf.com/story");
}

#[test]
fn diesel_sweeties_numbered_archive() {
    let f = build_fetcher(Sites::DieselSweeties1_0, "").expect("fixed listing always builds");
    let s0 = f.last().expect("newest");
    assert_eq!(s0.title, "4000");
    assert_eq!(s0.url, "https://www.dieselsweeties.com/archive/4000");
    assert_eq!(s0.idx, 0);
    let s = f.prev(3998).expect("oldest");
    assert_eq!(s.title, "1");
    assert!(!s.has_prev());
}

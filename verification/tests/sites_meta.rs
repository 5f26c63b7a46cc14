//! The source enumeration's static metadata.

use daily_strip::sites::listing_url;
use daily_strip::sites::Sites;
use daily_strip::sites::SITE_COUNT;
use daily_strip::Url;

#[test]
fn endpoints_and_homepages() {
    assert_eq!(Sites::Xkcd.fetch_url(), "https://xkcd.com");
    assert_eq!(Sites::Xkcd.homepage(), "xkcd.com");
    assert_eq!(Sites::Oglaf.fetch_url(), "https://www.oglaf.com/feeds/rss");
    assert_eq!(Sites::DieselSweeties1_0.homepage(), "dieselsweeties.com");
    assert_eq!(Sites::DieselSweeties3_0.homepage(), "dieselsweeties.com");
}

#[test]
fn listing_pages_append_archive_paths() {
    assert_eq!(listing_url(Sites::TurnoffUs), "https://turnoff.us/all");
    assert_eq!(listing_url(Sites::DinosaurComics), "https://www.qwantz.com/archive.php");
    assert_eq!(listing_url(Sites::WorkChronicles), "https://workchronicles.substack.com/sitemap");
    assert_eq!(listing_url(Sites::Xkcd), "https://xkcd.com");
}

#[test]
fn display_names() {
    assert_eq!(Sites::TurnoffUs.display_name(), "{turnoff.us}");
    assert_eq!(Sites::CadComics.display_name(), "CTRL+ALT+DEL");
    assert_eq!(Sites::ASofterWorld.display_name(), "a softer world");
}

#[test]
fn default_source() {
    assert_eq!(Sites::default(), Sites::TurnoffUs);
}

#[test]
fn all_sources_once_in_order() {
    let all = Sites::all();
    assert_eq!(all.len(), SITE_COUNT);
    for (i, s) in all.iter().enumerate() {
        assert_eq!(s.index(), i);
    }
    assert_eq!(all[0], Sites::TurnoffUs);
    assert_eq!(all[SITE_COUNT - 1], Sites::DieselSweeties3_0);
}

#[test]
fn error_message() {
    let e = daily_strip::FetcherErrors::Error404;
    assert_eq!(e.message(), "Failed to fetch items");
}

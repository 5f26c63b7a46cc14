//! The trusted boundary to the outside crates the adapters lean on: HTML
//! selection through `scraper`, feed reading through `rss`, and one random
//! draw through `rand`. Each wrapper's contract names what the call returns;
//! everything done with the returned plain values is verified elsewhere.

use vstd::prelude::*;

verus! {

/// What selecting `selector` over `page` yields, per element its inner HTML
/// and the value of `attr`; nothing when the selector does not parse.
pub uninterp spec fn spec_selected_entries(
    page: Seq<char>,
    selector: Seq<char>,
    attr: Seq<char>,
) -> Option<Seq<(Seq<char>, Option<Seq<char>>)>>;

/// What selecting `selector` over `page` yields, per element the values of
/// the two attributes; nothing when the selector does not parse.
pub uninterp spec fn spec_selected_attr_pairs(
    page: Seq<char>,
    selector: Seq<char>,
    attr_a: Seq<char>,
    attr_b: Seq<char>,
) -> Option<Seq<(Option<Seq<char>>, Option<Seq<char>>)>>;

/// The value of `attr` on the first element `selector` matches in `page`,
/// if the selector parses, an element matches, and it carries the attribute.
pub uninterp spec fn spec_first_attr(
    page: Seq<char>,
    selector: Seq<char>,
    attr: Seq<char>,
) -> Option<Seq<char>>;

/// The items of the feed `page` holds, per item its title, link, description
/// and content fields; nothing when the feed does not parse.
pub uninterp spec fn spec_feed_entries(page: Seq<char>) -> Option<
    Seq<(Option<Seq<char>>, Option<Seq<char>>, Option<Seq<char>>, Option<Seq<char>>)>,
>;

/// `s` without leading and trailing whitespace.
pub uninterp spec fn spec_trim(s: Seq<char>) -> Seq<char>;

/// Relies on scraper's `Selector::parse`, `Html::parse_document`,
/// `Html::select`, `ElementRef::inner_html` and `ElementRef::attr`: the
/// elements `selector` matches in `page`, in document order, as plain pairs.
#[verifier::external_body]
pub(crate) fn select_entries(page: &str, selector: &str, attr: &str) -> (r: Option<
    Vec<(String, Option<String>)>,
>)
    ensures
        r.deep_view() == spec_selected_entries(page@, selector@, attr@),
{
    let sel = scraper::Selector::parse(selector).ok()?;
    let doc = scraper::Html::parse_document(page);
    Some(
        doc.select(&sel).map(
            |e| (e.inner_html(), e.attr(attr).map(|v| v.to_string())),
        ).collect(),
    )
}

/// Relies on scraper's `Selector::parse`, `Html::parse_document`,
/// `Html::select` and `ElementRef::attr`: per matched element the values of
/// two attributes, in document order.
#[verifier::external_body]
pub(crate) fn select_attr_pairs(page: &str, selector: &str, attr_a: &str, attr_b: &str) -> (r:
    Option<Vec<(Option<String>, Option<String>)>>)
    ensures
        r.deep_view() == spec_selected_attr_pairs(page@, selector@, attr_a@, attr_b@),
{
    let sel = scraper::Selector::parse(selector).ok()?;
    let doc = scraper::Html::parse_document(page);
    Some(
        doc.select(&sel).map(
            |e| (e.attr(attr_a).map(|v| v.to_string()), e.attr(attr_b).map(|v| v.to_string())),
        ).collect(),
    )
}

/// Relies on scraper's `Selector::parse`, `Html::parse_document`,
/// `Html::select` and `ElementRef::attr`: the attribute of the first element
/// the selector matches.
#[verifier::external_body]
pub(crate) fn select_first_attr(page: &str, selector: &str, attr: &str) -> (r: Option<String>)
    ensures
        r.deep_view() == spec_first_attr(page@, selector@, attr@),
{
    let sel = scraper::Selector::parse(selector).ok()?;
    let doc = scraper::Html::parse_document(page);
    Some(doc.select(&sel).next()?.value().attr(attr)?.to_string())
}

/// Relies on `rss::Channel::read_from`: the channel's items with their
/// title, link, description and content fields, in feed order.
#[verifier::external_body]
pub(crate) fn feed_entries(page: &str) -> (r: Option<
    Vec<(Option<String>, Option<String>, Option<String>, Option<String>)>,
>)
    ensures
        r.deep_view() == spec_feed_entries(page@),
{
    let ch = rss::Channel::read_from(page.as_bytes()).ok()?;
    Some(ch.items.into_iter().map(|i| (i.title, i.link, i.description, i.content)).collect())
}

/// Relies on `str::trim`: leading and trailing whitespace removed; the
/// result depends on the characters alone.
#[verifier::external_body]
pub(crate) fn trim_str(s: &str) -> (r: String)
    ensures
        r@ == spec_trim(s@),
        r@.len() <= s@.len(),
        s@.len() == 0 ==> r@.len() == 0,
{
    s.trim().to_string()
}

/// Relies on `rand::random_range`: a draw from a non-empty range lies in it.
#[verifier::external_body]
pub(crate) fn draw_index(n: usize) -> (r: usize)
    requires
        n > 0,
    ensures
        r < n,
{
    rand::random_range(0..n)
}

} // verus!

//! The per-source adapter: a cached listing of stubs in newest-first order
//! with dense indices and boundary markers, the four navigation operations
//! over it, and the listing construction and stub resolution recipes of each
//! source. Listing bodies and resolution pages are handed in by the caller;
//! what the outside parsing crates return is taken at the boundary of
//! `crate::extract` and everything done with it here is verified.

use vstd::prelude::*;
use vstd::string::*;

use crate::sites::Sites;
use crate::strip::Strip;
use crate::strip::StripType;
use crate::strip::FetcherErrors;
use crate::extract::draw_index;

verus! {

/// The boundary marker owed to position `i` of a listing of length `len`.
pub open spec fn spec_marker(i: int, len: int) -> StripType {
    if len == 1 {
        StripType::Unique
    } else if i == 0 {
        StripType::First
    } else if i == len - 1 {
        StripType::Last
    } else {
        StripType::Unknown
    }
}

/// A well-formed listing of `site`: non-empty, densely indexed in storage
/// order with index 0 the newest, every stub owned by `site`, and boundary
/// markers as owed.
pub open spec fn spec_listing_wf(posts: Seq<Strip>, site: Sites) -> bool {
    &&& posts.len() >= 1
    &&& forall|i: int| 0 <= i < posts.len() ==> (#[trigger] posts[i]).idx == i
    &&& forall|i: int| 0 <= i < posts.len() ==> (#[trigger] posts[i]).site == site
    &&& forall|i: int|
        0 <= i < posts.len() ==> (#[trigger] posts[i]).strip_type == spec_marker(
            i,
            posts.len() as int,
        )
}

/// A copy of a stub, field for field.
fn copy_of(s: &Strip) -> (r: Strip)
    ensures
        r == *s,
{
    Strip {
        title: s.title.clone(),
        url: s.url.clone(),
        idx: s.idx,
        strip_type: s.strip_type,
        site: s.site,
    }
}

/// The adapter of one source: its tag and, once a listing fetch succeeded,
/// the cached stub listing.
pub struct FetcherImpl {
    site: Sites,
    posts: Option<Vec<Strip>>,
}

impl FetcherImpl {
    /// The cached listing, if one is held.
    pub closed spec fn spec_listing(&self) -> Option<Seq<Strip>> {
        match self.posts {
            Some(v) => Some(v@),
            None => None,
        }
    }

    /// The source this adapter serves.
    pub closed spec fn spec_site(&self) -> Sites {
        self.site
    }

    /// A fresh adapter holding no listing yet.
    pub fn new(site: Sites) -> (r: FetcherImpl)
        ensures
            r.spec_site() == site,
            r.spec_listing() is None,
    {
        FetcherImpl { site, posts: None }
    }

    /// The source this adapter serves.
    pub fn site(&self) -> (r: Sites)
        ensures
            r == self.spec_site(),
    {
        self.site
    }

    /// Stamps the boundary markers: the first stub `First`, the last `Last`,
    /// a sole stub `Unique`, leaving every other field alone.
    pub fn set_strip_type(&mut self)
        ensures
            final(self).spec_site() == old(self).spec_site(),
            match old(self).spec_listing() {
                None => final(self).spec_listing() is None,
                Some(l) => final(self).spec_listing() matches Some(l2) && l2.len() == l.len()
                    && forall|i: int|
                    0 <= i < l.len() ==> {
                        let a = #[trigger] l2[i];
                        let b = l[i];
                        a.title == b.title && a.url == b.url && a.idx == b.idx && a.site == b.site
                            && a.strip_type == (if i == 0 || i == l.len() - 1 {
                            spec_marker(i, l.len() as int)
                        } else {
                            b.strip_type
                        })
                    },
            },
    {
        match &mut self.posts {
            None => {},
            Some(d) => {
                let n = d.len();
                if n == 1 {
                    let mut s = copy_of(&d[0]);
                    s.strip_type = StripType::Unique;
                    d[0] = s;
                } else if n > 1 {
                    let mut s = copy_of(&d[0]);
                    s.strip_type = StripType::First;
                    d[0] = s;
                    let mut e = copy_of(&d[n - 1]);
                    e.strip_type = StripType::Last;
                    d[n - 1] = e;
                }
            },
        }
    }

    /// The newest stub: the one at index 0.
    pub fn last_content(&self) -> (r: Option<&Strip>)
        ensures
            match self.spec_listing() {
                Some(l) => if l.len() > 0 {
                    r matches Some(s) && *s == l[0]
                } else {
                    r is None
                },
                None => r is None,
            },
    {
        match &self.posts {
            None => None,
            Some(d) => if d.len() > 0 {
                Some(&d[0])
            } else {
                None
            },
        }
    }

    /// The stub at a given index, if the listing reaches it.
    pub fn idx_content(&self, idx: usize) -> (r: Option<&Strip>)
        ensures
            match self.spec_listing() {
                Some(l) => if idx < l.len() {
                    r matches Some(s) && *s == l[idx as int]
                } else {
                    r is None
                },
                None => r is None,
            },
    {
        match &self.posts {
            None => None,
            Some(d) => if idx < d.len() {
                Some(&d[idx])
            } else {
                None
            },
        }
    }

    /// A stub drawn uniformly from the listing.
    pub fn random_content(&self) -> (r: Option<&Strip>)
        ensures
            match self.spec_listing() {
                Some(l) => if l.len() > 0 {
                    r matches Some(s) && exists|i: int| 0 <= i < l.len() && *s == l[i]
                } else {
                    r is None
                },
                None => r is None,
            },
    {
        match &self.posts {
            None => None,
            Some(d) => if d.len() > 0 {
                let k = draw_index(d.len());
                let s = &d[k];
                proof {
                    assert(*s == self.spec_listing()->0[k as int]);
                }
                Some(s)
            } else {
                None
            },
        }
    }

    /// Reverses a raw listing that arrived oldest first and reassigns the
    /// dense indices, so that index 0 is again the newest.
    pub fn reverse_strip_vec(data: &mut Vec<Strip>)
        ensures
            final(data)@.len() == old(data)@.len(),
            forall|i: int|
                0 <= i < final(data)@.len() ==> {
                    let a = #[trigger] final(data)@[i];
                    let b = old(data)@[final(data)@.len() - 1 - i];
                    a.title == b.title && a.url == b.url && a.site == b.site && a.strip_type
                        == b.strip_type && a.idx == i
                },
    {
        let n = data.len();
        let mut out: Vec<Strip> = Vec::new();
        while out.len() < n
            invariant
                n == old(data)@.len(),
                data@ == old(data)@,
                out@.len() <= n,
                forall|i: int|
                    0 <= i < out@.len() ==> {
                        let a = #[trigger] out@[i];
                        let b = old(data)@[n - 1 - i];
                        a.title == b.title && a.url == b.url && a.site == b.site && a.strip_type
                            == b.strip_type && a.idx == i
                    },
            decreases n - out.len(),
        {
            let j = n - 1 - out.len();
            let mut s = copy_of(&data[j]);
            s.idx = out.len();
            out.push(s);
        }
        *data = out;
    }
}

/// How a listing entry's title is obtained from a selected element.
#[derive(Debug, Clone, Copy, PartialEq, Eq)]
pub enum TitleRule {
    /// The element's inner HTML, kept even when empty.
    Inner,
    /// The element's inner HTML; empty titles are dropped.
    InnerNonEmpty,
    /// The trimmed inner HTML; titles blank after trimming are dropped.
    InnerTrimmed,
    /// The source's homepage address.
    HomepageAddress,
    /// What follows the first occurrence of a marker in the inner HTML;
    /// entries without the marker are dropped.
    AfterMarkerInInner,
    /// What follows the first occurrence of a marker in the address;
    /// entries without the marker are dropped.
    AfterMarkerInHref,
    /// What precedes the first occurrence of a marker in the address;
    /// entries without the marker are dropped.
    BeforeMarkerInHref,
}

/// How a listing entry's address is rewritten from the selected attribute.
#[derive(Debug, Clone, Copy, PartialEq, Eq)]
pub enum UrlRule {
    HrefAsIs,
    /// The fetch endpoint followed by the attribute value.
    BaseThenHref,
    /// `https://`, the homepage, then the attribute value.
    HomepageThenHref,
    /// `https://`, the homepage, a slash, then the attribute value.
    HomepageSlashHref,
    /// The fetch endpoint, a slash, then the attribute value.
    BaseSlashHref,
    /// The fetch endpoint, then the attribute value with its thumbnail path
    /// segments removed.
    BaseThenCleanedThumb,
}

/// The title a scrape rule yields, or nothing when the rule drops the entry.
pub open spec fn spec_scrape_title(
    site: Sites,
    tr: TitleRule,
    marker: Seq<char>,
    inner: Seq<char>,
    href: Seq<char>,
) -> Option<Seq<char>> {
    match tr {
        TitleRule::Inner => Some(inner),
        TitleRule::InnerNonEmpty => if inner.len() > 0 {
            Some(inner)
        } else {
            None
        },
        TitleRule::InnerTrimmed => if crate::extract::spec_trim(inner).len() > 0 {
            Some(crate::extract::spec_trim(inner))
        } else {
            None
        },
        TitleRule::HomepageAddress => Some("https://"@ + crate::sites::spec_homepage(site)),
        TitleRule::AfterMarkerInInner => match crate::text::spec_find(inner, marker) {
            Some(i) => Some(inner.subrange(i + marker.len(), inner.len() as int)),
            None => None,
        },
        TitleRule::AfterMarkerInHref => match crate::text::spec_find(href, marker) {
            Some(i) => Some(href.subrange(i + marker.len(), href.len() as int)),
            None => None,
        },
        TitleRule::BeforeMarkerInHref => match crate::text::spec_find(href, marker) {
            Some(i) => Some(href.subrange(0, i)),
            None => None,
        },
    }
}

/// The address a scrape rule yields for a selected attribute value.
pub open spec fn spec_scrape_url(site: Sites, ur: UrlRule, href: Seq<char>) -> Seq<char> {
    match ur {
        UrlRule::HrefAsIs => href,
        UrlRule::BaseThenHref => crate::sites::spec_fetch_url(site) + href,
        UrlRule::HomepageThenHref => "https://"@ + crate::sites::spec_homepage(site) + href,
        UrlRule::HomepageSlashHref => "https://"@ + crate::sites::spec_homepage(site) + "/"@
            + href,
        UrlRule::BaseSlashHref => crate::sites::spec_fetch_url(site) + "/"@ + href,
        UrlRule::BaseThenCleanedThumb => crate::sites::spec_fetch_url(site) + crate::text::spec_replace(
            crate::text::spec_replace(href, "thumbs/"@, ""@),
            "_thumbnail"@,
            ""@,
        ),
    }
}

/// The inner HTML reads as a machine-sized decimal number.
pub open spec fn spec_numeric_title(s: Seq<char>) -> bool {
    match crate::text::spec_parse_usize(s) {
        Some(v) => v <= usize::MAX,
        None => false,
    }
}

/// The kept `(title, address)` pairs a scrape recipe draws from selected
/// elements: entries without the attribute are dropped, the title rule may
/// drop more, and with `numeric` set only entries whose inner HTML is a
/// decimal number are kept.
pub open spec fn spec_scrape_pairs(
    site: Sites,
    entries: Seq<(Seq<char>, Option<Seq<char>>)>,
    tr: TitleRule,
    marker: Seq<char>,
    ur: UrlRule,
    numeric: bool,
) -> Seq<(Seq<char>, Seq<char>)>
    decreases entries.len(),
{
    if entries.len() == 0 {
        Seq::empty()
    } else {
        let rest = spec_scrape_pairs(site, entries.drop_last(), tr, marker, ur, numeric);
        let e = entries.last();
        match e.1 {
            None => rest,
            Some(href) => if numeric && !spec_numeric_title(e.0) {
                rest
            } else {
                match spec_scrape_title(site, tr, marker, e.0, href) {
                    None => rest,
                    Some(t) => rest.push((t, spec_scrape_url(site, ur, href))),
                }
            },
        }
    }
}

/// How a feed entry's address is obtained from an item's fields.
#[derive(Debug, Clone, Copy, PartialEq, Eq)]
pub enum FeedUrlRule {
    /// The item's link field.
    Link,
    /// The item's description field, taken whole.
    Description,
    /// The item's content field, taken whole.
    Content,
    /// An attribute selected out of the description's markup; items whose
    /// description yields none are dropped.
    FromDescription,
}

/// The kept `(title, address)` pairs a feed recipe draws from a channel's
/// items: items without a non-empty title or without the field the rule
/// reads are dropped.
pub open spec fn spec_feed_pairs(
    entries: Seq<(Option<Seq<char>>, Option<Seq<char>>, Option<Seq<char>>, Option<Seq<char>>)>,
    fu: FeedUrlRule,
    sel: Seq<char>,
    attr: Seq<char>,
) -> Seq<(Seq<char>, Seq<char>)>
    decreases entries.len(),
{
    if entries.len() == 0 {
        Seq::empty()
    } else {
        let rest = spec_feed_pairs(entries.drop_last(), fu, sel, attr);
        let e = entries.last();
        match e.0 {
            None => rest,
            Some(t) => if t.len() == 0 {
                rest
            } else {
                match fu {
                    FeedUrlRule::Link => match e.1 {
                        Some(u) => if u.len() > 0 {
                            rest.push((t, u))
                        } else {
                            rest
                        },
                        None => rest,
                    },
                    FeedUrlRule::Description => match e.2 {
                        Some(u) => if u.len() > 0 {
                            rest.push((t, u))
                        } else {
                            rest
                        },
                        None => rest,
                    },
                    FeedUrlRule::Content => match e.3 {
                        Some(u) => if u.len() > 0 {
                            rest.push((t, u))
                        } else {
                            rest
                        },
                        None => rest,
                    },
                    FeedUrlRule::FromDescription => match e.2 {
                        Some(d) => if d.len() > 0 {
                            match crate::extract::spec_first_attr(d, sel, attr) {
                                Some(u) => rest.push((t, u)),
                                None => rest,
                            }
                        } else {
                            rest
                        },
                        None => rest,
                    },
                }
            },
        }
    }
}

/// The `(title, address)` pairs of a numbered source counting down from
/// `count`: position `i` carries number `count - i`.
pub open spec fn spec_numbered_pairs(site: Sites, count: int) -> Seq<(Seq<char>, Seq<char>)> {
    Seq::new(
        count as nat,
        |i: int|
            (
                crate::text::spec_digits(count - i),
                crate::sites::spec_fetch_url(site) + "/"@ + crate::text::spec_digits(count - i),
            ),
    )
}

/// Stubs match expected `(title, address)` pairs: same length, and position
/// `i` holds pair `i` with index `i`, the site tag, and no marker yet.
pub open spec fn spec_stubs_match(
    stubs: Seq<Strip>,
    pairs: Seq<(Seq<char>, Seq<char>)>,
    site: Sites,
) -> bool {
    &&& stubs.len() == pairs.len()
    &&& forall|i: int|
        0 <= i < stubs.len() ==> {
            let s = #[trigger] stubs[i];
            s.title@ == pairs[i].0 && s.url@ == pairs[i].1 && s.idx == i && s.site == site
                && s.strip_type == StripType::Unknown
        }
}

/// The title a scrape rule yields for one element.
fn scrape_title(site: Sites, tr: TitleRule, marker: &str, inner: &str, href: &str) -> (r: Option<
    String,
>)
    ensures
        r.deep_view() == spec_scrape_title(site, tr, marker@, inner@, href@),
{
    match tr {
        TitleRule::Inner => Some(inner.to_owned()),
        TitleRule::InnerNonEmpty => {
            let n = inner.unicode_len();
            if n > 0 {
                Some(inner.to_owned())
            } else {
                None
            }
        },
        TitleRule::InnerTrimmed => {
            let t = crate::extract::trim_str(inner);
            let n = t.as_str().unicode_len();
            if n > 0 {
                Some(t)
            } else {
                None
            }
        },
        TitleRule::HomepageAddress => {
            let mut s = String::new();
            s.append("https://");
            s.append(crate::sites::Url::homepage(&site));
            proof {
                assert(s@ =~= "https://"@ + crate::sites::spec_homepage(site));
            }
            Some(s)
        },
        TitleRule::AfterMarkerInInner => {
            match crate::text::split_once_str(inner, marker) {
                None => None,
                Some(pair) => Some(pair.1),
            }
        },
        TitleRule::AfterMarkerInHref => {
            match crate::text::split_once_str(href, marker) {
                None => None,
                Some(pair) => Some(pair.1),
            }
        },
        TitleRule::BeforeMarkerInHref => {
            match crate::text::split_once_str(href, marker) {
                None => None,
                Some(pair) => Some(pair.0),
            }
        },
    }
}

/// The rewritten address a scrape rule yields for one attribute value.
fn scrape_url(site: Sites, ur: UrlRule, href: &str) -> (r: String)
    ensures
        r@ == spec_scrape_url(site, ur, href@),
{
    match ur {
        UrlRule::HrefAsIs => href.to_owned(),
        UrlRule::BaseThenHref => {
            let mut s = crate::sites::Url::fetch_url(&site).to_owned();
            s.append(href);
            s
        },
        UrlRule::HomepageThenHref => {
            let mut s = String::new();
            s.append("https://");
            s.append(crate::sites::Url::homepage(&site));
            s.append(href);
            proof {
                assert(s@ =~= "https://"@ + crate::sites::spec_homepage(site) + href@);
            }
            s
        },
        UrlRule::HomepageSlashHref => {
            let mut s = String::new();
            s.append("https://");
            s.append(crate::sites::Url::homepage(&site));
            s.append("/");
            s.append(href);
            proof {
                assert(s@ =~= "https://"@ + crate::sites::spec_homepage(site) + "/"@ + href@);
            }
            s
        },
        UrlRule::BaseSlashHref => {
            let mut s = crate::sites::Url::fetch_url(&site).to_owned();
            s.append("/");
            s.append(href);
            proof {
                assert(s@ =~= crate::sites::spec_fetch_url(site) + "/"@ + href@);
            }
            s
        },
        UrlRule::BaseThenCleanedThumb => {
            proof {
                reveal_strlit("thumbs/");
                reveal_strlit("_thumbnail");
            }
            let cleaned = crate::text::replace_all(href, "thumbs/", "");
            let cleaned2 = crate::text::replace_all(cleaned.as_str(), "_thumbnail", "");
            let mut s = crate::sites::Url::fetch_url(&site).to_owned();
            s.append(cleaned2.as_str());
            s
        },
    }
}

/// Builds the stubs a scrape recipe draws from selected elements, indexed
/// densely in extraction order.
fn build_scrape(
    site: Sites,
    entries: &Vec<(String, Option<String>)>,
    tr: TitleRule,
    marker: &str,
    ur: UrlRule,
    numeric: bool,
) -> (r: Vec<Strip>)
    ensures
        spec_stubs_match(
            r@,
            spec_scrape_pairs(site, entries.deep_view(), tr, marker@, ur, numeric),
            site,
        ),
{
    let ghost all = entries.deep_view();
    let mut out: Vec<Strip> = Vec::new();
    let mut k: usize = 0;
    while k < entries.len()
        invariant
            all == entries.deep_view(),
            all.len() == entries@.len(),
            0 <= k <= entries@.len(),
            spec_stubs_match(
                out@,
                spec_scrape_pairs(site, all.subrange(0, k as int), tr, marker@, ur, numeric),
                site,
            ),
        decreases entries@.len() - k,
    {
        proof {
            assert(all[k as int] == entries@[k as int].deep_view());
            assert(all[k as int].0 == entries@[k as int].0@);
            assert(all[k as int].1 == entries@[k as int].1.deep_view());
            match entries@[k as int].1 {
                Some(h) => {
                    assert(all[k as int].1 == Some(h@));
                },
                None => {
                    assert(all[k as int].1 is None);
                },
            }
            assert(all.subrange(0, k as int + 1).drop_last() =~= all.subrange(0, k as int));
            assert(all.subrange(0, k as int + 1).last() == all[k as int]);
        }
        let entry = &entries[k];
        match &entry.1 {
            None => {},
            Some(href) => {
                let keep = if numeric {
                    crate::text::parse_usize(entry.0.as_str()).is_some()
                } else {
                    true
                };
                if keep {
                    match scrape_title(site, tr, marker, entry.0.as_str(), href.as_str()) {
                        None => {},
                        Some(t) => {
                            let u = scrape_url(site, ur, href.as_str());
                            let s = Strip {
                                title: t,
                                url: u,
                                idx: out.len(),
                                strip_type: StripType::Unknown,
                                site,
                            };
                            out.push(s);
                        },
                    }
                }
            },
        }
        k += 1;
    }
    proof {
        assert(all.subrange(0, all.len() as int) =~= all);
    }
    out
}

/// Builds the stubs a feed recipe draws from a channel's items, indexed
/// densely in feed order.
fn build_feed(
    site: Sites,
    entries: &Vec<(Option<String>, Option<String>, Option<String>, Option<String>)>,
    fu: FeedUrlRule,
    sel: &str,
    attr: &str,
) -> (r: Vec<Strip>)
    ensures
        spec_stubs_match(r@, spec_feed_pairs(entries.deep_view(), fu, sel@, attr@), site),
{
    let ghost all = entries.deep_view();
    let mut out: Vec<Strip> = Vec::new();
    let mut k: usize = 0;
    while k < entries.len()
        invariant
            all == entries.deep_view(),
            all.len() == entries@.len(),
            0 <= k <= entries@.len(),
            spec_stubs_match(
                out@,
                spec_feed_pairs(all.subrange(0, k as int), fu, sel@, attr@),
                site,
            ),
        decreases entries@.len() - k,
    {
        proof {
            assert(all[k as int] == entries@[k as int].deep_view());
            assert(all.subrange(0, k as int + 1).drop_last() =~= all.subrange(0, k as int));
            assert(all.subrange(0, k as int + 1).last() == all[k as int]);
        }
        let entry = &entries[k];
        match &entry.0 {
            None => {},
            Some(t) => {
                let tn = t.as_str().unicode_len();
                if tn > 0 {
                    let url: Option<String> = match fu {
                        FeedUrlRule::Link => match &entry.1 {
                            Some(u) => if u.as_str().unicode_len() > 0 {
                                Some(u.clone())
                            } else {
                                None
                            },
                            None => None,
                        },
                        FeedUrlRule::Description => match &entry.2 {
                            Some(u) => if u.as_str().unicode_len() > 0 {
                                Some(u.clone())
                            } else {
                                None
                            },
                            None => None,
                        },
                        FeedUrlRule::Content => match &entry.3 {
                            Some(u) => if u.as_str().unicode_len() > 0 {
                                Some(u.clone())
                            } else {
                                None
                            },
                            None => None,
                        },
                        FeedUrlRule::FromDescription => match &entry.2 {
                            Some(d) => if d.as_str().unicode_len() > 0 {
                                crate::extract::select_first_attr(d.as_str(), sel, attr)
                            } else {
                                None
                            },
                            None => None,
                        },
                    };
                    match url {
                        None => {},
                        Some(u) => {
                            let s = Strip {
                                title: t.clone(),
                                url: u,
                                idx: out.len(),
                                strip_type: StripType::Unknown,
                                site,
                            };
                            out.push(s);
                        },
                    }
                }
            },
        }
        k += 1;
    }
    proof {
        assert(all.subrange(0, all.len() as int) =~= all);
    }
    out
}

/// Builds the stubs of a numbered source counting down from `count`.
fn build_numbered(site: Sites, count: usize) -> (r: Vec<Strip>)
    ensures
        spec_stubs_match(r@, spec_numbered_pairs(site, count as int), site),
{
    let mut out: Vec<Strip> = Vec::new();
    let mut i: usize = 0;
    while i < count
        invariant
            0 <= i <= count,
            out@.len() == i,
            spec_stubs_match(
                out@,
                spec_numbered_pairs(site, count as int).subrange(0, i as int),
                site,
            ),
        decreases count - i,
    {
        let n = count - i;
        let t = crate::text::usize_to_string(n);
        let mut u = crate::sites::Url::fetch_url(&site).to_owned();
        u.append("/");
        u.append(t.as_str());
        proof {
            assert(u@ =~= crate::sites::spec_fetch_url(site) + "/"@ + crate::text::spec_digits(
                n as int,
            ));
        }
        let s = Strip { title: t, url: u, idx: out.len(), strip_type: StripType::Unknown, site };
        out.push(s);
        i += 1;
    }
    proof {
        assert(spec_numbered_pairs(site, count as int).subrange(0, count as int)
            =~= spec_numbered_pairs(site, count as int));
    }
    out
}

/// The kept `(title, address)` pairs of a source whose titles and thumbnail
/// addresses come from two parallel selections of equal length: the trimmed
/// title must be non-empty and the thumbnail attribute present; the address
/// is the endpoint plus the cleaned thumbnail path.
pub open spec fn spec_thumb_zip(
    site: Sites,
    ts: Seq<(Seq<char>, Option<Seq<char>>)>,
    us: Seq<(Seq<char>, Option<Seq<char>>)>,
) -> Seq<(Seq<char>, Seq<char>)>
    decreases ts.len(),
{
    if ts.len() == 0 || us.len() == 0 {
        Seq::empty()
    } else {
        let rest = spec_thumb_zip(site, ts.drop_last(), us.drop_last());
        let t = ts.last().0;
        match us.last().1 {
            None => rest,
            Some(src) => if crate::extract::spec_trim(t).len() > 0 {
                rest.push(
                    (
                        crate::extract::spec_trim(t),
                        spec_scrape_url(site, UrlRule::BaseThenCleanedThumb, src),
                    ),
                )
            } else {
                rest
            },
        }
    }
}

/// The pairs drawn from two selections, aligned from the start and cut to
/// the shorter one.
pub open spec fn spec_thumb_pairs(
    site: Sites,
    ts: Seq<(Seq<char>, Option<Seq<char>>)>,
    us: Seq<(Seq<char>, Option<Seq<char>>)>,
) -> Seq<(Seq<char>, Seq<char>)> {
    let m = if ts.len() <= us.len() {
        ts.len() as int
    } else {
        us.len() as int
    };
    spec_thumb_zip(site, ts.subrange(0, m), us.subrange(0, m))
}

/// Builds the stubs of a source with parallel title and thumbnail
/// selections.
fn build_thumb_zip(
    site: Sites,
    ts: &Vec<(String, Option<String>)>,
    us: &Vec<(String, Option<String>)>,
) -> (r: Vec<Strip>)
    ensures
        spec_stubs_match(r@, spec_thumb_pairs(site, ts.deep_view(), us.deep_view()), site),
{
    let m = if ts.len() <= us.len() {
        ts.len()
    } else {
        us.len()
    };
    let ghost tz = ts.deep_view().subrange(0, m as int);
    let ghost uz = us.deep_view().subrange(0, m as int);
    let mut out: Vec<Strip> = Vec::new();
    let mut k: usize = 0;
    while k < m
        invariant
            m <= ts@.len() && m <= us@.len(),
            ts.deep_view().len() == ts@.len() && us.deep_view().len() == us@.len(),
            tz == ts.deep_view().subrange(0, m as int),
            uz == us.deep_view().subrange(0, m as int),
            0 <= k <= m,
            spec_stubs_match(
                out@,
                spec_thumb_zip(site, tz.subrange(0, k as int), uz.subrange(0, k as int)),
                site,
            ),
        decreases m - k,
    {
        proof {
            assert(ts.deep_view()[k as int] == ts@[k as int].deep_view());
            assert(us.deep_view()[k as int] == us@[k as int].deep_view());
            assert(us.deep_view()[k as int].1 == us@[k as int].1.deep_view());
            match us@[k as int].1 {
                Some(h) => {
                    assert(us.deep_view()[k as int].1 == Some(h@));
                },
                None => {
                    assert(us.deep_view()[k as int].1 is None);
                },
            }
            assert(tz.subrange(0, k as int + 1).drop_last() =~= tz.subrange(0, k as int));
            assert(uz.subrange(0, k as int + 1).drop_last() =~= uz.subrange(0, k as int));
            assert(tz.subrange(0, k as int + 1).last() == ts.deep_view()[k as int]);
            assert(uz.subrange(0, k as int + 1).last() == us.deep_view()[k as int]);
        }
        let title_entry = &ts[k];
        let url_entry = &us[k];
        match &url_entry.1 {
            None => {},
            Some(src) => {
                let t = crate::extract::trim_str(title_entry.0.as_str());
                let n = t.as_str().unicode_len();
                if n > 0 {
                    let u = scrape_url(site, UrlRule::BaseThenCleanedThumb, src.as_str());
                    let s = Strip {
                        title: t,
                        url: u,
                        idx: out.len(),
                        strip_type: StripType::Unknown,
                        site,
                    };
                    out.push(s);
                }
            },
        }
        k += 1;
    }
    proof {
        assert(tz.subrange(0, m as int) =~= tz);
        assert(uz.subrange(0, m as int) =~= uz);
    }
    out
}

/// The content of the last `meta` element carrying the wanted property,
/// scanned in document order, with the source's endpoint removed from it.
pub open spec fn spec_last_meta(
    pairs: Seq<(Option<Seq<char>>, Option<Seq<char>>)>,
    property: Seq<char>,
) -> Option<Seq<char>>
    decreases pairs.len(),
{
    if pairs.len() == 0 {
        None
    } else {
        let e = pairs.last();
        if e.0 == Some(property) && e.1 is Some {
            e.1
        } else {
            spec_last_meta(pairs.drop_last(), property)
        }
    }
}

/// The cleaned content of the last matching `meta` element of `body`.
pub open spec fn spec_meta_content(site: Sites, body: Seq<char>, property: Seq<char>) -> Option<
    Seq<char>,
> {
    match crate::extract::spec_selected_attr_pairs(body, "meta"@, "property"@, "content"@) {
        None => None,
        Some(pairs) => match spec_last_meta(pairs, property) {
            None => None,
            Some(raw) => Some(
                if crate::sites::spec_fetch_url(site).len() > 0 {
                    crate::text::spec_replace(raw, crate::sites::spec_fetch_url(site), ""@)
                } else {
                    raw
                },
            ),
        },
    }
}

/// Reads the last `meta` element of `body` whose `property` attribute holds
/// the wanted name, and returns its `content` with the source's endpoint
/// removed.
pub fn parse_meta_content(site: Sites, body: &str, property: &str) -> (r: Option<String>)
    ensures
        r.deep_view() == spec_meta_content(site, body@, property@),
{
    match crate::extract::select_attr_pairs(body, "meta", "property", "content") {
        None => None,
        Some(pairs) => {
            let ghost all = pairs.deep_view();
            proof {
                assert(crate::extract::spec_selected_attr_pairs(
                    body@,
                    "meta"@,
                    "property"@,
                    "content"@,
                ) == Some(all));
            }
            let mut i: usize = pairs.len();
            proof {
                assert(all.subrange(0, i as int) =~= all);
            }
            loop
                invariant_except_break
                    all == pairs.deep_view(),
                    crate::extract::spec_selected_attr_pairs(
                        body@,
                        "meta"@,
                        "property"@,
                        "content"@,
                    ) == Some(all),
                    all.len() == pairs@.len(),
                    0 <= i <= pairs@.len(),
                    spec_last_meta(all, property@) == spec_last_meta(
                        all.subrange(0, i as int),
                        property@,
                    ),
                ensures
                    spec_last_meta(all, property@) is None,
                decreases i,
            {
                if i == 0 {
                    break ;
                }
                i = i - 1;
                proof {
                    assert(all[i as int] == pairs@[i as int].deep_view());
                    match pairs@[i as int].0 {
                        Some(p) => {
                            assert(all[i as int].0 == Some(p@));
                        },
                        None => {
                            assert(all[i as int].0 is None);
                        },
                    }
                    match pairs@[i as int].1 {
                        Some(c) => {
                            assert(all[i as int].1 == Some(c@));
                        },
                        None => {
                            assert(all[i as int].1 is None);
                        },
                    }
                    assert(all.subrange(0, i as int + 1).drop_last() =~= all.subrange(
                        0,
                        i as int,
                    ));
                    assert(all.subrange(0, i as int + 1).last() == all[i as int]);
                }
                let entry = &pairs[i];
                let matched = match (&entry.0, &entry.1) {
                    (Some(p), Some(_c)) => crate::text::str_eq(p.as_str(), property),
                    _ => false,
                };
                if matched {
                    let raw = match &entry.1 {
                        Some(c) => c.clone(),
                        None => String::new(),
                    };
                    let ghost raw_view = raw@;
                    proof {
                        assert(spec_last_meta(all.subrange(0, i as int + 1), property@) == Some(
                            raw_view,
                        ));
                    }
                    let base = crate::sites::Url::fetch_url(&site);
                    let bl = base.unicode_len();
                    let cleaned = if bl > 0 {
                        crate::text::replace_all(raw.as_str(), base, "")
                    } else {
                        raw
                    };
                    proof {
                        assert(spec_last_meta(all, property@) == Some(raw_view));
                        assert(spec_meta_content(site, body@, property@) == Some(cleaned@));
                    }
                    return Some(cleaned);
                }
            }
            None
        },
    }
}

/// The pairs a scraped listing page yields under a recipe, empty when the
/// selection fails.
pub open spec fn spec_scrape_site(
    site: Sites,
    body: Seq<char>,
    sel: Seq<char>,
    tr: TitleRule,
    marker: Seq<char>,
    ur: UrlRule,
    numeric: bool,
    skip_first: bool,
) -> Seq<(Seq<char>, Seq<char>)> {
    match crate::extract::spec_selected_entries(body, sel, "href"@) {
        None => Seq::empty(),
        Some(es) => {
            let kept = if skip_first {
                if es.len() >= 1 {
                    es.subrange(1, es.len() as int)
                } else {
                    es
                }
            } else {
                es
            };
            spec_scrape_pairs(site, kept, tr, marker, ur, numeric)
        },
    }
}

/// The pairs a feed body yields under a recipe, empty when it does not
/// parse.
pub open spec fn spec_feed_site(
    body: Seq<char>,
    fu: FeedUrlRule,
    sel: Seq<char>,
    attr: Seq<char>,
) -> Seq<(Seq<char>, Seq<char>)> {
    match crate::extract::spec_feed_entries(body) {
        None => Seq::empty(),
        Some(es) => spec_feed_pairs(es, fu, sel, attr),
    }
}

/// The same pairs in the opposite order.
pub open spec fn spec_rev(s: Seq<(Seq<char>, Seq<char>)>) -> Seq<(Seq<char>, Seq<char>)> {
    Seq::new(s.len(), |i: int| s[s.len() - 1 - i])
}

/// The newest strip number the endpoint's front page declares, read from
/// its `og:url` meta element.
pub open spec fn spec_xkcd_count(body: Seq<char>) -> Option<int> {
    match spec_meta_content(Sites::Xkcd, body, "og:url"@) {
        None => None,
        Some(s) => match crate::text::spec_parse_usize(crate::text::spec_replace(s, "/"@, ""@)) {
            None => None,
            Some(v) => if v <= usize::MAX {
                Some(v)
            } else {
                None
            },
        },
    }
}

/// The `(title, address)` pairs a source's listing fetch is owed for a
/// given body: each source's selection, filtering, rewriting and ordering
/// recipe, with index 0 the newest. An empty result stands for a failed
/// listing.
pub open spec fn spec_expected_pairs(site: Sites, body: Seq<char>) -> Seq<(Seq<char>, Seq<char>)> {
    match site {
        Sites::TurnoffUs => spec_scrape_site(
            site,
            body,
            "a.post-link"@,
            TitleRule::InnerTrimmed,
            ""@,
            UrlRule::BaseThenHref,
            false,
            false,
        ),
        Sites::MonkeyUser => spec_feed_site(body, FeedUrlRule::Link, ""@, ""@),
        Sites::BonkersWorld => spec_thumb_site(site, body),
        Sites::Goomics => spec_thumb_site(site, body),
        Sites::Xkcd => match spec_xkcd_count(body) {
            None => Seq::empty(),
            Some(c) => spec_numbered_pairs(site, c),
        },
        Sites::DinosaurComics => spec_scrape_site(
            site,
            body,
            "ul.archive li a"@,
            TitleRule::InnerNonEmpty,
            ""@,
            UrlRule::HrefAsIs,
            false,
            false,
        ),
        Sites::Oglaf => spec_feed_site(body, FeedUrlRule::FromDescription, "p a"@, "href"@),
        Sites::CadComics => spec_feed_site(body, FeedUrlRule::Link, ""@, ""@),
        Sites::JoyOfTech => spec_scrape_site(
            site,
            body,
            "a"@,
            TitleRule::InnerTrimmed,
            ""@,
            UrlRule::HrefAsIs,
            false,
            false,
        ),
        Sites::GoodTechThings => spec_feed_site(body, FeedUrlRule::Content, ""@, ""@),
        Sites::ThreeWordPhrase => spec_scrape_site(
            site,
            body,
            "span.links a"@,
            TitleRule::InnerTrimmed,
            ""@,
            UrlRule::HomepageSlashHref,
            false,
            false,
        ),
        Sites::ASofterWorld => spec_rev(
            spec_scrape_site(
                site,
                body,
                "td a"@,
                TitleRule::HomepageAddress,
                ""@,
                UrlRule::HrefAsIs,
                false,
                true,
            ),
        ),
        Sites::ButterSafe => spec_scrape_site(
            site,
            body,
            "td.archive-title a"@,
            TitleRule::HomepageAddress,
            ""@,
            UrlRule::HrefAsIs,
            false,
            false,
        ),
        Sites::QuestionableContent => spec_feed_site(body, FeedUrlRule::Description, ""@, ""@),
        Sites::WorkChronicles => spec_scrape_site(
            site,
            body,
            "a.sitemap-link"@,
            TitleRule::AfterMarkerInInner,
            "(comic) "@,
            UrlRule::HrefAsIs,
            false,
            false,
        ),
        Sites::JSPowerHour => spec_scrape_site(
            site,
            body,
            "div.archive-comic a"@,
            TitleRule::AfterMarkerInHref,
            "/comics/"@,
            UrlRule::HomepageThenHref,
            false,
            false,
        ),
        Sites::ButtercupFestival => spec_rev(
            spec_scrape_site(
                site,
                body,
                "a"@,
                TitleRule::BeforeMarkerInHref,
                "."@,
                UrlRule::BaseSlashHref,
                true,
                false,
            ),
        ),
        Sites::Achewood => spec_rev(
            spec_scrape_site(
                site,
                body,
                "td.archiveLink a"@,
                TitleRule::Inner,
                ""@,
                UrlRule::HomepageThenHref,
                false,
                false,
            ),
        ),
        Sites::CatAndGirl => spec_scrape_site(
            site,
            body,
            "a.sya_postlink"@,
            TitleRule::Inner,
            ""@,
            UrlRule::HrefAsIs,
            false,
            false,
        ),
        Sites::DieselSweeties1_0 => spec_numbered_pairs(site, 4000),
        Sites::DieselSweeties3_0 => spec_feed_site(
            body,
            FeedUrlRule::FromDescription,
            "img"@,
            "src"@,
        ),
    }
}

/// The pairs of a source with parallel title and thumbnail selections.
pub open spec fn spec_thumb_site(site: Sites, body: Seq<char>) -> Seq<(Seq<char>, Seq<char>)> {
    match crate::extract::spec_selected_entries(body, "span a.post-link"@, "href"@) {
        None => Seq::empty(),
        Some(ts) => match crate::extract::spec_selected_entries(body, "a.post-link img"@, "src"@) {
            None => Seq::empty(),
            Some(us) => spec_thumb_pairs(site, ts, us),
        },
    }
}

/// A listing realizes its expected pairs: position `i` carries pair `i`,
/// index `i`, the site tag, and the boundary marker owed to `i`.
pub open spec fn spec_listing_matches(
    l: Seq<Strip>,
    pairs: Seq<(Seq<char>, Seq<char>)>,
    site: Sites,
) -> bool {
    &&& l.len() == pairs.len()
    &&& forall|i: int|
        0 <= i < l.len() ==> {
            let s = #[trigger] l[i];
            s.title@ == pairs[i].0 && s.url@ == pairs[i].1 && s.idx == i && s.site == site
                && s.strip_type == spec_marker(i, l.len() as int)
        }
}

/// The uniform navigation capability over a source's cached listing. A
/// listing fetch hands its body to `reload`; the other four operations pick
/// a stub out of the cached listing, to be resolved by one further fetch.
pub trait Fetcher {
    /// The cached listing, if one is held.
    spec fn listing(&self) -> Option<Seq<Strip>>;

    /// The source served.
    spec fn source(&self) -> Sites;

    /// Replaces the cached listing with what the source's recipe draws from
    /// `body`; fails, keeping the old listing, when that is empty.
    fn reload(&mut self, body: &str) -> (r: Result<(), FetcherErrors>)
        ensures
            final(self).source() == old(self).source(),
            ({
                let pairs = spec_expected_pairs(old(self).source(), body@);
                &&& pairs.len() == 0 ==> r is Err && final(self).listing() == old(self).listing()
                &&& pairs.len() > 0 ==> r is Ok && (final(self).listing() matches Some(l)
                    && spec_listing_matches(l, pairs, old(self).source()))
            }),
    ;

    /// The newest stub: the one at index 0.
    fn last(&self) -> (r: Result<Strip, FetcherErrors>)
        ensures
            match self.listing() {
                Some(l) => if l.len() > 0 {
                    r matches Ok(s) && s == l[0]
                } else {
                    r is Err
                },
                None => r is Err,
            },
    ;

    /// A stub drawn uniformly from the listing.
    fn random(&self) -> (r: Result<Strip, FetcherErrors>)
        ensures
            match self.listing() {
                Some(l) => if l.len() > 0 {
                    r matches Ok(s) && exists|i: int| 0 <= i < l.len() && s == l[i]
                } else {
                    r is Err
                },
                None => r is Err,
            },
    ;

    /// The stub one step newer than index `idx`: the one at `idx - 1`.
    /// Always fails at index 0, whatever the listing holds.
    fn next(&self, idx: usize) -> (r: Result<Strip, FetcherErrors>)
        ensures
            idx == 0 ==> r is Err,
            idx > 0 ==> match self.listing() {
                Some(l) => if idx - 1 < l.len() {
                    r matches Ok(s) && s == l[idx - 1]
                } else {
                    r is Err
                },
                None => r is Err,
            },
    ;

    /// The stub one step older than index `idx`: the one at `idx + 1`;
    /// fails when that runs past the oldest strip.
    fn prev(&self, idx: usize) -> (r: Result<Strip, FetcherErrors>)
        ensures
            match self.listing() {
                Some(l) => if idx + 1 < l.len() {
                    r matches Ok(s) && s == l[idx + 1]
                } else {
                    r is Err
                },
                None => r is Err,
            },
    ;
}

impl FetcherImpl {
    /// Installs freshly built stubs as the listing and stamps the boundary
    /// markers; an empty build fails and keeps the old listing.
    fn finish_reload(&mut self, stubs: Vec<Strip>, Ghost(pairs): Ghost<Seq<(Seq<char>, Seq<char>)>>) -> (r: Result<
        (),
        FetcherErrors,
    >)
        requires
            spec_stubs_match(stubs@, pairs, old(self).spec_site()),
        ensures
            final(self).spec_site() == old(self).spec_site(),
            pairs.len() == 0 ==> r is Err && final(self).spec_listing() == old(
                self,
            ).spec_listing(),
            pairs.len() > 0 ==> r is Ok && (final(self).spec_listing() matches Some(l)
                && spec_listing_matches(l, pairs, old(self).spec_site())),
    {
        if stubs.is_empty() {
            return Err(FetcherErrors::Error404);
        }
        let ghost built = stubs@;
        self.posts = Some(stubs);
        self.set_strip_type();
        proof {
            let l = self.spec_listing()->0;
            assert forall|i: int| 0 <= i < l.len() implies ({
                let s = #[trigger] l[i];
                s.title@ == pairs[i].0 && s.url@ == pairs[i].1 && s.idx == i && s.site == old(
                    self,
                ).spec_site() && s.strip_type == spec_marker(i, l.len() as int)
            }) by {
                assert(built[i].title@ == pairs[i].0);
            }
        }
        Ok(())
    }

    /// Rebuilds the listing from one scraped page under a recipe: select,
    /// filter, rewrite, optionally drop the first element and reverse.
    fn apply_scrape(
        &mut self,
        body: &str,
        sel: &str,
        tr: TitleRule,
        marker: &str,
        ur: UrlRule,
        numeric: bool,
        skip_first: bool,
        rev: bool,
    ) -> (r: Result<(), FetcherErrors>)
        ensures
            final(self).spec_site() == old(self).spec_site(),
            ({
                let base = spec_scrape_site(
                    old(self).spec_site(),
                    body@,
                    sel@,
                    tr,
                    marker@,
                    ur,
                    numeric,
                    skip_first,
                );
                let pairs = if rev {
                    spec_rev(base)
                } else {
                    base
                };
                &&& pairs.len() == 0 ==> r is Err && final(self).spec_listing() == old(
                    self,
                ).spec_listing()
                &&& pairs.len() > 0 ==> r is Ok && (final(self).spec_listing() matches Some(l)
                    && spec_listing_matches(l, pairs, old(self).spec_site()))
            }),
    {
        let site = self.site;
        let ghost base = spec_scrape_site(site, body@, sel@, tr, marker@, ur, numeric, skip_first);
        let mut stubs = match crate::extract::select_entries(body, sel, "href") {
            None => {
                proof {
                    assert(crate::extract::spec_selected_entries(body@, sel@, "href"@) is None);
                }
                Vec::new()
            },
            Some(mut es) => {
                proof {
                    assert(crate::extract::spec_selected_entries(body@, sel@, "href"@) == Some(
                        es.deep_view(),
                    ));
                }
                let ghost es0 = es.deep_view();
                if skip_first && es.len() > 0 {
                    let ghost prev = es@;
                    es.remove(0);
                    proof {
                        assert(prev.remove(0) =~= prev.subrange(1, prev.len() as int));
                        assert forall|i: int|
                            0 <= i < es.deep_view().len() implies es.deep_view()[i] == es0[i
                            + 1] by {
                            assert(es@[i] == prev[i + 1]);
                            assert(es.deep_view()[i] == es@[i].deep_view());
                            assert(es0[i + 1] == prev[i + 1].deep_view());
                        }
                        assert(es.deep_view() =~= es0.subrange(1, es0.len() as int));
                    }
                }
                build_scrape(site, &es, tr, marker, ur, numeric)
            },
        };
        proof {
            assert(spec_stubs_match(stubs@, base, site));
        }
        if rev {
            Self::reverse_strip_vec(&mut stubs);
            proof {
                lemma_rev_stubs(stubs@, base, site);
            }
            self.finish_reload(stubs, Ghost(spec_rev(base)))
        } else {
            self.finish_reload(stubs, Ghost(base))
        }
    }

    /// Rebuilds the listing from one feed body under a recipe.
    fn apply_feed(&mut self, body: &str, fu: FeedUrlRule, sel: &str, attr: &str) -> (r: Result<
        (),
        FetcherErrors,
    >)
        ensures
            final(self).spec_site() == old(self).spec_site(),
            ({
                let pairs = spec_feed_site(body@, fu, sel@, attr@);
                &&& pairs.len() == 0 ==> r is Err && final(self).spec_listing() == old(
                    self,
                ).spec_listing()
                &&& pairs.len() > 0 ==> r is Ok && (final(self).spec_listing() matches Some(l)
                    && spec_listing_matches(l, pairs, old(self).spec_site()))
            }),
    {
        let site = self.site;
        let stubs = match crate::extract::feed_entries(body) {
            None => {
                proof {
                    assert(crate::extract::spec_feed_entries(body@) is None);
                }
                Vec::new()
            },
            Some(es) => {
                proof {
                    assert(crate::extract::spec_feed_entries(body@) == Some(es.deep_view()));
                }
                build_feed(site, &es, fu, sel, attr)
            },
        };
        self.finish_reload(stubs, Ghost(spec_feed_site(body@, fu, sel@, attr@)))
    }

    fn reload_turnoff_us(&mut self, body: &str) -> (r: Result<(), FetcherErrors>)
        requires
            old(self).spec_site() == Sites::TurnoffUs,
        ensures
            spec_reload_post(*old(self), *final(self), r, body@),
    {
        self.apply_scrape(
            body,
            "a.post-link",
            TitleRule::InnerTrimmed,
            "",
            UrlRule::BaseThenHref,
            false,
            false,
            false,
        )
    }

    fn reload_monkey_user(&mut self, body: &str) -> (r: Result<(), FetcherErrors>)
        requires
            old(self).spec_site() == Sites::MonkeyUser,
        ensures
            spec_reload_post(*old(self), *final(self), r, body@),
    {
        self.apply_feed(body, FeedUrlRule::Link, "", "")
    }

    /// Both cornet-built sources share one recipe with parallel title and
    /// thumbnail selections.
    fn reload_cornet_comics(&mut self, body: &str) -> (r: Result<(), FetcherErrors>)
        requires
            old(self).spec_site() == Sites::BonkersWorld || old(self).spec_site()
                == Sites::Goomics,
        ensures
            spec_reload_post(*old(self), *final(self), r, body@),
    {
        let stubs = self.build_thumb_listing(body);
        self.finish_reload(stubs, Ghost(spec_thumb_site(self.spec_site(), body@)))
    }

    fn reload_xkcd(&mut self, body: &str) -> (r: Result<(), FetcherErrors>)
        requires
            old(self).spec_site() == Sites::Xkcd,
        ensures
            spec_reload_post(*old(self), *final(self), r, body@),
    {
        let stubs = match parse_meta_content(Sites::Xkcd, body, "og:url") {
            None => {
                proof {
                    assert(spec_meta_content(Sites::Xkcd, body@, "og:url"@) is None);
                    assert(spec_xkcd_count(body@) is None);
                }
                Vec::new()
            },
            Some(s) => {
                proof {
                    assert(spec_meta_content(Sites::Xkcd, body@, "og:url"@) == Some(s@));
                    reveal_strlit("/");
                }
                let cleaned = crate::text::replace_all(s.as_str(), "/", "");
                match crate::text::parse_usize(cleaned.as_str()) {
                    None => {
                        proof {
                            assert(spec_xkcd_count(body@) is None);
                        }
                        Vec::new()
                    },
                    Some(c) => {
                        proof {
                            assert(spec_xkcd_count(body@) == Some(c as int));
                        }
                        build_numbered(Sites::Xkcd, c)
                    },
                }
            },
        };
        self.finish_reload(stubs, Ghost(spec_expected_pairs(Sites::Xkcd, body@)))
    }

    fn reload_dinosaur_comics(&mut self, body: &str) -> (r: Result<(), FetcherErrors>)
        requires
            old(self).spec_site() == Sites::DinosaurComics,
        ensures
            spec_reload_post(*old(self), *final(self), r, body@),
    {
        self.apply_scrape(
            body,
            "ul.archive li a",
            TitleRule::InnerNonEmpty,
            "",
            UrlRule::HrefAsIs,
            false,
            false,
            false,
        )
    }

    fn reload_oglaf(&mut self, body: &str) -> (r: Result<(), FetcherErrors>)
        requires
            old(self).spec_site() == Sites::Oglaf,
        ensures
            spec_reload_post(*old(self), *final(self), r, body@),
    {
        self.apply_feed(body, FeedUrlRule::FromDescription, "p a", "href")
    }

    fn reload_cmd(&mut self, body: &str) -> (r: Result<(), FetcherErrors>)
        requires
            old(self).spec_site() == Sites::CadComics,
        ensures
            spec_reload_post(*old(self), *final(self), r, body@),
    {
        self.apply_feed(body, FeedUrlRule::Link, "", "")
    }

    fn reload_joy_of_tech(&mut self, body: &str) -> (r: Result<(), FetcherErrors>)
        requires
            old(self).spec_site() == Sites::JoyOfTech,
        ensures
            spec_reload_post(*old(self), *final(self), r, body@),
    {
        self.apply_scrape(
            body,
            "a",
            TitleRule::InnerTrimmed,
            "",
            UrlRule::HrefAsIs,
            false,
            false,
            false,
        )
    }

    fn reload_gt2(&mut self, body: &str) -> (r: Result<(), FetcherErrors>)
        requires
            old(self).spec_site() == Sites::GoodTechThings,
        ensures
            spec_reload_post(*old(self), *final(self), r, body@),
    {
        self.apply_feed(body, FeedUrlRule::Content, "", "")
    }

    fn reload_three_word_phrase(&mut self, body: &str) -> (r: Result<(), FetcherErrors>)
        requires
            old(self).spec_site() == Sites::ThreeWordPhrase,
        ensures
            spec_reload_post(*old(self), *final(self), r, body@),
    {
        self.apply_scrape(
            body,
            "span.links a",
            TitleRule::InnerTrimmed,
            "",
            UrlRule::HomepageSlashHref,
            false,
            false,
            false,
        )
    }

    fn reload_softer_world(&mut self, body: &str) -> (r: Result<(), FetcherErrors>)
        requires
            old(self).spec_site() == Sites::ASofterWorld,
        ensures
            spec_reload_post(*old(self), *final(self), r, body@),
    {
        self.apply_scrape(
            body,
            "td a",
            TitleRule::HomepageAddress,
            "",
            UrlRule::HrefAsIs,
            false,
            true,
            true,
        )
    }

    fn reload_butter_safe(&mut self, body: &str) -> (r: Result<(), FetcherErrors>)
        requires
            old(self).spec_site() == Sites::ButterSafe,
        ensures
            spec_reload_post(*old(self), *final(self), r, body@),
    {
        self.apply_scrape(
            body,
            "td.archive-title a",
            TitleRule::HomepageAddress,
            "",
            UrlRule::HrefAsIs,
            false,
            false,
            false,
        )
    }

    fn reload_questionable_content(&mut self, body: &str) -> (r: Result<(), FetcherErrors>)
        requires
            old(self).spec_site() == Sites::QuestionableContent,
        ensures
            spec_reload_post(*old(self), *final(self), r, body@),
    {
        self.apply_feed(body, FeedUrlRule::Description, "", "")
    }

    fn reload_work_chronicles(&mut self, body: &str) -> (r: Result<(), FetcherErrors>)
        requires
            old(self).spec_site() == Sites::WorkChronicles,
        ensures
            spec_reload_post(*old(self), *final(self), r, body@),
    {
        self.apply_scrape(
            body,
            "a.sitemap-link",
            TitleRule::AfterMarkerInInner,
            "(comic) ",
            UrlRule::HrefAsIs,
            false,
            false,
            false,
        )
    }

    fn reload_js_power_hour(&mut self, body: &str) -> (r: Result<(), FetcherErrors>)
        requires
            old(self).spec_site() == Sites::JSPowerHour,
        ensures
            spec_reload_post(*old(self), *final(self), r, body@),
    {
        self.apply_scrape(
            body,
            "div.archive-comic a",
            TitleRule::AfterMarkerInHref,
            "/comics/",
            UrlRule::HomepageThenHref,
            false,
            false,
            false,
        )
    }

    fn reload_buttercup_festival(&mut self, body: &str) -> (r: Result<(), FetcherErrors>)
        requires
            old(self).spec_site() == Sites::ButtercupFestival,
        ensures
            spec_reload_post(*old(self), *final(self), r, body@),
    {
        self.apply_scrape(
            body,
            "a",
            TitleRule::BeforeMarkerInHref,
            ".",
            UrlRule::BaseSlashHref,
            true,
            false,
            true,
        )
    }

    fn reload_achewood(&mut self, body: &str) -> (r: Result<(), FetcherErrors>)
        requires
            old(self).spec_site() == Sites::Achewood,
        ensures
            spec_reload_post(*old(self), *final(self), r, body@),
    {
        self.apply_scrape(
            body,
            "td.archiveLink a",
            TitleRule::Inner,
            "",
            UrlRule::HomepageThenHref,
            false,
            false,
            true,
        )
    }

    fn reload_cat_and_girl(&mut self, body: &str) -> (r: Result<(), FetcherErrors>)
        requires
            old(self).spec_site() == Sites::CatAndGirl,
        ensures
            spec_reload_post(*old(self), *final(self), r, body@),
    {
        self.apply_scrape(
            body,
            "a.sya_postlink",
            TitleRule::Inner,
            "",
            UrlRule::HrefAsIs,
            false,
            false,
            false,
        )
    }

    /// The listing is a fixed count-down of numbered strips; the body plays
    /// no part.
    fn reload_diesel_sweeties_1_0(&mut self, body: &str) -> (r: Result<(), FetcherErrors>)
        requires
            old(self).spec_site() == Sites::DieselSweeties1_0,
        ensures
            spec_reload_post(*old(self), *final(self), r, body@),
    {
        let _ = body;
        let stubs = build_numbered(Sites::DieselSweeties1_0, 4000);
        self.finish_reload(stubs, Ghost(spec_numbered_pairs(Sites::DieselSweeties1_0, 4000)))
    }

    fn reload_diesel_sweeties_3_0(&mut self, body: &str) -> (r: Result<(), FetcherErrors>)
        requires
            old(self).spec_site() == Sites::DieselSweeties3_0,
        ensures
            spec_reload_post(*old(self), *final(self), r, body@),
    {
        self.apply_feed(body, FeedUrlRule::FromDescription, "img", "src")
    }
}

/// What a finished listing rebuild owes: the site kept, failure exactly
/// when the source's recipe draws nothing from the body (the old listing
/// then kept), and otherwise the cached listing realizing the recipe.
pub open spec fn spec_reload_post(
    pre: FetcherImpl,
    post: FetcherImpl,
    r: Result<(), FetcherErrors>,
    body: Seq<char>,
) -> bool {
    &&& post.spec_site() == pre.spec_site()
    &&& ({
        let pairs = spec_expected_pairs(pre.spec_site(), body);
        &&& pairs.len() == 0 ==> r is Err && post.spec_listing() == pre.spec_listing()
        &&& pairs.len() > 0 ==> r is Ok && (post.spec_listing() matches Some(l)
            && spec_listing_matches(l, pairs, pre.spec_site()))
    })
}

impl Fetcher for FetcherImpl {
    open spec fn listing(&self) -> Option<Seq<Strip>> {
        self.spec_listing()
    }

    open spec fn source(&self) -> Sites {
        self.spec_site()
    }

    fn reload(&mut self, body: &str) -> (r: Result<(), FetcherErrors>) {
        match self.site {
            Sites::TurnoffUs => self.reload_turnoff_us(body),
            Sites::MonkeyUser => self.reload_monkey_user(body),
            Sites::BonkersWorld => self.reload_cornet_comics(body),
            Sites::Goomics => self.reload_cornet_comics(body),
            Sites::Xkcd => self.reload_xkcd(body),
            Sites::DinosaurComics => self.reload_dinosaur_comics(body),
            Sites::Oglaf => self.reload_oglaf(body),
            Sites::CadComics => self.reload_cmd(body),
            Sites::JoyOfTech => self.reload_joy_of_tech(body),
            Sites::GoodTechThings => self.reload_gt2(body),
            Sites::ThreeWordPhrase => self.reload_three_word_phrase(body),
            Sites::ASofterWorld => self.reload_softer_world(body),
            Sites::ButterSafe => self.reload_butter_safe(body),
            Sites::QuestionableContent => self.reload_questionable_content(body),
            Sites::WorkChronicles => self.reload_work_chronicles(body),
            Sites::JSPowerHour => self.reload_js_power_hour(body),
            Sites::ButtercupFestival => self.reload_buttercup_festival(body),
            Sites::Achewood => self.reload_achewood(body),
            Sites::CatAndGirl => self.reload_cat_and_girl(body),
            Sites::DieselSweeties1_0 => self.reload_diesel_sweeties_1_0(body),
            Sites::DieselSweeties3_0 => self.reload_diesel_sweeties_3_0(body),
        }
    }

    fn last(&self) -> (r: Result<Strip, FetcherErrors>) {
        match self.last_content() {
            Some(c) => Ok(copy_of(c)),
            None => Err(FetcherErrors::Error404),
        }
    }

    fn random(&self) -> (r: Result<Strip, FetcherErrors>) {
        match self.random_content() {
            Some(c) => Ok(copy_of(c)),
            None => Err(FetcherErrors::Error404),
        }
    }

    fn next(&self, idx: usize) -> (r: Result<Strip, FetcherErrors>) {
        if idx == 0 {
            return Err(FetcherErrors::Error404);
        }
        match self.idx_content(idx - 1) {
            Some(c) => Ok(copy_of(c)),
            None => Err(FetcherErrors::Error404),
        }
    }

    fn prev(&self, idx: usize) -> (r: Result<Strip, FetcherErrors>) {
        match &self.posts {
            None => Err(FetcherErrors::Error404),
            Some(d) => {
                let n = d.len();
                if idx < n && idx + 1 < n {
                    Ok(copy_of(&d[idx + 1]))
                } else {
                    Err(FetcherErrors::Error404)
                }
            },
        }
    }
}

impl FetcherImpl {
    /// Builds the stubs of a source with parallel title and thumbnail
    /// selections out of one listing body.
    fn build_thumb_listing(&self, body: &str) -> (r: Vec<Strip>)
        ensures
            spec_stubs_match(r@, spec_thumb_site(self.spec_site(), body@), self.spec_site()),
    {
        let site = self.site;
        match crate::extract::select_entries(body, "span a.post-link", "href") {
            None => Vec::new(),
            Some(ts) => match crate::extract::select_entries(body, "a.post-link img", "src") {
                None => Vec::new(),
                Some(us) => build_thumb_zip(site, &ts, &us),
            },
        }
    }
}

/// Reversing stubs that matched some pairs yields stubs matching the
/// reversed pairs.
proof fn lemma_rev_stubs(after: Seq<Strip>, pairs: Seq<(Seq<char>, Seq<char>)>, site: Sites)
    requires
        after.len() == pairs.len(),
        forall|i: int|
            0 <= i < after.len() ==> {
                let a = #[trigger] after[i];
                a.title@ == pairs[after.len() - 1 - i].0 && a.url@ == pairs[after.len() - 1 - i].1
                    && a.site == site && a.strip_type == StripType::Unknown && a.idx == i
            },
    ensures
        spec_stubs_match(after, spec_rev(pairs), site),
{
}

/// Builds the adapter of a source out of a fetched listing body: the
/// adapter holding the recipe's stubs, or nothing when the recipe draws
/// none.
pub fn build_fetcher(site: Sites, body: &str) -> (r: Option<FetcherImpl>)
    ensures
        ({
            let pairs = spec_expected_pairs(site, body@);
            &&& pairs.len() == 0 ==> r is None
            &&& pairs.len() > 0 ==> (r matches Some(f) && f.spec_site() == site
                && (f.spec_listing() matches Some(l) && spec_listing_matches(l, pairs, site)))
        }),
{
    let mut f = FetcherImpl::new(site);
    match f.reload(body) {
        Ok(_) => Some(f),
        Err(_) => None,
    }
}

/// How a resolved asset address is rewritten from the selected attribute
/// value.
#[derive(Debug, Clone, Copy, PartialEq, Eq)]
pub enum ResolveRewrite {
    AsIs,
    /// The fetch endpoint, then the value.
    Base,
    /// The fetch endpoint, a slash, then the value.
    BaseSlash,
    /// `https://`, the homepage, then the value.
    Homepage,
    /// `https://`, the homepage, a slash, then the value with `..` replaced
    /// by the stub's title.
    HomepageSlashDots,
    /// `https:`, then the value.
    HttpsColon,
    /// `http://`, the homepage, then the value.
    HttpHomepage,
    /// The value with `..` replaced by the stub's title.
    Dots,
}

/// The rewritten asset address a resolve rule yields.
pub open spec fn spec_resolve_rewrite(
    site: Sites,
    rw: ResolveRewrite,
    title: Seq<char>,
    u: Seq<char>,
) -> Seq<char> {
    match rw {
        ResolveRewrite::AsIs => u,
        ResolveRewrite::Base => crate::sites::spec_fetch_url(site) + u,
        ResolveRewrite::BaseSlash => crate::sites::spec_fetch_url(site) + "/"@ + u,
        ResolveRewrite::Homepage => "https://"@ + crate::sites::spec_homepage(site) + u,
        ResolveRewrite::HomepageSlashDots => "https://"@ + crate::sites::spec_homepage(site)
            + "/"@ + crate::text::spec_replace(u, ".."@, title),
        ResolveRewrite::HttpsColon => "https:"@ + u,
        ResolveRewrite::HttpHomepage => "http://"@ + crate::sites::spec_homepage(site) + u,
        ResolveRewrite::Dots => crate::text::spec_replace(u, ".."@, title),
    }
}

/// The asset address resolution owes a stub of `site`, given the stub's
/// title and address and the fetched page: the source's selector applied to
/// the page — or to the stub's stored address for sources that carry markup
/// there — and the source's rewrite; nothing when the selection fails.
pub open spec fn spec_resolve_url(
    site: Sites,
    title: Seq<char>,
    stub_url: Seq<char>,
    page: Seq<char>,
) -> Option<Seq<char>> {
    match site {
        Sites::TurnoffUs => spec_attr_then(site, ResolveRewrite::Base, title, page, "p img"@, "src"@),
        Sites::MonkeyUser => spec_attr_then(site, ResolveRewrite::Homepage, title, page, "p img"@, "src"@),
        Sites::BonkersWorld => Some(stub_url),
        Sites::Goomics => Some(stub_url),
        Sites::Xkcd => spec_meta_content(site, page, "og:image"@),
        Sites::DinosaurComics => spec_attr_then(site, ResolveRewrite::BaseSlash, title, page, "img.comic"@, "src"@),
        Sites::Oglaf => spec_attr_then(site, ResolveRewrite::AsIs, title, page, "#strip"@, "src"@),
        Sites::CadComics => spec_attr_then(site, ResolveRewrite::AsIs, title, page, "div.arrowright + a img"@, "src"@),
        Sites::JoyOfTech => spec_attr_then(site, ResolveRewrite::AsIs, title, page, "img"@, "src"@),
        Sites::GoodTechThings => spec_attr_then(site, ResolveRewrite::Dots, title, stub_url, "img"@, "src"@),
        Sites::ThreeWordPhrase => spec_attr_then(site, ResolveRewrite::HomepageSlashDots, title, page, "td center img"@, "src"@),
        Sites::ASofterWorld => spec_attr_then(site, ResolveRewrite::Dots, title, page, "#comicimg img"@, "src"@),
        Sites::ButterSafe => spec_attr_then(site, ResolveRewrite::Dots, title, page, "#comic img"@, "src"@),
        Sites::QuestionableContent => spec_attr_then(site, ResolveRewrite::AsIs, title, stub_url, "img"@, "src"@),
        Sites::WorkChronicles => spec_attr_then(site, ResolveRewrite::AsIs, title, page, "figure a.image-link"@, "href"@),
        Sites::JSPowerHour => spec_attr_then(site, ResolveRewrite::HttpsColon, title, page, "#comic-img"@, "src"@),
        Sites::ButtercupFestival => spec_attr_then(site, ResolveRewrite::BaseSlash, title, page, "center img"@, "src"@),
        Sites::Achewood => spec_attr_then(site, ResolveRewrite::Homepage, title, page, "img.comicImage"@, "src"@),
        Sites::CatAndGirl => spec_attr_then(site, ResolveRewrite::AsIs, title, page, "img.comic--image"@, "src"@),
        Sites::DieselSweeties1_0 => spec_attr_then(site, ResolveRewrite::HttpHomepage, title, page, "center ~ table ~ div > table > tbody > tr td div > img"@, "src"@),
        Sites::DieselSweeties3_0 => Some(stub_url),
    }
}

/// The first selected attribute of `data`, rewritten; nothing when the
/// selection fails.
pub open spec fn spec_attr_then(
    site: Sites,
    rw: ResolveRewrite,
    title: Seq<char>,
    data: Seq<char>,
    sel: Seq<char>,
    attr: Seq<char>,
) -> Option<Seq<char>> {
    match crate::extract::spec_first_attr(data, sel, attr) {
        Some(u) => Some(spec_resolve_rewrite(site, rw, title, u)),
        None => None,
    }
}

/// The title resolution owes a stub: most sources keep the stub's own
/// title; a few read it off the fetched page.
pub open spec fn spec_resolve_title(site: Sites, title: Seq<char>, page: Seq<char>) -> Option<
    Seq<char>,
> {
    match site {
        Sites::ButterSafe => crate::extract::spec_first_attr(page, "#comic img"@, "alt"@),
        Sites::ASofterWorld => crate::extract::spec_first_attr(page, "#comicimg img"@, "title"@),
        Sites::DieselSweeties1_0 => match crate::extract::spec_first_attr(
            page,
            "center ~ table ~ div > table > tbody > tr td div > img"@,
            "title"@,
        ) {
            Some(t) => Some(t),
            None => Some(title),
        },
        _ => Some(title),
    }
}

/// Whether resolving a stub of this source needs one further page fetch.
/// Sources that resolve out of the stub itself — because the stub already
/// carries the final address or markup holding it — need none.
pub open spec fn spec_needs_fetch(site: Sites) -> bool {
    match site {
        Sites::BonkersWorld => false,
        Sites::Goomics => false,
        Sites::DieselSweeties3_0 => false,
        Sites::QuestionableContent => false,
        Sites::GoodTechThings => false,
        _ => true,
    }
}

/// Whether resolving a stub of this source needs one further page fetch.
pub fn resolve_needs_fetch(site: Sites) -> (b: bool)
    ensures
        b == spec_needs_fetch(site),
{
    match site {
        Sites::BonkersWorld => false,
        Sites::Goomics => false,
        Sites::DieselSweeties3_0 => false,
        Sites::QuestionableContent => false,
        Sites::GoodTechThings => false,
        _ => true,
    }
}

/// Applies a resolve rule to one attribute value.
fn resolve_rewrite(site: Sites, rw: ResolveRewrite, title: &str, u: &str) -> (r: String)
    ensures
        r@ == spec_resolve_rewrite(site, rw, title@, u@),
{
    match rw {
        ResolveRewrite::AsIs => u.to_owned(),
        ResolveRewrite::Base => {
            let mut s = crate::sites::Url::fetch_url(&site).to_owned();
            s.append(u);
            s
        },
        ResolveRewrite::BaseSlash => {
            let mut s = crate::sites::Url::fetch_url(&site).to_owned();
            s.append("/");
            s.append(u);
            proof {
                assert(s@ =~= crate::sites::spec_fetch_url(site) + "/"@ + u@);
            }
            s
        },
        ResolveRewrite::Homepage => {
            let mut s = String::new();
            s.append("https://");
            s.append(crate::sites::Url::homepage(&site));
            s.append(u);
            proof {
                assert(s@ =~= "https://"@ + crate::sites::spec_homepage(site) + u@);
            }
            s
        },
        ResolveRewrite::HomepageSlashDots => {
            proof {
                reveal_strlit("..");
            }
            let cleaned = crate::text::replace_all(u, "..", title);
            let mut s = String::new();
            s.append("https://");
            s.append(crate::sites::Url::homepage(&site));
            s.append("/");
            s.append(cleaned.as_str());
            proof {
                assert(s@ =~= "https://"@ + crate::sites::spec_homepage(site) + "/"@
                    + crate::text::spec_replace(u@, ".."@, title@));
            }
            s
        },
        ResolveRewrite::HttpsColon => {
            let mut s = String::new();
            s.append("https:");
            s.append(u);
            proof {
                assert(s@ =~= "https:"@ + u@);
            }
            s
        },
        ResolveRewrite::HttpHomepage => {
            let mut s = String::new();
            s.append("http://");
            s.append(crate::sites::Url::homepage(&site));
            s.append(u);
            proof {
                assert(s@ =~= "http://"@ + crate::sites::spec_homepage(site) + u@);
            }
            s
        },
        ResolveRewrite::Dots => {
            proof {
                reveal_strlit("..");
            }
            crate::text::replace_all(u, "..", title)
        },
    }
}

/// Resolves through one selected attribute of `data`, keeping the stub's
/// title and position.
fn resolve_via_attr(content: &Strip, data: &str, sel: &str, attr: &str, rw: ResolveRewrite) -> (r:
    Result<Strip, FetcherErrors>)
    ensures
        ({
            let ru = spec_attr_then(content.site, rw, content.title@, data@, sel@, attr@);
            &&& r is Ok <==> ru is Some
            &&& r matches Ok(out) ==> (ru matches Some(u) && out.url@ == u) && out.title@
                == content.title@ && out.idx == content.idx && out.strip_type
                == content.strip_type && out.site == content.site
        }),
{
    match crate::extract::select_first_attr(data, sel, attr) {
        None => {
            proof {
                assert(crate::extract::spec_first_attr(data@, sel@, attr@) is None);
            }
            Err(FetcherErrors::Error404)
        },
        Some(u) => {
            proof {
                assert(crate::extract::spec_first_attr(data@, sel@, attr@) == Some(u@));
            }
            let url = resolve_rewrite(content.site, rw, content.title.as_str(), u.as_str());
            Ok(
                Strip {
                    title: content.title.clone(),
                    url,
                    idx: content.idx,
                    strip_type: content.strip_type,
                    site: content.site,
                },
            )
        },
    }
}

/// Resolves a stub into its final strip: one page fetch's body — or the
/// stub's own stored data — is searched for the asset address, which is
/// rewritten by the source's rule; index, boundary marker and source tag
/// are kept. Fails exactly when the wanted content is not found.
pub fn resolve_strip(content: &Strip, page: &str) -> (r: Result<Strip, FetcherErrors>)
    ensures
        ({
            let ru = spec_resolve_url(content.site, content.title@, content.url@, page@);
            let rt = spec_resolve_title(content.site, content.title@, page@);
            &&& r is Ok <==> (ru is Some && rt is Some)
            &&& r matches Ok(out) ==> (ru matches Some(u) && out.url@ == u) && (rt matches Some(t)
                && out.title@ == t) && out.idx == content.idx && out.strip_type
                == content.strip_type && out.site == content.site
        }),
{
    let site = content.site;
    match site {
        Sites::TurnoffUs => resolve_via_attr(content, page, "p img", "src", ResolveRewrite::Base),
        Sites::MonkeyUser => resolve_via_attr(content, page, "p img", "src", ResolveRewrite::Homepage),
        Sites::BonkersWorld => Ok(copy_of(content)),
        Sites::Goomics => Ok(copy_of(content)),
        Sites::Xkcd => {
            match parse_meta_content(site, page, "og:image") {
                None => Err(FetcherErrors::Error404),
                Some(u) => Ok(
                    Strip {
                        title: content.title.clone(),
                        url: u,
                        idx: content.idx,
                        strip_type: content.strip_type,
                        site: content.site,
                    },
                ),
            }
        },
        Sites::DinosaurComics => resolve_via_attr(content, page, "img.comic", "src", ResolveRewrite::BaseSlash),
        Sites::Oglaf => resolve_via_attr(content, page, "#strip", "src", ResolveRewrite::AsIs),
        Sites::CadComics => resolve_via_attr(content, page, "div.arrowright + a img", "src", ResolveRewrite::AsIs),
        Sites::JoyOfTech => resolve_via_attr(content, page, "img", "src", ResolveRewrite::AsIs),
        Sites::GoodTechThings => {
            let data = content.url.clone();
            resolve_via_attr(content, data.as_str(), "img", "src", ResolveRewrite::Dots)
        },
        Sites::ThreeWordPhrase => resolve_via_attr(content, page, "td center img", "src", ResolveRewrite::HomepageSlashDots),
        Sites::ASofterWorld => {
            let first = resolve_via_attr(content, page, "#comicimg img", "src", ResolveRewrite::Dots);
            match first {
                Err(e) => Err(e),
                Ok(out) => match crate::extract::select_first_attr(page, "#comicimg img", "title") {
                    None => {
                        proof {
                            assert(crate::extract::spec_first_attr(page@, "#comicimg img"@, "title"@) is None);
                        }
                        Err(FetcherErrors::Error404)
                    },
                    Some(t) => Ok(
                        Strip {
                            title: t,
                            url: out.url,
                            idx: out.idx,
                            strip_type: out.strip_type,
                            site: out.site,
                        },
                    ),
                },
            }
        },
        Sites::ButterSafe => {
            let first = resolve_via_attr(content, page, "#comic img", "src", ResolveRewrite::Dots);
            match first {
                Err(e) => Err(e),
                Ok(out) => match crate::extract::select_first_attr(page, "#comic img", "alt") {
                    None => {
                        proof {
                            assert(crate::extract::spec_first_attr(page@, "#comic img"@, "alt"@) is None);
                        }
                        Err(FetcherErrors::Error404)
                    },
                    Some(t) => Ok(
                        Strip {
                            title: t,
                            url: out.url,
                            idx: out.idx,
                            strip_type: out.strip_type,
                            site: out.site,
                        },
                    ),
                },
            }
        },
        Sites::QuestionableContent => {
            let data = content.url.clone();
            resolve_via_attr(content, data.as_str(), "img", "src", ResolveRewrite::AsIs)
        },
        Sites::WorkChronicles => resolve_via_attr(content, page, "figure a.image-link", "href", ResolveRewrite::AsIs),
        Sites::JSPowerHour => resolve_via_attr(content, page, "#comic-img", "src", ResolveRewrite::HttpsColon),
        Sites::ButtercupFestival => resolve_via_attr(content, page, "center img", "src", ResolveRewrite::BaseSlash),
        Sites::Achewood => resolve_via_attr(content, page, "img.comicImage", "src", ResolveRewrite::Homepage),
        Sites::CatAndGirl => resolve_via_attr(content, page, "img.comic--image", "src", ResolveRewrite::AsIs),
        Sites::DieselSweeties1_0 => {
            let first = resolve_via_attr(
                content,
                page,
                "center ~ table ~ div > table > tbody > tr td div > img",
                "src",
                ResolveRewrite::HttpHomepage,
            );
            match first {
                Err(e) => Err(e),
                Ok(out) => {
                    let t = match crate::extract::select_first_attr(
                        page,
                        "center ~ table ~ div > table > tbody > tr td div > img",
                        "title",
                    ) {
                        Some(t) => t,
                        None => content.title.clone(),
                    };
                    Ok(
                        Strip {
                            title: t,
                            url: out.url,
                            idx: out.idx,
                            strip_type: out.strip_type,
                            site: out.site,
                        },
                    )
                },
            }
        },
        Sites::DieselSweeties3_0 => Ok(copy_of(content)),
    }
}

/// Law: a well-formed listing with at least two strips has exactly one
/// strip marked `First` — the newest, at index 0 — and exactly one marked
/// `Last` — the oldest, at the highest index — and they are distinct.
pub proof fn lemma_boundary_markers(l: Seq<Strip>, site: Sites)
    requires
        spec_listing_wf(l, site),
        l.len() >= 2,
    ensures
        l[0].strip_type == StripType::First,
        l[l.len() - 1].strip_type == StripType::Last,
        forall|i: int|
            0 <= i < l.len() ==> ((#[trigger] l[i]).strip_type == StripType::First <==> i == 0),
        forall|i: int|
            0 <= i < l.len() ==> ((#[trigger] l[i]).strip_type == StripType::Last <==> i == l.len()
                - 1),
{
}

/// Law: a well-formed listing of exactly one strip marks it `Unique`, and
/// that strip has neither a newer nor an older neighbour.
pub proof fn lemma_sole_strip(l: Seq<Strip>, site: Sites)
    requires
        spec_listing_wf(l, site),
        l.len() == 1,
    ensures
        l[0].strip_type == StripType::Unique,
        !crate::strip::spec_has_next(l[0]),
        !crate::strip::spec_has_prev(l[0]),
{
}

/// Law: a well-formed listing's indices form the permutation `0..count-1`
/// in storage order, with index 0 the newest; in particular no two strips
/// share an index.
pub proof fn lemma_dense_indices(l: Seq<Strip>, site: Sites)
    requires
        spec_listing_wf(l, site),
    ensures
        forall|i: int| 0 <= i < l.len() ==> (#[trigger] l[i]).idx == i,
        forall|i: int, j: int|
            0 <= i < l.len() && 0 <= j < l.len() && i != j ==> (#[trigger] l[i]).idx != (
            #[trigger] l[j]).idx,
{
}

/// The adapter holds a non-empty, well-formed listing of its source.
pub open spec fn spec_loaded(f: FetcherImpl) -> bool {
    f.spec_listing() matches Some(l) && spec_listing_wf(l, f.spec_site())
}

/// A listing that realizes a non-empty recipe is well-formed.
pub proof fn lemma_listing_matches_wf(l: Seq<Strip>, pairs: Seq<(Seq<char>, Seq<char>)>, site: Sites)
    requires
        spec_listing_matches(l, pairs, site),
        pairs.len() > 0,
    ensures
        spec_listing_wf(l, site),
{
}

} // verus!

//! The caller-facing message protocol and the dispatcher's decision core.
//! A runtime loop owns the channels and the clock of events; every decision
//! it takes — which source to build, which stub a navigation request picks,
//! whether a completed task's result may still be delivered, and that a
//! download bypasses cancellation entirely — is made here, under contract.
//!
//! The intended driving order for one navigation request: `plan`, then on a
//! cache miss one listing fetch handed to `install_listing`, then
//! `begin_navigation`, whose stub the loop resolves concurrently; the
//! task's result passes `finish_navigation`, which discards it when a newer
//! navigation request has been issued meanwhile. A download request is
//! fetched and written inline and always answered through
//! `download_response`.

use vstd::prelude::*;

use crate::cancel::Coordinator;
use crate::fetcher::FetcherImpl;
use crate::fetcher::Fetcher;
use crate::fetcher::build_fetcher;
use crate::fetcher::lemma_listing_matches_wf;
use crate::fetcher::spec_expected_pairs;
use crate::registry::Registry;
use crate::sites::Sites;
use crate::sites::spec_listing_url;
use crate::sites::listing_url;
use crate::strip::Strip;

verus! {

/// Which strip a navigation request asks for.
#[derive(Debug, Clone, Copy, PartialEq, Eq, Hash)]
pub enum RequestStripType {
    Last,
    Random,
    Next(Option<usize>),
    Prev(Option<usize>),
}

impl Default for RequestStripType {
    fn default() -> (r: Self)
        ensures
            r == RequestStripType::Random,
    {
        RequestStripType::Random
    }
}

/// What a caller may ask of the dispatcher.
#[derive(Debug, Clone, PartialEq, Eq, Hash)]
pub enum Request {
    Strip { site: Sites, ty: RequestStripType },
    Download { path: String, url: String },
}

/// What the dispatcher answers: a navigation result — absent on any
/// failure — or a download outcome with its failure detail preserved.
#[derive(Debug)]
pub enum Response {
    Strip(Option<Strip>),
    Download(Result<(), String>),
}

/// What the runtime loop must do for one consumed request.
pub enum Dispatch {
    /// The source's adapter is not cached: fetch `listing_url`, hand the
    /// body to `install_listing`, then call `begin_navigation`.
    BuildThenNavigate { site: Sites, listing_url: String },
    /// The source's adapter is cached: call `begin_navigation`.
    Navigate { site: Sites },
    /// Fetch `url`, write the bytes to `path`, and answer through
    /// `download_response`, inline and regardless of any navigation in
    /// flight.
    Download { path: String, url: String },
}

/// The stub a navigation request picks out of a loaded adapter, mirroring
/// the four operations' contracts; absent exactly on a boundary failure or
/// a request carrying no index.
pub open spec fn spec_nav_pick(f: FetcherImpl, ty: RequestStripType, out: Option<Strip>) -> bool {
    match ty {
        RequestStripType::Last => match f.spec_listing() {
            Some(l) => if l.len() > 0 {
                out matches Some(s) && s == l[0]
            } else {
                out is None
            },
            None => out is None,
        },
        RequestStripType::Random => match f.spec_listing() {
            Some(l) => if l.len() > 0 {
                out matches Some(s) && exists|i: int| 0 <= i < l.len() && s == l[i]
            } else {
                out is None
            },
            None => out is None,
        },
        RequestStripType::Next(which) => match which {
            None => out is None,
            Some(idx) => if idx == 0 {
                out is None
            } else {
                match f.spec_listing() {
                    Some(l) => if idx - 1 < l.len() {
                        out matches Some(s) && s == l[idx - 1]
                    } else {
                        out is None
                    },
                    None => out is None,
                }
            },
        },
        RequestStripType::Prev(which) => match which {
            None => out is None,
            Some(idx) => match f.spec_listing() {
                Some(l) => if idx + 1 < l.len() {
                    out matches Some(s) && s == l[idx + 1]
                } else {
                    out is None
                },
                None => out is None,
            },
        },
    }
}

/// The dispatcher's state: the adapter cache and the cancellation slot.
pub struct Backend {
    registry: Registry,
    coord: Coordinator,
}

impl Backend {
    /// The cache is well-formed and the coordinator's slot consistent.
    pub open spec fn wf(&self) -> bool {
        self.spec_registry().wf() && self.spec_coord().wf()
    }

    /// The adapter cache.
    pub closed spec fn spec_registry(&self) -> Registry {
        self.registry
    }

    /// The cancellation coordinator.
    pub closed spec fn spec_coord(&self) -> Coordinator {
        self.coord
    }

    /// Whether a source's adapter is cached.
    pub open spec fn spec_cached(&self, site: Sites) -> bool {
        self.spec_registry().spec_cached(site)
    }

    /// The generation the next navigation request will run under.
    pub open spec fn spec_next_gen(&self) -> u64 {
        self.spec_coord().spec_next_gen()
    }

    /// A task completing under generation `g` may deliver exactly when no
    /// newer navigation request was issued meanwhile.
    pub open spec fn delivers(&self, g: u64) -> bool {
        self.spec_coord().delivers(g)
    }

    /// A fresh dispatcher: nothing cached, nothing in flight.
    pub fn new() -> (r: Backend)
        ensures
            r.wf(),
            forall|s: Sites| !r.spec_cached(s),
            r.spec_next_gen() == 0,
            forall|g: u64| !r.delivers(g),
    {
        Backend { registry: Registry::new(), coord: Coordinator::new() }
    }

    /// Whether another navigation generation can still be issued; false
    /// only once the generation counter is spent.
    pub fn can_issue(&self) -> (b: bool)
        ensures
            b == (self.spec_next_gen() < u64::MAX),
    {
        self.coord.gen_available()
    }

    /// Decides what one consumed request requires of the loop: a download
    /// is performed as it stands, a navigation request first needs its
    /// adapter built when none is cached.
    pub fn plan(&self, req: &Request) -> (d: Dispatch)
        requires
            self.wf(),
        ensures
            match *req {
                Request::Strip { site, ty } => if self.spec_cached(site) {
                    d matches Dispatch::Navigate { site: s } && s == site
                } else {
                    d matches Dispatch::BuildThenNavigate { site: s, listing_url: u } && s == site
                        && u@ == spec_listing_url(site)
                },
                Request::Download { ref path, ref url } => d matches Dispatch::Download {
                    path: ref p,
                    url: ref u,
                } && p@ == path@ && u@ == url@,
            },
    {
        match req {
            Request::Strip { site, ty: _ } => {
                match self.registry.lookup(*site) {
                    Some(_) => Dispatch::Navigate { site: *site },
                    None => Dispatch::BuildThenNavigate {
                        site: *site,
                        listing_url: listing_url(*site),
                    },
                }
            },
            Request::Download { path, url } => Dispatch::Download {
                path: path.clone(),
                url: url.clone(),
            },
        }
    }

    /// Admits one fetched listing body for a source: builds the adapter and
    /// caches it when the source's recipe draws stubs from the body.
    /// Neither a failed fetch (no body) nor an empty recipe caches
    /// anything — a still-failing source is fetched again on its next
    /// request — and the cancellation slot is never touched.
    pub fn install_listing(&mut self, site: Sites, body: Option<&str>) -> (ok: bool)
        requires
            old(self).wf(),
        ensures
            final(self).wf(),
            final(self).spec_coord() == old(self).spec_coord(),
            forall|s: Sites|
                s != site ==> final(self).spec_cached(s) == old(self).spec_cached(s),
            match body {
                None => !ok && final(self).spec_cached(site) == old(self).spec_cached(site),
                Some(b) => {
                    &&& ok == (spec_expected_pairs(site, b@).len() > 0)
                    &&& ok ==> final(self).spec_cached(site)
                    &&& !ok ==> final(self).spec_cached(site) == old(self).spec_cached(site)
                },
            },
    {
        match body {
            None => false,
            Some(b) => {
                match build_fetcher(site, b) {
                    None => false,
                    Some(f) => {
                        proof {
                            lemma_listing_matches_wf(
                                f.spec_listing()->0,
                                spec_expected_pairs(site, b@),
                                site,
                            );
                        }
                        self.registry.install(f);
                        true
                    },
                }
            },
        }
    }

    /// Starts one navigation request: issues a fresh generation — from
    /// this point the previous request's result is discarded — and picks
    /// the requested stub out of the cached adapter. The stub, when the
    /// loop's one resolution fetch succeeds, is resolved and the outcome
    /// handed with the returned generation to `finish_navigation`; an
    /// absent stub is handed there as an absent outcome.
    pub fn begin_navigation(&mut self, site: Sites, ty: RequestStripType) -> (r: (u64, Option<
        Strip,
    >))
        requires
            old(self).wf(),
            old(self).spec_next_gen() < u64::MAX,
        ensures
            final(self).wf(),
            final(self).spec_registry() == old(self).spec_registry(),
            crate::cancel::spec_issued(old(self).spec_coord(), final(self).spec_coord(), r.0),
            final(self).delivers(r.0),
            forall|h: u64| h != r.0 ==> !final(self).delivers(h),
            match old(self).spec_registry().spec_adapter(site) {
                None => r.1 is None,
                Some(f) => spec_nav_pick(f, ty, r.1),
            },
    {
        let gen = self.coord.issue();
        let out: Option<Strip> = match self.registry.lookup(site) {
            None => None,
            Some(f) => {
                let picked = match ty {
                    RequestStripType::Last => f.last(),
                    RequestStripType::Random => f.random(),
                    RequestStripType::Next(Some(idx)) => f.next(idx),
                    RequestStripType::Prev(Some(idx)) => f.prev(idx),
                    _ => Err(crate::strip::FetcherErrors::Error404),
                };
                match picked {
                    Ok(s) => Some(s),
                    Err(_) => None,
                }
            },
        };
        (gen, out)
    }

    /// Gates one completed navigation task: its result becomes a response
    /// exactly when its generation still holds the slot; a result overtaken
    /// by a newer navigation request is discarded and nothing is sent.
    pub fn finish_navigation(&self, gen: u64, result: Option<Strip>) -> (r: Option<Response>)
        ensures
            r is Some <==> self.delivers(gen),
            r matches Some(resp) ==> resp matches Response::Strip(content) && content == result,
    {
        if self.coord.should_deliver(gen) {
            Some(Response::Strip(result))
        } else {
            None
        }
    }

    /// Wraps one finished download: a download takes no part in
    /// cancellation, so its outcome — detail preserved — is always
    /// answered, whatever navigation requests were issued meanwhile.
    pub fn download_response(&self, outcome: Result<(), String>) -> (r: Response)
        ensures
            r matches Response::Download(x) && x == outcome,
    {
        Response::Download(outcome)
    }
}

/// Law: downloads and navigation cancellation do not interact. A download's
/// response exists under every coordinator state — `download_response`
/// never consults the slot — while a navigation result is delivered only
/// under its own still-active generation; and the download path (`plan` and
/// `download_response` take `&self`, `install_listing` keeps the
/// coordinator) never changes what is in flight.
pub proof fn lemma_download_unaffected(b: Backend, b2: Backend, gen: u64)
    requires
        b2.spec_coord() == b.spec_coord(),
    ensures
        forall|g: u64| b2.delivers(g) == b.delivers(g),
{
}

/// Law: a failing source is never negatively cached. When a source is not
/// cached and an admitted body draws no stubs, the source is still not
/// cached afterwards, so by `plan`'s contract the next request for it is
/// planned as another listing fetch: asked twice for a never-yet-seen
/// failing source, the dispatcher fetches twice and answers "unavailable"
/// both times.
pub proof fn lemma_no_negative_caching(pre: Backend, post: Backend, site: Sites, body: Seq<char>)
    requires
        !pre.spec_cached(site),
        spec_expected_pairs(site, body).len() == 0,
        post.spec_cached(site) == pre.spec_cached(site),
    ensures
        !post.spec_cached(site),
{
}

} // verus!

//! The source registry: one adapter slot per source of the closed
//! enumeration, filled lazily when a source's first listing fetch succeeds
//! and kept for the process lifetime. A failed build fills nothing, so a
//! still-failing source is retried from scratch on every request.

use vstd::prelude::*;

use crate::fetcher::FetcherImpl;
use crate::fetcher::spec_loaded;
use crate::sites::Sites;
use crate::sites::SITE_COUNT;
use crate::sites::lemma_site_index_bijective;
use crate::sites::spec_site_index;
use crate::sites::spec_site_of_index;

verus! {

/// The per-source adapter cache, indexed by the source numbering.
pub struct Registry {
    slots: Vec<Option<FetcherImpl>>,
}

impl Registry {
    /// One slot per source; a filled slot holds a loaded adapter of its own
    /// source.
    pub closed spec fn wf(&self) -> bool {
        &&& self.slots@.len() == SITE_COUNT
        &&& forall|i: int|
            0 <= i < SITE_COUNT ==> match #[trigger] self.slots@[i] {
                Some(f) => f.spec_site() == spec_site_of_index(i) && spec_loaded(f),
                None => true,
            }
    }

    /// The adapter cached for a source, if any.
    pub closed spec fn spec_adapter(&self, site: Sites) -> Option<FetcherImpl> {
        if 0 <= spec_site_index(site) < self.slots@.len() {
            self.slots@[spec_site_index(site)]
        } else {
            None
        }
    }

    /// Whether a source's adapter is cached.
    pub open spec fn spec_cached(&self, site: Sites) -> bool {
        self.spec_adapter(site) is Some
    }

    /// An empty registry: no source cached.
    pub fn new() -> (r: Registry)
        ensures
            r.wf(),
            forall|s: Sites| !r.spec_cached(s),
    {
        let mut slots: Vec<Option<FetcherImpl>> = Vec::new();
        while slots.len() < SITE_COUNT
            invariant
                slots@.len() <= SITE_COUNT,
                forall|i: int| 0 <= i < slots@.len() ==> (#[trigger] slots@[i]) is None,
            decreases SITE_COUNT - slots.len(),
        {
            slots.push(None);
        }
        let r = Registry { slots };
        proof {
            lemma_site_index_bijective();
        }
        r
    }

    /// The cached adapter of a source, if one is held.
    pub fn lookup(&self, site: Sites) -> (r: Option<&FetcherImpl>)
        requires
            self.wf(),
        ensures
            r is Some <==> self.spec_cached(site),
            r matches Some(f) ==> self.spec_adapter(site) == Some(*f) && f.spec_site() == site
                && spec_loaded(*f),
    {
        proof {
            lemma_site_index_bijective();
        }
        let i = site.index();
        match &self.slots[i] {
            None => None,
            Some(f) => Some(f),
        }
    }

    /// Caches a loaded adapter under its source, replacing whatever the
    /// slot held.
    pub fn install(&mut self, f: FetcherImpl)
        requires
            old(self).wf(),
            spec_loaded(f),
        ensures
            final(self).wf(),
            final(self).spec_adapter(f.spec_site()) == Some(f),
            forall|s: Sites|
                s != f.spec_site() ==> final(self).spec_adapter(s) == old(self).spec_adapter(s),
    {
        proof {
            lemma_site_index_bijective();
        }
        let i = f.site().index();
        self.slots[i] = Some(f);
        proof {
            assert forall|s: Sites| s != f.spec_site() implies self.spec_adapter(s) == old(
                self,
            ).spec_adapter(s) by {
                assert(spec_site_index(s) != spec_site_index(f.spec_site()));
            }
        }
    }
}

} // verus!

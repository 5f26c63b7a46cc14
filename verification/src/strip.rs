//! The item data model: a strip is a stub or resolved entry of a source's
//! listing, carrying its dense index and a marker for the listing boundary
//! it stands at.

use vstd::prelude::*;

use crate::sites::Sites;
use crate::text::spec_ext_after_last_dot;
use crate::text::ext_after_last_dot;

verus! {

/// Where a strip stands in its source's listing: `First` marks index 0 (the
/// newest), `Last` marks the highest index (the oldest), `Unique` replaces
/// both when the listing holds exactly one strip, `Unknown` marks the rest.
#[derive(Debug, Clone, Copy, PartialEq, Eq, Structural)]
pub enum StripType {
    First,
    Unknown,
    Last,
    Unique,
}

/// One entry of a source's listing, either a stub (title and the page it can
/// be resolved from) or a resolved strip (title and final asset address).
#[derive(Debug, Clone)]
pub struct Strip {
    pub title: String,
    pub url: String,
    pub idx: usize,
    pub strip_type: StripType,
    pub site: Sites,
}

/// Whether a newer strip exists: every strip but the newest and a sole one.
pub open spec fn spec_has_next(s: Strip) -> bool {
    s.strip_type != StripType::First && s.strip_type != StripType::Unique
}

/// Whether an older strip exists: every strip but the oldest and a sole one.
pub open spec fn spec_has_prev(s: Strip) -> bool {
    s.strip_type != StripType::Last && s.strip_type != StripType::Unique
}

impl Strip {
    pub fn has_next(&self) -> (r: bool)
        ensures
            r == spec_has_next(*self),
    {
        self.strip_type != StripType::First && self.strip_type != StripType::Unique
    }

    pub fn has_prev(&self) -> (r: bool)
        ensures
            r == spec_has_prev(*self),
    {
        self.strip_type != StripType::Last && self.strip_type != StripType::Unique
    }

    /// The file name a download of this strip is offered under: the title,
    /// a dot, and the extension of the asset address (what follows its last
    /// dot, or the whole address when it has none).
    pub fn file_name(&self) -> (r: String)
        ensures
            r@ == self.title@ + seq!['.'] + spec_ext_after_last_dot(self.url@),
    {
        let ext = ext_after_last_dot(self.url.as_str());
        let mut r = self.title.clone();
        r.append(".");
        r.append(ext.as_str());
        proof {
            reveal_strlit(".");
            assert(r@ =~= self.title@ + seq!['.'] + spec_ext_after_last_dot(self.url@));
        }
        r
    }
}

/// The one failure kind of listing and resolution work.
#[derive(Debug, Clone, Copy, PartialEq, Eq, Structural)]
pub enum FetcherErrors {
    Error404,
}

impl FetcherErrors {
    /// A human-readable account of the failure.
    pub fn message(&self) -> (r: &str)
        ensures
            r@ == "Failed to fetch items"@,
    {
        "Failed to fetch items"
    }
}

} // verus!

//! A verified core for a comic-strip browser: a catalogue of known sources,
//! a per-source listing of strips in newest-first order, navigation over that
//! listing, and the request-dispatch bookkeeping (adapter cache, cancellation
//! of superseded navigation requests, download pass-through) that a runtime
//! loop drives.

pub mod backend;
pub mod cancel;
pub mod extract;
pub mod fetcher;
pub mod registry;
pub mod sites;
pub mod strip;
pub mod text;

pub use fetcher::Fetcher;
pub use sites::Sites;
pub use sites::Url;
pub use strip::FetcherErrors;
pub use strip::Strip;
pub use strip::StripType;

//! Where to look for releases.

use vstd::prelude::*;
use crate::error::Error;
use crate::release::Release;

verus! {

/// A source of release metadata. Implementations perform blocking I/O;
/// callers must choose an appropriate thread or executor.
pub trait UpdateSource: Send + Sync + 'static {
    /// The answers this source may give to `fetch_latest`: what it serves
    /// depends on the outside world, so each implementation states which
    /// results it admits. One that states nothing admits every answer.
    open spec fn fetched(&self, r: Result<Release, Error>) -> bool {
        true
    }

    /// Fetch the latest release applicable to the running platform. This is
    /// the newest release the source knows about; comparing it against the
    /// running version is the caller's job (see `UpdateEngine::check`).
    fn fetch_latest(&self) -> (r: Result<Release, Error>)
        ensures
            self.fetched(r),
    ;
}

/// Forwarding impl so a boxed, type-erased source can drive the engine.
impl UpdateSource for Box<dyn UpdateSource> {
    /// A boxed source admits exactly what the source inside it admits.
    open spec fn fetched(&self, r: Result<Release, Error>) -> bool {
        (**self).fetched(r)
    }

    fn fetch_latest(&self) -> (r: Result<Release, Error>) {
        (**self).fetch_latest()
    }
}

} // verus!

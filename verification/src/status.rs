//! The observable state of an update operation.

use vstd::prelude::*;
use crate::version::AppVersion;

verus! {

/// Observable state of an update operation:
/// `Idle → Checking → {UpToDate | Available(v)} → Downloading → Installing →
/// Staged(v) | Errored(msg)`.
#[derive(Clone, Debug, PartialEq, Eq)]
pub enum UpdateStatus {
    /// Nothing has been checked yet.
    Idle,
    /// A check is in flight.
    Checking,
    /// The running version is the latest.
    UpToDate,
    /// A newer version is available to download and install.
    Available(AppVersion),
    /// The update artifact is downloading; `total` is `None` until/unless the
    /// server reports a `Content-Length`.
    Downloading { downloaded: u64, total: Option<u64> },
    /// The download is verified and being swapped into place.
    Installing,
    /// The update is installed and ready to launch on restart.
    Staged(AppVersion),
    /// The last operation failed.
    Errored(String),
}

impl Default for UpdateStatus {
    /// Nothing has been checked yet.
    fn default() -> (s: UpdateStatus)
        ensures
            s == UpdateStatus::Idle,
    {
        UpdateStatus::Idle
    }
}

/// Whether a status has an operation in flight.
pub open spec fn status_busy(s: UpdateStatus) -> bool {
    s is Checking || s is Downloading || s is Installing
}

/// Exactly a check, a download or an install in flight counts as busy: the
/// idle, settled and failed statuses never block a new request.
pub proof fn lemma_busy_statuses(s: UpdateStatus)
    ensures
        status_busy(s) <==> (s is Checking || s is Downloading || s is Installing),
        s is Idle || s is UpToDate || s is Available || s is Staged || s is Errored ==> !status_busy(s),
{
}

impl UpdateStatus {
    /// Whether an operation is currently in flight.
    pub fn is_busy(&self) -> (r: bool)
        ensures
            r == status_busy(*self),
    {
        match self {
            UpdateStatus::Checking | UpdateStatus::Downloading { .. } | UpdateStatus::Installing => true,
            _ => false,
        }
    }
}

} // verus!

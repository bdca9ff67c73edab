//! The decisions of an observable updater that runs checks and updates in
//! the background: which requests start work, and what status each outcome
//! leaves. The background work and the notifications of observers run
//! outside the library.

use vstd::prelude::*;
use crate::error::{Error, error_message};
use crate::release::Release;
use crate::status::{UpdateStatus, status_busy};
use crate::version::AppVersion;

verus! {

/// The updater's state: the status it shows and the newer release found by
/// the last successful check, if any.
pub struct Updater {
    status: UpdateStatus,
    available: Option<Release>,
}

/// Whether a status belongs to a download or install in flight.
pub open spec fn updating(s: UpdateStatus) -> bool {
    s is Downloading || s is Installing
}

impl Updater {
    /// The status shown.
    pub closed spec fn status_spec(&self) -> UpdateStatus {
        self.status
    }

    /// The release available to install.
    pub closed spec fn available_spec(&self) -> Option<Release> {
        self.available
    }

    /// An update in flight always has a release to install: every
    /// `Updater` holds this, and each method keeps it.
    #[verifier::type_invariant]
    spec fn wf(self) -> bool {
        updating(self.status) ==> self.available is Some
    }

    /// An updater that has checked nothing yet.
    pub fn new() -> (u: Updater)
        ensures
            u.status_spec() == UpdateStatus::Idle,
            u.available_spec() is None,
    {
        Updater { status: UpdateStatus::Idle, available: None }
    }

    /// The status shown.
    pub fn status(&self) -> (s: &UpdateStatus)
        ensures
            *s == self.status_spec(),
    {
        &self.status
    }

    /// The release available to install.
    pub fn available(&self) -> (r: Option<&Release>)
        ensures
            r == match self.available_spec() {
                Some(rel) => Some(&rel),
                None => None::<&Release>,
            },
    {
        match &self.available {
            Some(r) => Some(r),
            None => None,
        }
    }

    /// Asks for a check. While an operation is in flight the request is
    /// ignored (no second check runs); otherwise the status becomes
    /// `Checking` and the check is to be started. Returns whether it starts.
    pub fn check(&mut self) -> (started: bool)
        requires
        ensures
            started == !status_busy(old(self).status_spec()),
            !started ==> *final(self) == *old(self),
            started ==> final(self).status_spec() == UpdateStatus::Checking
                && final(self).available_spec() == old(self).available_spec(),
    {
        if self.status.is_busy() {
            return false;
        }
        self.status = UpdateStatus::Checking;
        true
    }

    /// Records the outcome of a check: a newer release becomes available; no
    /// newer release means up to date; a failure shows its message. A check
    /// that finds no newer release or fails keeps the release that was
    /// available before.
    pub fn finish_check(&mut self, outcome: Result<Option<Release>, Error>)
        requires
            old(self).status_spec() is Checking,
        ensures
            match outcome {
                Ok(Some(r)) => final(self).status_spec() matches UpdateStatus::Available(v) && v@ == r.version@
                    && final(self).available_spec() == Some(r),
                Ok(None) => final(self).status_spec() == UpdateStatus::UpToDate
                    && final(self).available_spec() == old(self).available_spec(),
                Err(e) => final(self).status_spec() matches UpdateStatus::Errored(m) && m@ == error_message(e@)
                    && final(self).available_spec() == old(self).available_spec(),
            },
    {
        match outcome {
            Ok(Some(r)) => {
                self.status = UpdateStatus::Available(r.version.clone());
                self.available = Some(r);
            },
            Ok(None) => {
                self.status = UpdateStatus::UpToDate;
            },
            Err(e) => {
                self.status = UpdateStatus::Errored(e.message());
            },
        }
    }

    /// Asks to download and install the available release. Ignored while an
    /// operation is in flight or when no release is available; otherwise the
    /// status becomes `Downloading` with nothing received and no known total.
    /// Returns whether the update starts.
    pub fn download_and_install(&mut self) -> (started: bool)
        requires
        ensures
            started == (!status_busy(old(self).status_spec()) && old(self).available_spec() is Some),
            !started ==> *final(self) == *old(self),
            started ==> final(self).status_spec() == (UpdateStatus::Downloading { downloaded: 0, total: None })
                && final(self).available_spec() == old(self).available_spec(),
    {
        if self.status.is_busy() || self.available.is_none() {
            return false;
        }
        self.status = UpdateStatus::Downloading { downloaded: 0, total: None };
        true
    }

    /// Shows the progress of the download in flight.
    pub fn report_progress(&mut self, downloaded: u64, total: Option<u64>)
        requires
            old(self).status_spec() is Downloading,
        ensures
            final(self).status_spec() == (UpdateStatus::Downloading { downloaded, total }),
            final(self).available_spec() == old(self).available_spec(),
    {
        proof {
            use_type_invariant(&*self);
        }
        self.status = UpdateStatus::Downloading { downloaded, total };
    }

    /// The download is verified and is being swapped into place.
    pub fn begin_install(&mut self)
        requires
            old(self).status_spec() is Downloading,
        ensures
            final(self).status_spec() == UpdateStatus::Installing,
            final(self).available_spec() == old(self).available_spec(),
    {
        proof {
            use_type_invariant(&*self);
        }
        self.status = UpdateStatus::Installing;
    }

    /// Records the outcome of an update: the available release is staged,
    /// or the failure's message is shown.
    pub fn finish_update(&mut self, outcome: Result<(), Error>)
        requires
            updating(old(self).status_spec()),
        ensures
            final(self).available_spec() == old(self).available_spec(),
            match outcome {
                Ok(()) => final(self).status_spec() matches UpdateStatus::Staged(v)
                    && v@ == old(self).available_spec()->0.version@,
                Err(e) => final(self).status_spec() matches UpdateStatus::Errored(m) && m@ == error_message(e@),
            },
    {
        proof {
            use_type_invariant(&*self);
        }
        match outcome {
            Ok(()) => {
                let v: AppVersion = self.available.as_ref().unwrap().version.clone();
                self.status = UpdateStatus::Staged(v);
            },
            Err(e) => {
                self.status = UpdateStatus::Errored(e.message());
            },
        }
    }
}

} // verus!

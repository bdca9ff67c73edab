//! The update engine: configuration, the check for a newer release, and the
//! decisions of the download (where the artifact goes, which checks run).

use vstd::prelude::*;
use crate::error::Error;
use crate::paths::{fresh_dir_name, join, path_joined, unique_temp_dir};
use crate::release::Release;
use crate::source::UpdateSource;
use crate::verify::{
    check_rejection, check_verifiable, download_rejection, plan_verification, plan_wf, planned_sha256,
    planned_signature, Verification, VerificationPlan,
};
use crate::version::{AppVersion, same_core, semver_greater};

verus! {

/// Configuration for an `UpdateEngine`.
pub struct EngineConfig {
    /// The currently running version, compared against the source's latest.
    pub current_version: AppVersion,
    /// Base64 minisign public key. When set and the release publishes a
    /// signature, the download is signature-checked in addition to SHA-256.
    pub minisign_public_key: Option<String>,
    /// Where to install; by default the running app or bundle.
    pub install_root: Option<String>,
    /// Directory for downloads; by default a fresh temporary directory.
    pub download_dir: Option<String>,
    /// How strictly downloads are verified.
    pub verification: Verification,
}

impl EngineConfig {
    /// Start a config for the given running version, with no key, default
    /// install root and download directory, and best-effort verification.
    pub fn new(current_version: AppVersion) -> (c: EngineConfig)
        ensures
            c.current_version == current_version,
            c.minisign_public_key is None,
            c.install_root is None,
            c.download_dir is None,
            c.verification == Verification::BestEffort,
    {
        EngineConfig {
            current_version,
            minisign_public_key: None,
            install_root: None,
            download_dir: None,
            verification: Verification::BestEffort,
        }
    }

    /// Set the base64 minisign public key used to verify signed downloads.
    pub fn minisign_public_key(self, key: String) -> (c: EngineConfig)
        ensures
            c == (EngineConfig { minisign_public_key: Some(key), ..self }),
    {
        EngineConfig { minisign_public_key: Some(key), ..self }
    }

    /// Override the install location (defaults to the running app/bundle).
    pub fn install_root(self, path: String) -> (c: EngineConfig)
        ensures
            c == (EngineConfig { install_root: Some(path), ..self }),
    {
        EngineConfig { install_root: Some(path), ..self }
    }

    /// Override the download directory (defaults to a temp directory).
    pub fn download_dir(self, path: String) -> (c: EngineConfig)
        ensures
            c == (EngineConfig { download_dir: Some(path), ..self }),
    {
        EngineConfig { download_dir: Some(path), ..self }
    }

    /// Set the verification policy.
    pub fn verification(self, policy: Verification) -> (c: EngineConfig)
        ensures
            c == (EngineConfig { verification: policy, ..self }),
    {
        EngineConfig { verification: policy, ..self }
    }
}

/// What a check answers when its source fetched `fetched`: the source's
/// error is passed on; a release that is not newer than the running version
/// is no update; a newer one is offered unless the policy could never verify
/// it, in which case the error is the one `check_rejection` names.
pub open spec fn check_answers(config: EngineConfig, fetched: Result<Release, Error>, r: Result<Option<Release>, Error>) -> bool {
    match fetched {
        Err(e) => r == Err::<Option<Release>, Error>(e),
        Ok(latest) => {
            &&& latest.version@ == config.current_version@ ==> r == Ok::<Option<Release>, Error>(None)
            &&& !semver_greater(latest.version@, config.current_version@) ==> r == Ok::<Option<Release>, Error>(None)
            &&& semver_greater(latest.version@, config.current_version@) ==> match check_rejection(
                config.verification,
                config.minisign_public_key is Some,
                latest,
            ) {
                Some(why) => r matches Err(x) && x@ == why,
                None => r == Ok::<Option<Release>, Error>(Some(latest)),
            }
        },
    }
}

/// A check offers exactly the newer releases the policy does not reject:
/// a fetched release that is semver-greater than the running version and
/// that the policy could verify is offered; one that is not greater is no
/// update; whatever is offered is the fetched release; a source's error is
/// passed on unchanged.
pub proof fn lemma_check_offers_newer_releases(config: EngineConfig, fetched: Result<Release, Error>, r: Result<Option<Release>, Error>)
    requires
        check_answers(config, fetched, r),
    ensures
        fetched matches Ok(latest) ==> {
            let why = check_rejection(config.verification, config.minisign_public_key is Some, latest);
            &&& semver_greater(latest.version@, config.current_version@) && why is None ==> r == Ok::<
                Option<Release>,
                Error,
            >(Some(latest))
            &&& !semver_greater(latest.version@, config.current_version@) ==> r == Ok::<Option<Release>, Error>(None)
            &&& semver_greater(latest.version@, config.current_version@) && why is Some ==> (r matches Err(e)
                && Some(e@) == why)
        },
        r matches Ok(Some(x)) ==> (fetched == Ok::<Release, Error>(x) && semver_greater(
            x.version@,
            config.current_version@,
        )),
        fetched matches Err(e) ==> r == Err::<Option<Release>, Error>(e),
{
}

/// Raising the running version never reveals an update. Two checks that
/// fetched the same release under the same policy and key, the second
/// running a version equal to or greater than the first's: if the second
/// offers the release, so does the first; if the first finds no update, nor
/// does the second. Proved except where the release and both running
/// versions share major, minor and patch numbers and the running versions
/// differ, where it rests on `semver`'s order of pre-release and build
/// identifiers, which the library only names.
pub proof fn lemma_raising_current_version_reveals_nothing(
    c1: EngineConfig,
    c2: EngineConfig,
    latest: Release,
    r1: Result<Option<Release>, Error>,
    r2: Result<Option<Release>, Error>,
)
    requires
        c1.verification == c2.verification,
        c1.minisign_public_key is Some <==> c2.minisign_public_key is Some,
        c2.current_version@ == c1.current_version@ || semver_greater(c2.current_version@, c1.current_version@),
        c2.current_version@ == c1.current_version@ || !(same_core(latest.version@, c1.current_version@) && same_core(
            c1.current_version@,
            c2.current_version@,
        )),
        check_answers(c1, Ok(latest), r1),
        check_answers(c2, Ok(latest), r2),
    ensures
        r2 == Ok::<Option<Release>, Error>(Some(latest)) ==> r1 == Ok::<Option<Release>, Error>(Some(latest)),
        r1 == Ok::<Option<Release>, Error>(None) ==> r2 == Ok::<Option<Release>, Error>(None),
{
}

/// Decides a check from the release a source fetched (see `check_answers`).
pub fn check_outcome(config: &EngineConfig, fetched: Result<Release, Error>) -> (r: Result<Option<Release>, Error>)
    ensures
        check_answers(*config, fetched, r),
{
    match fetched {
        Err(e) => Err(e),
        Ok(latest) => {
            if !latest.version.is_newer_than(&config.current_version) {
                return Ok(None);
            }
            match check_verifiable(config.verification, &config.minisign_public_key, &latest) {
                Err(e) => Err(e),
                Ok(()) => Ok(Some(latest)),
            }
        },
    }
}

/// Blocking update orchestrator: check → download → verify → install.
pub struct UpdateEngine<S: UpdateSource> {
    source: S,
    config: EngineConfig,
}

impl<S: UpdateSource> UpdateEngine<S> {
    /// Build an engine from a source and configuration.
    pub fn new(source: S, config: EngineConfig) -> (e: UpdateEngine<S>)
        ensures
            e.source() == source,
            e.config() == config,
    {
        UpdateEngine { source, config }
    }

    pub closed spec fn source(&self) -> S {
        self.source
    }

    pub closed spec fn config(&self) -> EngineConfig {
        self.config
    }

    /// The configured current version.
    pub fn current_version(&self) -> (v: &AppVersion)
        ensures
            *v == self.config().current_version,
    {
        &self.config.current_version
    }

    /// The engine's configuration.
    pub fn configuration(&self) -> (c: &EngineConfig)
        ensures
            *c == self.config(),
    {
        &self.config
    }

    /// The engine's release source.
    pub fn release_source(&self) -> (s: &S)
        ensures
            *s == self.source(),
    {
        &self.source
    }

    /// Where downloads go: the configured directory, else a fresh one named
    /// after the process and the instant in the temporary directory.
    pub fn download_directory(&self, temp_dir: &str, pid: u32, nanos: u128) -> (d: String)
        ensures
            self.config().download_dir matches Some(x) ==> d@ == x@,
            self.config().download_dir is None ==> d@ == path_joined(temp_dir@, fresh_dir_name("gpui-updater"@, pid, nanos)),
    {
        match &self.config.download_dir {
            Some(dir) => dir.clone(),
            None => default_download_dir(temp_dir, pid, nanos),
        }
    }

    /// Where to install: the configured install root, else the running app,
    /// which `running_app` looks up only then (its failure is passed on).
    pub fn install_target<F: FnOnce() -> Result<String, Error>>(&self, running_app: F) -> (r: Result<String, Error>)
        requires
            self.config().install_root is None ==> call_requires(running_app, ()),
        ensures
            self.config().install_root matches Some(x) ==> r == Ok::<String, Error>(x),
            self.config().install_root is None ==> call_ensures(running_app, (), r),
    {
        match &self.config.install_root {
            Some(root) => Ok(root.clone()),
            None => running_app(),
        }
    }

    /// The checks to run on a release's download under the configured policy
    /// and key (see `plan_verification`).
    pub fn verification_plan(&self, release: &Release) -> (r: Result<VerificationPlan, Error>)
        ensures
            r is Err <==> download_rejection(self.config().verification, self.config().minisign_public_key is Some, *release) is Some,
            r matches Err(e) ==> download_rejection(self.config().verification, self.config().minisign_public_key is Some, *release) == Some(e@),
            r matches Ok(plan) ==> {
                &&& plan_wf(plan)
                &&& plan.key == self.config().minisign_public_key
                &&& match plan.sha256 { Some(s) => Some(s@), None => None::<Seq<char>> } == planned_sha256(self.config().verification, *release)
                &&& plan.signature == planned_signature(self.config().verification, self.config().minisign_public_key, *release)
            },
    {
        plan_verification(self.config.verification, &self.config.minisign_public_key, release)
    }

    /// Fetch the latest release, returning it only if it is newer than the
    /// current version (otherwise `Ok(None)`), and refusing one that the
    /// verification policy could never verify. Source errors are passed on.
    /// What comes back is what `check_answers` gives for one of the answers
    /// the source admits.
    pub fn check(&self) -> (r: Result<Option<Release>, Error>)
        ensures
            exists|fetched: Result<Release, Error>|
                #[trigger] self.source().fetched(fetched) && check_answers(self.config(), fetched, r),
            r matches Ok(Some(latest)) ==> semver_greater(latest.version@, self.config().current_version@)
                && check_rejection(
                self.config().verification,
                self.config().minisign_public_key is Some,
                latest,
            ) is None,
    {
        let fetched = self.source.fetch_latest();
        let ghost answer = fetched;
        let r = check_outcome(&self.config, fetched);
        assert(self.source().fetched(answer) && check_answers(self.config(), answer, r));
        r
    }
}

/// The default download directory: `gpui-updater-<pid>-<nanos>` in the
/// system's temporary directory.
pub fn default_download_dir(temp_dir: &str, pid: u32, nanos: u128) -> (d: String)
    ensures
        d@ == path_joined(temp_dir@, fresh_dir_name("gpui-updater"@, pid, nanos)),
{
    unique_temp_dir(temp_dir, "gpui-updater", pid, nanos)
}

/// Where a release's artifact is downloaded: its asset name in the download
/// directory.
pub fn artifact_path(dir: &str, release: &Release) -> (p: String)
    ensures
        p@ == path_joined(dir@, release.asset.name@),
{
    join(dir, release.asset.name.as_str())
}

} // verus!

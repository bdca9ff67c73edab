//! Semantic versions. The ordering of versions is the one of the `semver`
//! crate; the library holds the version's parts as plain values beside the
//! `semver` value so that contracts can speak of them.

use vstd::prelude::*;

verus! {

#[verifier::external_type_specification]
#[verifier::external_body]
pub struct ExSemverVersion(semver::Version);

/// The parts of a version as plain values: the three numbers and the text of
/// the pre-release and build-metadata identifiers (empty when absent).
pub struct VersionView {
    pub major: u64,
    pub minor: u64,
    pub patch: u64,
    pub pre: Seq<char>,
    pub build: Seq<char>,
}

/// What `semver::Version::parse` gives for a text, as the parts of the
/// version it returns (`None` when it refuses the text).
pub uninterp spec fn semver_parse(text: Seq<char>) -> Option<VersionView>;

/// Whether two versions have the same major, minor and patch numbers.
pub open spec fn same_core(a: VersionView, b: VersionView) -> bool {
    a.major == b.major && a.minor == b.minor && a.patch == b.patch
}

/// Whether `a`'s (major, minor, patch) comes after `b`'s in lexicographic
/// order.
pub open spec fn core_greater(a: VersionView, b: VersionView) -> bool {
    ||| a.major > b.major
    ||| a.major == b.major && a.minor > b.minor
    ||| a.major == b.major && a.minor == b.minor && a.patch > b.patch
}

/// Whether, between two `semver::Version` values with the same numbers and
/// pre-releases that are both non-empty or equal, the one with pre-release
/// `pre_a` and build metadata `build_a` is the greater: `semver`'s order of
/// pre-release identifiers, then of build metadata.
pub uninterp spec fn semver_suffix_greater(pre_a: Seq<char>, build_a: Seq<char>, pre_b: Seq<char>, build_b: Seq<char>) -> bool;

/// Whether `a > b` holds for the `semver::Version` values with the given
/// parts. `Version`'s order is derived: the numbers decide first, in
/// lexicographic order; with equal numbers a release (empty pre-release) is
/// greater than any pre-release; equal parts are equal versions; the rest is
/// `semver`'s order of the pre-release and build identifiers.
pub open spec fn semver_greater(a: VersionView, b: VersionView) -> bool {
    if !same_core(a, b) {
        core_greater(a, b)
    } else if a.pre != b.pre && a.pre.len() == 0 {
        true
    } else if a.pre != b.pre && b.pre.len() == 0 {
        false
    } else if a.pre == b.pre && a.build == b.build {
        false
    } else {
        semver_suffix_greater(a.pre, a.build, b.pre, b.build)
    }
}

/// The order of versions is a strict order led by the numbers: no version is
/// greater than itself; a greater major number, or an equal major and a
/// greater minor, or equal major and minor and a greater patch, makes a
/// version greater and not smaller; with the same numbers a release is
/// greater than, and not smaller than, any pre-release.
pub proof fn lemma_version_order(a: VersionView, b: VersionView)
    ensures
        !semver_greater(a, a),
        a.major > b.major ==> semver_greater(a, b) && !semver_greater(b, a),
        a.major == b.major && a.minor > b.minor ==> semver_greater(a, b) && !semver_greater(b, a),
        a.major == b.major && a.minor == b.minor && a.patch > b.patch ==> semver_greater(a, b) && !semver_greater(b, a),
        a.major == b.major && a.minor == b.minor && a.patch == b.patch && a.pre.len() == 0 && b.pre.len() > 0
            ==> semver_greater(a, b) && !semver_greater(b, a),
{
}

/// A semantic version.
#[derive(Debug, PartialEq, Eq)]
pub struct AppVersion {
    major: u64,
    minor: u64,
    patch: u64,
    pre: String,
    build: String,
    sem: semver::Version,
}

impl View for AppVersion {
    type V = VersionView;

    closed spec fn view(&self) -> VersionView {
        VersionView {
            major: self.major,
            minor: self.minor,
            patch: self.patch,
            pre: self.pre@,
            build: self.build@,
        }
    }
}

/// The parts of a version without pre-release or build metadata.
pub open spec fn plain_version(major: u64, minor: u64, patch: u64) -> VersionView {
    VersionView { major, minor, patch, pre: Seq::empty(), build: Seq::empty() }
}

impl AppVersion {
    /// `semver::Version::new`: the claim is that the version built holds the
    /// given numbers with empty pre-release and build metadata, in its parts
    /// and in its `semver` value alike.
    #[verifier::external_body]
    fn semver_new(major: u64, minor: u64, patch: u64) -> (v: AppVersion)
        ensures
            v@ == plain_version(major, minor, patch),
    {
        AppVersion {
            major,
            minor,
            patch,
            pre: String::new(),
            build: String::new(),
            sem: semver::Version::new(major, minor, patch),
        }
    }

    /// The version `major.minor.patch`, without pre-release or build metadata.
    pub fn new(major: u64, minor: u64, patch: u64) -> (v: AppVersion)
        ensures
            v@ == plain_version(major, minor, patch),
    {
        Self::semver_new(major, minor, patch)
    }

    /// `Clone::clone` on a `semver::Version`: the claim is that the copy is the
    /// same value.
    #[verifier::external_body]
    fn semver_clone(sem: &semver::Version) -> (r: semver::Version)
        ensures
            r == *sem,
    {
        sem.clone()
    }

    /// `semver::Version::parse`: the claim is that the parts of the result are
    /// those that `semver_parse` names, and that it fails exactly where
    /// `semver_parse` is `None`. The error is handed out as its message, of
    /// which nothing is claimed.
    #[verifier::external_body]
    fn semver_parse_text(text: &str) -> (r: Result<AppVersion, String>)
        ensures
            r is Ok <==> semver_parse(text@) is Some,
            r matches Ok(v) ==> Some(v@) == semver_parse(text@),
    {
        match semver::Version::parse(text) {
            Ok(sem) => Ok(AppVersion {
                major: sem.major,
                minor: sem.minor,
                patch: sem.patch,
                pre: sem.pre.as_str().to_string(),
                build: sem.build.as_str().to_string(),
                sem,
            }),
            Err(e) => Err(e.to_string()),
        }
    }

    /// Parses a version in semver syntax (`1.2.3`, `1.2.3-beta.1+build.5`).
    /// Fails, with `semver`'s message, exactly where `semver` refuses the text.
    pub fn parse(text: &str) -> (r: Result<AppVersion, String>)
        ensures
            r is Ok <==> semver_parse(text@) is Some,
            r matches Ok(v) ==> Some(v@) == semver_parse(text@),
    {
        Self::semver_parse_text(text)
    }

    /// The major version number.
    pub fn major(&self) -> (r: u64)
        ensures
            r == self@.major,
    {
        self.major
    }

    /// The minor version number.
    pub fn minor(&self) -> (r: u64)
        ensures
            r == self@.minor,
    {
        self.minor
    }

    /// The patch version number.
    pub fn patch(&self) -> (r: u64)
        ensures
            r == self@.patch,
    {
        self.patch
    }

    /// `>` on two `semver::Version` values: the claim is that the result is
    /// `semver_greater` of the two versions' parts: `Version`'s `Ord` is
    /// derived over (major, minor, patch, pre, build); `Prerelease`'s puts an
    /// empty pre-release above a non-empty one; values with the same parts
    /// are equal; what is left is `semver_suffix_greater`, of which nothing
    /// more is claimed. The claim rests on each `AppVersion` holding the
    /// `semver` value of its own parts, which holds because only `semver_new`
    /// and `semver_parse_text` build one from scratch, and `clone` copies
    /// both.
    #[verifier::external_body]
    fn semver_gt(a: &AppVersion, b: &AppVersion) -> (r: bool)
        ensures
            r == semver_greater(a@, b@),
            same_core(a@, b@) && a@.pre.len() > 0 && b@.pre.len() > 0 && a@ != b@ ==> r == semver_suffix_greater(
                a@.pre,
                a@.build,
                b@.pre,
                b@.build,
            ),
    {
        a.sem > b.sem
    }

    /// Whether this version takes precedence over `other` in semver order.
    pub fn is_newer_than(&self, other: &AppVersion) -> (r: bool)
        ensures
            r == semver_greater(self@, other@),
    {
        Self::semver_gt(self, other)
    }
}

impl Clone for AppVersion {
    fn clone(&self) -> (r: AppVersion)
        ensures
            r@ == self@,
    {
        AppVersion {
            major: self.major,
            minor: self.minor,
            patch: self.patch,
            pre: self.pre.clone(),
            build: self.build.clone(),
            sem: Self::semver_clone(&self.sem),
        }
    }
}

} // verus!

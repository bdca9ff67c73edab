//! Release metadata as the sources report it.

use vstd::prelude::*;
use vstd::string::*;
use crate::version::{AppVersion, plain_version};

verus! {

/// A downloadable artifact of a release.
#[derive(Debug, PartialEq, Eq)]
pub struct Asset {
    pub name: String,
    pub url: String,
    pub size: u64,
}

/// The latest release a source knows about.
#[derive(Debug, PartialEq, Eq)]
pub struct Release {
    pub version: AppVersion,
    pub notes: Option<String>,
    pub asset: Asset,
    /// Inline minisign signature of the asset, if published.
    pub signature: Option<String>,
    /// URL of a detached minisign signature, if published.
    pub signature_url: Option<String>,
    /// Expected SHA-256 of the asset in hex, if published.
    pub sha256: Option<String>,
}

/// A release of version `version.0.0` with one `update.tar.gz` asset at an
/// unreachable URL, notes `fixture notes`, and no checksum or signature.
pub fn release(version: u64) -> (r: Release)
    ensures
        r.version@ == plain_version(version, 0, 0),
        r.notes matches Some(n) && n@ == "fixture notes"@,
        r.asset.name@ == "update.tar.gz"@,
        r.asset.url@ == "http://unused.invalid"@,
        r.asset.size == 0,
        r.signature is None,
        r.signature_url is None,
        r.sha256 is None,
{
    Release {
        version: AppVersion::new(version, 0, 0),
        notes: Some(String::from_str("fixture notes")),
        asset: Asset {
            name: String::from_str("update.tar.gz"),
            url: String::from_str("http://unused.invalid"),
            size: 0,
        },
        signature: None,
        signature_url: None,
        sha256: None,
    }
}

} // verus!

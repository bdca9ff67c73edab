//! Verification of downloaded artifacts: the verification policy, the SHA-256
//! check and the minisign (Ed25519) signature check.

use vstd::prelude::*;
use vstd::string::*;
use sha2::Digest;
use crate::error::{Error, ErrorView};
use crate::release::Release;
use crate::text::{eq_ignore_ascii_case, equals_ignore_ascii_case, hex_lower, hex_string, lemma_hex_lower_len};

verus! {

/// How strictly downloads are verified.
#[derive(Clone, Copy, Debug, PartialEq, Eq, Structural)]
pub enum Verification {
    /// Verify what is available; skip checks whose input is missing (fails
    /// open). The default.
    BestEffort,
    /// Skip all checks (tests and local development only).
    Off,
    /// Require a matching SHA-256.
    Checksum,
    /// Require a public key and an advertised minisign signature.
    Signature,
    /// Require both a valid signature and a matching SHA-256.
    Strict,
}

impl Default for Verification {
    fn default() -> (v: Verification)
        ensures
            v == Verification::BestEffort,
    {
        Verification::BestEffort
    }
}

/// Whether a policy requires a published SHA-256.
pub open spec fn requires_checksum(p: Verification) -> bool {
    p == Verification::Checksum || p == Verification::Strict
}

/// Whether a policy requires a public key and an advertised signature.
pub open spec fn requires_signature(p: Verification) -> bool {
    p == Verification::Signature || p == Verification::Strict
}

/// Whether a release advertises a minisign signature, inline or detached.
pub open spec fn signature_advertised(r: Release) -> bool {
    r.signature is Some || r.signature_url is Some
}

/// The error texts of the verification policy.
pub open spec fn no_key_text() -> Seq<char> {
    "no minisign public key is configured"@
}

pub open spec fn no_signature_text() -> Seq<char> {
    "the release publishes no minisign signature"@
}

pub open spec fn no_checksum_text() -> Seq<char> {
    "the release publishes no SHA-256 checksum"@
}

/// Why a policy rejects a release at check time, before it is ever offered:
/// only `Signature` and `Strict` do, when their inputs are missing.
pub open spec fn check_rejection(p: Verification, has_key: bool, r: Release) -> Option<ErrorView> {
    if requires_signature(p) && !has_key {
        Some(ErrorView::Unverifiable(no_key_text()))
    } else if requires_signature(p) && !signature_advertised(r) {
        Some(ErrorView::Unverifiable(no_signature_text()))
    } else if p == Verification::Strict && r.sha256 is None {
        Some(ErrorView::Unverifiable(no_checksum_text()))
    } else {
        None
    }
}

/// Why a policy refuses to verify a download whose inputs are missing.
pub open spec fn download_rejection(p: Verification, has_key: bool, r: Release) -> Option<ErrorView> {
    if check_rejection(p, has_key, r) is Some {
        check_rejection(p, has_key, r)
    } else if requires_checksum(p) && r.sha256 is None {
        Some(ErrorView::Unverifiable(no_checksum_text()))
    } else {
        None
    }
}

fn unverifiable(text: &str) -> (e: Error)
    ensures
        e@ == ErrorView::Unverifiable(text@),
{
    Error::Unverifiable(String::from_str(text))
}

/// Rejects, at check time, a release that the policy could never verify.
pub fn check_verifiable(p: Verification, key: &Option<String>, r: &Release) -> (res: Result<(), Error>)
    ensures
        res is Ok <==> check_rejection(p, key is Some, *r) is None,
        res matches Err(e) ==> check_rejection(p, key is Some, *r) == Some(e@),
{
    let needs_signature = p == Verification::Signature || p == Verification::Strict;
    if needs_signature && key.is_none() {
        return Err(unverifiable("no minisign public key is configured"));
    }
    if needs_signature && r.signature.is_none() && r.signature_url.is_none() {
        return Err(unverifiable("the release publishes no minisign signature"));
    }
    if p == Verification::Strict && r.sha256.is_none() {
        return Err(unverifiable("the release publishes no SHA-256 checksum"));
    }
    Ok(())
}

/// Where the signature to check comes from.
#[derive(Debug)]
pub enum SignatureSource {
    /// No signature is checked.
    Skip,
    /// The release's inline signature.
    Inline(String),
    /// A detached signature to fetch from this URL.
    Remote(String),
}

/// The checks to run on a downloaded artifact.
#[derive(Debug)]
pub struct VerificationPlan {
    /// The SHA-256 (hex) the artifact must hash to, if it is checked.
    pub sha256: Option<String>,
    /// The public key that signatures are checked against.
    pub key: Option<String>,
    pub signature: SignatureSource,
}

/// The checks a policy runs on a release's download: the SHA-256 when it is
/// published, and with a key configured the inline signature, else the
/// detached one; `Off` runs none.
pub open spec fn planned_sha256(p: Verification, r: Release) -> Option<Seq<char>> {
    if p == Verification::Off {
        None
    } else {
        match r.sha256 {
            Some(s) => Some(s@),
            None => None,
        }
    }
}

pub open spec fn planned_signature(p: Verification, key: Option<String>, r: Release) -> SignatureSource {
    if p == Verification::Off || key is None {
        SignatureSource::Skip
    } else {
        match r.signature {
            Some(s) => SignatureSource::Inline(s),
            None => match r.signature_url {
                Some(u) => SignatureSource::Remote(u),
                None => SignatureSource::Skip,
            },
        }
    }
}

/// Whether a plan is coherent: a signature is only checked with a key.
pub open spec fn plan_wf(plan: VerificationPlan) -> bool {
    !(plan.signature is Skip) ==> plan.key is Some
}

/// Plans the verification of a release's download under a policy, refusing
/// when the policy requires an input that is missing.
pub fn plan_verification(p: Verification, key: &Option<String>, r: &Release) -> (res: Result<VerificationPlan, Error>)
    ensures
        res is Err <==> download_rejection(p, key is Some, *r) is Some,
        res matches Err(e) ==> download_rejection(p, key is Some, *r) == Some(e@),
        res matches Ok(plan) ==> {
            &&& plan_wf(plan)
            &&& plan.key == *key
            &&& match plan.sha256 { Some(s) => Some(s@), None => None::<Seq<char>> } == planned_sha256(p, *r)
            &&& plan.signature == planned_signature(p, *key, *r)
        },
{
    check_verifiable(p, key, r)?;
    if (p == Verification::Checksum || p == Verification::Strict) && r.sha256.is_none() {
        return Err(unverifiable("the release publishes no SHA-256 checksum"));
    }
    if p == Verification::Off {
        return Ok(VerificationPlan { sha256: None, key: key.clone(), signature: SignatureSource::Skip });
    }
    let sha256 = r.sha256.clone();
    let signature = if key.is_none() {
        SignatureSource::Skip
    } else {
        match &r.signature {
            Some(s) => SignatureSource::Inline(s.clone()),
            None => match &r.signature_url {
                Some(u) => SignatureSource::Remote(u.clone()),
                None => SignatureSource::Skip,
            },
        }
    };
    Ok(VerificationPlan { sha256, key: key.clone(), signature })
}

/// The SHA-256 digest of some bytes.
pub uninterp spec fn sha256(data: Seq<u8>) -> Seq<u8>;

/// `<sha2::Sha256 as Digest>::digest`: the claim is that the result is the
/// digest that `sha256` names, 32 bytes long.
#[verifier::external_body]
fn sha256_digest(data: &[u8]) -> (d: Vec<u8>)
    ensures
        d@ == sha256(data@),
        d@.len() == 32,
{
    sha2::Sha256::digest(data).to_vec()
}

/// The lower-case hex SHA-256 of some bytes.
pub fn sha256_hex(data: &[u8]) -> (s: String)
    ensures
        s@ == hex_lower(sha256(data@)),
{
    let d = sha256_digest(data);
    hex_string(d.as_slice())
}

/// Whether bytes hash to the expected hex digest (ignoring ASCII case).
pub open spec fn checksum_ok(expected: Seq<char>, data: Seq<u8>) -> bool {
    eq_ignore_ascii_case(hex_lower(sha256(data)), expected)
}

/// Checks bytes against an expected SHA-256, reporting both digests on a
/// mismatch.
pub fn verify_sha256(data: &[u8], expected: &String) -> (r: Result<(), Error>)
    ensures
        r is Ok <==> checksum_ok(expected@, data@),
        r matches Err(e) ==> e@ == (ErrorView::ChecksumMismatch {
            expected: expected@,
            actual: hex_lower(sha256(data@)),
        }),
{
    let actual = sha256_hex(data);
    if equals_ignore_ascii_case(actual.as_str(), expected.as_str()) {
        Ok(())
    } else {
        Err(Error::ChecksumMismatch { expected: expected.clone(), actual })
    }
}

#[verifier::external_type_specification]
#[verifier::external_body]
pub struct ExMinisignPublicKey(minisign_verify::PublicKey);

#[verifier::external_type_specification]
#[verifier::external_body]
pub struct ExMinisignSignature(minisign_verify::Signature);

/// Whether `minisign_verify::PublicKey::from_base64` accepts a text.
pub uninterp spec fn minisign_key_ok(key_b64: Seq<char>) -> bool;

/// Whether `minisign_verify::Signature::decode` accepts a text.
pub uninterp spec fn minisign_signature_ok(signature: Seq<char>) -> bool;

/// Whether `PublicKey::verify` (legacy signatures refused) accepts data under
/// the key and the signature decoded from these texts.
pub uninterp spec fn minisign_accepts(key_b64: Seq<char>, signature: Seq<char>, data: Seq<u8>) -> bool;

/// A decoded public key, with the text it was decoded from.
struct DecodedKey {
    text: String,
    key: minisign_verify::PublicKey,
}

/// A decoded signature, with the text it was decoded from.
struct DecodedSignature {
    text: String,
    signature: minisign_verify::Signature,
}

/// `minisign_verify::PublicKey::from_base64`: the claim is that it succeeds
/// exactly where `minisign_key_ok` holds; the error is handed out as its
/// message, of which nothing is claimed.
#[verifier::external_body]
fn decode_public_key(key_b64: &str) -> (r: Result<DecodedKey, String>)
    ensures
        r is Ok <==> minisign_key_ok(key_b64@),
        r matches Ok(k) ==> k.text@ == key_b64@,
{
    match minisign_verify::PublicKey::from_base64(key_b64) {
        Ok(key) => Ok(DecodedKey { text: key_b64.to_string(), key }),
        Err(e) => Err(e.to_string()),
    }
}

/// `minisign_verify::Signature::decode`: the claim is that it succeeds
/// exactly where `minisign_signature_ok` holds; the error is handed out as
/// its message, of which nothing is claimed.
#[verifier::external_body]
fn decode_signature(text: &str) -> (r: Result<DecodedSignature, String>)
    ensures
        r is Ok <==> minisign_signature_ok(text@),
        r matches Ok(s) ==> s.text@ == text@,
{
    match minisign_verify::Signature::decode(text) {
        Ok(signature) => Ok(DecodedSignature { text: text.to_string(), signature }),
        Err(e) => Err(e.to_string()),
    }
}

/// `minisign_verify::PublicKey::verify` with legacy signatures refused: the
/// claim is that it succeeds exactly where `minisign_accepts` holds for the
/// texts the key and signature were decoded from (only `decode_public_key`
/// and `decode_signature` build those values); the error is handed out as
/// its message, of which nothing is claimed.
#[verifier::external_body]
fn minisign_verify_data(key: &DecodedKey, data: &[u8], signature: &DecodedSignature) -> (r: Result<(), String>)
    ensures
        r is Ok <==> minisign_accepts(key.text@, signature.text@, data@),
{
    match key.key.verify(data, &signature.signature, false) {
        Ok(()) => Ok(()),
        Err(e) => Err(e.to_string()),
    }
}

/// Whether data carries a valid minisign signature under a key.
pub open spec fn signature_ok(key_b64: Seq<char>, signature: Seq<char>, data: Seq<u8>) -> bool {
    minisign_key_ok(key_b64) && minisign_signature_ok(signature) && minisign_accepts(key_b64, signature, data)
}

/// A signature passes only when the key and the signature both decode and
/// minisign accepts the data under them; an artifact that minisign refuses
/// never passes.
pub proof fn lemma_signature_needs_acceptance(key_b64: Seq<char>, signature: Seq<char>, data: Seq<u8>)
    ensures
        signature_ok(key_b64, signature, data) ==> minisign_key_ok(key_b64) && minisign_signature_ok(signature)
            && minisign_accepts(key_b64, signature, data),
        !minisign_accepts(key_b64, signature, data) ==> !signature_ok(key_b64, signature, data),
{
}

/// Checks a minisign signature of some data against a base64 public key.
pub fn verify_minisign(data: &[u8], key_b64: &str, signature: &str) -> (r: Result<(), Error>)
    ensures
        r is Ok <==> signature_ok(key_b64@, signature@, data@),
        r matches Err(e) ==> e is Signature,
{
    let key = match decode_public_key(key_b64) {
        Ok(k) => k,
        Err(m) => return Err(Error::Signature(m)),
    };
    let sig = match decode_signature(signature) {
        Ok(s) => s,
        Err(m) => return Err(Error::Signature(m)),
    };
    match minisign_verify_data(&key, data, &sig) {
        Ok(()) => Ok(()),
        Err(m) => Err(Error::Signature(m)),
    }
}

/// The signature text a plan checks: the inline one, or the detached one
/// that was fetched for it.
pub open spec fn checked_signature(plan: VerificationPlan, fetched: Option<String>) -> Option<Seq<char>> {
    match plan.signature {
        SignatureSource::Skip => None,
        SignatureSource::Inline(s) => Some(s@),
        SignatureSource::Remote(_) => match fetched {
            Some(s) => Some(s@),
            None => None,
        },
    }
}

/// Whether a downloaded artifact passes a plan: the SHA-256 first, then the
/// signature.
pub open spec fn artifact_ok(plan: VerificationPlan, data: Seq<u8>, fetched: Option<String>) -> bool {
    &&& (plan.sha256 matches Some(e) ==> checksum_ok(e@, data))
    &&& (checked_signature(plan, fetched) matches Some(s) ==> signature_ok(plan.key->0@, s, data))
}

/// Whether an artifact passes a plan's SHA-256 check (vacuously when the
/// plan checks none).
pub open spec fn checksum_step_ok(plan: VerificationPlan, data: Seq<u8>) -> bool {
    plan.sha256 matches Some(e) ==> checksum_ok(e@, data)
}

/// Whether an artifact passes a plan's signature check, given the signature
/// text that was fetched for a detached one.
pub open spec fn signature_step_ok(plan: VerificationPlan, data: Seq<u8>, fetched: Option<String>) -> bool {
    checked_signature(plan, fetched) matches Some(s) ==> signature_ok(plan.key->0@, s, data)
}

/// The first check of a plan: the artifact's SHA-256, when the plan has one.
pub fn verify_checksum(plan: &VerificationPlan, data: &[u8]) -> (r: Result<(), Error>)
    ensures
        r is Ok <==> checksum_step_ok(*plan, data@),
        r matches Err(x) ==> (plan.sha256 matches Some(e) && x@ == (ErrorView::ChecksumMismatch {
            expected: e@,
            actual: hex_lower(sha256(data@)),
        })),
{
    match &plan.sha256 {
        Some(expected) => verify_sha256(data, expected),
        None => Ok(()),
    }
}

/// The second check of a plan: the signature, inline or the detached one
/// that was fetched.
pub fn verify_signature(plan: &VerificationPlan, data: &[u8], fetched: Option<String>) -> (r: Result<(), Error>)
    requires
        plan_wf(*plan),
        fetched is Some ==> plan.signature is Remote,
    ensures
        r is Ok <==> signature_step_ok(*plan, data@, fetched),
        r matches Err(x) ==> x is Signature,
{
    let key = match &plan.key {
        Some(k) => k,
        None => return Ok(()),
    };
    match &plan.signature {
        SignatureSource::Skip => Ok(()),
        SignatureSource::Inline(s) => verify_minisign(data, key.as_str(), s.as_str()),
        SignatureSource::Remote(_) => match &fetched {
            Some(s) => verify_minisign(data, key.as_str(), s.as_str()),
            None => Ok(()),
        },
    }
}

/// What a verification needs after its checksum step: the detached
/// signature from a URL, or nothing more, with its result.
#[derive(Debug)]
pub enum VerifyStep {
    FetchSignature(String),
    Done(Result<(), Error>),
}

/// Starts verifying a downloaded artifact: the SHA-256 is checked first, and
/// only when it matches is a detached signature asked for. So a checksum
/// mismatch is reported as such, and no signature URL is requested for it.
pub fn begin_verification(plan: &VerificationPlan, data: &[u8]) -> (r: VerifyStep)
    requires
        plan_wf(*plan),
    ensures
        !checksum_step_ok(*plan, data@) ==> (r matches VerifyStep::Done(Err(x)) && (plan.sha256 matches Some(e)
            && x@ == (ErrorView::ChecksumMismatch { expected: e@, actual: hex_lower(sha256(data@)) }))),
        checksum_step_ok(*plan, data@) && plan.signature is Remote ==> r == VerifyStep::FetchSignature(
            plan.signature->Remote_0,
        ),
        checksum_step_ok(*plan, data@) && !(plan.signature is Remote) ==> (r matches VerifyStep::Done(res) && (res
            is Ok <==> artifact_ok(*plan, data@, None)) && (res matches Err(x) ==> x is Signature)),
{
    match verify_checksum(plan, data) {
        Err(e) => VerifyStep::Done(Err(e)),
        Ok(()) => match &plan.signature {
            SignatureSource::Remote(url) => VerifyStep::FetchSignature(url.clone()),
            _ => VerifyStep::Done(verify_signature(plan, data, None)),
        },
    }
}

/// Ends a verification that asked for a detached signature, with the outcome
/// of fetching it: a failed fetch is passed on; a fetched signature is
/// checked.
pub fn finish_verification(plan: &VerificationPlan, data: &[u8], fetched: Result<String, Error>) -> (r: Result<(), Error>)
    requires
        plan_wf(*plan),
        plan.signature is Remote,
    ensures
        fetched matches Err(e) ==> r == Err::<(), Error>(e),
        fetched matches Ok(s) ==> (r is Ok <==> signature_ok(plan.key->0@, s@, data@)),
        fetched is Ok && r is Err ==> (r matches Err(x) && x is Signature),
{
    match fetched {
        Err(e) => Err(e),
        Ok(s) => verify_signature(plan, data, Some(s)),
    }
}

/// The two steps decide as the whole check does: once the checksum matches,
/// an artifact passes exactly when its fetched detached signature is valid.
pub proof fn lemma_steps_agree(plan: VerificationPlan, data: Seq<u8>, s: String)
    requires
        plan.signature is Remote,
        checksum_step_ok(plan, data),
    ensures
        artifact_ok(plan, data, Some(s)) <==> signature_ok(plan.key->0@, s@, data),
{
}

/// Runs a plan's checks on a downloaded artifact: the SHA-256 first, then the
/// signature. `fetched` is the detached signature when the plan names one;
/// it is only needed once the checksum has matched.
pub fn verify_artifact(plan: &VerificationPlan, data: &[u8], fetched: Option<String>) -> (r: Result<(), Error>)
    requires
        plan_wf(*plan),
        fetched is Some ==> plan.signature is Remote,
        plan.signature is Remote && checksum_step_ok(*plan, data@) ==> fetched is Some,
    ensures
        r is Ok <==> artifact_ok(*plan, data@, fetched),
        plan.sha256 matches Some(e) ==> (!checksum_ok(e@, data@) ==> (r matches Err(x) && x@
            == (ErrorView::ChecksumMismatch { expected: e@, actual: hex_lower(sha256(data@)) }))),
        (plan.sha256 matches Some(e) ==> checksum_ok(e@, data@)) && r is Err ==> (r matches Err(x) && x is Signature),
{
    verify_checksum(plan, data)?;
    verify_signature(plan, data, fetched)
}

/// An inline signature is always checked: with a key configured, an
/// artifact passes a plan whose signature is inline only when that
/// signature is valid for the artifact under the key.
pub proof fn lemma_inline_signature_checked(plan: VerificationPlan, data: Seq<u8>, fetched: Option<String>)
    requires
        plan.signature is Inline,
        plan.key is Some,
    ensures
        artifact_ok(plan, data, fetched) ==> signature_ok(plan.key->0@, plan.signature->Inline_0@, data),
        signature_step_ok(plan, data, fetched) ==> signature_ok(plan.key->0@, plan.signature->Inline_0@, data),
{
}

/// A fetched detached signature is always checked: an artifact passes a
/// plan whose signature is remote, given the fetched text, only when that
/// text is a valid signature of the artifact under the key.
pub proof fn lemma_detached_signature_checked(plan: VerificationPlan, data: Seq<u8>, s: String)
    requires
        plan.signature is Remote,
        plan.key is Some,
    ensures
        artifact_ok(plan, data, Some(s)) ==> signature_ok(plan.key->0@, s@, data),
        signature_step_ok(plan, data, Some(s)) ==> signature_ok(plan.key->0@, s@, data),
{
}

/// A published checksum is always compared: an artifact passes a plan with
/// a SHA-256 only when the artifact's digest matches it.
pub proof fn lemma_checksum_compared(plan: VerificationPlan, data: Seq<u8>, fetched: Option<String>)
    requires
        plan.sha256 is Some,
    ensures
        artifact_ok(plan, data, fetched) ==> checksum_ok(plan.sha256->0@, data),
        checksum_step_ok(plan, data) ==> checksum_ok(plan.sha256->0@, data),
{
}

/// The checksum comparison is a real one: the artifact's own digest, in
/// lower-case hex, always matches, and a published text matches only when
/// it has the length of that digest's hex rendering (two characters per
/// digest byte), so an empty or truncated checksum never passes.
pub proof fn lemma_checksum_is_the_digest(expected: Seq<char>, data: Seq<u8>)
    ensures
        checksum_ok(hex_lower(sha256(data)), data),
        checksum_ok(expected, data) ==> expected.len() == 2 * sha256(data).len(),
{
    lemma_hex_lower_len(sha256(data));
}

/// What is refused at check time: `Signature` and `Strict` refuse a release
/// when no key is configured or no signature is advertised, `Strict` also
/// one without a published SHA-256; nothing else is refused before a
/// download.
pub proof fn lemma_check_time_rejections(p: Verification, has_key: bool, r: Release)
    ensures
        check_rejection(p, has_key, r) is Some <==> ((p == Verification::Signature || p == Verification::Strict)
            && (!has_key || (r.signature is None && r.signature_url is None))) || (p == Verification::Strict
            && r.sha256 is None),
{
}

/// Every policy but `Off` checks the published SHA-256, and with a key
/// configured every policy but `Off` checks the published signature, the
/// inline one first: what a policy demands of a release it also checks.
pub proof fn lemma_policies_check_what_is_published(p: Verification, key: Option<String>, r: Release)
    requires
        p != Verification::Off,
    ensures
        planned_sha256(p, r) == match r.sha256 {
            Some(s) => Some(s@),
            None => None::<Seq<char>>,
        },
        key is Some && r.signature is Some ==> planned_signature(p, key, r) == SignatureSource::Inline(r.signature->0),
        key is Some && r.signature is None && r.signature_url is Some ==> planned_signature(p, key, r)
            == SignatureSource::Remote(r.signature_url->0),
{
}

/// The policy table. `BestEffort` verifies what is available and never
/// refuses a release for a missing input (an unsigned release still
/// installs); `Off` runs no check at all; `Checksum` refuses exactly the
/// releases without a SHA-256; `Signature` refuses exactly when no key is
/// configured or no signature is advertised; `Strict` refuses when either
/// requirement fails.
pub proof fn lemma_policy_table(key: Option<String>, r: Release)
    ensures
        download_rejection(Verification::BestEffort, key is Some, r) is None,
        planned_sha256(Verification::Off, r) is None,
        planned_signature(Verification::Off, key, r) is Skip,
        download_rejection(Verification::Off, key is Some, r) is None,
        download_rejection(Verification::Checksum, key is Some, r) is Some <==> r.sha256 is None,
        download_rejection(Verification::Signature, key is Some, r) is Some <==> (key is None
            || !signature_advertised(r)),
        download_rejection(Verification::Strict, key is Some, r) is Some <==> (key is None
            || !signature_advertised(r) || r.sha256 is None),
{
}

/// What `Signature` and `Strict` refuse at check time they refuse again
/// before a download is verified; the other policies refuse nothing at check
/// time.
pub proof fn lemma_check_rejection_persists(p: Verification, has_key: bool, r: Release)
    ensures
        check_rejection(p, has_key, r) is Some ==> download_rejection(p, has_key, r) == check_rejection(p, has_key, r),
        !requires_signature(p) ==> check_rejection(p, has_key, r) is None,
{
}

/// With a key configured and both an inline and a detached signature
/// published, the inline signature is the one checked; without a key no
/// signature is checked.
pub proof fn lemma_inline_signature_preferred(p: Verification, key: Option<String>, r: Release)
    requires
        p != Verification::Off,
    ensures
        key is Some && r.signature is Some ==> planned_signature(p, key, r) == SignatureSource::Inline(r.signature->0),
        key is None ==> planned_signature(p, key, r) is Skip,
{
}

/// A plan with no checksum and no signature to check passes any artifact.
pub proof fn lemma_unchecked_artifact_passes(plan: VerificationPlan, data: Seq<u8>, fetched: Option<String>)
    requires
        plan.sha256 is None,
        plan.signature is Skip,
    ensures
        artifact_ok(plan, data, fetched),
{
}

} // verus!

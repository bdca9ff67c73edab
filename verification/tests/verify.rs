use gpui_updater::verify::{
    begin_verification, check_verifiable, finish_verification, plan_verification, sha256_hex, verify_artifact, verify_minisign, verify_sha256,
    SignatureSource, Verification, VerificationPlan, VerifyStep,
};
use gpui_updater::release::release;
use gpui_updater::Error;

const ABC_SHA256: &str = "ba7816bf8f01cfea414140de5dae2223b00361a396177a9cb410ff61f20015ad";
const KEY: &str = "RWQf6LRCGA9i53mlYecO4IzT51TGPpvWucNSCh1CBM0QTaLn73Y7GFO3";
const SIG: &str = "untrusted comment: signature from minisign secret key
RUQf6LRCGA9i559r3g7V1qNyJDApGip8MfqcadIgT9CuhV3EMhHoN1mGTkUidF/z7SrlQgXdy8ofjb7bNJJylDOocrCo8KLzZwo=
trusted comment: timestamp:1556193335\tfile:test
y/rUw2y8/hOUYjZU71eHp/Wo1KZ40fGy2VJEDl34XMJM+TX48Ss/17u3IvIfbVR1FkZZSNCisQbuQY+bHwhEBg==";

#[test]
fn sha256_of_abc() {
    assert_eq!(sha256_hex(b"abc"), ABC_SHA256);
    assert_eq!(sha256_hex(b"").len(), 64);
}

#[test]
fn checksum_mismatch_reports_both_digests() {
    let err = verify_sha256(b"abc", &"deadbeef".to_string()).unwrap_err();
    assert_eq!(
        err.message(),
        "checksum mismatch: expected deadbeef, got ba7816bf8f01cfea414140de5dae2223b00361a396177a9cb410ff61f20015ad"
    );
    assert_eq!(verify_sha256(b"abc", &ABC_SHA256.to_string()), Ok(()));
    assert_eq!(verify_sha256(b"abc", &ABC_SHA256.to_uppercase()), Ok(()));
}

#[test]
fn minisign_signatures() {
    assert_eq!(verify_minisign(b"test", KEY, SIG), Ok(()));
    assert!(matches!(verify_minisign(b"Test", KEY, SIG), Err(Error::Signature(_))));
    assert!(matches!(verify_minisign(b"test", "not a key", SIG), Err(Error::Signature(_))));
    assert!(matches!(verify_minisign(b"test", KEY, "garbage"), Err(Error::Signature(_))));
}

#[test]
fn artifacts_are_checked_by_plan() {
    let plan = VerificationPlan {
        sha256: Some(ABC_SHA256.to_string()),
        key: Some(KEY.to_string()),
        signature: SignatureSource::Remote("https://example.com/sig".to_string()),
    };
    assert_eq!(verify_artifact(&plan, b"abc", Some(SIG.to_string())).map_err(|e| matches!(e, Error::Signature(_))), Err(true));
    let plan = VerificationPlan {
        sha256: None,
        key: Some(KEY.to_string()),
        signature: SignatureSource::Inline(SIG.to_string()),
    };
    assert_eq!(verify_artifact(&plan, b"test", None), Ok(()));
    let plan = VerificationPlan { sha256: Some("00".to_string()), key: None, signature: SignatureSource::Skip };
    assert!(matches!(verify_artifact(&plan, b"test", None), Err(Error::ChecksumMismatch { .. })));
    let plan = VerificationPlan { sha256: None, key: None, signature: SignatureSource::Skip };
    assert_eq!(verify_artifact(&plan, b"anything", None), Ok(()));
}

#[test]
fn policy_table() {
    let unsigned = release(2);
    let key = Some(KEY.to_string());
    // Best effort: an unsigned release still installs.
    let plan = plan_verification(Verification::BestEffort, &key, &unsigned).unwrap();
    assert_eq!(plan.sha256, None);
    assert!(matches!(plan.signature, SignatureSource::Skip));
    // Off: nothing is checked even when published.
    let mut full = release(2);
    full.sha256 = Some(ABC_SHA256.to_string());
    full.signature = Some(SIG.to_string());
    let plan = plan_verification(Verification::Off, &key, &full).unwrap();
    assert_eq!(plan.sha256, None);
    assert!(matches!(plan.signature, SignatureSource::Skip));
    // Checksum, Signature, Strict require their inputs.
    assert!(plan_verification(Verification::Checksum, &key, &unsigned).is_err());
    assert!(plan_verification(Verification::Signature, &key, &unsigned).is_err());
    assert!(plan_verification(Verification::Signature, &None, &full).is_err());
    assert!(plan_verification(Verification::Strict, &key, &full).is_ok());
    assert_eq!(check_verifiable(Verification::Checksum, &None, &unsigned), Ok(()));
    assert_eq!(
        check_verifiable(Verification::Strict, &None, &full),
        Err(Error::Unverifiable("no minisign public key is configured".to_string()))
    );
}

#[test]
fn checksum_is_checked_before_a_signature_is_fetched() {
    let url = "https://example.com/test.minisig".to_string();
    let plan = VerificationPlan {
        sha256: Some("00".to_string()),
        key: Some(KEY.to_string()),
        signature: SignatureSource::Remote(url.clone()),
    };
    assert!(matches!(begin_verification(&plan, b"test"), VerifyStep::Done(Err(Error::ChecksumMismatch { .. }))));
    let plan = VerificationPlan { sha256: None, key: Some(KEY.to_string()), signature: SignatureSource::Remote(url.clone()) };
    match begin_verification(&plan, b"test") {
        VerifyStep::FetchSignature(u) => assert_eq!(u, url),
        other => panic!("expected a signature fetch, got {other:?}"),
    }
    assert_eq!(finish_verification(&plan, b"test", Ok(SIG.to_string())), Ok(()));
    assert!(matches!(finish_verification(&plan, b"Test", Ok(SIG.to_string())), Err(Error::Signature(_))));
    assert_eq!(
        finish_verification(&plan, b"test", Err(Error::Http("offline".to_string()))),
        Err(Error::Http("offline".to_string()))
    );
    let plan = VerificationPlan { sha256: None, key: Some(KEY.to_string()), signature: SignatureSource::Inline(SIG.to_string()) };
    assert!(matches!(begin_verification(&plan, b"test"), VerifyStep::Done(Ok(()))));
}

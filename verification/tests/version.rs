use gpui_updater::release::release;
use gpui_updater::{AppVersion, Error};

#[test]
fn versions_parse_and_order_by_semver_precedence() {
    let v = AppVersion::parse("1.2.3").unwrap();
    assert_eq!(v, AppVersion::new(1, 2, 3));
    assert_eq!((v.major(), v.minor(), v.patch()), (1, 2, 3));
    assert!(AppVersion::parse("1.2").is_err());
    assert!(AppVersion::parse("1.0.01").is_err());
    let chain = ["1.0.0-alpha", "1.0.0-alpha.1", "1.0.0-alpha.beta", "1.0.0-beta", "1.0.0-beta.2", "1.0.0-beta.11", "1.0.0-rc.1", "1.0.0"];
    for w in chain.windows(2) {
        let a = AppVersion::parse(w[0]).unwrap();
        let b = AppVersion::parse(w[1]).unwrap();
        assert!(b.is_newer_than(&a), "{} > {}", w[1], w[0]);
        assert!(!a.is_newer_than(&b));
    }
    let v = AppVersion::new(2, 0, 0);
    assert!(!v.is_newer_than(&v.clone()));
    assert!(AppVersion::new(1, 10, 0).is_newer_than(&AppVersion::new(1, 9, 9)));
}

#[test]
fn release_fixture() {
    let r = release(3);
    assert_eq!(r.version, AppVersion::new(3, 0, 0));
    assert_eq!(r.notes.as_deref(), Some("fixture notes"));
    assert_eq!(r.asset.name, "update.tar.gz");
    assert_eq!(r.asset.url, "http://unused.invalid");
    assert_eq!(r.asset.size, 0);
    assert_eq!((r.signature, r.signature_url, r.sha256), (None, None, None));
}

#[test]
fn error_messages() {
    let cases = [
        (Error::Http("x".to_string()), "http error: x"),
        (Error::Parse("x".to_string()), "failed to parse release metadata: x"),
        (Error::Io("x".to_string()), "io error: x"),
        (Error::Install("x".to_string()), "install failed: x"),
        (Error::UnsupportedPlatform("x".to_string()), "unsupported platform: x"),
        (Error::ChecksumMismatch { expected: "a".to_string(), actual: "b".to_string() }, "checksum mismatch: expected a, got b"),
        (Error::Signature("x".to_string()), "signature verification failed: x"),
        (Error::Unverifiable("x".to_string()), "release cannot be verified: x"),
    ];
    for (e, m) in cases {
        assert_eq!(e.message(), m);
    }
}

#[test]
fn numbers_decide_before_pre_release_and_releases_outrank_pre_releases() {
    let rc = AppVersion::parse("2.0.0-rc.1").unwrap();
    assert!(rc.is_newer_than(&AppVersion::new(1, 99, 99)));
    assert!(AppVersion::new(2, 0, 0).is_newer_than(&rc));
    assert!(!rc.is_newer_than(&AppVersion::new(2, 0, 0)));
    let build = AppVersion::parse("2.0.0+build.5").unwrap();
    assert!(!AppVersion::new(2, 0, 1).is_newer_than(&AppVersion::new(2, 0, 1)));
    assert!(build.is_newer_than(&AppVersion::new(1, 0, 0)));
}

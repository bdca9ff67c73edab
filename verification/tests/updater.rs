use gpui_updater::release::release;
use gpui_updater::{AppVersion, Error, UpdateStatus, Updater};

#[test]
fn checks_ignore_busy_requests_and_keep_the_available_release() {
    let mut u = Updater::new();
    assert_eq!(u.status(), &UpdateStatus::Idle);
    // Nothing is available yet: an update request is ignored.
    assert!(!u.download_and_install());
    assert_eq!(u.status(), &UpdateStatus::Idle);
    assert!(u.check());
    assert_eq!(u.status(), &UpdateStatus::Checking);
    // While checking, neither a second check nor an update starts.
    assert!(!u.check());
    assert!(!u.download_and_install());
    u.finish_check(Ok(Some(release(2))));
    assert_eq!(u.status(), &UpdateStatus::Available(AppVersion::new(2, 0, 0)));
    assert_eq!(u.available().unwrap().notes.as_deref(), Some("fixture notes"));

    assert!(u.check());
    u.finish_check(Ok(None));
    assert_eq!(u.status(), &UpdateStatus::UpToDate);
    assert!(u.check());
    u.finish_check(Err(Error::Parse("broken".to_string())));
    assert_eq!(u.status(), &UpdateStatus::Errored("failed to parse release metadata: broken".to_string()));
    // Unsuccessful or no-newer checks do not clear the available release.
    assert_eq!(u.available().unwrap().version, AppVersion::new(2, 0, 0));
}

#[test]
fn updates_progress_install_and_stage() {
    let mut u = Updater::new();
    assert!(u.check());
    u.finish_check(Ok(Some(release(3))));
    assert!(u.download_and_install());
    assert_eq!(u.status(), &UpdateStatus::Downloading { downloaded: 0, total: None });
    assert!(u.status().is_busy());
    assert!(!u.check());
    assert!(!u.download_and_install());
    u.report_progress(5, Some(5));
    assert_eq!(u.status(), &UpdateStatus::Downloading { downloaded: 5, total: Some(5) });
    u.begin_install();
    assert_eq!(u.status(), &UpdateStatus::Installing);
    assert!(!u.check());
    u.finish_update(Ok(()));
    assert_eq!(u.status(), &UpdateStatus::Staged(AppVersion::new(3, 0, 0)));
    assert!(!u.status().is_busy());
}

#[test]
fn failed_verification_shows_its_message() {
    let mut u = Updater::new();
    assert!(u.check());
    u.finish_check(Ok(Some(release(2))));
    assert!(u.download_and_install());
    u.report_progress(3, None);
    u.finish_update(Err(Error::ChecksumMismatch {
        expected: "deadbeef".to_string(),
        actual: "ba7816bf8f01cfea414140de5dae2223b00361a396177a9cb410ff61f20015ad".to_string(),
    }));
    assert_eq!(
        u.status(),
        &UpdateStatus::Errored(
            "checksum mismatch: expected deadbeef, got ba7816bf8f01cfea414140de5dae2223b00361a396177a9cb410ff61f20015ad"
                .to_string()
        )
    );
    assert!(u.download_and_install());
    u.begin_install();
    u.finish_update(Err(Error::Install("tar extract failed: bad".to_string())));
    assert!(matches!(u.status(), UpdateStatus::Errored(m) if m.starts_with("install failed: tar extract failed:")));
}

#[test]
fn busy_statuses() {
    assert_eq!(UpdateStatus::default(), UpdateStatus::Idle);
    assert!(UpdateStatus::Checking.is_busy());
    assert!(UpdateStatus::Installing.is_busy());
    assert!(UpdateStatus::Downloading { downloaded: 1, total: None }.is_busy());
    assert!(!UpdateStatus::Idle.is_busy());
    assert!(!UpdateStatus::UpToDate.is_busy());
    assert!(!UpdateStatus::Available(AppVersion::new(1, 0, 0)).is_busy());
    assert!(!UpdateStatus::Staged(AppVersion::new(1, 0, 0)).is_busy());
    assert!(!UpdateStatus::Errored("x".to_string()).is_busy());
}

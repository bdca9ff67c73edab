use gpui_updater::engine::{artifact_path, check_outcome, default_download_dir};
use gpui_updater::paths::unique_temp_dir;
use gpui_updater::release::release;
use gpui_updater::verify::{SignatureSource, Verification};
use gpui_updater::{AppVersion, EngineConfig, Error, Release, UpdateEngine, UpdateSource};

struct Fixed(u64);

impl UpdateSource for Fixed {
    fn fetch_latest(&self) -> Result<Release, Error> {
        Ok(release(self.0))
    }
}

struct Broken;

impl UpdateSource for Broken {
    fn fetch_latest(&self) -> Result<Release, Error> {
        Err(Error::Parse("broken".to_string()))
    }
}

#[test]
fn config_defaults_and_builders() {
    let c = EngineConfig::new(AppVersion::new(1, 0, 0));
    assert_eq!(c.current_version, AppVersion::new(1, 0, 0));
    assert_eq!(c.minisign_public_key, None);
    assert_eq!(c.install_root, None);
    assert_eq!(c.download_dir, None);
    assert_eq!(c.verification, Verification::BestEffort);
    let c = c
        .minisign_public_key("RWQkey".to_string())
        .install_root("/opt/demo".to_string())
        .download_dir("/tmp/downloads".to_string())
        .verification(Verification::Strict);
    assert_eq!(c.minisign_public_key, Some("RWQkey".to_string()));
    assert_eq!(c.install_root, Some("/opt/demo".to_string()));
    assert_eq!(c.download_dir, Some("/tmp/downloads".to_string()));
    assert_eq!(c.verification, Verification::Strict);
    assert_eq!(Verification::default(), Verification::BestEffort);
}

#[test]
fn check_offers_only_newer_releases() {
    let engine = UpdateEngine::new(Fixed(2), EngineConfig::new(AppVersion::new(1, 0, 0)));
    assert_eq!(engine.current_version(), &AppVersion::new(1, 0, 0));
    let found = engine.check().unwrap().unwrap();
    assert_eq!(found.version, AppVersion::new(2, 0, 0));
    assert_eq!(found.notes.as_deref(), Some("fixture notes"));

    let same = UpdateEngine::new(Fixed(1), EngineConfig::new(AppVersion::new(1, 0, 0)));
    assert_eq!(same.check(), Ok(None));
    let older = UpdateEngine::new(Fixed(1), EngineConfig::new(AppVersion::new(2, 0, 0)));
    assert_eq!(older.check(), Ok(None));
}

#[test]
fn check_passes_source_errors_on() {
    let engine = UpdateEngine::new(Broken, EngineConfig::new(AppVersion::new(1, 0, 0)));
    let err = engine.check().unwrap_err();
    assert_eq!(err, Error::Parse("broken".to_string()));
    assert_eq!(err.message(), "failed to parse release metadata: broken");
}

#[test]
fn boxed_sources_drive_the_engine() {
    let boxed: Box<dyn UpdateSource> = Box::new(Fixed(3));
    let engine = UpdateEngine::new(boxed, EngineConfig::new(AppVersion::new(1, 0, 0)));
    assert_eq!(engine.check().unwrap().unwrap().version, AppVersion::new(3, 0, 0));
}

#[test]
fn strict_policies_reject_unverifiable_releases_at_check_time() {
    let config = EngineConfig::new(AppVersion::new(1, 0, 0)).verification(Verification::Signature);
    assert_eq!(
        check_outcome(&config, Ok(release(2))),
        Err(Error::Unverifiable("no minisign public key is configured".to_string()))
    );
    let config = config.minisign_public_key("RWQkey".to_string());
    assert_eq!(
        check_outcome(&config, Ok(release(2))),
        Err(Error::Unverifiable("the release publishes no minisign signature".to_string()))
    );
    let mut signed = release(2);
    signed.signature_url = Some("https://example.com/a.minisig".to_string());
    assert!(check_outcome(&config, Ok(signed)).unwrap().is_some());

    let strict = EngineConfig::new(AppVersion::new(1, 0, 0))
        .minisign_public_key("RWQkey".to_string())
        .verification(Verification::Strict);
    let mut signed = release(2);
    signed.signature = Some("sig".to_string());
    assert_eq!(
        check_outcome(&strict, Ok(signed)),
        Err(Error::Unverifiable("the release publishes no SHA-256 checksum".to_string()))
    );
    // A release that is not newer is no update, whatever the policy.
    assert_eq!(check_outcome(&strict, Ok(release(1))), Ok(None));
    // Checksum only refuses later, before verifying a download.
    let checksum = EngineConfig::new(AppVersion::new(1, 0, 0)).verification(Verification::Checksum);
    assert!(check_outcome(&checksum, Ok(release(2))).unwrap().is_some());
}

#[test]
fn verification_plans_follow_the_policy() {
    let engine = UpdateEngine::new(
        Fixed(2),
        EngineConfig::new(AppVersion::new(1, 0, 0)).verification(Verification::Checksum),
    );
    assert_eq!(
        engine.verification_plan(&release(2)).unwrap_err(),
        Error::Unverifiable("the release publishes no SHA-256 checksum".to_string())
    );
    let engine = UpdateEngine::new(
        Fixed(2),
        EngineConfig::new(AppVersion::new(1, 0, 0)).minisign_public_key("RWQkey".to_string()),
    );
    let mut r = release(2);
    r.sha256 = Some("abc".to_string());
    r.signature = Some("inline".to_string());
    r.signature_url = Some("https://example.com/sig".to_string());
    let plan = engine.verification_plan(&r).unwrap();
    assert_eq!(plan.sha256, Some("abc".to_string()));
    assert!(matches!(plan.signature, SignatureSource::Inline(ref s) if s == "inline"));
    r.signature = None;
    let plan = engine.verification_plan(&r).unwrap();
    assert!(matches!(plan.signature, SignatureSource::Remote(ref u) if u == "https://example.com/sig"));
}

#[test]
fn download_locations() {
    assert_eq!(default_download_dir("/tmp", 42, 1234567890123), "/tmp/gpui-updater-42-1234567890123");
    assert_eq!(default_download_dir("/tmp/", 0, 0), "/tmp/gpui-updater-0-0");
    assert_eq!(artifact_path("/tmp/downloads", &release(2)), "/tmp/downloads/update.tar.gz");
    assert_eq!(unique_temp_dir("/tmp", "gpui-updater-dmg", 7, 99), "/tmp/gpui-updater-dmg-7-99");
}

#[test]
fn raising_the_current_version_reveals_no_update() {
    let currents = [
        AppVersion::new(1, 0, 0),
        AppVersion::parse("1.9.9-rc.1").unwrap(),
        AppVersion::new(1, 9, 9),
        AppVersion::new(2, 0, 0),
        AppVersion::new(2, 0, 1),
    ];
    let offered: Vec<bool> = currents
        .iter()
        .map(|c| UpdateEngine::new(Fixed(2), EngineConfig::new(c.clone())).check().unwrap().is_some())
        .collect();
    assert_eq!(offered, vec![true, true, true, false, false]);
}

#[test]
fn downloads_go_to_the_configured_or_a_fresh_directory() {
    let engine = UpdateEngine::new(Fixed(2), EngineConfig::new(AppVersion::new(1, 0, 0)));
    assert_eq!(engine.download_directory("/tmp", 42, 7), "/tmp/gpui-updater-42-7");
    let config = EngineConfig::new(AppVersion::new(1, 0, 0)).download_dir("/data/dl".to_string());
    let engine = UpdateEngine::new(Fixed(2), config);
    assert_eq!(engine.download_directory("/tmp", 42, 7), "/data/dl");
}

#[test]
fn installs_go_to_the_configured_root_or_the_running_app() {
    let engine = UpdateEngine::new(Fixed(2), EngineConfig::new(AppVersion::new(1, 0, 0)));
    assert_eq!(engine.install_target(|| Ok("/opt/running".to_string())), Ok("/opt/running".to_string()));
    assert_eq!(
        engine.install_target(|| Err(Error::Io("no exe".to_string()))),
        Err(Error::Io("no exe".to_string()))
    );
    let config = EngineConfig::new(AppVersion::new(1, 0, 0)).install_root("/opt/demo".to_string());
    let engine = UpdateEngine::new(Fixed(2), config);
    let looked_up = std::cell::Cell::new(false);
    let root = engine.install_target(|| {
        looked_up.set(true);
        Ok("/opt/running".to_string())
    });
    assert_eq!(root, Ok("/opt/demo".to_string()));
    assert!(!looked_up.get());
}

use gpui_updater::install::{
    archive_installed, archive_layout, archive_swap_start, archive_swap_step, ArchiveSwap,
    bundle_root, find_app, first_file_in, mac_installed, mac_layout, mac_swap_start, mac_swap_step,
    tool_outcome, trim, windows_aside_path, windows_installed, windows_route, windows_swap_start,
    windows_swap_step, FsAction, FsEvent, MacSwap, WindowsLayout, WindowsRoute, WindowsSwap,
};
use gpui_updater::Error;

#[test]
fn finds_enclosing_app_bundle() {
    let exe = "/Applications/OpenLogi.app/Contents/MacOS/openlogi-gui";
    assert_eq!(bundle_root(exe), Some("/Applications/OpenLogi.app".to_string()));
}

#[test]
fn returns_none_when_not_in_a_bundle() {
    assert_eq!(bundle_root("/usr/local/bin/tool"), None);
}

#[test]
fn bundle_root_accepts_the_bundle_itself() {
    assert_eq!(bundle_root("/Applications/A.app"), Some("/Applications/A.app".to_string()));
}

#[test]
fn find_app_takes_the_first_bundle_in_listing_order() {
    let entries = vec![
        "/mnt/.background".to_string(),
        "/mnt/Applications".to_string(),
        "/mnt/First.app".to_string(),
        "/mnt/Second.app".to_string(),
    ];
    assert_eq!(find_app(&entries), Ok("/mnt/First.app".to_string()));
}

#[test]
fn find_app_without_bundle_is_an_install_error() {
    let entries = vec!["/mnt/readme.txt".to_string()];
    let err = find_app(&entries).unwrap_err();
    assert_eq!(err, Error::Install("no .app found in the mounted disk image".to_string()));
    assert_eq!(err.message(), "install failed: no .app found in the mounted disk image");
}

#[test]
fn first_file_in_skips_directories_and_unreadable_dirs() {
    let listing = vec![
        ("/b/Contents/MacOS/helpers".to_string(), false),
        ("/b/Contents/MacOS/app".to_string(), true),
        ("/b/Contents/MacOS/other".to_string(), true),
    ];
    assert_eq!(first_file_in(Some(listing)), Some("/b/Contents/MacOS/app".to_string()));
    assert_eq!(first_file_in(None), None);
    assert_eq!(first_file_in(Some(vec![("/x".to_string(), false)])), None);
    assert_eq!(mac_installed(None).restart_binary, None);
}

#[test]
fn trim_and_tool_outcome() {
    assert_eq!(trim("  \n hdiutil: attach failed \t\n"), "hdiutil: attach failed");
    assert_eq!(trim(" \t "), "");
    assert_eq!(tool_outcome("ditto", true, "noise"), Ok(()));
    assert_eq!(
        tool_outcome("hdiutil attach", false, "  no such file\n"),
        Err(Error::Install("hdiutil attach failed: no such file".to_string()))
    );
}

#[test]
fn mac_layout_names_siblings_next_to_the_bundle() {
    let l = mac_layout("/Applications/OpenLogi.app").unwrap();
    assert_eq!(l.parent, "/Applications");
    assert_eq!(l.name, "OpenLogi.app");
    assert_eq!(l.staging, "/Applications/.OpenLogi.app.new");
    assert_eq!(l.backup, "/Applications/.OpenLogi.app.old");
    assert_eq!(
        mac_layout("/").err(),
        Some(Error::Install("install root has no parent directory".to_string()))
    );
    assert_eq!(
        mac_layout("/Applications/..").err(),
        Some(Error::Install("install root has no file name".to_string()))
    );
}

fn done() -> FsEvent {
    FsEvent::Done(Ok(()))
}

#[test]
fn mac_swap_exchanges_in_one_step() {
    let l = mac_layout("/Applications/A.app").unwrap();
    let (s, a) = mac_swap_start(&l);
    assert!(matches!(a, FsAction::RemoveDirAll(ref p) if p == "/Applications/.A.app.new"));
    let (s, a) = mac_swap_step(&l, "/mnt/A.app", s, done());
    assert!(matches!(a, FsAction::Ditto { ref from, ref to } if from == "/mnt/A.app" && to == "/Applications/.A.app.new"));
    let (s, a) = mac_swap_step(&l, "/mnt/A.app", s, FsEvent::Tool(Ok(())));
    assert!(matches!(a, FsAction::Exists(ref p) if p == "/Applications/A.app"));
    let (s, a) = mac_swap_step(&l, "/mnt/A.app", s, FsEvent::Present(true));
    assert!(matches!(a, FsAction::Exchange { ref first, ref second } if first == "/Applications/.A.app.new" && second == "/Applications/A.app"));
    let (s, a) = mac_swap_step(&l, "/mnt/A.app", s, done());
    assert!(matches!(a, FsAction::RemoveDirAll(ref p) if p == "/Applications/.A.app.new"));
    let (s, a) = mac_swap_step(&l, "/mnt/A.app", s, done());
    assert!(matches!(a, FsAction::RemoveDirAll(ref p) if p == "/Applications/.A.app.old"));
    let (s, a) = mac_swap_step(&l, "/mnt/A.app", s, done());
    assert!(matches!(s, MacSwap::Finished { tidy: true }));
    assert!(matches!(a, FsAction::Finish(Ok(()))));
}

#[test]
fn mac_swap_succeeds_even_when_clean_up_fails() {
    let l = mac_layout("/Applications/A.app").unwrap();
    let (s, _) = mac_swap_start(&l);
    let (s, _) = mac_swap_step(&l, "/mnt/A.app", s, done());
    let (s, _) = mac_swap_step(&l, "/mnt/A.app", s, FsEvent::Tool(Ok(())));
    let (s, _) = mac_swap_step(&l, "/mnt/A.app", s, FsEvent::Present(true));
    let (s, _) = mac_swap_step(&l, "/mnt/A.app", s, done());
    let (s, a) = mac_swap_step(&l, "/mnt/A.app", s, FsEvent::Done(Err("busy".to_string())));
    assert!(matches!(a, FsAction::RemoveDirAll(ref p) if p == "/Applications/.A.app.old"));
    let (s, a) = mac_swap_step(&l, "/mnt/A.app", s, done());
    assert!(matches!(s, MacSwap::Finished { tidy: false }));
    assert!(matches!(a, FsAction::Finish(Ok(()))));
}

#[test]
fn mac_swap_moves_in_when_nothing_is_installed() {
    let l = mac_layout("/Applications/A.app").unwrap();
    let (s, _) = mac_swap_start(&l);
    let (s, _) = mac_swap_step(&l, "/mnt/A.app", s, done());
    let (s, _) = mac_swap_step(&l, "/mnt/A.app", s, FsEvent::Tool(Ok(())));
    let (s, a) = mac_swap_step(&l, "/mnt/A.app", s, FsEvent::Present(false));
    assert!(matches!(a, FsAction::Rename { ref from, ref to } if from == "/Applications/.A.app.new" && to == "/Applications/A.app"));
    let (s, a) = mac_swap_step(&l, "/mnt/A.app", s, done());
    assert!(matches!(a, FsAction::RemoveDirAll(ref p) if p == "/Applications/.A.app.old"));
    let (s, a) = mac_swap_step(&l, "/mnt/A.app", s, done());
    assert!(matches!(s, MacSwap::Finished { tidy: true }));
    assert!(matches!(a, FsAction::Finish(Ok(()))));
}

#[test]
fn mac_swap_leaves_the_root_alone_when_the_exchange_fails() {
    let l = mac_layout("/Applications/A.app").unwrap();
    let (s, _) = mac_swap_start(&l);
    let (s, _) = mac_swap_step(&l, "/mnt/A.app", s, done());
    let (s, _) = mac_swap_step(&l, "/mnt/A.app", s, FsEvent::Tool(Ok(())));
    let (s, _) = mac_swap_step(&l, "/mnt/A.app", s, FsEvent::Present(true));
    let (s, a) = mac_swap_step(&l, "/mnt/A.app", s, FsEvent::Done(Err("Permission denied".to_string())));
    assert!(matches!(a, FsAction::RemoveDirAll(ref p) if p == "/Applications/.A.app.new"));
    let (_, a) = mac_swap_step(&l, "/mnt/A.app", s, done());
    match a {
        FsAction::Finish(Err(e)) => {
            assert_eq!(e, Error::Install("could not move new app into place: Permission denied".to_string()));
        }
        other => panic!("unexpected {:?}", other),
    }
}

#[test]
fn mac_swap_stops_when_the_copy_fails() {
    let l = mac_layout("/Applications/A.app").unwrap();
    let (s, _) = mac_swap_start(&l);
    let (s, _) = mac_swap_step(&l, "/mnt/A.app", s, done());
    let (_, a) = mac_swap_step(&l, "/mnt/A.app", s, FsEvent::Tool(Err(Error::Install("ditto failed: x".to_string()))));
    assert!(matches!(a, FsAction::Finish(Err(Error::Install(ref m))) if m == "ditto failed: x"));
}

#[test]
fn windows_stages_an_msi_for_the_installer_handoff() {
    match windows_route("C:/Temp/demo-2.0.MSI", "C:/Apps/demo.exe") {
        Ok(WindowsRoute::StageInstaller(i)) => {
            assert_eq!(i.restart_binary, Some("C:/Apps/demo.exe".to_string()));
            let expected: Vec<String> = ["msiexec", "/i", "C:/Temp/demo-2.0.MSI", "/passive", "/norestart"]
                .iter()
                .map(|s| s.to_string())
                .collect();
            assert_eq!(i.apply_on_exit, Some(expected));
        }
        other => panic!("expected a staged installer, got {:?}", other.map(|_| ())),
    }
    // An installer-shipped app need not be a bare executable.
    assert!(matches!(windows_route("C:/Temp/demo.msi", "C:/Program Files/Demo"), Ok(WindowsRoute::StageInstaller(_))));
}

#[test]
fn windows_replaces_a_bare_exe_and_refuses_the_rest() {
    match windows_route("C:/Temp/demo.exe", "C:/Apps/demo.exe") {
        Ok(WindowsRoute::Replace(l)) => {
            assert_eq!(l.install_root, "C:/Apps/demo.exe");
            assert_eq!(l.aside, "C:/Apps/demo.old.exe");
            assert_eq!(l.new_exe, "C:/Temp/demo.exe");
        }
        other => panic!("expected a replacement, got {:?}", other.map(|_| ())),
    }
    assert!(matches!(
        windows_route("C:/Temp/demo.zip", "C:/Program Files/Demo"),
        Err(Error::UnsupportedPlatform(ref m)) if m == "windows installer-based update"
    ));
    assert_eq!(windows_installed(&WindowsLayout {
        install_root: "C:/Apps/demo.exe".to_string(),
        aside: "C:/Apps/demo.old.exe".to_string(),
        new_exe: "C:/Temp/demo.exe".to_string(),
    }).apply_on_exit, None);
}

#[test]
fn windows_accepts_only_bare_executables() {
    assert_eq!(windows_aside_path("C:/Apps/demo.exe"), Ok("C:/Apps/demo.old.exe".to_string()));
    assert_eq!(windows_aside_path("C:/Apps/DEMO.EXE"), Ok("C:/Apps/DEMO.old.exe".to_string()));
    assert_eq!(
        windows_aside_path("C:/Apps/demo.msi"),
        Err(Error::UnsupportedPlatform("windows installer-based update".to_string()))
    );
    assert_eq!(
        windows_aside_path("C:/Apps/demo"),
        Err(Error::UnsupportedPlatform("windows installer-based update".to_string()))
    );
}

#[test]
fn windows_swap_paths() {
    let l = WindowsLayout {
        install_root: "C:/Apps/demo.exe".to_string(),
        aside: "C:/Apps/demo.old.exe".to_string(),
        new_exe: "C:/Temp/demo.exe".to_string(),
    };
    let (s, a) = windows_swap_start(&l);
    assert!(matches!(a, FsAction::RemoveFile(ref p) if p == "C:/Apps/demo.old.exe"));
    let (s, a) = windows_swap_step(&l, s, done());
    assert!(matches!(a, FsAction::Exists(ref p) if p == "C:/Apps/demo.exe"));
    let (s, a) = windows_swap_step(&l, s, FsEvent::Present(true));
    assert!(matches!(a, FsAction::Rename { ref from, ref to } if from == "C:/Apps/demo.exe" && to == "C:/Apps/demo.old.exe"));
    let (s, a) = windows_swap_step(&l, s, done());
    assert!(matches!(a, FsAction::Copy { ref from, ref to } if from == "C:/Temp/demo.exe" && to == "C:/Apps/demo.exe"));
    let (s2, a) = windows_swap_step(&l, s, FsEvent::Done(Err("in use".to_string())));
    assert!(matches!(a, FsAction::Exists(ref p) if p == "C:/Apps/demo.old.exe"));
    let (s3, a) = windows_swap_step(&l, s2, FsEvent::Present(true));
    assert!(matches!(a, FsAction::Rename { ref from, ref to } if from == "C:/Apps/demo.old.exe" && to == "C:/Apps/demo.exe"));
    let (s4, a) = windows_swap_step(&l, s3, done());
    assert!(matches!(s4, WindowsSwap::Finished));
    assert!(matches!(a, FsAction::Finish(Err(Error::Install(ref m))) if m == "could not place new exe: in use"));
    assert_eq!(windows_installed(&l).restart_binary, Some("C:/Apps/demo.exe".to_string()));
}

#[test]
fn windows_swap_reports_rename_failure() {
    let l = WindowsLayout {
        install_root: "C:/Apps/demo.exe".to_string(),
        aside: "C:/Apps/demo.old.exe".to_string(),
        new_exe: "C:/Temp/demo.exe".to_string(),
    };
    let (s, _) = windows_swap_start(&l);
    let (s, _) = windows_swap_step(&l, s, done());
    let (s, _) = windows_swap_step(&l, s, FsEvent::Present(true));
    let (_, a) = windows_swap_step(&l, s, FsEvent::Done(Err("denied".to_string())));
    assert!(matches!(a, FsAction::Finish(Err(Error::Install(ref m))) if m == "could not rename running exe: denied"));
}

#[test]
fn archive_install_renames_the_extracted_binary_over_the_root() {
    let l = archive_layout("/tmp/dl/update.tar.gz", "/tmp/x", "/opt/demo/demo");
    assert_eq!(l.incoming, "/opt/demo/demo.new");
    let (s, a) = archive_swap_start(&l);
    assert!(matches!(a, FsAction::ExtractTarGz { ref archive, ref into } if archive == "/tmp/dl/update.tar.gz" && into == "/tmp/x"));
    let (s, a) = archive_swap_step(&l, s, FsEvent::Tool(Ok(())));
    assert!(matches!(a, FsAction::ListFiles(ref d) if d == "/tmp/x"));
    let listing = vec![("/tmp/x/docs".to_string(), false), ("/tmp/x/demo".to_string(), true)];
    let (s, a) = archive_swap_step(&l, s, FsEvent::Listing(Some(listing)));
    assert!(matches!(a, FsAction::Copy { ref from, ref to } if from == "/tmp/x/demo" && to == "/opt/demo/demo.new"));
    let (s, a) = archive_swap_step(&l, s, done());
    assert!(matches!(a, FsAction::Rename { ref from, ref to } if from == "/opt/demo/demo.new" && to == "/opt/demo/demo"));
    let (s, a) = archive_swap_step(&l, s, done());
    assert!(matches!(a, FsAction::RemoveDirAll(ref d) if d == "/tmp/x"));
    let (s, a) = archive_swap_step(&l, s, FsEvent::Done(Err("busy".to_string())));
    assert!(matches!(s, ArchiveSwap::Finished));
    assert!(matches!(a, FsAction::Finish(Ok(()))));
    let i = archive_installed(&l);
    assert_eq!(i.restart_binary, Some("/opt/demo/demo".to_string()));
    assert_eq!(i.apply_on_exit, None);
}

#[test]
fn archive_install_failures_clean_up_and_report() {
    let l = archive_layout("/tmp/dl/update.tar.gz", "/tmp/x", "/opt/demo/demo");
    let (s, _) = archive_swap_start(&l);
    let (s, a) = archive_swap_step(&l, s, FsEvent::Tool(Err(Error::Install("tar extract failed: not a tarball".to_string()))));
    assert!(matches!(a, FsAction::RemoveDirAll(ref d) if d == "/tmp/x"));
    let (_, a) = archive_swap_step(&l, s, done());
    assert!(matches!(a, FsAction::Finish(Err(ref e)) if e.message() == "install failed: tar extract failed: not a tarball"));

    let (s, _) = archive_swap_start(&l);
    let (s, _) = archive_swap_step(&l, s, FsEvent::Tool(Ok(())));
    let (s, _) = archive_swap_step(&l, s, FsEvent::Listing(Some(vec![("/tmp/x/lib".to_string(), false)])));
    let (_, a) = archive_swap_step(&l, s, done());
    assert!(matches!(a, FsAction::Finish(Err(Error::Install(ref m))) if m == "no file found in the archive"));

    let (s, _) = archive_swap_start(&l);
    let (s, _) = archive_swap_step(&l, s, FsEvent::Tool(Ok(())));
    let (s, _) = archive_swap_step(&l, s, FsEvent::Listing(Some(vec![("/tmp/x/demo".to_string(), true)])));
    let (s, _) = archive_swap_step(&l, s, done());
    let (s, _) = archive_swap_step(&l, s, FsEvent::Done(Err("read-only file system".to_string())));
    let (_, a) = archive_swap_step(&l, s, done());
    assert!(matches!(a, FsAction::Finish(Err(Error::Io(ref m))) if m == "read-only file system"));
}

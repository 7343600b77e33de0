use launcher::launcher::{InstallAction, InstallEvent, InstallState, Launcher};
use launcher::release::{FetchError, VersionInfo};

#[test]
fn new_launcher_is_loading() {
    let l = Launcher::new();
    assert_eq!(l.current_version, "loading...");
    assert_eq!(l.latest_version, "loading...");
    assert_eq!(l.path, "E:\\Games\\Launcher");
    assert_eq!(l.install, InstallState::Idle);
    assert!(!l.update_available());
    let d = Launcher::default();
    assert_eq!(d.path, l.path);
    assert_eq!(d.release_notes, "");
}

#[test]
fn fetched_release_offers_update() {
    let mut l = Launcher::new();
    l.apply_fetch(Ok(VersionInfo { version: "v1.8.2".to_string(), release_notes: "new".to_string() }));
    assert_eq!(l.latest_version, "v1.8.2");
    assert_eq!(l.release_notes, "new");
    assert!(l.update_available());
}

#[test]
fn fetch_error_is_shown_in_place() {
    let mut l = Launcher::new();
    l.apply_fetch(Err(FetchError::ApiStatus("503 Service Unavailable".to_string())));
    assert_eq!(l.latest_version, "API Error");
    assert_eq!(l.release_notes, "API returned status: 503 Service Unavailable");
}

#[test]
fn set_path_replaces_path() {
    let mut l = Launcher::new();
    l.set_path("/games".to_string());
    assert_eq!(l.path, "/games");
}

#[test]
fn install_runs_through_its_steps() {
    let mut l = Launcher::new();
    assert_eq!(l.on_install_event(InstallEvent::Requested), InstallAction::Download);
    assert_eq!(l.install, InstallState::Downloading);
    assert_eq!(l.on_install_event(InstallEvent::Downloaded), InstallAction::WriteArchive);
    assert_eq!(l.on_install_event(InstallEvent::ArchiveWritten), InstallAction::Extract);
    assert_eq!(l.on_install_event(InstallEvent::Extracted), InstallAction::RemoveArchive);
    assert_eq!(l.on_install_event(InstallEvent::ArchiveRemoved), InstallAction::Nothing);
    assert_eq!(l.install, InstallState::Done);
    assert_eq!(l.on_install_event(InstallEvent::Requested), InstallAction::Download);
}

#[test]
fn second_request_during_install_is_ignored() {
    let mut l = Launcher::new();
    l.on_install_event(InstallEvent::Requested);
    l.on_install_event(InstallEvent::Downloaded);
    assert_eq!(l.on_install_event(InstallEvent::Requested), InstallAction::Nothing);
    assert_eq!(l.install, InstallState::WritingArchive);
    assert!(l.install.in_progress());
}

#[test]
fn failure_aborts_running_install() {
    let mut l = Launcher::new();
    assert_eq!(l.on_install_event(InstallEvent::Failed), InstallAction::Nothing);
    assert_eq!(l.install, InstallState::Idle);
    l.on_install_event(InstallEvent::Requested);
    assert_eq!(l.on_install_event(InstallEvent::Failed), InstallAction::Nothing);
    assert_eq!(l.install, InstallState::Aborted);
    assert!(!l.install.in_progress());
    assert_eq!(l.on_install_event(InstallEvent::Requested), InstallAction::Download);
}

#[test]
fn out_of_order_event_changes_nothing() {
    let mut l = Launcher::new();
    assert_eq!(l.on_install_event(InstallEvent::Extracted), InstallAction::Nothing);
    assert_eq!(l.install, InstallState::Idle);
}

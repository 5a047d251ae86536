use peterfan::app_update::{update_check_step, update_install_step, UpdateState};

#[test]
fn same_or_older_release_is_current() {
    let (state, message, go) = update_check_step(true, "1.4.0", Ok(("1.4.0", true)));
    assert_eq!(state, UpdateState::Current);
    assert_eq!(message, "PeterFan v1.4.0 is current.");
    assert!(!go);
    assert_eq!(update_check_step(false, "1.4.0", Ok(("1.3.9", true))).0, UpdateState::Current);
}

#[test]
fn newer_release_without_verified_files_is_only_available() {
    let (state, message, go) = update_check_step(true, "1.4.0", Ok(("1.5.0", false)));
    assert_eq!(state, UpdateState::Available);
    assert_eq!(message, "PeterFan v1.5.0 is available, but its verified files are not ready.");
    assert!(!go);
}

#[test]
fn check_without_install_stops_at_available() {
    let (state, message, go) = update_check_step(false, "1.4.0", Ok(("1.5.0", true)));
    assert_eq!(state, UpdateState::Available);
    assert_eq!(message, "PeterFan v1.5.0 is available. Choose Install Update to continue.");
    assert!(!go);
}

#[test]
fn install_request_downloads_a_newer_release() {
    let (state, message, go) = update_check_step(true, "1.4.0", Ok(("1.10.0", true)));
    assert_eq!(state, UpdateState::Downloading);
    assert_eq!(message, "Downloading and verifying PeterFan v1.10.0.");
    assert!(go);
}

#[test]
fn failed_check_is_reported() {
    let (state, message, go) = update_check_step(true, "1.4.0", Err("offline"));
    assert_eq!(state, UpdateState::Failed);
    assert_eq!(message, "Couldn't check for updates: offline");
    assert!(!go);
}

#[test]
fn verified_install_queues_and_quits() {
    let (state, message, quit) = update_install_step("1.5.0", Ok(()));
    assert_eq!(state, UpdateState::Queued);
    assert_eq!(message, "PeterFan v1.5.0 is verified and ready to relaunch.");
    assert!(quit);
    let (state, message, quit) = update_install_step("1.5.0", Err("checksum mismatch"));
    assert_eq!(state, UpdateState::Failed);
    assert_eq!(message, "Update failed: checksum mismatch");
    assert!(!quit);
}

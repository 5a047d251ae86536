use peterfan::install::{
    install_already_done, self_reinstall_after_reply, self_reinstall_start, InstallOutcome,
    SelfReinstallStep, APP_BUNDLE_DAEMON_BIN,
};
use peterfan::smc::{auto_writes, forced_writes, SmcWrite};

fn w(key: &[u8; 4], bytes: &[u8]) -> SmcWrite {
    SmcWrite { key: u32::from_be_bytes(*key), bytes: bytes.to_vec() }
}

#[test]
fn auto_clears_the_force_bit_then_sets_mode_zero() {
    assert_eq!(
        auto_writes(1, Some([0x00, 0x03])),
        vec![w(b"FS! ", &[0x00, 0x01]), w(b"F1Md", &[0])]
    );
    assert_eq!(auto_writes(0, None), vec![w(b"F0Md", &[0])]);
}

#[test]
fn forcing_sets_the_bit_then_mode_then_target() {
    let target = 1800.0f32.to_ne_bytes();
    assert_eq!(
        forced_writes(9, Some([0x00, 0x01]), target),
        vec![w(b"FS! ", &[0x02, 0x01]), w(b"F9Md", &[1]), w(b"F9Tg", &target)]
    );
    assert_eq!(forced_writes(2, None, target), vec![w(b"F2Md", &[1]), w(b"F2Tg", &target)]);
}

#[test]
fn self_reinstall_refuses_other_binaries_and_reports_dry_runs() {
    match self_reinstall_start(Ok("/usr/local/bin/peterfand"), false) {
        SelfReinstallStep::Finish(Err(e)) => {
            assert_eq!(e, format!("daemon self-reinstall only works from {APP_BUNDLE_DAEMON_BIN}"))
        }
        other => panic!("unexpected {other:?}"),
    }
    match self_reinstall_start(Ok(APP_BUNDLE_DAEMON_BIN), true) {
        SelfReinstallStep::Finish(Ok(InstallOutcome::DryRun(c))) => {
            assert_eq!(c, format!("reinstall-fan-control {APP_BUNDLE_DAEMON_BIN}"))
        }
        other => panic!("unexpected {other:?}"),
    }
    match self_reinstall_start(Ok(APP_BUNDLE_DAEMON_BIN), false) {
        SelfReinstallStep::Send(c) => assert_eq!(c, format!("reinstall-fan-control {APP_BUNDLE_DAEMON_BIN}")),
        other => panic!("unexpected {other:?}"),
    }
    match self_reinstall_start(Err("peterfand not found"), false) {
        SelfReinstallStep::Finish(Err(e)) => assert_eq!(e, "peterfand not found"),
        other => panic!("unexpected {other:?}"),
    }
}

#[test]
fn self_reinstall_reply_decides_whether_to_wait() {
    assert!(matches!(self_reinstall_after_reply(Some("ok reinstalling")), SelfReinstallStep::AwaitDaemon(true)));
    assert!(matches!(self_reinstall_after_reply(None), SelfReinstallStep::AwaitDaemon(false)));
    match self_reinstall_after_reply(Some("error: bad signature")) {
        SelfReinstallStep::Finish(Err(e)) => assert_eq!(e, "error: bad signature"),
        other => panic!("unexpected {other:?}"),
    }
}

#[test]
fn install_is_skipped_only_for_a_healthy_daemon() {
    assert!(install_already_done(false, Some("9.0.0"), true));
    assert!(!install_already_done(true, Some("9.0.0"), true));
    assert!(!install_already_done(false, Some("9.0.0"), false));
    assert!(!install_already_done(false, Some("0.1.0"), true));
    assert!(!install_already_done(false, None, true));
}

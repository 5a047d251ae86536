use peterfan::install::{privileged_plan, uninstall_dry_run, PrivilegedRun};
use peterfan::install::{
    applescript_quote, daemon_plist, dry_run_report, error_detail_of, install_outcome,
    install_script, privileged_error_message, privileged_run_result, privileged_script_command,
    reinstall_via_running_daemon, self_reinstall_command, self_reinstall_outcome,
    self_reinstall_reply, uninstall, uninstall_script, InstallOutcome, APP_BUNDLE_DAEMON_BIN,
    DAEMON_LABEL,
};
use peterfan::setup::{
    first_run_choice, install_action_labels, install_result_message, plan_precondition,
    silent_update_message, stale_daemon_choice, stale_daemon_dialog, stale_daemon_dialog_script,
    stale_prompt_snoozed_until, update_available_texts, DialogChoice,
};
use peterfan::daemon::FanControlInstallPlan;
use peterfan::settings::ResolvedLanguage;

#[test]
fn privileged_errors_distinguish_cancellation_from_script_failure() {
    assert_eq!(
        privileged_error_message(Some(1), "execution error: User canceled. (-128)\n"),
        "Administrator approval was cancelled. Fan control was not changed."
    );
    assert_eq!(
        privileged_error_message(Some(1), "execution error: launchctl bootstrap failed: 5 (1)\n"),
        "Fan control installation failed: execution error: launchctl bootstrap failed: 5 (1)"
    );
    assert_eq!(
        privileged_error_message(Some(1), ""),
        "Administrator approval failed before the installer could run. Fan control was not changed."
    );
}

#[test]
fn privileged_errors_use_the_last_non_blank_line_and_need_status_one_to_cancel() {
    assert_eq!(error_detail_of("first\n  second  \n\n   \n"), "second");
    assert_eq!(error_detail_of("a\r\nb\r\n"), "b");
    assert_eq!(
        privileged_error_message(Some(2), "User cancelled\n"),
        "Fan control installation failed: User cancelled"
    );
    assert_eq!(
        privileged_error_message(None, "USER CANCELED\n"),
        "Fan control installation failed: USER CANCELED"
    );
    assert_eq!(
        privileged_error_message(Some(1), "noise\nUser Cancelled.\n"),
        "Administrator approval was cancelled. Fan control was not changed."
    );
}

#[test]
fn launch_daemon_restarts_after_crash_and_boot() {
    let plist = daemon_plist();
    assert!(plist.contains("<key>RunAtLoad</key><true/>"));
    assert!(plist.contains("<key>KeepAlive</key><true/>"));
    assert!(plist.contains(&format!("<key>Label</key><string>{DAEMON_LABEL}</string>")));
    assert!(plist.starts_with("<?xml version=\"1.0\" encoding=\"UTF-8\"?>\n"));
    assert!(plist.ends_with("</plist>\n"));
}

#[test]
fn uninstall_script_removes_both_labels_binary_and_log_rotation() {
    let script = uninstall_script();
    assert_eq!(
        script,
        "launchctl bootout system '/Library/LaunchDaemons/kr.co.uulab.peterfan.daemon.plist' 2>/dev/null || true\n\
launchctl bootout system '/Library/LaunchDaemons/com.uulab.peterfan.daemon.plist' 2>/dev/null || true\n\
rm -f '/Library/LaunchDaemons/kr.co.uulab.peterfan.daemon.plist' '/Library/LaunchDaemons/com.uulab.peterfan.daemon.plist' /usr/local/bin/peterfand\n\
rm -f /etc/newsyslog.d/peterfand.conf\n"
    );
}

#[test]
fn install_script_stages_the_binary_and_embeds_the_plist() {
    let script = install_script("/tmp/peterfand-install-42");
    assert!(script.starts_with("set -e\n/bin/launchctl bootout 'system/com.uulab.peterfan.daemon'"));
    assert!(script.contains("/usr/bin/install -m 755 '/tmp/peterfand-install-42' /usr/local/bin/peterfand\n"));
    assert!(script.contains("/bin/rm -f '/tmp/peterfand-install-42'\n"));
    assert!(script.contains(&format!("<<'PLIST'\n{}PLIST\n", daemon_plist())));
    assert!(script.ends_with("/bin/chmod 644 /etc/newsyslog.d/peterfand.conf\n"));
}

#[test]
fn uninstall_reports_dry_runs_and_errors() {
    assert_eq!(
        uninstall(true, Ok("report".to_string())),
        Ok(InstallOutcome::DryRun("report".to_string()))
    );
    assert_eq!(uninstall(false, Ok(String::new())), Ok(InstallOutcome::Installed));
    assert_eq!(uninstall(false, Err("cancelled".to_string())), Err("cancelled".to_string()));
    assert_eq!(install_outcome(false, Ok(String::new()), false), Ok(InstallOutcome::InstalledButUnreachable));
    assert_eq!(install_outcome(false, Ok(String::new()), true), Ok(InstallOutcome::Installed));
}

#[test]
fn privileged_runs_refuse_quoted_paths() {
    assert_eq!(
        privileged_script_command("/tmp/a.sh"),
        Ok("do shell script \"/bin/bash '/tmp/a.sh'\" with administrator privileges".to_string())
    );
    assert_eq!(
        privileged_script_command("/tmp/o'brien.sh"),
        Err("temp path contains a quote; aborting".to_string())
    );
    assert_eq!(dry_run_report("/p", "S", "C"), "--- script (/p) ---\nS\n--- osascript ---\nC");
    assert_eq!(privileged_run_result(true, Some(0), "ignored"), Ok(String::new()));
    assert!(privileged_run_result(false, Some(1), "").is_err());
}

#[test]
fn applescript_strings_escape_quotes_and_backslashes() {
    assert_eq!(applescript_quote(r#"say "hi" \ bye"#), r#""say \"hi\" \\ bye""#);
    assert_eq!(applescript_quote(""), "\"\"");
}

#[test]
fn self_reinstall_needs_the_bundled_binary_and_an_ok_reply() {
    assert_eq!(
        reinstall_via_running_daemon(false),
        Err("daemon self-reinstall is only available on macOS".to_string())
    );
    assert_eq!(
        self_reinstall_command(APP_BUNDLE_DAEMON_BIN),
        Ok(format!("reinstall-fan-control {APP_BUNDLE_DAEMON_BIN}"))
    );
    assert_eq!(
        self_reinstall_command("/usr/local/bin/peterfand"),
        Err(format!("daemon self-reinstall only works from {APP_BUNDLE_DAEMON_BIN}"))
    );
    assert_eq!(self_reinstall_reply(Some("ok reinstalling")), Ok(()));
    assert_eq!(self_reinstall_reply(Some("error: unknown command")), Err("error: unknown command".to_string()));
    assert_eq!(self_reinstall_reply(None), Ok(()));
    assert_eq!(self_reinstall_outcome(true, false), Ok(InstallOutcome::Installed));
    assert_eq!(self_reinstall_outcome(false, true), Ok(InstallOutcome::InstalledButUnreachable));
    assert_eq!(
        self_reinstall_outcome(false, false),
        Err("fan-control daemon did not acknowledge or complete its update".to_string())
    );
}

#[test]
fn setup_outcomes_are_reported_per_plan() {
    assert_eq!(
        install_result_message(FanControlInstallPlan::AlreadyReady, Ok(InstallOutcome::Installed), Some("1.27.29"), "1.27.30"),
        (true, "Fan control is already enabled — daemon v1.27.29 is ready.".to_string())
    );
    assert_eq!(
        install_result_message(FanControlInstallPlan::SelfReinstall, Ok(InstallOutcome::Installed), Some("1.27.1"), "1.27.30"),
        (true, "Fan control reinstalled — daemon is now v1.27.30.".to_string())
    );
    assert_eq!(
        install_result_message(FanControlInstallPlan::PrivilegedInstall, Ok(InstallOutcome::Installed), None, "1.27.30"),
        (true, "Fan control enabled — the daemon is running.".to_string())
    );
    assert!(!install_result_message(FanControlInstallPlan::PrivilegedInstall, Ok(InstallOutcome::InstalledButUnreachable), None, "x").0);
    assert_eq!(
        install_result_message(FanControlInstallPlan::PrivilegedInstall, Err("cancelled".to_string()), None, "x"),
        (false, "cancelled".to_string())
    );
    assert!(plan_precondition(FanControlInstallPlan::InstalledButUnavailable).is_some());
    assert!(plan_precondition(FanControlInstallPlan::SelfReinstall).is_none());
    assert_eq!(install_action_labels(FanControlInstallPlan::PrivilegedInstall, true), ("reinstall fan control", "Reinstall Fan Control"));
    assert_eq!(install_action_labels(FanControlInstallPlan::PrivilegedInstall, false), ("enable fan control", "Enable Fan Control"));
    assert_eq!(install_action_labels(FanControlInstallPlan::InstalledButUnavailable, false), ("check fan control", "Fan Control"));
    assert_eq!(
        silent_update_message(Err("timeout".to_string()), "x"),
        (false, "Silent fan-control update failed: timeout".to_string())
    );
    assert_eq!(silent_update_message(Ok(InstallOutcome::Installed), "1.27.30").1, "Fan control updated silently to v1.27.30.");
}

#[test]
fn setup_dialog_answers_are_read_from_osascript_output() {
    assert_eq!(first_run_choice("button returned:Set Up Now\n"), DialogChoice::Proceed);
    assert_eq!(first_run_choice("button returned:Don't Ask Again\n"), DialogChoice::DontAskAgain);
    assert_eq!(first_run_choice(""), DialogChoice::Nothing);
    let d = stale_daemon_dialog(ResolvedLanguage::En, "1.26.8");
    assert!(d.message.starts_with("The fan-control daemon installed on this Mac is v1.26.8. This PeterFan app requires fan-control daemon v1.27.29 or newer."));
    assert_eq!(stale_daemon_choice(&d, "button returned:Reinstall Fan Control"), DialogChoice::Proceed);
    assert_eq!(stale_daemon_choice(&d, "button returned:Not Now"), DialogChoice::NotNow);
    let script = stale_daemon_dialog_script(&d);
    assert!(script.contains("default button \"Reinstall Fan Control\" cancel button \"Not Now\""));
    let ko = stale_daemon_dialog(ResolvedLanguage::Ko, "1.26.8");
    assert_eq!(ko.update, "팬 제어 재설치");
    assert_eq!(stale_prompt_snoozed_until(1_000), 87_400);
    let (a, b, c) = update_available_texts("1.30.0");
    assert_eq!(a, "PeterFan v1.30.0 is available.");
    assert_eq!(b, "update available: 1.30.0 (use Updates to install)");
    assert_eq!(c, "PeterFan v1.30.0 is ready. Open Settings to install it.");
}

#[test]
fn uninstall_dry_run_reports_the_removal_script_and_runs_nothing() {
    let path = "/tmp/peterfan-daemon-install-42.sh";
    let expected_command =
        "do shell script \"/bin/bash '/tmp/peterfan-daemon-install-42.sh'\" with administrator privileges";
    match uninstall_dry_run(path, Ok(())) {
        Ok(InstallOutcome::DryRun(report)) => {
            assert_eq!(
                report,
                format!(
                    "--- script ({path}) ---\n{}\n--- osascript ---\n{expected_command}",
                    uninstall_script()
                )
            );
            assert!(report.contains("launchctl bootout system '/Library/LaunchDaemons/kr.co.uulab.peterfan.daemon.plist'"));
            assert!(report.contains("com.uulab.peterfan.daemon.plist"));
            assert!(report.contains("/usr/local/bin/peterfand"));
            assert!(report.contains("/etc/newsyslog.d/peterfand.conf"));
            assert!(report.ends_with("with administrator privileges"));
        }
        other => panic!("unexpected {other:?}"),
    }
    assert_eq!(uninstall_dry_run("/tmp/it's.sh", Ok(())), Err("temp path contains a quote; aborting".into()));
    assert_eq!(uninstall_dry_run(path, Err("disk full".into())), Err("disk full".into()));
}

#[test]
fn privileged_plan_runs_only_outside_a_dry_run() {
    match privileged_plan("/tmp/s.sh", "echo hi", false) {
        Ok(PrivilegedRun::Run(c)) => {
            assert_eq!(c, "do shell script \"/bin/bash '/tmp/s.sh'\" with administrator privileges")
        }
        other => panic!("unexpected {other:?}"),
    }
    match privileged_plan("/tmp/s.sh", "echo hi", true) {
        Ok(PrivilegedRun::Report(r)) => assert!(r.starts_with("--- script (/tmp/s.sh) ---\necho hi\n")),
        other => panic!("unexpected {other:?}"),
    }
    assert!(matches!(privileged_plan("/tmp/'x", "echo", true), Err(_)));
}

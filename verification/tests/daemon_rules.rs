use peterfan::daemon::should_prompt_stale_daemon_update;
use peterfan::daemon::{
    daemon_can_self_update_silently, daemon_control_usable, daemon_reinstall_hint,
    daemon_self_reinstall_supported, daemon_update_required, fan_control_install_plan,
    installed_daemon_version, parse_daemon_version_output, required_daemon_is_healthy,
    setup_detail, setup_title, setup_tone, should_auto_prompt_first_run_setup_on_launch,
    should_auto_prompt_stale_daemon_update_on_launch, stale_daemon_version, FanControlInstallPlan,
    MIN_REQUIRED_DAEMON_VERSION, MIN_SELF_REINSTALL_DAEMON_VERSION,
};
use peterfan::settings::ResolvedLanguage;
use peterfan::version::is_newer;

#[test]
fn parse_daemon_version_output_finds_semver_token() {
    assert_eq!(
        parse_daemon_version_output("peterfand 1.26.13\n"),
        Some("1.26.13".to_string())
    );
    assert_eq!(
        parse_daemon_version_output("warning\npeterfand 1.26.8"),
        Some("1.26.8".to_string())
    );
    assert_eq!(parse_daemon_version_output("peterfand\n"), None);
}

#[test]
fn lib_daemon_update_uses_min_required_version_not_app_version() {
    assert!(daemon_update_required("1.27.10"));
    assert!(daemon_update_required("1.27.13"));
    assert!(daemon_update_required("1.27.15"));
    assert!(daemon_update_required("1.27.21"));
    assert!(daemon_update_required("1.27.22"));
    assert!(!daemon_update_required(MIN_REQUIRED_DAEMON_VERSION));
}

#[test]
fn daemon_update_uses_min_required_version_not_app_version() {
    assert!(daemon_update_required("1.27.10"));
    assert!(!daemon_update_required(MIN_REQUIRED_DAEMON_VERSION));
    assert!(daemon_update_required("1.27.13"));
    assert!(daemon_update_required("1.27.15"));
    assert!(daemon_update_required("1.27.22"));
}

#[test]
fn daemon_self_reinstall_requires_new_enough_daemon() {
    assert!(!daemon_self_reinstall_supported("1.26.36"));
    assert!(daemon_self_reinstall_supported(MIN_SELF_REINSTALL_DAEMON_VERSION));
    assert!(daemon_self_reinstall_supported("1.26.38"));
}

#[test]
fn required_daemon_health_needs_both_version_and_reachability() {
    assert!(required_daemon_is_healthy(Some(MIN_REQUIRED_DAEMON_VERSION), true));
    assert!(!required_daemon_is_healthy(Some("1.27.22"), true));
    assert!(!required_daemon_is_healthy(Some(MIN_REQUIRED_DAEMON_VERSION), false));
    assert!(!required_daemon_is_healthy(None, true));
}

#[test]
fn setup_copy_calls_out_stale_daemon() {
    assert_eq!(setup_title(ResolvedLanguage::En, true, true), "Reinstall Fan Control");
    assert_eq!(setup_title(ResolvedLanguage::Ko, true, true), "팬 제어 재설치");
    assert!(setup_detail(ResolvedLanguage::En, true, true, Some("1.26.8")).contains("daemon v1.26.8 → v"));
    assert!(setup_detail(ResolvedLanguage::Ko, true, true, Some("1.26.8")).contains("데몬 v1.26.8 → v"));
    assert!(setup_detail(ResolvedLanguage::En, true, true, Some("1.26.8")).ends_with("one approval this time"));
    assert!(setup_detail(ResolvedLanguage::Ko, true, true, Some("1.26.8")).ends_with("이번 한 번 승인 필요"));
}

#[test]
fn reinstall_hint_distinguishes_legacy_and_self_reinstalling_daemons() {
    assert_eq!(daemon_reinstall_hint(ResolvedLanguage::Ko, Some("1.26.24")), "이번 한 번 승인 필요");
    assert_eq!(daemon_reinstall_hint(ResolvedLanguage::En, Some("1.26.24")), "one approval this time");
    assert_eq!(daemon_reinstall_hint(ResolvedLanguage::Ko, Some("1.26.37")), "조용히 가능");
    assert_eq!(daemon_reinstall_hint(ResolvedLanguage::En, Some("1.26.37")), "no prompt");
}

#[test]
fn stale_daemon_is_not_usable_for_cached_state() {
    assert!(!daemon_control_usable(Some("1.26.24")));
    assert!(daemon_control_usable(Some(MIN_REQUIRED_DAEMON_VERSION)));
    assert!(!daemon_control_usable(None));
}

#[test]
fn compatible_stale_daemon_self_updates_without_another_approval() {
    assert!(daemon_can_self_update_silently("1.27.22"));
    assert!(!daemon_can_self_update_silently("1.26.24"));
    assert!(!daemon_can_self_update_silently(MIN_REQUIRED_DAEMON_VERSION));
}

#[test]
fn setup_detail_shows_daemon_version_when_ready() {
    let en = setup_detail(ResolvedLanguage::En, true, false, Some("1.26.18"));
    assert_eq!(en, "daemon v1.26.18 · no additional approval");
    assert!(!en.contains("login"));

    let ko = setup_detail(ResolvedLanguage::Ko, true, false, Some("1.26.18"));
    assert_eq!(ko, "데몬 v1.26.18 · 추가 승인 없음");
    assert!(!ko.contains("자동 실행"));
}

#[test]
fn setup_detail_reassures_when_daemon_is_compatible_but_older_than_app() {
    assert!(!daemon_update_required(MIN_REQUIRED_DAEMON_VERSION));

    let en = setup_detail(ResolvedLanguage::En, true, false, Some(MIN_REQUIRED_DAEMON_VERSION));
    assert!(en.contains(&format!("daemon v{}", MIN_REQUIRED_DAEMON_VERSION)));
    assert!(en.contains("no additional approval"));

    let ko = setup_detail(ResolvedLanguage::Ko, true, false, Some(MIN_REQUIRED_DAEMON_VERSION));
    assert!(ko.contains(&format!("데몬 v{}", MIN_REQUIRED_DAEMON_VERSION)));
    assert!(ko.contains("추가 승인 없음"));
}

#[test]
fn launch_policy_keeps_daemon_update_prompt_user_initiated() {
    assert!(!should_auto_prompt_stale_daemon_update_on_launch());
}

#[test]
fn launch_policy_keeps_first_run_setup_user_initiated() {
    assert!(!should_auto_prompt_first_run_setup_on_launch());
}

#[test]
fn fan_control_install_avoids_reapproval_for_existing_daemons() {
    assert_eq!(
        fan_control_install_plan(Some(MIN_REQUIRED_DAEMON_VERSION), true),
        FanControlInstallPlan::AlreadyReady
    );
    assert_eq!(
        fan_control_install_plan(Some(MIN_SELF_REINSTALL_DAEMON_VERSION), true),
        FanControlInstallPlan::SelfReinstall
    );
    assert_eq!(
        fan_control_install_plan(Some("1.27.29"), false),
        FanControlInstallPlan::InstalledButUnavailable
    );
    assert_eq!(fan_control_install_plan(None, false), FanControlInstallPlan::PrivilegedInstall);
}

#[test]
fn install_plan_prompts_only_for_missing_or_legacy_daemons() {
    assert_eq!(fan_control_install_plan(Some("1.26.24"), true), FanControlInstallPlan::PrivilegedInstall);
    assert_eq!(fan_control_install_plan(Some("1.27.22"), true), FanControlInstallPlan::SelfReinstall);
    assert_eq!(fan_control_install_plan(None, true), FanControlInstallPlan::PrivilegedInstall);
}

#[test]
fn installed_version_needs_a_successful_run() {
    assert_eq!(installed_daemon_version(false, "peterfand 1.27.29\n"), None);
    assert_eq!(installed_daemon_version(true, "peterfand 1.27.29\n"), Some("1.27.29".to_string()));
    assert_eq!(installed_daemon_version(true, ""), None);
}

#[test]
fn version_token_must_start_with_a_digit_and_keeps_its_suffix() {
    assert_eq!(parse_daemon_version_output("v1.2.3 2.0-beta"), Some("2.0-beta".to_string()));
    assert_eq!(parse_daemon_version_output("\t\t7\n"), Some("7".to_string()));
}

#[test]
fn stale_version_is_reported_only_for_a_reachable_outdated_daemon() {
    assert_eq!(stale_daemon_version(true, Some("1.26.24".to_string())), Some("1.26.24".to_string()));
    assert_eq!(stale_daemon_version(false, Some("1.26.24".to_string())), None);
    assert_eq!(stale_daemon_version(true, Some(MIN_REQUIRED_DAEMON_VERSION.to_string())), None);
    assert_eq!(stale_daemon_version(true, None), None);
}

#[test]
fn setup_row_tone_and_title_follow_daemon_state() {
    assert_eq!(setup_tone(true, false), "ok");
    assert_eq!(setup_tone(true, true), "warn");
    assert_eq!(setup_tone(false, false), "warn");
    assert_eq!(setup_title(ResolvedLanguage::En, true, false), "Ready");
    assert_eq!(setup_title(ResolvedLanguage::En, false, false), "Setup needed");
    assert_eq!(setup_title(ResolvedLanguage::Ko, false, false), "설정 필요");
    assert_eq!(
        setup_detail(ResolvedLanguage::En, false, false, None),
        "fan control not set up · one initial approval"
    );
    assert_eq!(
        setup_detail(ResolvedLanguage::En, true, true, None),
        "daemon vunknown → v1.27.29 · one approval this time"
    );
}

#[test]
fn version_comparison_is_numeric_per_field() {
    assert!(is_newer("1.9.0", "1.10.0"));
    assert!(!is_newer("1.10.0", "1.9.0"));
    assert!(!is_newer("1.2.3", "1.2.3"));
    assert!(is_newer("1.2", "1.2.0"));
    assert!(!is_newer("1.2.0", "1.2"));
    assert!(is_newer("1.2.3-beta", "1.2.4"));
    assert!(!is_newer("1.2.3", "1.2.3-rc1"));
}

#[test]
fn stale_daemon_update_never_auto_prompts() {
    assert!(!should_prompt_stale_daemon_update(None, None, "1.2.3", 1_000));

    assert!(!should_prompt_stale_daemon_update(None, Some(1_500), "1.2.3", 1_000));
    assert!(!should_prompt_stale_daemon_update(None, Some(1_500), "1.2.3", 1_501));

    assert!(!should_prompt_stale_daemon_update(Some("1.2.3"), Some(1_500), "1.2.3", 1_501));
    assert!(!should_prompt_stale_daemon_update(Some("1.2.3"), Some(1_500), "1.2.4", 1_501));
}

use peterfan::ui::{next_slow_refresh, slow_metrics_due, DASHBOARD_SLOW_REFRESH_MS};
use std::collections::VecDeque;

use peterfan::hardware::Fan;
use peterfan::login::{binary_not_found_message, login_disable_message, login_enable_message, plist_contents};
use peterfan::settings::{MenubarDisplay, ResolvedLanguage};
use peterfan::ui::{
    click_routing, control_notification_title, fan_control_access, fan_failure_rule,
    format_fan_diagnostic, format_uptime, help_text, invalidate_runner_icon, merge_fan_sample,
    mount_match_score, push_capped, push_hist, route_left_click, runner_enabled,
    runner_should_animate, sample_age, sample_is_stale, should_recover_after_pause, strings,
    temperature_refresh_interval, unsupported_menubar_arg, ChartRange, FanDiagnosticInput,
    MouseButtonState, HIST_CAP, RESUME_RECOVERY_GAP_MS, TEMPERATURE_REFRESH_BACKGROUND_MS,
    TEMPERATURE_REFRESH_VISIBLE_MS, TEMPERATURE_STALE_AFTER_MS,
};

#[test]
fn tray_attributes_route_clicks_correctly() {
    let (menu_on_left_click, menu_on_right_click) = click_routing();
    assert!(!menu_on_left_click, "left-click must open the popover, not the native menu");
    assert!(menu_on_right_click, "right-click should still show the native context menu");
}

#[test]
fn left_click_opens_on_down_and_consumes_the_matching_up() {
    let mut down_seen = false;
    assert!(route_left_click(MouseButtonState::Down, &mut down_seen));
    assert!(down_seen);
    assert!(!route_left_click(MouseButtonState::Up, &mut down_seen));
    assert!(!down_seen);

    assert!(route_left_click(MouseButtonState::Up, &mut down_seen));
}

#[test]
fn number_only_transition_cannot_alias_the_hidden_icon_cache() {
    let mut last_runner_icon = Some(7);
    invalidate_runner_icon(&mut last_runner_icon);

    assert_eq!(last_runner_icon, Some(usize::MAX));
    assert_ne!(last_runner_icon, None);
}

#[test]
fn runner_animation_respects_reduce_motion() {
    assert!(runner_should_animate(MenubarDisplay::Graph, false));
    assert!(runner_should_animate(MenubarDisplay::Both, false));
    assert!(!runner_should_animate(MenubarDisplay::Number, false));
    assert!(!runner_should_animate(MenubarDisplay::Graph, true));
    assert!(!runner_should_animate(MenubarDisplay::Both, true));
    assert!(!runner_enabled(MenubarDisplay::Number));
}

#[test]
fn fan_controls_require_a_usable_daemon_or_direct_write_access() {
    assert!(!fan_control_access(true, false, false, false));
    assert!(fan_control_access(true, true, false, false));
    assert!(fan_control_access(true, false, true, false));
    assert!(fan_control_access(true, false, false, true));
    assert!(fan_control_access(false, true, false, false));
}

#[test]
fn menubar_rejects_cli_subcommands_before_launching_gui() {
    let ok_args = vec![
        "PeterFan".to_string(),
        "--mock".to_string(),
        "--metric".to_string(),
        "temp".to_string(),
        "--display".to_string(),
        "graph".to_string(),
        "--character".to_string(),
        "fox".to_string(),
        "-psn_0_12345".to_string(),
    ];
    assert_eq!(unsupported_menubar_arg(&ok_args), None);

    let cli_args = vec!["PeterFan".to_string(), "doctor".to_string()];
    assert_eq!(unsupported_menubar_arg(&cli_args), Some("doctor"));

    let missing_value = vec!["PeterFan".to_string(), "--metric".to_string()];
    assert_eq!(unsupported_menubar_arg(&missing_value), Some("--metric"));
}

#[test]
fn temperature_sample_becomes_stale_only_after_the_limit() {
    let now: u64 = 1_000_000;
    let sampled = now - TEMPERATURE_STALE_AFTER_MS;
    assert!(!sample_is_stale(Some(sampled), now, TEMPERATURE_STALE_AFTER_MS));
    assert!(sample_is_stale(Some(sampled - 1), now, TEMPERATURE_STALE_AFTER_MS));
    assert!(sample_is_stale(None, now, TEMPERATURE_STALE_AFTER_MS));
}

#[test]
fn temperature_refresh_slows_only_while_dashboards_are_closed() {
    assert_eq!(temperature_refresh_interval(true), TEMPERATURE_REFRESH_VISIBLE_MS);
    assert_eq!(temperature_refresh_interval(false), TEMPERATURE_REFRESH_BACKGROUND_MS);
    assert!(TEMPERATURE_REFRESH_BACKGROUND_MS > TEMPERATURE_REFRESH_VISIBLE_MS);
    assert!(TEMPERATURE_STALE_AFTER_MS > TEMPERATURE_REFRESH_BACKGROUND_MS * 2);
}

#[test]
fn pause_recovery_requires_a_real_event_loop_gap() {
    let now: u64 = 1_000_000;
    assert!(!should_recover_after_pause(None, now));
    assert!(!should_recover_after_pause(Some(now - RESUME_RECOVERY_GAP_MS + 1), now));
    assert!(should_recover_after_pause(Some(now - RESUME_RECOVERY_GAP_MS), now));
}

#[test]
fn sample_ages_never_go_negative() {
    assert_eq!(sample_age(Some(10), 4), Some(0));
    assert_eq!(sample_age(Some(4), 10), Some(6));
    assert_eq!(sample_age(None, 10), None);
    assert!(!should_recover_after_pause(Some(20_000), 10));
}

#[test]
fn storage_mount_matching_prefers_the_disk_containing_the_user() {
    assert!(mount_match_score("/", "/Users/bonjin") > 0);
    assert!(mount_match_score("/Volumes/Data", "/Volumes/Data/work") > 1);
    assert_eq!(mount_match_score("/Volumes/Other", "/Users/bonjin"), 0);
}

#[test]
fn mount_scores_count_bytes_after_slash_normalisation() {
    assert_eq!(mount_match_score("C:\\Users", "C:/Users/me"), 8);
    assert_eq!(mount_match_score("/Volumes/Daten\u{e4}", "/Volumes/Daten\u{e4}/x"), 16);
}

#[test]
fn uptime_edges() {
    assert_eq!(format_uptime(0), "0m");
    assert_eq!(format_uptime(86_400), "1d 0h");
    assert_eq!(format_uptime(3_600), "1h 0m");
}

#[test]
fn fan_cache_ignores_transient_empty_samples() {
    let fan = Fan {
        id: "fan.test".into(),
        label: "Test Fan".into(),
        rpm: 3_200,
        min_rpm: Some(2_000),
        max_rpm: Some(6_000),
        duty_percent: None,
        controllable: true,
    };
    let mut cache = vec![fan];
    let mut empty_samples = 0;

    merge_fan_sample(&mut cache, &mut empty_samples, Vec::new());
    merge_fan_sample(&mut cache, &mut empty_samples, Vec::new());
    assert_eq!(cache.len(), 1);
    assert_eq!(empty_samples, 2);

    merge_fan_sample(&mut cache, &mut empty_samples, Vec::new());
    assert!(cache.is_empty());
}

#[test]
fn a_real_sample_resets_the_empty_count() {
    let mut cache = vec![1u8];
    let mut empty_samples = 0;
    merge_fan_sample(&mut cache, &mut empty_samples, Vec::new());
    merge_fan_sample(&mut cache, &mut empty_samples, vec![2u8]);
    assert_eq!(cache, vec![2u8]);
    assert_eq!(empty_samples, 0);
}

#[test]
fn histories_keep_only_the_newest_samples() {
    let mut buf: VecDeque<u32> = VecDeque::new();
    for i in 0..5 {
        push_capped(&mut buf, i, 3);
    }
    assert_eq!(buf, VecDeque::from(vec![2, 3, 4]));
    let mut hist: VecDeque<u32> = VecDeque::new();
    for i in 0..200 {
        push_hist(&mut hist, i);
    }
    assert_eq!(hist.len(), HIST_CAP);
    assert_eq!(hist.front(), Some(&80));
}

#[test]
fn chart_ranges_round_trip_their_index() {
    assert_eq!(ChartRange::from_u8(1).as_str(), "1h");
    assert_eq!(ChartRange::from_u8(2).as_str(), "1d");
    assert_eq!(ChartRange::from_u8(0).as_str(), "2m");
    assert_eq!(ChartRange::from_u8(9), ChartRange::TwoMin);
}

#[test]
fn notification_fan_rule_baselines_then_reports_new_failures() {
    let (baseline, notice) = fan_failure_rule(None, true, None, None, None);
    assert_eq!(baseline, None);
    assert!(notice.is_none());

    let (baseline, notice) = fan_failure_rule(baseline, true, Some(2), Some(1), None);
    assert_eq!(baseline, Some(3));
    assert!(notice.is_none());

    let (baseline, notice) =
        fan_failure_rule(baseline, true, Some(3), Some(1), Some("RPM verification timed out"));
    assert_eq!(baseline, Some(4));
    assert!(notice.unwrap().contains("RPM verification timed out"));

    let (_, notice) =
        fan_failure_rule(baseline, true, Some(3), Some(1), Some("RPM verification timed out"));
    assert!(notice.is_none());
}

#[test]
fn fan_failure_notices_fall_back_and_respect_the_setting() {
    let (_, notice) = fan_failure_rule(Some(0), true, Some(1), None, Some("   "));
    assert_eq!(notice.unwrap(), "Fan control verification failed; check Fan Control Health.");
    let (_, notice) = fan_failure_rule(Some(0), false, Some(1), None, None);
    assert!(notice.is_none());
    let long = "x".repeat(300);
    let (_, notice) = fan_failure_rule(Some(0), true, None, Some(u64::MAX), Some(&long));
    assert_eq!(notice.unwrap().chars().count(), 180);
}

#[test]
fn fan_diagnostic_reports_ready_hardware_without_writing() {
    let (ok, status) = format_fan_diagnostic(FanDiagnosticInput {
        fan_count: 2,
        controllable_count: 2,
        average_c: Some("67"),
        safety_c: Some("74"),
        critical_c: "95",
        daemon_version: Some(peterfan::daemon::MIN_REQUIRED_DAEMON_VERSION),
        daemon_reachable: true,
        readback_stale: false,
    });

    assert!(ok);
    assert!(status.contains("fans 2/2"));
    assert!(status.contains("CPU avg 67°C"));
    assert!(status.contains("safety 74°C"));
    assert!(status.contains("daemon v"));
    assert!(status.contains("ready"));
}

#[test]
fn fan_diagnostic_rejects_stale_or_unreachable_daemon() {
    let base = |daemon_version, daemon_reachable, readback_stale| FanDiagnosticInput {
        fan_count: 2,
        controllable_count: 2,
        average_c: Some("70"),
        safety_c: Some("75"),
        critical_c: "95",
        daemon_version,
        daemon_reachable,
        readback_stale,
    };
    let (stale_ok, stale) = format_fan_diagnostic(base(Some("0.1.0"), true, false));
    let (offline_ok, offline) = format_fan_diagnostic(base(None, false, false));
    let (readback_ok, readback) =
        format_fan_diagnostic(base(Some(peterfan::daemon::MIN_REQUIRED_DAEMON_VERSION), true, true));

    assert!(!stale_ok);
    assert!(stale.contains("needs update"));
    assert!(!offline_ok);
    assert!(offline.contains("not running"));
    assert!(!readback_ok);
    assert!(readback.contains("RPM readback stale"));
}

#[test]
fn fan_diagnostic_line_in_full() {
    let (ok, line) = format_fan_diagnostic(FanDiagnosticInput {
        fan_count: 3,
        controllable_count: 1,
        average_c: None,
        safety_c: None,
        critical_c: "100",
        daemon_version: None,
        daemon_reachable: true,
        readback_stale: false,
    });
    assert!(!ok);
    assert_eq!(
        line,
        "diagnostic: fans 1/3, CPU avg —, safety —, limit 100°C, daemon version unknown, RPM readback healthy"
    );
}

#[test]
fn menu_bar_display_style_labels_match_selectable_runner() {
    assert_eq!(strings(ResolvedLanguage::En).style_graph, "Runner");
    assert_eq!(strings(ResolvedLanguage::En).style_both, "Number + Runner");
    assert_eq!(strings(ResolvedLanguage::Ko).style_graph, "러너");
    assert_eq!(strings(ResolvedLanguage::Ko).style_both, "숫자 + 러너");

    let help = help_text("1.0.0");
    assert!(help.contains("--display <number|cat|both>"));
    assert!(help.contains("--character <cat|dog|rabbit|fox>"));
    assert!(help.contains("cat also accepts legacy graph"));
    assert!(!help.contains("--metric"));
}

#[test]
fn notification_titles_flag_failures() {
    assert_eq!(control_notification_title("auto", true), "PeterFan · auto");
    assert_eq!(control_notification_title("auto", false), "PeterFan — action needed · auto");
}

#[test]
fn login_item_plist_and_messages() {
    let p = plist_contents("/Applications/PeterFan.app/Contents/MacOS/peterfan-menubar", "cpu");
    assert!(p.contains("<string>/Applications/PeterFan.app/Contents/MacOS/peterfan-menubar</string>\n  </array>"));
    assert!(!p.contains("--metric"));
    let t = plist_contents("/bin/x", "temp");
    assert!(t.contains("<string>/bin/x</string>\n    <string>--metric</string>\n    <string>temp</string>\n  </array>"));
    assert!(t.contains("<key>KeepAlive</key>   <false/>"));
    assert_eq!(login_disable_message(Ok(true)), "startup disabled");
    assert_eq!(login_disable_message(Ok(false)), "startup already disabled");
    assert_eq!(login_enable_message(Err("denied".to_string())), "login item enable failed: denied");
    assert_eq!(binary_not_found_message("/x"), "binary not found at '/x'");
}

#[test]
fn slow_sections_refresh_only_when_shown_and_due() {
    assert!(slow_metrics_due(true, 2, 5_000, 5_000, false));
    assert!(slow_metrics_due(true, 3, 4_000, 5_000, true));
    assert!(!slow_metrics_due(true, 3, 4_999, 5_000, false));
    assert!(!slow_metrics_due(true, 0, 9_000, 5_000, true));
    assert!(!slow_metrics_due(true, 1, 9_000, 5_000, false));
    assert!(!slow_metrics_due(false, 2, 9_000, 5_000, true));
    assert_eq!(next_slow_refresh(5_000), 5_000 + DASHBOARD_SLOW_REFRESH_MS);
    assert_eq!(next_slow_refresh(u64::MAX - 1), u64::MAX);
}

#[test]
fn fan_summary_averages_turning_fans() {
    assert_eq!(peterfan::ui::fan_avg_rpm(&vec![1200, 0, 1801]), 1500);
    assert_eq!(peterfan::ui::fan_avg_rpm(&vec![0, 0]), 0);
    assert_eq!(peterfan::ui::fan_avg_rpm(&Vec::new()), 0);
    let text = |stale, avg, n| peterfan::ui::fan_avg_rpm_text(ResolvedLanguage::En, stale, avg, n);
    assert_eq!(text(true, 1500, 2), "Reading…");
    assert_eq!(text(false, 1500, 2), "1500 RPM");
    assert_eq!(text(false, 0, 0), "No fans");
    assert_eq!(text(false, 0, 2), "Reading…");
    assert_eq!(peterfan::ui::fan_avg_rpm_text(ResolvedLanguage::Ko, false, 0, 0), "팬 없음");
}

#[test]
fn controller_status_follows_daemon_and_setup() {
    let st = |u, d, s, c| peterfan::ui::controller_status(ResolvedLanguage::En, u, d, s, c, "ok (daemon)", "last");
    assert_eq!(st(true, true, true, true), "reinstall fan control");
    assert_eq!(st(false, true, true, true), "ok (daemon)");
    assert_eq!(st(false, false, true, false), "fan control setup required");
    assert_eq!(st(false, false, true, true), "last");
    assert_eq!(st(false, false, false, false), "last");
    assert_eq!(
        peterfan::ui::controller_status(ResolvedLanguage::Ko, false, false, true, false, "", ""),
        "팬 제어 설정 필요"
    );
}

#[test]
fn menu_texts_name_every_profile_in_both_languages() {
    let en = strings(ResolvedLanguage::En);
    assert_eq!(
        [en.profile_silent, en.profile_balanced, en.profile_gaming, en.profile_performance, en.profile_maximum],
        ["Silent", "Balanced", "Gaming", "Performance", "Maximum"]
    );
    assert_eq!(en.enable_fan_control, "Enable Fan Control (One-Time Setup)…");
    let ko = strings(ResolvedLanguage::Ko);
    assert_eq!(
        [ko.profile_silent, ko.profile_balanced, ko.profile_gaming, ko.profile_performance, ko.profile_maximum],
        ["무음", "균형", "게이밍", "고성능", "최대"]
    );
    assert_eq!(ko.language, "언어");
}

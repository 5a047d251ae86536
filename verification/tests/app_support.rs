use std::collections::VecDeque;

use peterfan::commands::{
    classify_dashboard_command, parse_notification_command, DashboardCommand, NotificationChange,
};
use peterfan::daemon::DaemonVersionCache;
use peterfan::platform::{
    daemon_install_metadata, direct_fan_control_allowed, login_item_installed,
    login_item_supported,
};
use peterfan::settings::{MenubarDisplay, RunnerCharacter};
use peterfan::text::{chars_of, replace_chars};
use peterfan::ui::{
    clip_180, log_line, log_needs_rotation, record_fan_action_entry, single_instance_lock_name,
    FAN_ACTION_LOG_MAX,
};

#[test]
fn mock_mode_uses_a_separate_single_instance_lock() {
    assert_ne!(single_instance_lock_name(false, 501), single_instance_lock_name(true, 501));
    assert!(single_instance_lock_name(false, 501).contains(".app."));
    assert!(single_instance_lock_name(true, 501).contains(".mock."));
    assert_eq!(single_instance_lock_name(true, 0), "kr.co.uulab.peterfan.menubar.mock.0.lock");
}

#[test]
fn daemon_versions_are_cached_for_thirty_seconds() {
    let mut cache = DaemonVersionCache::new();
    assert_eq!(cache.lookup(1_000), None);
    cache.store(1_000, Some("1.27.29".to_string()));
    assert_eq!(cache.lookup(1_000), Some(Some("1.27.29".to_string())));
    assert_eq!(cache.lookup(30_999), Some(Some("1.27.29".to_string())));
    assert_eq!(cache.lookup(31_000), None);
    assert_eq!(cache.lookup(500), Some(Some("1.27.29".to_string())));
    cache.store(40_000, None);
    assert_eq!(cache.lookup(40_001), Some(None));
    cache.clear();
    assert_eq!(cache.lookup(40_001), None);
}

#[test]
fn dashboard_commands_are_routed_by_name() {
    assert_eq!(classify_dashboard_command("savecurve:[[30,20]]"), DashboardCommand::SaveCurve("[[30,20]]".to_string()));
    assert_eq!(classify_dashboard_command("togglelogin"), DashboardCommand::ToggleLoginItem);
    assert_eq!(classify_dashboard_command("toggle-login-item"), DashboardCommand::ToggleLoginItem);
    assert_eq!(classify_dashboard_command("display:both"), DashboardCommand::MenubarStyle("both".to_string()));
    assert_eq!(classify_dashboard_command("character:fox"), DashboardCommand::Character("fox".to_string()));
    assert_eq!(
        classify_dashboard_command("notifications:updates:1"),
        DashboardCommand::Notifications("notifications:updates:1".to_string())
    );
    assert_eq!(classify_dashboard_command("ready:detail"), DashboardCommand::ReadyDetail);
    assert_eq!(classify_dashboard_command("diagnosefan"), DashboardCommand::DiagnoseFan);
    assert_eq!(classify_dashboard_command("fanhold:fan.0:40"), DashboardCommand::FanControl("fanhold:fan.0:40".to_string()));
}

#[test]
fn notification_commands_are_validated() {
    assert_eq!(
        parse_notification_command("notifications:temperature:82"),
        Ok(NotificationChange::TemperatureValue("82".to_string()))
    );
    assert_eq!(parse_notification_command("notifications:temperature:off"), Ok(NotificationChange::TemperatureOff));
    assert_eq!(parse_notification_command("notifications:fan-failures:0"), Ok(NotificationChange::FanFailures(false)));
    assert_eq!(parse_notification_command("notifications:updates:1"), Ok(NotificationChange::Updates(true)));
    assert_eq!(parse_notification_command("notifications:updates:maybe"), Err("update notification must be on or off"));
    assert_eq!(parse_notification_command("notifications:fan-failures:yes"), Err("fan failure notification must be on or off"));
    assert_eq!(parse_notification_command("notifications:sound:1"), Err("unknown notification setting"));
}

#[test]
fn style_and_character_names() {
    assert_eq!(MenubarDisplay::parse("cat"), Some(MenubarDisplay::Graph));
    assert_eq!(MenubarDisplay::parse("graph"), Some(MenubarDisplay::Graph));
    assert_eq!(MenubarDisplay::parse("number"), Some(MenubarDisplay::Number));
    assert_eq!(MenubarDisplay::parse("both"), Some(MenubarDisplay::Both));
    assert_eq!(MenubarDisplay::parse("Both"), None);
    assert_eq!(RunnerCharacter::parse("rabbit"), Some(RunnerCharacter::Rabbit));
    assert_eq!(RunnerCharacter::parse("owl"), None);
}

#[test]
fn fan_action_log_keeps_the_newest_twelve() {
    let mut log: VecDeque<u32> = VecDeque::new();
    for i in 0..20 {
        record_fan_action_entry(&mut log, i);
    }
    assert_eq!(log.len(), FAN_ACTION_LOG_MAX);
    assert_eq!(log.front(), Some(&19));
    assert_eq!(log.back(), Some(&8));
    assert_eq!(clip_180(&"é".repeat(200)).chars().count(), 180);
    assert_eq!(clip_180("short"), "short");
}

#[test]
fn log_lines_and_rotation() {
    assert_eq!(log_line(1700000000123, "1.2.3", "startup mock=true"), "1700000000123 v1.2.3 startup mock=true");
    assert!(!log_needs_rotation(524_287));
    assert!(log_needs_rotation(524_288));
}

#[test]
fn platform_answers_off_macos() {
    assert!(!login_item_supported());
    assert!(!login_item_installed());
    assert_eq!(daemon_install_metadata(), (false, "", false));
    assert!(direct_fan_control_allowed());
}

#[test]
fn replacement_is_left_to_right_without_overlap() {
    let r = |s: &str, p: &str, t: &str| -> String {
        replace_chars(&chars_of(s), &chars_of(p), &chars_of(t)).into_iter().collect()
    };
    assert_eq!(r("aaa", "aa", "b"), "ba");
    assert_eq!(r("ab", "", "x"), "xaxbx");
    assert_eq!(r("", "", "x"), "x");
    assert_eq!(r(">Fan< >Fans<", ">Fan<", ">팬<"), ">팬< >Fans<");
    assert_eq!(r("abc", "abcd", "z"), "abc");
}

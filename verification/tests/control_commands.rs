use peterfan::commands::{
    control_action_label, control_result_is_ok, daemon_command_line, daemon_reply_is_ok,
    daemon_reply_message, pending_command_key, queue_pending_command,
};
use peterfan::control::{
    active_control_mode_from_mode, active_profile_from_mode, first_word_of,
    local_command_label, local_result_message, parse_local_command, record_local_success,
    resolved_active_control_mode, FanOverrides, LocalCommand, LocalWriteError,
};

#[test]
fn pending_commands_coalesce_ready_and_fan_targets_without_crossing_fans() {
    let mut queue = Vec::new();
    queue_pending_command(&mut queue, "ready:popover".into());
    queue_pending_command(&mut queue, "ready:popover".into());
    queue_pending_command(&mut queue, "profile:balanced".into());
    queue_pending_command(&mut queue, "profile:performance".into());
    queue_pending_command(&mut queue, "fanhold:fan.left:40".into());
    queue_pending_command(&mut queue, "fanhold:fan.left:65".into());
    queue_pending_command(&mut queue, "fanhold:fan.right:55".into());
    queue_pending_command(&mut queue, "display:number".into());
    queue_pending_command(&mut queue, "display:both".into());

    assert_eq!(
        queue,
        vec![
            "ready:popover",
            "profile:performance",
            "fanhold:fan.left:65",
            "fanhold:fan.right:55",
            "display:both",
        ]
    );
}

#[test]
fn command_keys_group_commands_that_replace_each_other() {
    assert_eq!(pending_command_key("ready:detail"), Some("ready:detail".to_string()));
    assert_eq!(pending_command_key("auto"), Some("global-fan-control".to_string()));
    assert_eq!(pending_command_key("profile:silent"), Some("global-fan-control".to_string()));
    assert_eq!(pending_command_key("character:fox"), Some("runner-character".to_string()));
    assert_eq!(
        pending_command_key("notifications:temperature:82"),
        Some("notifications:temperature".to_string())
    );
    assert_eq!(pending_command_key("notifications:updates"), Some("notifications:updates".to_string()));
    assert_eq!(pending_command_key("fanhold:fan.cpu:72"), Some("fan:fan.cpu".to_string()));
    assert_eq!(pending_command_key("fanauto:fan.cpu"), Some("fan:fan.cpu".to_string()));
    assert_eq!(pending_command_key("fanhold:nocolon"), None);
    assert_eq!(pending_command_key("hold:50"), None);
}

#[test]
fn keyless_commands_are_not_queued_twice_and_fan_auto_replaces_a_hold() {
    let mut queue = Vec::new();
    queue_pending_command(&mut queue, "hold:50".into());
    queue_pending_command(&mut queue, "cmd:diagnosefan".into());
    queue_pending_command(&mut queue, "hold:50".into());
    queue_pending_command(&mut queue, "fanhold:fan.cpu:30".into());
    queue_pending_command(&mut queue, "fanauto:fan.cpu".into());
    queue_pending_command(&mut queue, "auto".into());
    assert_eq!(queue, vec!["hold:50", "cmd:diagnosefan", "fanauto:fan.cpu", "auto"]);
}

#[test]
fn fan_control_actions_have_readable_log_labels() {
    assert_eq!(control_action_label("profile:performance"), "profile performance");
    assert_eq!(control_action_label("fanhold:fan.cpu:72"), "fan fan.cpu:72");
    assert_eq!(control_action_label("fanauto:fan.cpu"), "fan fan.cpu auto");
    assert_eq!(control_action_label("auto"), "auto");
}

#[test]
fn daemon_lines_split_fan_holds_on_the_last_colon() {
    assert_eq!(daemon_command_line("profile:balanced"), "profile balanced\n");
    assert_eq!(daemon_command_line("hold:45"), "hold 45\n");
    assert_eq!(daemon_command_line("fanhold:fan.cpu:72"), "fanhold fan.cpu 72\n");
    assert_eq!(daemon_command_line("fanhold:72"), "fanhold:72\n");
    assert_eq!(daemon_command_line("fanauto:fan.gpu"), "fanauto fan.gpu\n");
    assert_eq!(daemon_command_line("auto"), "auto\n");
}

#[test]
fn daemon_replies_are_trimmed_and_empty_ones_read_as_ok() {
    assert_eq!(daemon_reply_message("  ok auto (mock)\n"), "daemon: ok auto (mock)");
    assert_eq!(daemon_reply_message(" \n"), "daemon: ok");
    assert_eq!(daemon_reply_message(""), "daemon: ok");
}

#[test]
fn control_result_is_ok_rejects_daemon_error_replies() {
    assert!(!control_result_is_ok("daemon: error: unknown command"));
    assert!(!control_result_is_ok("daemon: invalid percent"));
    assert!(control_result_is_ok("daemon: ok auto (mock)"));
    assert!(control_result_is_ok("applied locally"));
}

#[test]
fn daemon_replies_are_judged_case_insensitively() {
    assert!(!control_result_is_ok("daemon: FAILED to write"));
    assert!(!control_result_is_ok("daemon: Needs Root"));
    assert!(!control_result_is_ok("daemon: needs at least 2 points"));
    assert!(!control_result_is_ok("no fan control on this backend"));
    assert!(daemon_reply_is_ok("ok hold 50%"));
    assert!(!daemon_reply_is_ok("unknown fan"));
}

#[test]
fn active_profile_from_daemon_mode_handles_known_modes() {
    assert_eq!(active_profile_from_mode("manual:balanced"), Some("balanced"));
    assert_eq!(active_profile_from_mode("rules:performance (smc)"), Some("performance"));
    assert_eq!(active_profile_from_mode("profile:silent"), Some("silent"));
    assert_eq!(active_profile_from_mode("auto"), None);
    assert_eq!(active_profile_from_mode("hold:45%"), None);
}

#[test]
fn active_control_mode_from_daemon_mode_handles_known_modes() {
    assert_eq!(active_control_mode_from_mode("auto"), "auto");
    assert_eq!(active_control_mode_from_mode("manual:balanced"), "profile");
    assert_eq!(active_control_mode_from_mode("rules:silent (smc)"), "profile");
    assert_eq!(active_control_mode_from_mode("hold:45%"), "hold");
    assert_eq!(active_control_mode_from_mode(""), "");
}

#[test]
fn default_fan_control_selection_is_auto() {
    assert_eq!(resolved_active_control_mode(Some("auto"), false), "auto");
    assert_eq!(resolved_active_control_mode(None, false), "auto");
    assert_eq!(resolved_active_control_mode(Some(""), false), "auto");
    assert_eq!(resolved_active_control_mode(None, true), "hold");
    assert_eq!(resolved_active_control_mode(Some("manual:balanced"), false), "profile");
}

#[test]
fn first_word_skips_leading_space_and_keeps_blank_text() {
    assert_eq!(first_word_of("  rules:silent (smc)"), "rules:silent");
    assert_eq!(first_word_of("   "), "   ");
    assert_eq!(active_profile_from_mode("manual:"), None);
    assert_eq!(active_control_mode_from_mode("  auto  "), "auto");
}

#[test]
fn local_commands_parse_percentages_and_fan_ids() {
    assert_eq!(parse_local_command("auto"), Ok(LocalCommand::Auto));
    assert_eq!(parse_local_command("hold:50"), Ok(LocalCommand::Hold(50)));
    assert_eq!(parse_local_command("hold:+250"), Ok(LocalCommand::Hold(100)));
    assert_eq!(parse_local_command("hold:256"), Err("invalid percent"));
    assert_eq!(parse_local_command("hold:notanumber"), Err("invalid percent"));
    assert_eq!(
        parse_local_command("fanhold:fan.cpu:30"),
        Ok(LocalCommand::FanHold("fan.cpu".to_string(), 30))
    );
    assert_eq!(parse_local_command("fanhold:fan.cpu"), Err("fanhold requires <fan_id>:<percent>"));
    assert_eq!(parse_local_command("fanhold:fan.cpu:x"), Err("fanhold requires <fan_id>:<percent>"));
    assert_eq!(parse_local_command("fanauto:fan.gpu"), Ok(LocalCommand::FanAuto("fan.gpu".to_string())));
    assert_eq!(
        parse_local_command("profile:balanced"),
        Ok(LocalCommand::Profile("balanced".to_string()))
    );
    assert_eq!(parse_local_command("bogus"), Err("unknown command"));
}

#[test]
fn local_results_name_the_label_or_the_failure() {
    assert_eq!(local_command_label(&LocalCommand::Hold(50)), Some("hold 50%".to_string()));
    assert_eq!(
        local_command_label(&LocalCommand::FanHold("fan.cpu".to_string(), 7)),
        Some("fan.cpu hold 7%".to_string())
    );
    assert_eq!(local_command_label(&LocalCommand::FanAuto("fan.cpu".to_string())), Some("fan.cpu auto".to_string()));
    assert_eq!(local_command_label(&LocalCommand::Profile("silent".to_string())), None);
    assert_eq!(local_result_message("hold 50%", Ok(())), "hold 50% — applied locally");
    assert_eq!(
        local_result_message("auto", Err(LocalWriteError::PermissionDenied)),
        "start peterfand (needs root)"
    );
    assert_eq!(
        local_result_message("auto", Err(LocalWriteError::Other("SMC busy".to_string()))),
        "error: SMC busy"
    );
}

#[test]
fn fan_pins_follow_local_commands() {
    let mut pins = FanOverrides::new();
    assert!(pins.is_empty());
    record_local_success(&mut pins, &LocalCommand::FanHold("fan.0".to_string(), 30));
    record_local_success(&mut pins, &LocalCommand::FanHold("fan.1".to_string(), 60));
    assert_eq!(pins.get("fan.0"), Some(30));
    record_local_success(&mut pins, &LocalCommand::FanHold("fan.0".to_string(), 45));
    assert_eq!(pins.get("fan.0"), Some(45));
    record_local_success(&mut pins, &LocalCommand::FanAuto("fan.0".to_string()));
    assert_eq!(pins.get("fan.0"), None);
    assert_eq!(pins.get("fan.1"), Some(60));
    record_local_success(&mut pins, &LocalCommand::Auto);
    assert!(pins.is_empty());
    pins.set("fan.2", Some(10));
    pins.clear();
    assert_eq!(pins.get("fan.2"), None);
}

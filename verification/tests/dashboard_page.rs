use peterfan::dashboard::dashboard_html;
use peterfan::settings::ResolvedLanguage;
use peterfan::ui::format_uptime;


#[test]
fn dashboard_html_translates_known_labels() {
    let en = dashboard_html(ResolvedLanguage::En, true);
    assert!(en.contains(">Fan control<"));
    assert!(en.contains(">Quit PeterFan<"));
    assert!(en.contains(r#"<html lang="en">"#));
    assert!(en.contains(">General<"));
    assert!(en.contains(">Hardware<"));
    assert!(en.contains("var LANG='en';"));
    assert!(!en.contains("__LANG__"));
    assert!(!en.contains("__SHOWCURVE__"));

    let ko = dashboard_html(ResolvedLanguage::Ko, false);
    assert!(ko.contains(">팬 제어<"));
    assert!(ko.contains(">PeterFan 종료<"));
    assert!(ko.contains(r#"<html lang="ko">"#));
    assert!(ko.contains(">일반<"));
    assert!(ko.contains(">하드웨어<"));
    assert!(ko.contains(">시스템<"));
    assert!(ko.contains(">상세 창 열기<"));
    assert!(ko.contains(">코어 상세<"));
    assert!(ko.contains("저장공간, 배터리, 네트워크"));
    assert!(ko.contains(">자동<"));
    assert!(ko.contains(">균형<"));
    // Auto/Manual per-fan card labels are rendered by JS at runtime
    // (LANG==='ko' ? ...), not baked into the static markup — both
    // languages ship the same script, just a different LANG value.
    assert!(ko.contains("'자동':'Auto'"));
    assert!(ko.contains("var LANG='ko';"));
    assert!(!ko.contains("__LANG__"));
    assert!(!ko.contains("__SHOWCURVE__"));
    assert!(en.contains("var SHOW_CURVE_EDITOR='1';"));
    assert!(ko.contains("var SHOW_CURVE_EDITOR='0';"));
    // Nothing English-only should survive the swap for the labels we
    // actually translate.
    assert!(!ko.contains(">Fan control<"));
    assert!(!ko.contains(">Quit PeterFan<"));
    assert!(ko.contains(">선택한 점<"));
    assert!(ko.contains(r#"id="cp-temp""#) && ko.contains(r#"id="cp-duty""#));
    // Both languages must still be well-formed enough to contain the
    // dynamic element IDs the JS `update()` function looks up — a typo'd
    // replacement (e.g. matching too broadly) would silently break these.
    for html in [&en, &ko] {
        assert!(html.contains(r#"id="cpu-val""#));
        assert!(html.contains(r#"id="temp-name""#));
        assert!(html.contains("d.temp_source"));
        assert!(html.contains("기간 평균"));
        assert!(html.contains("range avg"));
        assert!(html.contains(r#"id="ctl-status""#));
        assert!(html.contains(r#"id="disk-io-chart-stats""#));
        assert!(html.contains(r#"id="net-ip""#));
        assert!(html.contains(r#"id="ps-cpu""#));
        assert!(html.contains("quitProcess"));
        assert!(html.contains("renderFanCards"));
        assert!(html.contains("fanControlSetupButton"));
        assert!(html.contains("startFanControlSetup"));
        assert!(html.contains(r#"id="fan-cards""#));
        assert!(html.contains(r#"id="profile-strip""#));
        assert!(html.contains("setProfile"));
        assert!(html.contains("setAuto"));
        assert!(html.contains("updateProfileStrip"));
        assert!(html.contains("cmd:auto"));
        assert!(html.contains("cmd:profile:"));
        assert!(html.contains(r#"id="setup-row""#));
        assert!(html.contains(r#"id="setup-more""#));
        assert!(html.contains(r#"aria-haspopup="menu""#));
        assert!(html.contains(r#"aria-expanded="false""#));
        assert!(html.contains(r#"id="setup-menu""#));
        assert!(html.contains(r#"role="menu""#));
        assert!(html.contains("toggleSetupMenu"));
        assert!(html.contains("handleSetupMenuKey"));
        assert!(html.contains("focusSetupMenuItem"));
        assert!(html.contains("setup-menu-item"));
        assert!(html.contains(r#"role="menuitem""#));
        assert!(html.contains("checkupdates"));
        assert!(html.contains("installupdate"));
        assert!(html.contains("checkAppUpdates"));
        assert!(html.contains("installAppUpdate"));
        assert!(html.contains("updateSetup"));
        assert!(html.contains("daemon_update_needed"));
        assert!(html.contains("Reinstall fan control"));
        assert!(html.contains("Reinstall Fan Control"));
        assert!(html.contains("Check for and immediately install an app update"));
        assert!(html.contains("cmd:fanhold:"));
        assert!(html.contains("cmd:fanauto:"));
        assert!(html.contains("savecurve:"));
    }
}

#[test]
fn dashboard_html_has_simple_three_action_rail() {
    let en = dashboard_html(ResolvedLanguage::En, false);
    let ko = dashboard_html(ResolvedLanguage::Ko, false);

    for html in [&en, &ko] {
        assert!(html.contains(r#"class="dashboard-shell""#));
        assert!(html.contains(r#"class="action-rail""#));
        assert!(html.contains("railDetail"));
        assert!(html.contains("railFan"));
        assert!(html.contains("railSettings"));
        assert!(html.contains("railSystem"));
        assert!(!html.contains(r#"id="railUpdate""#));
        assert!(!html.contains(r#"id="railMore""#));
        assert!(html.contains("focusFanControl"));
        assert!(html.contains("rail-settings-panel"));
        assert!(html.contains("rail-more-panel"));
        assert!(!html.contains("railLicense"));
        assert!(!html.contains("rail-license-panel"));
        assert!(html.contains(r#"class="rail-btn active" id="railDetail""#));
        assert!(!html.contains(r#"class="rail-btn primary""#));
        assert!(!html.contains("flashRailButton"));
        assert!(!html.contains("rail-btn.pulse"));
        assert!(html.contains("html,body{background:var(--panel-bg)"));
        assert_eq!(html.matches("data-range=\"2m\"").count(), 1);
    }

    assert!(en.contains(">Status<"));
    assert!(en.contains(">Fans<"));
    assert!(en.contains(">Updates<"));
    assert!(en.contains(">Settings<"));
    assert!(en.contains(">System<"));
    assert!(ko.contains(">상태<"));
    assert!(ko.contains(">팬<"));
    assert!(ko.contains(">업데이트<"));
    assert!(ko.contains(">설정<"));
    assert!(ko.contains(">시스템<"));
}

#[test]
fn dashboard_keeps_runner_character_out_of_popover() {
    let en = dashboard_html(ResolvedLanguage::En, false);
    let ko = dashboard_html(ResolvedLanguage::Ko, false);

    for html in [&en, &ko] {
        assert!(!html.contains(r#"id="runner-strip""#));
        assert!(!html.contains(r#"id="runner-load""#));
        assert!(!html.contains(r#"class="runner-character""#));
        assert!(!html.contains("runner-head"));
        assert!(!html.contains("runner-torso"));
        assert!(!html.contains("runner-arm a"));
        assert!(!html.contains("runner-leg b"));
        assert!(!html.contains("@keyframes runnerTravel"));
        assert!(!html.contains("@keyframes runnerStride"));
        assert!(!html.contains("function updateRunner(cpuPct)"));
        assert!(!html.contains("--runner-speed"));
        assert!(!html.contains("updateRunner(d.cpu_pct);"));
    }
}

#[test]
fn settings_expose_cpu_runner_style_and_live_pace() {
    let en = dashboard_html(ResolvedLanguage::En, false);
    let ko = dashboard_html(ResolvedLanguage::Ko, false);

    for html in [&en, &ko] {
        assert!(html.contains(r#"id="menubar-display-setting""#));
        assert!(html.contains(r#"id="display-number""#));
        assert!(html.contains(r#"id="display-runner""#));
        assert!(html.contains(r#"id="display-both""#));
        assert!(html.contains(r#"id="runner-character-setting""#));
        assert!(html.contains(r#"data-character="dog""#));
        assert!(html.contains("function setRunnerCharacter(character)"));
        assert!(html.contains("window.ipc.postMessage('character:'+character)"));
        assert!(html.contains("function setMenubarDisplay(style)"));
        assert!(html.contains("window.ipc.postMessage('display:'+style)"));
        assert!(html.contains("function updateMenubarDisplay(d)"));
    }
}

#[test]
fn system_view_has_high_value_quick_facts() {
    let en = dashboard_html(ResolvedLanguage::En, false);

    for id in [
        "system-load",
        "system-power",
        "system-network-rate",
        "system-uptime",
    ] {
        assert!(en.contains(&format!(r#"id="{id}""#)));
    }
    assert_eq!(format_uptime(90), "1m");
    assert_eq!(format_uptime(7_320), "2h 2m");
    assert_eq!(format_uptime(183_600), "2d 3h");
}

#[test]
fn dashboard_has_no_license_entry_points() {
    let en = dashboard_html(ResolvedLanguage::En, false);
    let ko = dashboard_html(ResolvedLanguage::Ko, false);

    for html in [&en, &ko] {
        assert!(!html.contains("railLicense"));
        assert!(!html.contains("rail-license-panel"));
        assert!(!html.contains("rail-license-form"));
        assert!(!html.contains("lic-row"));
        assert!(!html.contains("lic-form"));
        assert!(!html.contains("Buy License"));
        assert!(!html.contains("Activate"));
        assert!(!html.contains("License"));
        assert!(!html.contains("라이선스"));
        assert!(!html.contains("license:"));
        assert!(!html.contains("submitLicense"));
    }
}

#[test]
fn dashboard_html_uses_one_fixed_compact_popover_mode() {
    let en = dashboard_html(ResolvedLanguage::En, false);

    assert!(en.contains("compact-extra"));
    assert!(en.contains(r#"data-compact-extra="storage""#));
    assert!(en.contains(r#"data-compact-extra="battery""#));
    assert!(en.contains(r#"data-compact-extra="network""#));
    assert!(en.contains(r#"data-compact-extra="processes""#));
    assert!(en.contains("document.body.classList.add('compact')"));
    assert!(!en.contains("setPopoverExpanded"));
    assert!(!en.contains("pf.compact"));
}

#[test]
fn dashboard_main_pane_scrolls_without_visible_scrollbar() {
    let en = dashboard_html(ResolvedLanguage::En, false);

    assert!(en.contains(".panel{"));
    assert!(en.contains("overflow:hidden"));
    assert!(en.contains(".dashboard-shell{"));
    assert!(en.contains("height:100vh"));
    assert!(en.contains(".main-pane{"));
    assert!(en.contains("overflow-y:auto"));
    assert!(en.contains("scrollbar-gutter:stable"));
    assert!(en.contains("scrollbar-width:none"));
    assert!(en.contains(".main-pane::-webkit-scrollbar{display:none;}"));
    assert!(en.contains(".action-rail{"));
    assert!(!en.contains("position:sticky;top:7px"));
}

#[test]
fn action_rail_buttons_route_through_clickable_handlers() {
    let en = dashboard_html(ResolvedLanguage::En, false);

    for (id, action) in [
        ("railDetail", "detail"),
        ("railFan", "fan"),
        ("railSettings", "settings"),
        ("railSystem", "system"),
    ] {
        assert!(en.contains(&format!(r#"id="{id}""#)));
        assert!(en.contains(&format!(r#"data-rail-action="{action}""#)));
    }

    assert!(en.contains("function runRailAction(action,btn)"));
    assert!(!en.contains("flashRailButton(btn)"));
    assert!(en.contains("case 'detail':setRailView('overview');break;"));
    assert!(en.contains("case 'fan':setRailView('fan');break;"));
    assert!(en.contains("case 'settings':setRailView('settings');break;"));
    assert!(!en.contains(
        "case 'login':setRailView('login');window.ipc.postMessage('togglelogin');break;"
    ));
    assert!(!en.contains("case 'license':setRailView('license');break;"));
    assert!(en.contains("case 'system':case 'more':setRailView('system');break;"));
    assert!(en.contains("case 'update':setRailView('settings');break;"));
    assert!(en.contains("function setButtonLabel(btn,label)"));
    assert!(en.contains("btn.querySelector('span')"));
    assert!(en.contains("btn.dataset.defaultLabel"));
    assert!(en.contains("el.classList.add('focus-pulse')"));
}

#[test]
fn update_rail_keeps_status_button_as_navigation_not_detail_command() {
    let en = dashboard_html(ResolvedLanguage::En, false);
    let ko = dashboard_html(ResolvedLanguage::Ko, false);

    assert!(en.contains(r#"title="Status""#));
    assert!(en.contains("setButtonLabel(detail,LANG==='ko'?'상태':'Status');"));
    assert!(en.contains("detail.title=LANG==='ko'?'상태 요약':'Status overview';"));
    assert!(ko.contains(">상태<"));
    assert!(!en.contains("setButtonLabel(detail,LANG==='ko'?'상세':'Detail');"));
    assert!(!en.contains("detail.title=LANG==='ko'?'상세 창 열기':'Open detailed window';"));
}

#[test]
fn rail_panels_show_live_status_pills() {
    let en = dashboard_html(ResolvedLanguage::En, false);

    for id in ["rail-update-pill", "rail-settings-pill", "rail-more-pill"] {
        assert!(en.contains(&format!(r#"id="{id}""#)));
    }

    assert!(en.contains(".panel-title-row{"));
    assert!(en.contains(".panel-pill{"));
    assert!(en.contains("setPanelPill('rail-update-pill'"));
    assert!(en.contains("setPanelPill('rail-settings-pill'"));
    assert!(en.contains("setPanelPill('rail-more-pill'"));
    assert!(en.contains("function setPanelPill(id,text,tone)"));
}

#[test]
fn settings_panel_exposes_persistent_native_notification_rules() {
    let en = dashboard_html(ResolvedLanguage::En, false);
    let ko = dashboard_html(ResolvedLanguage::Ko, false);

    for id in [
        "notification-settings",
        "notification-temp-toggle",
        "notification-temp-threshold",
        "notification-fan-toggle",
        "notification-update-toggle",
    ] {
        assert!(en.contains(&format!(r#"id="{id}""#)));
    }
    assert!(en.contains("function updateNotificationSettings(d)"));
    assert!(en.contains("updateNotificationSettings(d);"));
    assert!(en.contains("notifications:temperature:"));
    assert!(en.contains("notifications:'+kind+':"));
    assert!(ko.contains(">알림<"));
    assert!(ko.contains(">CPU 온도 경고<"));
    assert!(ko.contains(">팬 제어 실패<"));
    assert!(ko.contains(">앱 업데이트<"));
}

#[test]
fn settings_panel_contains_fan_control_health_card() {
    let en = dashboard_html(ResolvedLanguage::En, false);
    let ko = dashboard_html(ResolvedLanguage::Ko, false);

    assert!(en.contains(r#"id="fan-health-card""#));
    assert!(en.contains(">Fan Control Health<"));
    assert!(en.contains(r#"id="health-daemon""#));
    assert!(en.contains(r#"id="health-helper""#));
    assert!(en.contains(r#"id="health-launch-daemon""#));
    assert!(en.contains(r#"id="health-team-id""#));
    assert!(en.contains(r#"id="health-control-path""#));
    assert!(en.contains(r#"id="health-last-command""#));
    assert!(en.contains(r#"id="health-safety-state""#));
    assert!(en.contains(r#"id="health-curve-input""#));
    assert!(en.contains(r#"id="health-core-hottest""#));
    assert!(en.contains(r#"id="health-safety-hottest""#));
    assert!(en.contains(r#"id="health-critical-limit""#));
    assert!(en.contains(r#"id="health-sensor-failures""#));
    assert!(en.contains(r#"id="health-write-failures""#));
    assert!(en.contains(r#"id="health-readback""#));
    assert!(en.contains(r#"id="health-control-retry""#));
    assert!(en.contains(r#"id="health-control-error""#));
    assert!(en.contains(r#"id="fan-curve-input""#));
    assert!(en.contains(r#"id="fan-safety-hottest""#));
    assert!(en.contains(r#"id="fan-critical-limit""#));
    assert!(en.contains(r#"id="health-approval""#));
    assert!(en.contains(r#"id="fan-action-log-card""#));
    assert!(en.contains(r#"id="fan-diagnostic-button""#));
    assert!(en.contains(r#"id="fan-diagnostic-button" disabled"#));
    assert!(en.contains(r#"id="fan-action-log""#));
    assert!(en.contains("function updateHealthPanel(d)"));
    assert!(en.contains("function runFanDiagnostics(btn)"));
    assert!(en.contains("function renderFanActionLog(d)"));
    assert!(en.contains("cmd:diagnosefan"));
    assert!(en.contains("d.fan_action_log"));
    assert!(en.contains("updateHealthPanel(d);"));
    assert!(en.contains("d.daemon_required_version"));
    assert!(en.contains("d.daemon_binary_installed"));
    assert!(en.contains("d.launch_daemon_installed"));
    assert!(en.contains("d.team_id"));
    assert!(en.contains("d.controllable_fan_count"));
    assert!(en.contains("d.fan_curve_input_temp_c"));
    assert!(en.contains("d.fan_core_hottest_temp_c"));
    assert!(en.contains("d.control_health"));
    assert!(en.contains("health.failsafe_active"));
    assert!(ko.contains(">안전 상태<"));
    assert!(ko.contains(">센서 실패<"));
    assert!(ko.contains(">제어 재시도<"));
    assert!(en.contains("d.fan_safety_temp_c"));
    assert!(en.contains("d.fan_critical_temp_c"));

    assert!(ko.contains(">팬 제어 상태<"));
    assert!(ko.contains(">팬 RPM 검증<"));
    assert!(ko.contains(">데몬<"));
    assert!(ko.contains(">도우미<"));
    assert!(ko.contains(">제어 경로<"));
    assert!(ko.contains(">마지막 명령<"));
    assert!(ko.contains(">커브 입력<"));
    assert!(ko.contains(">코어 최고<"));
    assert!(ko.contains(">안전 최고<"));
    assert!(ko.contains(">임계값<"));
    assert!(ko.contains(">관리자 승인<"));
    assert!(ko.contains(">최근 팬 제어 이력<"));
    assert!(ko.contains(">진단 실행<"));
}

#[test]
fn settings_panel_contains_startup_toggle() {
    let en = dashboard_html(ResolvedLanguage::En, false);
    let ko = dashboard_html(ResolvedLanguage::Ko, false);

    for html in [en, ko] {
        assert!(html.contains(r#"id="startup-setting"#));
        assert!(html.contains(">Run on startup<") || html.contains("부팅 시 자동 실행"));
        assert!(html.contains(r#"id="startup-toggle"#));
        assert!(html.contains(r#"id="startup-toggle" class="panel-action secondary" disabled"#));
        assert!(html.contains("toggleStartupItem(this)"));
    }
}

#[test]
fn update_panel_shows_current_latest_and_check_result() {
    let en = dashboard_html(ResolvedLanguage::En, false);

    assert!(en.contains(r#"id="update-current-version""#));
    assert!(en.contains(r#"id="update-latest-version""#));
    assert!(en.contains(r#"id="update-check-result""#));
    assert!(en.contains(r#"id="rail-update-check""#));
    assert!(en.contains(r#"id="rail-update-install""#));
    assert!(en.contains(r#"id="update-release-link""#));
    assert!(en.contains(r#"id="update-release-notes-card""#));
    assert!(en.contains(r#"id="update-release-notes""#));
    assert!(en.contains("function compareVersions(a,b)"));
    assert!(en.contains("function formatReleaseNotes(body)"));
    assert!(en.contains("function renderUpdateStatus(status)"));
    assert!(en.contains("if(RAIL_VIEW!=='settings')setRailView('settings');"));
    assert!(!en.contains("function fetchLatestReleaseStatus()"));
    assert!(!en.contains("api.github.com/repos/uulab-official/peterfan/releases/latest"));
    assert!(en.contains("d.app_update_status||{}"));
    assert!(en.contains("phase:'checking'"));
    assert!(en.contains("Check for Updates"));
    assert!(en.contains("Install Update"));
    assert!(en.contains("function installAppUpdate(btn)"));
    assert!(en.contains("mode==='install'?'installupdate':'checkupdates'"));
    assert!(en.contains("s.install_ready===true"));
    assert!(en.contains("install_ready:!!nativeUpdate.install_ready"));
    assert!(en.contains("Preparing Update"));
    assert!(en.contains("Up to Date"));
    assert!(en.contains("Development Build"));
    assert!(!en.contains(
        r#"id="rail-update-install" disabled onclick="installAppUpdate(this)" style="display:none""#
    ));
    assert!(en.contains("APP_UPDATE_STATUS.current=d.app_version||APP_UPDATE_STATUS.current;"));
    assert!(en.contains("d.update_install_result"));
    assert!(en.contains("s.install_status==='installed'"));
    assert!(en.contains("s.install_status==='rolled_back'"));
    assert!(en.contains("installed successfully"));
    assert!(en.contains("d.app_version"));
}

#[test]
fn rail_view_switch_resets_scroll_and_marks_pressed_state() {
    let en = dashboard_html(ResolvedLanguage::En, false);

    assert!(en.contains(
        r#"id="railDetail" data-rail-action="detail" aria-label="Status" aria-pressed="true""#
    ));
    assert!(en.contains(
        r#"id="railFan" data-rail-action="fan" aria-label="Fans" aria-pressed="false""#
    ));
    assert!(en.contains("function resetRailPaneScroll()"));
    assert!(en.contains("pane.scrollTop=0;"));
    assert!(en.contains("function setRailView(view)"));
    assert!(en.contains("applyRailView(true);"));
    assert!(en.contains("function applyRailView(resetScroll)"));
    assert!(en.contains("if(resetScroll)resetRailPaneScroll();"));
    assert!(en.contains("el.setAttribute('aria-pressed',on?'true':'false');"));
    assert!(!en.contains("function applyRailView(){"));
    assert_eq!(
        en.matches("note.appendChild(fanControlSetupButton").count(),
        1
    );
}

#[test]
fn settings_keep_technical_health_details_collapsed() {
    let en = dashboard_html(ResolvedLanguage::En, false);
    let ko = dashboard_html(ResolvedLanguage::Ko, false);

    assert!(
        en.contains(r#"<details class="health-details"><summary>Technical details</summary>"#)
    );
    assert!(ko.contains(r#"<details class="health-details"><summary>기술 정보</summary>"#));
    assert!(!en.contains(r#"<details class="health-details" open>"#));
}

#[test]
fn action_rail_buttons_switch_left_pane_views() {
    let en = dashboard_html(ResolvedLanguage::En, false);

    assert!(en.contains(r#"<body class="compact" data-rail-view="overview">"#));
    assert!(en.contains("var RAIL_VIEW=storageGet('pf.rail.view')||'overview';"));
    assert!(en.contains("function setRailView(view)"));
    assert!(en.contains("function applyRailView(resetScroll)"));
    assert!(en.contains("function railView(){"));
    assert!(en.contains("return RAIL_VIEW||'overview';"));
    assert!(en.contains("RAIL_VIEW=view;"));
    assert!(en.contains(r#"id="rail-update-panel""#));
    assert!(en.contains(r#"id="rail-settings-panel""#));
    assert!(!en.contains(r#"id="rail-license-panel""#));
    assert!(!en.contains("rail-license-form"));
    assert!(!en.contains("submitLicenseInput('rail-lic-input')"));
    assert!(en.contains(r#"id="sec-cpu""#));
    assert!(en.contains(r#"id="sec-mem""#));
    assert!(en.contains(r#"id="sec-storage""#));
    assert!(en.contains(r#"id="sec-network""#));
    assert!(en.contains("case 'fan':setRailView('fan');break;"));
    assert!(en.contains("case 'settings':setRailView('settings');break;"));
    assert!(!en.contains(
        "case 'login':setRailView('login');window.ipc.postMessage('togglelogin');break;"
    ));
    assert!(!en.contains("case 'license':setRailView('license');break;"));
    assert!(en.contains("case 'system':case 'more':setRailView('system');break;"));
    assert!(en.contains("case 'update':setRailView('settings');break;"));
    assert!(!en.contains("case 'license':toggleLicForm();break;"));
}

#[test]
fn fan_view_keeps_a_stable_header_and_control_summary() {
    let en = dashboard_html(ResolvedLanguage::En, false);

    assert!(en.contains(r#"id="setup-row"#));
    assert!(en.contains(r#"id="setup-title"#));
    assert!(en.contains(r#"id="fan-inputs"#));
    assert!(en.contains(r#"id="fan-curve-input"#));
    assert!(en.contains(r#"id="fan-safety-hottest"#));
    assert!(en.contains(r#"id="fan-critical-limit"#));
    assert!(en.contains("grid-template-columns:repeat(3,minmax(0,1fr))"));
    assert!(en.contains("fan_control_state_ready"));
}

#[test]
fn settings_and_system_views_have_distinct_responsibilities() {
    let en = dashboard_html(ResolvedLanguage::En, false);

    assert!(en.contains(r#"id="rail-more-panel""#));
    assert!(en.contains(r#"id="system-loading""#));
    assert!(en.contains("Reading system metrics…"));
    assert!(en.contains("d.slow_data_ready"));
    assert!(en.contains(r#"id="railSystem""#));
    assert!(en.contains("case 'detail':setRailView('overview');break;"));
    assert!(en.contains("case 'system':case 'more':setRailView('system');break;"));
    assert!(en.contains("case 'update':setRailView('settings');break;"));
    assert!(en.contains(r#"onclick="window.ipc.postMessage('open_detail')""#));
    assert!(en.contains(r#"onclick="window.ipc.postMessage('quit')""#));
    assert_eq!(en.matches(">Open Detail Window<").count(), 1);
    assert!(en.contains("['rail-settings-panel','rail-update-panel'].forEach"));
    assert!(en.contains(
        "['rail-more-panel','sec-storage','sec-batt','sec-network','sec-procs','foot'].forEach"
    ));
    assert!(!en.contains("case 'detail':window.ipc.postMessage('open_detail');break;"));
    assert!(!en.contains("if(view==='more')setPopoverExpanded(true);"));
}

#[test]
fn system_view_reveals_low_priority_metric_sections() {
    let en = dashboard_html(ResolvedLanguage::En, false);

    assert!(en.contains(r#"body.compact[data-rail-view="system"] .compact-extra"#));
    assert!(en.contains(
        "['rail-more-panel','sec-storage','sec-batt','sec-network','sec-procs','foot'].forEach"
    ));
    assert!(en.contains(r#"data-compact-extra="storage""#));
    assert!(en.contains(r#"data-compact-extra="battery""#));
    assert!(en.contains(r#"data-compact-extra="network""#));
    assert!(en.contains(r#"data-compact-extra="processes""#));
    assert!(en.contains(">System<"));
    assert!(en.contains("Storage, battery, network, and active processes."));
}

#[test]
fn rail_view_panels_override_default_hidden_css() {
    let en = dashboard_html(ResolvedLanguage::En, false);

    assert!(en.contains(".rail-panel{display:none"));
    assert!(en.contains("if(on&&el.classList.contains('rail-panel'))el.style.display='block';"));
    assert!(!en.contains("if(el)el.style.display=on?'':'none';"));
}

#[test]
fn dashboard_sections_share_spacing_without_forced_empty_height() {
    let en = dashboard_html(ResolvedLanguage::En, false);

    assert!(en.contains("--content-x:18px;--section-y:16px;--panel-pad:18px;"));
    assert!(en.contains("padding:var(--section-y) var(--content-x)"));
    assert!(en.contains("padding:var(--panel-pad) var(--content-x)"));
    assert!(en.contains(".range-tabs{display:flex;gap:4px;padding:12px var(--content-x) 8px;"));
    assert!(en.contains(
        "#sec-mem,#sec-temp,#sec-batt,#sec-network,#sec-procs{border-top:1px solid var(--line);}"
    ));
    assert!(!en.contains(".row + .row"));
    assert!(en.contains(".main-pane{") && en.contains("contain:layout paint;"));
    assert!(en.contains(".action-rail{") && en.matches("contain:layout paint;").count() >= 2);
    assert!(!en.contains("min-height:220px"));
}

#[test]
fn dashboard_tick_renders_only_the_active_view() {
    let en = dashboard_html(ResolvedLanguage::En, false);
    let update = en
        .split("window.__pf={")
        .nth(1)
        .expect("dashboard update object")
        .split("applyPendingUpdate();")
        .next()
        .expect("dashboard update body");

    for guard in [
        "if(view==='overview')",
        "else if(view==='settings'||view==='system')",
        "else if(view==='fan')",
    ] {
        assert!(update.contains(guard));
    }
    assert_eq!(
        update
            .matches("else if(view==='settings'||view==='system')")
            .count(),
        1
    );
    assert!(en.contains("updateHealthPanel(d);"));
    assert!(!update.contains("applyRailView("));
    assert!(!update.contains("reportHeight("));
    assert!(en.contains(
        "if(window.__pf&&window.__pf.update&&window.__pf_pending)window.__pf.update(window.__pf_pending);"
    ));
    assert_eq!(en.matches("applyRailView(").count(), 2);
}

#[test]
fn fan_cards_show_manual_override_target_immediately() {
    let en = dashboard_html(ResolvedLanguage::En, false);

    assert!(en.contains("var targetPct=f.override_pct!=null?f.override_pct:f.pct;"));
    assert!(en.contains("card.dataset.curPct=targetPct;"));
    assert!(en.contains("var editRpm=useRpm?Math.round(f.min_rpm+(f.max_rpm-f.min_rpm)*targetPct/100):Math.round(targetPct);"));
    assert!(en.contains("var appliedTarget=f.target_pct==null?null:Number(f.target_pct);"));
    assert!(en.contains("f.cur_rpm+' RPM → '+targetRpm+' RPM'"));
    assert!(en.contains("var displayManual=pendingMode?pendingMode==='manual':manual;"));
    assert!(en.contains("card.querySelector('.fv').textContent=appliedTarget!=null"));
    assert!(en.contains("(LANG==='ko'?'조정 중':'adjusting')"));
    assert!(en.contains("(LANG==='ko'?'적용됨':'applied')"));
    assert!(en.contains("var daemonReadback=f.readback_status||'';"));
    assert!(en.contains("daemonReadback==='stale'"));
    assert!(en.contains("(LANG==='ko'?'응답 없음':'not responding')"));
    assert!(en.contains("if(!markFanPending(card,'auto'))return;"));
    assert!(en.contains("if(!markFanPending(card,'manual'))return;"));
}

#[test]
fn dashboard_charts_follow_the_active_color_theme() {
    let en = dashboard_html(ResolvedLanguage::En, false);

    assert!(en.contains("function cssColor(token,fallback)"));
    assert!(en.contains("cssColor('--accent','#6ea8ff')"));
    assert!(en.contains("cssColor('--y','#f4c95d')"));
    assert!(en.contains("cssColor('--g','#5dd879')"));
    assert!(!en.contains("drawChart('cpu-chart', d.cpu_hist, '#5b9dff'"));
    assert!(!en.contains("ctx.strokeStyle='#5b9dff'"));
}

#[test]
fn health_panel_uses_globally_visible_text_helper() {
    let en = dashboard_html(ResolvedLanguage::En, false);

    assert!(en.contains("setText('fan-curve-input',tempValue(d.fan_curve_input_temp_c));"));
    assert!(en.contains("setText('fan-safety-hottest',tempValue(d.fan_safety_temp_c));"));
    assert!(en.contains("setText('fan-critical-limit',tempValue(d.fan_critical_temp_c));"));
    assert!(!en.contains("set('fan-curve-input'"));
    assert!(!en.contains("set('fan-safety-hottest'"));
    assert!(!en.contains("set('fan-critical-limit'"));
}

#[test]
fn temperature_ui_marks_cached_readings_as_stale() {
    let html = dashboard_html(ResolvedLanguage::En, false);
    assert!(html.contains("d.temp_stale?' · '"));
    assert!(html.contains("t.stale?' stale':'"));
    assert!(html.contains("d.temp_stale?[]:d.temp_hist"));
    assert!(html.contains(".trow.stale"));
}

use peterfan::hardware::{fan_index, map_fan_err, CoreError, MacosProvider};
use peterfan::mock::{MockMonitor, MockProvider};
use peterfan::number::u64_to_decimal;
use peterfan::platform::{cpu_temperature_probe, fan_control_probe, toggle_login_item};
use peterfan::smc::{
    checked_read_size, checked_write_size, copied_len, fan_key, fs_key, kern_result,
    updated_force_mask, FanCtlError, RETURN_NOT_PRIVILEGED,
};

#[test]
fn control_changes_reported_rpm() {
    let mut p = MockProvider::new();
    p.set_fan_duty("fan.cpu", 100).unwrap();
    let fan = p.fans().into_iter().find(|f| f.id == "fan.cpu").unwrap();
    assert_eq!(fan.duty_percent, Some(100));
    assert_eq!(fan.rpm, fan.max_rpm.unwrap());
}

#[test]
fn unknown_fan_is_not_found() {
    let mut p = MockProvider::new();
    assert!(p.set_fan_duty("fan.nope", 50).is_err());
}

#[test]
fn mock_fans_report_rpm_from_duty() {
    let mut p = MockProvider::new();
    let fans = p.fans();
    assert_eq!(fans.len(), 2);
    assert_eq!(fans[0].id, "fan.cpu");
    assert_eq!(fans[0].label, "CPU Fan");
    assert_eq!(fans[0].rpm, 600 + 1800 * 45 / 100);
    assert_eq!(fans[1].rpm, 500 + 1700 * 38 / 100);
    assert!(fans.iter().all(|f| f.controllable));
    p.set_fan_duty("fan.gpu", 250).unwrap();
    let fans = p.fans();
    assert_eq!(fans[1].duty_percent, Some(100));
    assert_eq!(fans[1].rpm, 2200);
    assert_eq!(fans[0].duty_percent, Some(45));
    p.set_fan_duty("fan.gpu", 0).unwrap();
    assert_eq!(p.fans()[1].rpm, 500);
    assert_eq!(
        p.set_fan_duty("fan.x", 1),
        Err(CoreError::NotFound("fan id 'fan.x'".to_string()))
    );
    assert_eq!(p.name(), "mock");
    assert!(p.capabilities().control_fans);
    assert_eq!(p.hardware_info().memory, Some("32 GB".to_string()));
}

#[test]
fn mock_monitor_counts_refreshes() {
    let mut m = MockMonitor::new();
    m.refresh();
    m.refresh();
    let info = m.system_info();
    assert_eq!(info.uptime_secs, 13_320);
    assert_eq!(info.logical_cores, 8);
    assert_eq!(info.arch, "aarch64");
    assert_eq!(m.name(), "mock");
    assert!(m.capabilities().battery);
}

#[test]
fn fan_ids_map_to_smc_indexes_below_ten() {
    assert_eq!(fan_index("fan.3"), Ok(3));
    assert_eq!(fan_index("7"), Ok(7));
    assert_eq!(fan_index("fan.10"), Err(CoreError::NotFound("fan id 'fan.10'".to_string())));
    assert!(fan_index("fan.cpu").is_err());
    assert!(fan_index("fan.").is_err());
}

#[test]
fn smc_failures_become_hardware_errors() {
    assert_eq!(
        map_fan_err(FanCtlError::NotPrivileged),
        CoreError::PermissionDenied("SMC fan control requires root — re-run with `sudo`".to_string())
    );
    assert_eq!(map_fan_err(FanCtlError::Open), CoreError::Hardware("could not open AppleSMC".to_string()));
    assert_eq!(
        map_fan_err(FanCtlError::Smc(-1)),
        CoreError::Hardware("SMC write failed (code -1)".to_string())
    );
    assert_eq!(
        map_fan_err(FanCtlError::Smc(i32::MIN)),
        CoreError::Hardware("SMC write failed (code -2147483648)".to_string())
    );
}

#[test]
fn macos_backend_offers_what_the_smc_allows() {
    let p = MacosProvider { has_smc: false };
    assert!(!p.capabilities().read_fans);
    assert!(MacosProvider { has_smc: true }.capabilities().control_fans);
    assert_eq!(p.name(), "macos");
}

#[test]
fn smc_keys_are_big_endian_four_character_codes() {
    assert_eq!(fan_key(0, [b'M', b'd']), u32::from_be_bytes(*b"F0Md"));
    assert_eq!(fan_key(1, [b'T', b'g']), u32::from_be_bytes(*b"F1Tg"));
    assert_eq!(fs_key(), u32::from_be_bytes(*b"FS! "));
}

#[test]
fn force_mask_touches_only_the_named_fan() {
    assert_eq!(updated_force_mask(0b0100, 0, true), 0b0101);
    assert_eq!(updated_force_mask(0b0101, 2, false), 0b0001);
    assert_eq!(updated_force_mask(0xffff, 15, false), 0x7fff);
    assert_eq!(updated_force_mask(0, 15, true), 0x8000);
}

#[test]
fn smc_results_and_key_sizes_are_checked() {
    assert_eq!(kern_result(0), Ok(()));
    assert_eq!(kern_result(RETURN_NOT_PRIVILEGED), Err(FanCtlError::NotPrivileged));
    assert_eq!(RETURN_NOT_PRIVILEGED, 0xe000_02c1u32 as i32);
    assert_eq!(kern_result(5), Err(FanCtlError::Smc(5)));
    assert_eq!(checked_read_size(0), Err(FanCtlError::Smc(-1)));
    assert_eq!(checked_read_size(33), Err(FanCtlError::Smc(-1)));
    assert_eq!(checked_read_size(4), Ok(4));
    assert_eq!(checked_write_size(1, 4), Err(FanCtlError::Smc(-1)));
    assert_eq!(checked_write_size(4, 4), Ok(4));
    assert_eq!(copied_len(4, 2), 2);
    assert_eq!(copied_len(1, 2), 1);
}

#[test]
fn probes_are_absent_off_macos() {
    assert_eq!(fan_control_probe(), None);
    assert_eq!(cpu_temperature_probe(), None);
    assert_eq!(toggle_login_item(), "startup toggle is not available on this platform");
}

#[test]
fn decimals_have_no_leading_zeros() {
    assert_eq!(u64_to_decimal(0), "0");
    assert_eq!(u64_to_decimal(1200), "1200");
    assert_eq!(u64_to_decimal(u64::MAX), "18446744073709551615");
}

#[test]
fn mock_monitor_counters_grow_with_each_refresh() {
    let mut m = peterfan::mock::MockMonitor::new();
    let links = m.networks();
    assert_eq!(links.len(), 1);
    assert_eq!(links[0].name, "en0");
    assert_eq!((links[0].rx_total, links[0].tx_total), (4_800_000_000, 980_000_000));
    m.refresh();
    m.refresh();
    let links = m.networks();
    assert_eq!((links[0].rx_total, links[0].tx_total), (4_804_000_000, 981_000_000));
    let gib = 1024u64 * 1024 * 1024;
    assert_eq!(m.disk_byte_totals(), (1000 * gib, 612 * gib, 388 * gib));
}

#[test]
fn mock_processes_rank_by_cpu_or_memory() {
    let m = peterfan::mock::MockMonitor::new();
    let pids = |limit, sort| -> Vec<u32> { m.processes(limit, sort).iter().map(|p| p.pid).collect() };
    assert_eq!(pids(10, peterfan::messages::ProcessSort::Cpu), vec![412, 88, 901, 33, 555]);
    assert_eq!(pids(3, peterfan::messages::ProcessSort::Memory), vec![412, 901, 88]);
    assert_eq!(pids(0, peterfan::messages::ProcessSort::Cpu), Vec::<u32>::new());
    let top = m.processes(1, peterfan::messages::ProcessSort::Cpu);
    assert_eq!(top[0].name, "firefox");
    assert_eq!(top[0].cpu_tenths, 324);
    assert_eq!(top[0].memory, 1_400_000_000);
}

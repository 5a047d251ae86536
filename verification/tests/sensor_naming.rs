use peterfan::cpu::{
    cluster_counts_from_sysctl, cpu_core_class_label, cpu_core_groups_for_layout,
    m3_cpu_core_average_temp_keys, m3_cpu_core_temp_keys, m3_cpu_hotspot_temp_keys,
    m3_cpu_summary_temp_keys, CpuCoreClass, CpuCoreGroup,
};
use peterfan::sensors::{
    hid_sensor_kind, raw_temperature_row_label, runner_character_label, sensor_group_label,
    temp_sensor_id_fragment, temperature_row_label, temperature_source_label,
};
use peterfan::settings::{ResolvedLanguage, RunnerCharacter, SensorKind, TemperatureSource};

#[test]
fn temp_sensor_id_fragment_normalizes_for_stable_raw_ids() {
    assert_eq!(temp_sensor_id_fragment("PMU tdie 1 / CPU"), "pmu.tdie.1.cpu");
    assert_eq!(temp_sensor_id_fragment(""), "");
}

#[test]
fn id_fragments_drop_edge_dots_and_collapse_runs() {
    assert_eq!(temp_sensor_id_fragment("..A--B__c.."), "a.b.c");
    assert_eq!(temp_sensor_id_fragment("///"), "");
    assert_eq!(temp_sensor_id_fragment("Tdie°C 2"), "tdie.c.2");
    let once = temp_sensor_id_fragment("  NAND  CH0 temp ");
    assert_eq!(once, "nand.ch0.temp");
    assert_eq!(temp_sensor_id_fragment(&once), once);
}

#[test]
fn hid_sensor_kind_classifies_common_raw_sensor_names() {
    assert_eq!(hid_sensor_kind("CPU Performance Core 1"), SensorKind::Cpu);
    assert_eq!(hid_sensor_kind("GPU Cluster 1"), SensorKind::Gpu);
    assert_eq!(hid_sensor_kind("APPLE SSD AP1024Z"), SensorKind::Storage);
    assert_eq!(hid_sensor_kind("Battery Gas Gauge"), SensorKind::Battery);
}

#[test]
fn hid_sensor_kind_checks_words_in_priority_order() {
    assert_eq!(hid_sensor_kind("PMU tdie1"), SensorKind::Cpu);
    assert_eq!(hid_sensor_kind("DRAM temp"), SensorKind::Memory);
    assert_eq!(hid_sensor_kind("NAND CH0"), SensorKind::Storage);
    assert_eq!(hid_sensor_kind("gas gauge gpu"), SensorKind::Battery);
    assert_eq!(hid_sensor_kind("Ambient"), SensorKind::Other);
}

#[test]
fn sensor_group_labels_cover_every_sensor_kind() {
    for (kind, en, ko) in [
        (SensorKind::Cpu, "CPU", "CPU"),
        (SensorKind::Gpu, "GPU", "GPU"),
        (SensorKind::Memory, "Memory", "메모리"),
        (SensorKind::Storage, "Storage", "저장장치"),
        (SensorKind::Mainboard, "Mainboard", "메인보드"),
        (SensorKind::Battery, "Battery", "배터리"),
        (SensorKind::Other, "Other", "기타"),
    ] {
        assert_eq!(sensor_group_label(ResolvedLanguage::En, kind), en);
        assert_eq!(sensor_group_label(ResolvedLanguage::Ko, kind), ko);
    }
}

#[test]
fn raw_temperature_row_label_keeps_sensor_identity_visible() {
    assert_eq!(raw_temperature_row_label("smc.raw.TVD0", "SMC TVD0"), "SMC TVD0 · smc.raw.TVD0");
}

#[test]
fn derived_cpu_rows_have_fixed_labels() {
    assert_eq!(temperature_row_label(ResolvedLanguage::En, "cpu.die", "x"), "CPU Core Average");
    assert_eq!(temperature_row_label(ResolvedLanguage::En, "cpu.die.hot", "x"), "CPU Core Hottest");
    assert_eq!(temperature_row_label(ResolvedLanguage::Ko, "cpu.smc.die", "x"), "CPU 다이");
    assert_eq!(temperature_row_label(ResolvedLanguage::En, "cpu.smc.die", "x"), "CPU die");
    assert_eq!(temperature_row_label(ResolvedLanguage::En, "airport", "AirPort"), "AirPort");
}

#[test]
fn source_and_character_labels() {
    assert_eq!(temperature_source_label(ResolvedLanguage::Ko, TemperatureSource::Hottest), "CPU Hottest");
    assert_eq!(temperature_source_label(ResolvedLanguage::En, TemperatureSource::SmcAggregate), "SMC aggregate");
    assert_eq!(runner_character_label(ResolvedLanguage::En, RunnerCharacter::Fox), "Fox");
    assert_eq!(runner_character_label(ResolvedLanguage::Ko, RunnerCharacter::Rabbit), "토끼");
}

#[test]
fn m3_cpu_core_key_map_includes_efficiency_and_performance_cores() {
    let keys: Vec<&str> = m3_cpu_core_temp_keys().iter().map(|sensor| sensor.key).collect();

    assert!(keys.contains(&"Te05"));
    assert!(keys.contains(&"Te0S"));
    assert!(keys.contains(&"Tf04"));
    assert!(keys.contains(&"Tf4E"));
}

#[test]
fn m3_cpu_core_key_map_marks_core_classes() {
    let table = m3_cpu_core_temp_keys();
    let efficiency = table.iter().filter(|sensor| sensor.class == CpuCoreClass::Efficiency).count();
    let performance = table.iter().filter(|sensor| sensor.class == CpuCoreClass::Performance).count();

    assert_eq!(efficiency, 4);
    assert_eq!(performance, 12);
}

#[test]
fn m3_cpu_average_key_map_includes_aggregate_keys() {
    assert_eq!(m3_cpu_core_average_temp_keys(), vec!["TV0s", "TV1s", "TVsa", "TVss"]);
}

#[test]
fn m3_cpu_hotspot_key_map_includes_cpu_die_keys() {
    assert_eq!(m3_cpu_hotspot_temp_keys(), vec!["TVD0", "TCMb"]);
}

#[test]
fn summary_key_and_class_labels() {
    assert_eq!(m3_cpu_summary_temp_keys(), vec!["TCDX"]);
    assert_eq!(cpu_core_class_label(CpuCoreClass::Efficiency), "efficiency");
    assert_eq!(cpu_core_class_label(CpuCoreClass::Performance), "performance");
}

#[test]
fn cpu_core_groups_split_valid_performance_and_efficiency_layouts() {
    let usages = (0..14).map(|index| index as f32).collect::<Vec<_>>();
    let groups = cpu_core_groups_for_layout(&usages, Some((10, 4)));

    assert_eq!(groups.len(), 2);
    assert_eq!(groups[0].kind, "efficiency");
    assert_eq!(groups[0].start_index, 0);
    assert_eq!(groups[0].usages, usages[..4]);
    assert_eq!(groups[1].kind, "performance");
    assert_eq!(groups[1].start_index, 4);
    assert_eq!(groups[1].usages, usages[4..]);
}

#[test]
fn cpu_core_groups_fall_back_when_platform_counts_do_not_match() {
    let usages = vec![12.0, 34.0, 56.0, 78.0];
    let groups = cpu_core_groups_for_layout(&usages, Some((8, 2)));

    assert_eq!(groups, vec![CpuCoreGroup { kind: "logical", start_index: 0, usages }]);
}

#[test]
fn cpu_core_groups_need_both_clusters() {
    let usages = vec![1u8, 2, 3];
    assert_eq!(cpu_core_groups_for_layout(&usages, Some((3, 0)))[0].kind, "logical");
    assert_eq!(cpu_core_groups_for_layout(&usages, None)[0].kind, "logical");
    assert_eq!(cpu_core_groups_for_layout(&usages, Some((usize::MAX, 2)))[0].kind, "logical");
}

#[test]
fn sysctl_cluster_counts_are_read_by_name() {
    assert_eq!(
        cluster_counts_from_sysctl("Performance\n10\nEfficiency\n4\n"),
        Some((10, 4))
    );
    assert_eq!(
        cluster_counts_from_sysctl("  efficiency \r\n\n 6\nPERFORMANCE\n  12  \n"),
        Some((12, 6))
    );
    assert_eq!(cluster_counts_from_sysctl("Performance\n10\n"), None);
    assert_eq!(cluster_counts_from_sysctl("Performance\nten\nEfficiency\n4\n"), None);
    assert_eq!(cluster_counts_from_sysctl("Big\n10\nLittle\n4\n"), None);
}

#[test]
fn temperature_row_labels_call_out_average_and_hottest() {
    let row = |lang, id: &str| temperature_row_label(lang, id, id);

    assert_eq!(row(ResolvedLanguage::Ko, "cpu.smc.die"), "CPU 다이");
    assert_eq!(row(ResolvedLanguage::En, "cpu.smc.die"), "CPU die");
    assert_eq!(row(ResolvedLanguage::Ko, "cpu.die"), "CPU Core Average");
    assert_eq!(row(ResolvedLanguage::En, "cpu.die"), "CPU Core Average");
    assert_eq!(row(ResolvedLanguage::Ko, "cpu.die.hot"), "CPU Core Hottest");
    assert_eq!(row(ResolvedLanguage::En, "cpu.die.hot"), "CPU Core Hottest");
    assert_eq!(row(ResolvedLanguage::Ko, "airport"), "airport");
}

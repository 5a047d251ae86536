use peterfan::float_order::float_order_key;
use peterfan::selection::{
    average_cpu_non_hot, best_cpu_average, display_temperature, display_temperature_source,
    display_temperature_source_for_temps, hottest_temperature, primary_menu_temperature, LabelHint,
    SelectedTemperature, TempReading,
};
use peterfan::settings::{ResolvedLanguage, SensorKind, TemperatureSource};

struct Temps {
    readings: Vec<TempReading>,
    values: Vec<f32>,
}

fn temps(list: &[(&str, SensorKind, f32)]) -> Temps {
    Temps {
        readings: list
            .iter()
            .map(|(id, kind, value)| TempReading {
                id: id.to_string(),
                kind: *kind,
                order: float_order_key(value.to_bits()),
            })
            .collect(),
        values: list.iter().map(|(_, _, v)| *v).collect(),
    }
}

fn value_of(t: &Temps, sel: &SelectedTemperature) -> f32 {
    let picked: Vec<f32> = sel.readings.iter().map(|i| t.values[*i]).collect();
    picked.iter().sum::<f32>() / picked.len() as f32
}

fn primary(t: &Temps, source: TemperatureSource) -> Option<(String, f32)> {
    primary_menu_temperature(&t.readings, source).map(|s| (s.id.clone(), value_of(t, &s)))
}

fn selected_temp(id: &str, label_hint: Option<LabelHint>) -> SelectedTemperature {
    SelectedTemperature { id: id.to_string(), readings: vec![0], label_hint }
}

#[test]
fn display_temperature_prefers_cpu_average_over_hottest() {
    let t = temps(&[
        ("cpu.die", SensorKind::Cpu, 52.0),
        ("cpu.die.hot", SensorKind::Cpu, 67.0),
        ("ssd", SensorKind::Storage, 70.0),
    ]);
    assert_eq!(
        display_temperature(&t.readings).map(|i| t.readings[i].id.as_str()),
        Some("cpu.die")
    );
    assert_eq!(
        hottest_temperature(&t.readings).map(|i| t.readings[i].id.as_str()),
        Some("ssd")
    );
}

#[test]
fn display_temperature_falls_back_to_hottest_without_cpu_average() {
    let t = temps(&[("battery", SensorKind::Battery, 33.0), ("airport", SensorKind::Other, 45.0)]);
    assert_eq!(
        display_temperature(&t.readings).map(|i| t.readings[i].id.as_str()),
        Some("airport")
    );
}

#[test]
fn primary_menu_temperature_prefers_calibrated_cpu_headline_over_raw_hottest() {
    let t = temps(&[
        ("cpu.die", SensorKind::Cpu, 87.0),
        ("cpu.die.hot", SensorKind::Cpu, 97.0),
        ("ssd", SensorKind::Storage, 41.0),
    ]);
    assert_eq!(
        primary(&t, TemperatureSource::CoreAverage),
        Some(("cpu.die".to_string(), 87.0))
    );
}

#[test]
fn primary_menu_temperature_prefers_cpu_headline_for_average_mode() {
    let t = temps(&[
        ("cpu.die", SensorKind::Cpu, 85.0),
        ("cpu.smc.die", SensorKind::Cpu, 83.0),
        ("cpu.smc.aggregate", SensorKind::Cpu, 74.0),
        ("cpu.smc.summary", SensorKind::Cpu, 63.0),
        ("cpu.iohid.tdie", SensorKind::Cpu, 50.0),
        ("cpu.die.hot", SensorKind::Cpu, 86.0),
    ]);
    assert_eq!(
        primary(&t, TemperatureSource::CoreAverage).map(|(id, v)| (id, (v * 10.0).round() / 10.0)),
        Some(("cpu.die".to_string(), 85.0))
    );
}

#[test]
fn primary_menu_temperature_uses_hottest_stable_average_without_cpu_die() {
    let t = temps(&[
        ("cpu.smc.aggregate", SensorKind::Cpu, 72.0),
        ("cpu.smc.summary", SensorKind::Cpu, 85.0),
        ("cpu.iohid.tdie", SensorKind::Cpu, 50.0),
        ("cpu.die.hot", SensorKind::Cpu, 101.0),
    ]);
    assert_eq!(
        primary(&t, TemperatureSource::CoreAverage),
        Some(("cpu.smc.summary".to_string(), 85.0))
    );
}

#[test]
fn primary_menu_temperature_honors_configured_source() {
    let t = temps(&[
        ("cpu.die", SensorKind::Cpu, 58.0),
        ("cpu.die.hot", SensorKind::Cpu, 76.0),
        ("cpu.iohid.cpu", SensorKind::Cpu, 79.0),
        ("cpu.iohid.tdie", SensorKind::Cpu, 55.0),
        ("cpu.smc.summary", SensorKind::Cpu, 63.0),
        ("cpu.smc.aggregate", SensorKind::Cpu, 74.0),
    ]);
    let id = |t: &Temps, source| primary(t, source).map(|(id, _)| id);
    assert_eq!(id(&t, TemperatureSource::IohidTdie), Some("cpu.iohid.tdie".to_string()));
    let without_tdie = temps(&[
        ("cpu.die", SensorKind::Cpu, 58.0),
        ("cpu.die.hot", SensorKind::Cpu, 76.0),
        ("cpu.iohid.cpu", SensorKind::Cpu, 79.0),
        ("cpu.smc.summary", SensorKind::Cpu, 63.0),
        ("cpu.smc.aggregate", SensorKind::Cpu, 74.0),
    ]);
    assert_eq!(id(&without_tdie, TemperatureSource::IohidTdie), Some("cpu.iohid.cpu".to_string()));
    let source_fallback = temps(&[
        ("cpu.die", SensorKind::Cpu, 58.0),
        ("cpu.iohid.cpu", SensorKind::Cpu, 79.0),
        ("cpu.smc.summary", SensorKind::Cpu, 63.0),
        ("cpu.smc.aggregate", SensorKind::Cpu, 74.0),
    ]);
    assert_eq!(
        id(&source_fallback, TemperatureSource::IohidTdie),
        Some("cpu.iohid.cpu".to_string())
    );
    assert_eq!(id(&t, TemperatureSource::SmcAggregate), Some("cpu.smc.aggregate".to_string()));
    assert_eq!(id(&t, TemperatureSource::Hottest), Some("cpu.die.hot".to_string()));
}

#[test]
fn display_temperature_source_labels_cpu_average() {
    let cpu = selected_temp("cpu.smc.die", None);
    let iohide = selected_temp("cpu.iohid.tdie", None);
    let iohide_cpu = selected_temp("cpu.iohid.cpu", None);
    let aggregate = selected_temp("cpu.smc.aggregate", None);
    let hot = selected_temp("cpu.die.hot", None);
    let airport = selected_temp("airport", None);

    assert_eq!(display_temperature_source(ResolvedLanguage::Ko, Some(&cpu)), "CPU 다이");
    assert_eq!(display_temperature_source(ResolvedLanguage::En, Some(&cpu)), "CPU die");
    assert_eq!(display_temperature_source(ResolvedLanguage::Ko, Some(&iohide)), "CPU 다이");
    assert_eq!(display_temperature_source(ResolvedLanguage::En, Some(&iohide)), "CPU Tdie");
    assert_eq!(display_temperature_source(ResolvedLanguage::Ko, Some(&iohide_cpu)), "CPU 다이");
    assert_eq!(
        display_temperature_source(ResolvedLanguage::En, Some(&iohide_cpu)),
        "CPU IOHID CPU"
    );
    assert_eq!(display_temperature_source(ResolvedLanguage::Ko, Some(&aggregate)), "SMC 집계");
    assert_eq!(
        display_temperature_source(ResolvedLanguage::En, Some(&aggregate)),
        "SMC aggregate"
    );
    assert_eq!(display_temperature_source(ResolvedLanguage::Ko, Some(&hot)), "최고");
    assert_eq!(display_temperature_source(ResolvedLanguage::En, Some(&airport)), "airport");
    assert!(display_temperature_source(ResolvedLanguage::Ko, None).is_empty());
}

#[test]
fn display_temperature_source_labels_raw_cpu_sensor_set_as_average() {
    let t = temps(&[
        ("cpu.core.1", SensorKind::Cpu, 40.0),
        ("cpu.core.2", SensorKind::Cpu, 60.0),
        ("ssd", SensorKind::Storage, 80.0),
    ]);
    let display = selected_temp("ssd", None);
    assert_eq!(
        display_temperature_source_for_temps(ResolvedLanguage::Ko, &t.readings, Some(&display)),
        "ssd"
    );
    assert_eq!(
        display_temperature_source_for_temps(ResolvedLanguage::En, &t.readings, Some(&display)),
        "ssd"
    );
}

#[test]
fn windows_acpi_temperature_is_labeled_as_system_not_cpu() {
    let selected = selected_temp("system.acpi.thermal_zone.0", Some(LabelHint::System));
    assert_eq!(
        display_temperature_source(ResolvedLanguage::En, Some(&selected)),
        "System thermal zone"
    );
    assert_eq!(
        display_temperature_source(ResolvedLanguage::Ko, Some(&selected)),
        "시스템 열 영역"
    );
}

#[test]
fn cpu_average_is_the_mean_of_plain_cpu_readings_when_no_headline_exists() {
    let t = temps(&[
        ("cpu.core.1", SensorKind::Cpu, 40.0),
        ("cpu.core.2", SensorKind::Cpu, 60.0),
        ("cpu.core.hot", SensorKind::Cpu, 99.0),
        ("cpu.proximity", SensorKind::Cpu, 30.0),
        ("cpu.core.3", SensorKind::Cpu, f32::NAN),
        ("ssd", SensorKind::Storage, 80.0),
    ]);
    assert_eq!(average_cpu_non_hot(&t.readings), Some(vec![0, 1]));
    let sel = best_cpu_average(&t.readings).unwrap();
    assert_eq!(sel.id, "cpu.die");
    assert_eq!(sel.label_hint, Some(LabelHint::CpuAverage));
    assert_eq!(value_of(&t, &sel), 50.0);
    assert_eq!(display_temperature_source(ResolvedLanguage::En, Some(&sel)), "CPU Core Average");
}

#[test]
fn cpu_average_falls_back_to_the_hottest_cpu_reading() {
    let t = temps(&[
        ("cpu.core.hot", SensorKind::Cpu, 91.0),
        ("cpu.board", SensorKind::Cpu, 44.0),
        ("ssd", SensorKind::Storage, 95.0),
    ]);
    assert_eq!(average_cpu_non_hot(&t.readings), None);
    let sel = best_cpu_average(&t.readings).unwrap();
    assert_eq!(sel.id, "cpu.core.hot");
    assert_eq!(sel.label_hint, Some(LabelHint::Hottest));
    assert_eq!(display_temperature_source(ResolvedLanguage::Ko, Some(&sel)), "최고");
}

#[test]
fn missing_source_falls_back_to_the_hottest_reading_of_all() {
    let t = temps(&[("battery", SensorKind::Battery, 33.0), ("ssd", SensorKind::Storage, 48.0)]);
    let sel = primary_menu_temperature(&t.readings, TemperatureSource::SmcSummary).unwrap();
    assert_eq!(sel.id, "ssd");
    assert_eq!(sel.label_hint, Some(LabelHint::System));
    assert!(primary_menu_temperature(&t.readings, TemperatureSource::CoreAverage).is_none());
    assert!(primary_menu_temperature(&Vec::new(), TemperatureSource::Hottest).is_none());
}

#[test]
fn hottest_source_renames_any_hot_cpu_reading() {
    let t = temps(&[("cpu.iohid.tdie.hot", SensorKind::Cpu, 77.0), ("cpu.die", SensorKind::Cpu, 60.0)]);
    let sel = primary_menu_temperature(&t.readings, TemperatureSource::Hottest).unwrap();
    assert_eq!(sel.id, "cpu.die.hot");
    assert_eq!(sel.readings, vec![0]);
    assert_eq!(sel.label_hint, None);
}

#[test]
fn equal_temperatures_go_to_the_later_reading() {
    let t = temps(&[("a", SensorKind::Other, 50.0), ("b", SensorKind::Other, 50.0)]);
    assert_eq!(hottest_temperature(&t.readings), Some(1));
    let z = temps(&[("plus", SensorKind::Other, 0.0), ("minus", SensorKind::Other, -0.0)]);
    assert_eq!(hottest_temperature(&z.readings), Some(1));
}

#[test]
fn float_order_keys_compare_like_the_numbers() {
    let values = [f32::NEG_INFINITY, -12.5, -1.0, -0.0, 0.0, 1.0e-30, 1.0, 12.5, 99.0, f32::INFINITY];
    let keys: Vec<u64> = values.iter().map(|v| float_order_key(v.to_bits()).unwrap()).collect();
    for i in 0..values.len() {
        for j in 0..values.len() {
            assert_eq!(keys[i] < keys[j], values[i] < values[j], "{} vs {}", values[i], values[j]);
            assert_eq!(keys[i] == keys[j], values[i] == values[j]);
        }
    }
    assert_eq!(float_order_key(0.0f32.to_bits()), Some(0x8000_0000));
    assert_eq!(float_order_key((-0.0f32).to_bits()), Some(0x8000_0000));
    assert_eq!(float_order_key(1.0f32.to_bits()), Some(0x8000_0000 + 0x3f80_0000));
    assert_eq!(float_order_key(f32::NAN.to_bits()), None);
}

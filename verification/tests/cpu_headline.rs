use peterfan::cpu::CpuCoreClass;
use peterfan::cpu_headline::{cpu_average_family, cpu_hot_key, CpuFamily};
use peterfan::float_order::{float_bits_of_key, float_order_key};

struct CpuCoreTemp {
    class: CpuCoreClass,
    temp: f32,
}

fn core_at(class: CpuCoreClass, temp: f32) -> CpuCoreTemp {
    CpuCoreTemp { class, temp }
}

fn keys(values: &[f32]) -> Vec<Option<u64>> {
    values.iter().map(|v| float_order_key(v.to_bits())).collect()
}

fn mean(values: &[f32]) -> f32 {
    values.iter().sum::<f32>() / values.len() as f32
}

/// The CPU average and hottest reading, with the library choosing the family
/// and the hottest reading; only the mean is taken here.
fn average_and_hot(
    cores: &[CpuCoreTemp],
    summary: &[f32],
    aggregate: &[f32],
    hotspot: &[f32],
) -> Option<(f32, f32)> {
    let classes: Vec<CpuCoreClass> = cores.iter().map(|c| c.class).collect();
    let all: Vec<f32> = cores.iter().map(|c| c.temp).collect();
    let performance: Vec<f32> =
        cores.iter().filter(|c| c.class == CpuCoreClass::Performance).map(|c| c.temp).collect();
    let family = cpu_average_family(&classes, aggregate.len(), summary.len(), hotspot.len())?;
    let avg = mean(match family {
        CpuFamily::Performance => &performance,
        CpuFamily::AllCores => &all,
        CpuFamily::Aggregate => aggregate,
        CpuFamily::Summary => summary,
        CpuFamily::Hotspot => hotspot,
    });
    let hot = match cpu_hot_key(
        float_order_key(avg.to_bits()),
        &keys(&all),
        &keys(summary),
        &keys(hotspot),
    ) {
        Some(k) => f32::from_bits(float_bits_of_key(k)),
        None => avg,
    };
    Some((avg, hot))
}

fn four_cores() -> Vec<CpuCoreTemp> {
    vec![
        core_at(CpuCoreClass::Efficiency, 60.0),
        core_at(CpuCoreClass::Efficiency, 62.0),
        core_at(CpuCoreClass::Performance, 74.0),
        core_at(CpuCoreClass::Performance, 78.0),
    ]
}

#[test]
fn apple_silicon_cpu_temperature_uses_live_core_when_hotspot_is_inactive() {
    assert_eq!(average_and_hot(&four_cores(), &[72.0], &[74.0, 76.0], &[64.0, 66.0]), Some((76.0, 78.0)));
}

#[test]
fn apple_silicon_cpu_average_stays_on_core_average_when_summary_is_hotter() {
    let cores = vec![core_at(CpuCoreClass::Efficiency, 60.0), core_at(CpuCoreClass::Performance, 78.0)];
    assert_eq!(average_and_hot(&cores, &[82.0], &[74.0, 76.0], &[]), Some((78.0, 82.0)));
}

#[test]
fn apple_silicon_cpu_temperature_keeps_hotspot_out_of_average() {
    let cores = vec![core_at(CpuCoreClass::Efficiency, 60.0), core_at(CpuCoreClass::Performance, 78.0)];
    assert_eq!(average_and_hot(&cores, &[72.0], &[74.0, 76.0], &[84.0, 86.0]), Some((78.0, 86.0)));
}

#[test]
fn apple_silicon_cpu_average_uses_aggregate_without_summary_key() {
    assert_eq!(average_and_hot(&four_cores(), &[], &[74.0, 76.0], &[]), Some((76.0, 78.0)));
}

#[test]
fn apple_silicon_cpu_average_falls_back_to_aggregate_without_core_keys() {
    assert_eq!(average_and_hot(&[], &[], &[74.0], &[]), Some((74.0, 74.0)));
}

#[test]
fn apple_silicon_cpu_average_uses_all_cores_without_aggregate_keys() {
    assert_eq!(average_and_hot(&four_cores(), &[], &[], &[]), Some((76.0, 78.0)));
}

#[test]
fn apple_silicon_cpu_average_falls_back_to_all_cores_without_performance_keys() {
    let cores = vec![core_at(CpuCoreClass::Efficiency, 60.0), core_at(CpuCoreClass::Efficiency, 62.0)];
    assert_eq!(average_and_hot(&cores, &[], &[], &[]), Some((61.0, 62.0)));
}

#[test]
fn no_readings_give_no_headline() {
    assert_eq!(cpu_average_family(&Vec::new(), 0, 0, 0), None);
    assert_eq!(cpu_average_family(&Vec::new(), 0, 0, 2), Some(CpuFamily::Hotspot));
    assert_eq!(cpu_average_family(&Vec::new(), 0, 1, 2), Some(CpuFamily::Summary));
}

#[test]
fn hotspot_counts_only_from_seventy_degrees() {
    let avg = float_order_key(50.0f32.to_bits());
    let hot = |spot: f32| {
        cpu_hot_key(avg, &Vec::new(), &Vec::new(), &keys(&[spot]))
            .map(|k| f32::from_bits(float_bits_of_key(k)))
    };
    assert_eq!(hot(69.9), Some(50.0));
    assert_eq!(hot(70.0), Some(70.0));
    assert_eq!(cpu_hot_key(None, &Vec::new(), &Vec::new(), &Vec::new()), None);
}

#[test]
fn keys_give_their_numbers_back() {
    for v in [-40.5f32, -0.0, 0.0, 1.5e-7, 70.0, 1234.25, f32::INFINITY] {
        let k = float_order_key(v.to_bits()).unwrap();
        assert_eq!(f32::from_bits(float_bits_of_key(k)), v);
    }
}

use peterfan::control::FanOverrides;
use peterfan::local_control::{apply_local, is_profile_name};
use peterfan::mock::MockProvider;

#[test]
fn apply_local_handles_hold_preset() {
    let mut provider = MockProvider::new();
    let mut pins = FanOverrides::new();
    let result = apply_local(&mut provider, &mut pins, "hold:50", None);
    assert!(result.contains("applied locally"), "expected success, got: {result}");
    let fans = provider.fans();
    assert!(fans.iter().all(|f| f.duty_percent == Some(50)));
}

#[test]
fn apply_local_rejects_bad_percent() {
    let mut provider = MockProvider::new();
    let mut pins = FanOverrides::new();
    let result = apply_local(&mut provider, &mut pins, "hold:notanumber", None);
    assert_eq!(result, "invalid percent");
}

#[test]
fn apply_local_still_handles_auto_and_profile() {
    let mut provider = MockProvider::new();
    let mut pins = FanOverrides::new();
    assert!(apply_local(&mut provider, &mut pins, "auto", None).contains("applied locally"));
    // The duty a trustworthy temperature gives on the profile's curve.
    assert!(apply_local(&mut provider, &mut pins, "profile:balanced", Some(35))
        .contains("applied locally"));
    assert_eq!(apply_local(&mut provider, &mut pins, "bogus", None), "unknown command");
}

#[test]
fn apply_local_fanhold_remembers_pin_without_a_daemon() {
    let mut provider = MockProvider::new();
    let mut pins = FanOverrides::new();
    let fan_id = provider.fans()[0].id.clone();

    let result = apply_local(&mut provider, &mut pins, &format!("fanhold:{fan_id}:30"), None);
    assert!(result.contains("applied locally"), "unexpected: {result}");
    assert_eq!(pins.get(&fan_id), Some(30));

    apply_local(&mut provider, &mut pins, &format!("fanauto:{fan_id}"), None);
    assert_eq!(pins.get(&fan_id), None);

    apply_local(&mut provider, &mut pins, &format!("fanhold:{fan_id}:30"), None);
    apply_local(&mut provider, &mut pins, "auto", None);
    assert!(pins.is_empty());
}

#[test]
fn hold_answers_with_its_label_and_clears_pins() {
    let mut provider = MockProvider::new();
    let mut pins = FanOverrides::new();
    pins.set("fan.gpu", Some(70));
    assert_eq!(apply_local(&mut provider, &mut pins, "hold:250", None), "hold 100% — applied locally");
    assert!(provider.fans().iter().all(|f| f.duty_percent == Some(100)));
    assert!(pins.is_empty());
}

#[test]
fn per_fan_hold_touches_one_fan() {
    let mut provider = MockProvider::new();
    let mut pins = FanOverrides::new();
    assert_eq!(
        apply_local(&mut provider, &mut pins, "fanhold:fan.gpu:80", None),
        "fan.gpu hold 80% — applied locally"
    );
    let fans = provider.fans();
    assert_eq!(fans[0].duty_percent, Some(45));
    assert_eq!(fans[1].duty_percent, Some(80));
    assert_eq!(pins.get("fan.gpu"), Some(80));
}

#[test]
fn unknown_fan_is_reported_and_changes_nothing() {
    let mut provider = MockProvider::new();
    let mut pins = FanOverrides::new();
    assert_eq!(
        apply_local(&mut provider, &mut pins, "fanhold:fan.nope:10", None),
        "error: not found: fan id 'fan.nope'"
    );
    assert_eq!(
        apply_local(&mut provider, &mut pins, "fanauto:fan.nope", None),
        "error: not found: fan id 'fan.nope'"
    );
    let fans = provider.fans();
    assert_eq!(fans[0].duty_percent, Some(45));
    assert_eq!(fans[1].duty_percent, Some(38));
    assert!(pins.is_empty());
}

#[test]
fn profiles_need_a_known_name_and_a_temperature() {
    let mut provider = MockProvider::new();
    let mut pins = FanOverrides::new();
    pins.set("fan.cpu", Some(60));
    assert_eq!(apply_local(&mut provider, &mut pins, "profile:turbo", Some(50)), "unknown profile");
    assert_eq!(
        apply_local(&mut provider, &mut pins, "profile:silent", None),
        "profile not applied: no trustworthy temperature"
    );
    assert_eq!(pins.get("fan.cpu"), Some(60));
    assert_eq!(
        apply_local(&mut provider, &mut pins, "profile:gaming", Some(62)),
        "gaming (62%) — applied locally"
    );
    assert!(provider.fans().iter().all(|f| f.duty_percent == Some(62)));
    assert!(pins.is_empty());
    assert!(is_profile_name("maximum"));
    assert!(!is_profile_name("Maximum"));
}

#[test]
fn fanhold_without_percent_is_refused() {
    let mut provider = MockProvider::new();
    let mut pins = FanOverrides::new();
    assert_eq!(
        apply_local(&mut provider, &mut pins, "fanhold:fan.cpu", None),
        "fanhold requires <fan_id>:<percent>"
    );
}

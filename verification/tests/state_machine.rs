use silod::event::Event;
use silod::supply::{classify, Sample, Supply};

fn sample(capacity: u32, critical_pct: u32, online: bool, status: &str) -> Sample {
    Sample { capacity, critical_pct, online, status: status.as_bytes().to_vec() }
}

/// A `change` notification payload for `device` carrying one full sample.
fn payload(device: &str, capacity: u32, critical_pct: u32, online: bool, status: &str) -> Vec<u8> {
    let mut p = Vec::new();
    p.extend_from_slice(format!("change@/devices/platform/{device}").as_bytes());
    for field in [
        "ACTION=change".to_string(),
        format!("POWER_SUPPLY_NAME={device}"),
        format!("POWER_SUPPLY_CAPACITY={capacity}"),
        format!("POWER_SUPPLY_CAPACITY_ALERT_MIN={critical_pct}"),
        format!("POWER_SUPPLY_ONLINE={}", if online { 1 } else { 0 }),
        format!("POWER_SUPPLY_STATUS={status}"),
    ] {
        p.push(0);
        p.extend_from_slice(field.as_bytes());
    }
    p
}

#[test]
fn critical_overrides_everything_below_threshold() {
    for last in [
        Event::PowerFail,
        Event::PowerRestored,
        Event::FullyCharged,
        Event::Critical,
        Event::NoChange,
    ] {
        for online in [false, true] {
            for status in ["Full", "Discharging", ""] {
                assert_eq!(classify(last, &sample(9, 10, online, status)), Event::Critical);
            }
        }
    }
}

#[test]
fn critical_does_not_apply_during_initial_charge() {
    assert_eq!(classify(Event::InitialCharge, &sample(5, 10, false, "Discharging")), Event::PowerFail);
    assert_eq!(classify(Event::InitialCharge, &sample(5, 10, true, "Discharging")), Event::NoChange);
}

#[test]
fn starting_state_is_initial_charge() {
    let s = Supply::new(b"silo".to_vec());
    assert_eq!(s.last_event, Event::InitialCharge);
    assert_eq!(s.driver_name, b"silo".to_vec());
}

#[test]
fn first_classification_from_initial_charge() {
    assert_eq!(classify(Event::InitialCharge, &sample(100, 10, true, "Charging")), Event::FullyCharged);
    assert_eq!(classify(Event::InitialCharge, &sample(70, 10, true, "Full")), Event::FullyCharged);
    assert_eq!(classify(Event::InitialCharge, &sample(70, 10, false, "Discharging")), Event::PowerFail);
    assert_eq!(classify(Event::InitialCharge, &sample(70, 10, true, "Charging")), Event::NoChange);
}

#[test]
fn charge_story_transitions() {
    assert_eq!(classify(Event::FullyCharged, &sample(100, 10, true, "Full")), Event::NoChange);
    assert_eq!(classify(Event::FullyCharged, &sample(95, 10, false, "Discharging")), Event::PowerFail);
    assert_eq!(classify(Event::PowerFail, &sample(60, 10, true, "Charging")), Event::PowerRestored);
    assert_eq!(classify(Event::PowerFail, &sample(60, 10, false, "Discharging")), Event::NoChange);
    assert_eq!(classify(Event::PowerRestored, &sample(100, 10, true, "Full")), Event::FullyCharged);
    assert_eq!(classify(Event::PowerRestored, &sample(99, 10, true, "Charging")), Event::NoChange);
    assert_eq!(classify(Event::PowerRestored, &sample(99, 10, false, "Discharging")), Event::PowerFail);
}

#[test]
fn critical_state_falls_through_to_no_change() {
    assert_eq!(classify(Event::Critical, &sample(50, 10, true, "Charging")), Event::NoChange);
    assert_eq!(classify(Event::Critical, &sample(50, 10, false, "Discharging")), Event::NoChange);
}

#[test]
fn no_change_samples_never_mutate_history() {
    let mut s = Supply::new(b"silo".to_vec());
    // Three consecutive samples that classify as NoChange from InitialCharge.
    for _ in 0..3 {
        let ev = s
            .handle_notification(&payload("silo", 70, 10, true, "Charging"))
            .unwrap()
            .unwrap();
        assert_eq!(ev, Event::NoChange);
        assert_eq!(s.last_event, Event::InitialCharge);
    }
    // A sample that produces PowerFail from InitialCharge still does so.
    let ev = s
        .handle_notification(&payload("silo", 70, 10, false, "Discharging"))
        .unwrap()
        .unwrap();
    assert_eq!(ev, Event::PowerFail);
    assert_eq!(s.last_event, Event::PowerFail);
}

#[test]
fn meaningful_events_are_recorded() {
    let mut s = Supply::new(b"silo".to_vec());
    let ev = s
        .handle_notification(&payload("silo", 100, 10, true, "Full"))
        .unwrap()
        .unwrap();
    assert_eq!(ev, Event::FullyCharged);
    assert_eq!(s.last_event, Event::FullyCharged);
    let ev = s
        .handle_notification(&payload("silo", 80, 10, false, "Discharging"))
        .unwrap()
        .unwrap();
    assert_eq!(ev, Event::PowerFail);
    assert_eq!(s.last_event, Event::PowerFail);
    // Below threshold now: Critical on every subsequent sample.
    let ev = s
        .handle_notification(&payload("silo", 5, 10, false, "Discharging"))
        .unwrap()
        .unwrap();
    assert_eq!(ev, Event::Critical);
    let ev = s
        .handle_notification(&payload("silo", 6, 10, true, "Charging"))
        .unwrap()
        .unwrap();
    assert_eq!(ev, Event::Critical);
    assert_eq!(s.last_event, Event::Critical);
}

#[test]
fn event_names() {
    assert_eq!(Event::NoChange.as_str(), "NoChange");
    assert_eq!(Event::PowerFail.as_str(), "PowerFail");
    assert_eq!(Event::PowerRestored.as_str(), "PowerRestored");
    assert_eq!(Event::FullyCharged.as_str(), "FullyCharged");
    assert_eq!(Event::InitialCharge.as_str(), "InitialCharge");
    assert_eq!(Event::Critical.as_str(), "Critical");
}

#[test]
fn script_subdirs() {
    assert_eq!(Event::PowerFail.script_subdir(), Some("power-fail"));
    assert_eq!(Event::PowerRestored.script_subdir(), Some("power-restored"));
    assert_eq!(Event::FullyCharged.script_subdir(), Some("fully-charged"));
    assert_eq!(Event::Critical.script_subdir(), Some("critical"));
    assert_eq!(Event::InitialCharge.script_subdir(), None);
    assert_eq!(Event::NoChange.script_subdir(), None);
}

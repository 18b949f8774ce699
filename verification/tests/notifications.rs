use silod::Error;
use silod::event::Event;
use silod::supply::Supply;
use silod::uevent::{env_lookup, matches_notification, read_sample};

fn join_nul(segments: &[&[u8]]) -> Vec<u8> {
    let mut p = Vec::new();
    for (i, seg) in segments.iter().enumerate() {
        if i > 0 {
            p.push(0);
        }
        p.extend_from_slice(seg);
    }
    p
}

fn full_payload(action: &str, device: &str) -> Vec<u8> {
    join_nul(&[
        format!("{action}@/devices/platform/{device}").as_bytes(),
        format!("ACTION={action}").as_bytes(),
        format!("POWER_SUPPLY_NAME={device}").as_bytes(),
        b"POWER_SUPPLY_CAPACITY=80",
        b"POWER_SUPPLY_CAPACITY_ALERT_MIN=10",
        b"POWER_SUPPLY_ONLINE=1",
        b"POWER_SUPPLY_STATUS=Charging",
    ])
}

#[test]
fn wrong_action_does_not_unblock() {
    let mut s = Supply::new(b"silo".to_vec());
    let r = s.handle_notification(&full_payload("add", "silo")).unwrap();
    assert_eq!(r, None);
    assert_eq!(s.last_event, Event::InitialCharge);
}

#[test]
fn wrong_device_does_not_unblock() {
    let mut s = Supply::new(b"silo".to_vec());
    let r = s.handle_notification(&full_payload("change", "BAT0")).unwrap();
    assert_eq!(r, None);
    assert_eq!(s.last_event, Event::InitialCharge);
}

#[test]
fn matching_combination_unblocks() {
    let mut s = Supply::new(b"silo".to_vec());
    let r = s.handle_notification(&full_payload("change", "silo")).unwrap();
    assert_eq!(r, Some(Event::NoChange));
}

#[test]
fn filter_requires_both_fields() {
    assert!(matches_notification(&full_payload("change", "silo"), b"silo"));
    assert!(!matches_notification(&full_payload("add", "silo"), b"silo"));
    assert!(!matches_notification(&full_payload("remove", "silo"), b"silo"));
    assert!(!matches_notification(&full_payload("change", "ac0"), b"silo"));
    assert!(!matches_notification(b"garbage with no separators", b"silo"));
    assert!(!matches_notification(b"", b"silo"));
}

#[test]
fn malformed_segments_are_ignored_not_fatal() {
    // An invalid-UTF8 segment and a key-less segment are skipped; the
    // well-formed fields still decide.
    let p = join_nul(&[
        b"change@/devices/platform/silo",
        &[0xff, 0xfe, 0x80],
        b"no-equals-sign",
        b"ACTION=change",
        b"POWER_SUPPLY_NAME=silo",
    ]);
    assert!(matches_notification(&p, b"silo"));
}

#[test]
fn last_occurrence_of_a_key_wins() {
    let p = join_nul(&[b"ACTION=add", b"ACTION=change", b"POWER_SUPPLY_NAME=silo"]);
    assert!(matches_notification(&p, b"silo"));
    let v = env_lookup(&p, b"ACTION").unwrap();
    assert_eq!(v, b"change".to_vec());
}

#[test]
fn env_lookup_finds_values() {
    let p = full_payload("change", "silo");
    assert_eq!(env_lookup(&p, b"POWER_SUPPLY_CAPACITY"), Some(b"80".to_vec()));
    assert_eq!(env_lookup(&p, b"POWER_SUPPLY_STATUS"), Some(b"Charging".to_vec()));
    assert_eq!(env_lookup(&p, b"POWER_SUPPLY_VOLTAGE_NOW"), None);
    // A key is not matched by its own prefix or extension.
    assert_eq!(env_lookup(&p, b"POWER_SUPPLY"), None);
    assert_eq!(env_lookup(&p, b"POWER_SUPPLY_CAPACITY_X"), None);
}

#[test]
fn read_sample_extracts_all_fields() {
    let s = read_sample(&full_payload("change", "silo")).unwrap();
    assert_eq!(s.capacity, 80);
    assert_eq!(s.critical_pct, 10);
    assert!(s.online);
    assert_eq!(s.status, b"Charging".to_vec());
}

#[test]
fn read_sample_offline_flag() {
    let p = join_nul(&[
        b"ACTION=change",
        b"POWER_SUPPLY_NAME=silo",
        b"POWER_SUPPLY_CAPACITY=80",
        b"POWER_SUPPLY_CAPACITY_ALERT_MIN=10",
        b"POWER_SUPPLY_ONLINE=0",
        b"POWER_SUPPLY_STATUS=Discharging",
    ]);
    let s = read_sample(&p).unwrap();
    assert!(!s.online);
}

#[test]
fn read_sample_missing_field_is_data_format_error() {
    let p = join_nul(&[
        b"ACTION=change",
        b"POWER_SUPPLY_NAME=silo",
        b"POWER_SUPPLY_CAPACITY=80",
        b"POWER_SUPPLY_ONLINE=1",
        b"POWER_SUPPLY_STATUS=Charging",
    ]);
    assert_eq!(read_sample(&p), Err(Error::DataFormat));
}

#[test]
fn read_sample_bad_number_is_data_format_error() {
    let p = join_nul(&[
        b"ACTION=change",
        b"POWER_SUPPLY_NAME=silo",
        b"POWER_SUPPLY_CAPACITY=eighty",
        b"POWER_SUPPLY_CAPACITY_ALERT_MIN=10",
        b"POWER_SUPPLY_ONLINE=1",
        b"POWER_SUPPLY_STATUS=Charging",
    ]);
    assert_eq!(read_sample(&p), Err(Error::DataFormat));
}

#[test]
fn sample_error_leaves_state_untouched() {
    let mut s = Supply::new(b"silo".to_vec());
    let p = join_nul(&[b"ACTION=change", b"POWER_SUPPLY_NAME=silo"]);
    assert_eq!(s.handle_notification(&p), Err(Error::DataFormat));
    assert_eq!(s.last_event, Event::InitialCharge);
}

#[test]
fn error_descriptions() {
    assert_eq!(Error::NotFound.as_str(), "no monitored device found");
    assert_eq!(Error::DataFormat.as_str(), "missing or unparseable data");
}

use bn::monitor::{check_battery, check_reading, check_selected, Outcome, Report};
use bn::notice::Urgency;
use bn::probe::{find_battery, label_of, list_batteries, matches_serial, BatteryInfo, Label, Probe};
use bn::state::{decode, load};
use bn::threshold::Thresholds;

fn battery(serial: Option<&str>, vendor: Option<&str>, percentage: u32) -> BatteryInfo {
    BatteryInfo {
        serial: serial.map(|s| s.to_string()),
        vendor: vendor.map(|s| s.to_string()),
        percentage,
        charging: false,
    }
}

fn ready(serial: Option<&str>, vendor: Option<&str>, percentage: u32) -> Probe {
    Probe::Ready(battery(serial, vendor, percentage))
}

fn failed() -> Probe {
    Probe::Failed("permission denied".to_string())
}

fn checked(outcome: Outcome) -> Report {
    match outcome {
        Outcome::Checked(report) => report,
        Outcome::Unreadable(failure) => panic!("battery unreadable: {}", failure),
        Outcome::NotFound => panic!("battery not found"),
    }
}

#[test]
fn scenario_critical_only() {
    let probes = vec![ready(Some("A1"), Some("ACME"), 8)];
    let report = checked(check_battery(&probes, &"A1".to_string(), 15, &10, Some(&20)));
    assert_eq!(report.percentage, 8);
    assert_eq!(report.record, vec![8, 0, 0, 0]);
    let notice = report.notice.expect("a notice");
    assert_eq!(notice.urgency, Urgency::Critical);
    assert_eq!(notice.body, "Battery level is CRITICAL (8%)");
    assert_eq!(notice.sound, Some("battery-caution".to_string()));
}

#[test]
fn scenario_warning_only() {
    let probes = vec![ready(Some("A1"), Some("ACME"), 18)];
    let report = checked(check_battery(&probes, &"A1".to_string(), 25, &10, Some(&20)));
    assert_eq!(report.percentage, 18);
    assert_eq!(report.record, vec![18, 0, 0, 0]);
    let notice = report.notice.expect("a notice");
    assert_eq!(notice.urgency, Urgency::Normal);
    assert_eq!(notice.body, "Battery level is low (18%)");
    assert_eq!(notice.timeout_secs, Some(30));
}

#[test]
fn scenario_already_below_critical() {
    let probes = vec![ready(Some("A1"), Some("ACME"), 3)];
    let report = checked(check_battery(&probes, &"A1".to_string(), 5, &10, Some(&20)));
    assert_eq!(report.notice, None);
    assert_eq!(report.record, vec![3, 0, 0, 0]);
}

#[test]
fn scenario_unknown_serial() {
    let probes = vec![
        ready(Some("A1"), Some("ACME"), 8),
        failed(),
        ready(None, None, 8),
        ready(Some("XY"), None, 8),
        ready(Some("XYZ0"), None, 8),
    ];
    let outcome = check_battery(&probes, &"XYZ".to_string(), 15, &10, Some(&20));
    assert_eq!(outcome, Outcome::NotFound);
    assert_eq!(check_battery(&Vec::new(), &"XYZ".to_string(), 15, &10, None), Outcome::NotFound);
}

#[test]
fn record_is_written_without_notice_and_while_charging() {
    let mut info = battery(Some("A1"), None, 64);
    info.charging = true;
    let report = check_reading(&info, 60, &Thresholds::new(10, Some(20)));
    assert_eq!(report.notice, None);
    assert!(report.charging);
    assert_eq!(report.percentage, 64);
    assert_eq!(decode(&report.record), 64);
}

#[test]
fn charging_does_not_suppress_the_notice() {
    let mut info = battery(Some("A1"), None, 8);
    info.charging = true;
    let report = check_reading(&info, 15, &Thresholds::new(10, Some(20)));
    assert_eq!(report.notice.map(|n| n.urgency), Some(Urgency::Critical));
}

#[test]
fn a_crossing_is_reported_once() {
    let probes = vec![ready(Some("A1"), None, 8)];
    let serial = "A1".to_string();
    let first = checked(check_battery(&probes, &serial, load(&None), &10, Some(&20)));
    assert!(first.notice.is_some());
    let prev = load(&Some(first.record));
    assert_eq!(prev, 8);
    let second = checked(check_battery(&probes, &serial, prev, &10, Some(&20)));
    assert_eq!(second.notice, None);
    assert_eq!(second.record, vec![8, 0, 0, 0]);
}

#[test]
fn first_battery_with_the_serial_is_taken() {
    let probes = vec![
        failed(),
        ready(Some("B2"), None, 90),
        ready(Some("A1"), None, 8),
        ready(Some("A1"), None, 50),
    ];
    assert_eq!(find_battery(&probes, &"A1".to_string()), Some(2));
    assert_eq!(find_battery(&probes, &"B2".to_string()), Some(1));
    assert_eq!(find_battery(&probes, &"C3".to_string()), None);
    assert_eq!(find_battery(&Vec::new(), &"A1".to_string()), None);
    let report = checked(check_battery(&probes, &"A1".to_string(), 15, &10, None));
    assert_eq!(report.percentage, 8);
}

#[test]
fn serial_must_match_exactly() {
    assert!(matches_serial(&ready(Some("A1"), None, 1), &"A1".to_string()));
    assert!(!matches_serial(&ready(Some("A1"), None, 1), &"a1".to_string()));
    assert!(!matches_serial(&ready(Some("A1"), None, 1), &"A".to_string()));
    assert!(!matches_serial(&ready(None, Some("A1"), 1), &"A1".to_string()));
    assert!(!matches_serial(&ready(None, None, 1), &"".to_string()));
    assert!(!matches_serial(&failed(), &"A1".to_string()));
}

#[test]
fn listing_uses_placeholders_and_skips_failures() {
    let probes = vec![
        ready(Some("A1"), Some("ACME"), 8),
        failed(),
        ready(None, Some("Volt"), 50),
        ready(Some("C3"), None, 70),
        ready(None, None, 70),
    ];
    let list = list_batteries(&probes);
    let label = |s: &str, v: &str| Label { serial: s.to_string(), vendor: v.to_string() };
    assert_eq!(
        list,
        vec![
            label("A1", "ACME"),
            label("no id", "Volt"),
            label("C3", "no vendor"),
            label("no id", "no vendor"),
        ]
    );
    assert_eq!(list_batteries(&Vec::new()), Vec::new());
    assert_eq!(list_batteries(&vec![failed()]), Vec::new());
}

#[test]
fn label_of_one_battery() {
    let l = label_of(&battery(Some("A1"), None, 5));
    assert_eq!(l.serial, "A1");
    assert_eq!(l.vendor, "no vendor");
}

#[test]
fn unreadable_selection_is_passed_on_for_reporting() {
    let t = Thresholds::new(10, Some(20));
    assert_eq!(
        check_selected(Some(&failed()), 15, &t),
        Outcome::Unreadable("permission denied".to_string())
    );
}

#[test]
fn missing_selection_is_not_found() {
    let t = Thresholds::new(10, Some(20));
    assert_eq!(check_selected(None, 15, &t), Outcome::NotFound);
}

#[test]
fn readable_selection_is_polled() {
    let t = Thresholds::new(10, Some(20));
    let probe = ready(Some("A1"), None, 8);
    let report = checked(check_selected(Some(&probe), 15, &t));
    assert_eq!(report, check_reading(&battery(Some("A1"), None, 8), 15, &t));
    assert_eq!(report.record, vec![8, 0, 0, 0]);
    assert!(report.notice.is_some());
}

#[test]
fn failed_entries_never_stand_for_the_battery_asked_for() {
    let probes = vec![failed(), failed()];
    assert_eq!(check_battery(&probes, &"A1".to_string(), 15, &10, None), Outcome::NotFound);
}

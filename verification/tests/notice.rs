use bn::notice::{render_body, render_decimal, Notice, Urgency};
use bn::threshold::Severity;

#[test]
fn decimal_numerals() {
    assert_eq!(render_decimal(0), "0");
    assert_eq!(render_decimal(7), "7");
    assert_eq!(render_decimal(9), "9");
    assert_eq!(render_decimal(10), "10");
    assert_eq!(render_decimal(18), "18");
    assert_eq!(render_decimal(100), "100");
    assert_eq!(render_decimal(1234567890), "1234567890");
    assert_eq!(render_decimal(u32::MAX), "4294967295");
}

#[test]
fn decimal_agrees_with_the_standard_formatting() {
    for n in 0..=1000u32 {
        assert_eq!(render_decimal(n), format!("{:?}", n));
    }
}

#[test]
fn critical_body_names_the_percentage() {
    assert_eq!(render_body(Severity::Critical, 8), "Battery level is CRITICAL (8%)");
    assert_eq!(render_body(Severity::Critical, 0), "Battery level is CRITICAL (0%)");
}

#[test]
fn warning_body_names_the_percentage() {
    assert_eq!(render_body(Severity::Warning, 18), "Battery level is low (18%)");
    assert_eq!(render_body(Severity::Warning, 100), "Battery level is low (100%)");
}

#[test]
fn critical_notice_is_urgent_and_audible() {
    let n = Notice::compose(Severity::Critical, 8);
    assert_eq!(n.summary, "Battery level");
    assert_eq!(n.body, "Battery level is CRITICAL (8%)");
    assert_eq!(n.urgency, Urgency::Critical);
    assert_eq!(n.sound, Some("battery-caution".to_string()));
    assert_eq!(n.timeout_secs, None);
}

#[test]
fn warning_notice_is_normal_and_times_out() {
    let n = Notice::compose(Severity::Warning, 18);
    assert_eq!(n.summary, "Battery level");
    assert_eq!(n.body, "Battery level is low (18%)");
    assert_eq!(n.urgency, Urgency::Normal);
    assert_eq!(n.sound, None);
    assert_eq!(n.timeout_secs, Some(30));
}

#[test]
fn no_decision_no_notice() {
    assert_eq!(Notice::compose_if(None, 50), None);
    assert_eq!(
        Notice::compose_if(Some(Severity::Warning), 18),
        Some(Notice::compose(Severity::Warning, 18))
    );
    assert_eq!(
        Notice::compose_if(Some(Severity::Critical), 8),
        Some(Notice::compose(Severity::Critical, 8))
    );
}

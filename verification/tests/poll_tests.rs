use hs110_plugin::poll::FieldValue;
use hs110_plugin::poll::PollError;
use hs110_plugin::poll::Reading;
use hs110_plugin::poll::RoundCollector;
use hs110_plugin::poll::deadline_exceeded;
use hs110_plugin::poll::observed_wait;

fn reading(fields: &[(&str, FieldValue)]) -> Reading {
    let mut r = Reading::new();
    for (name, value) in fields {
        r.push_field(String::from(*name), *value);
    }
    r
}

#[test]
fn reading_lookup() {
    let r = reading(&[
        ("power_mw", FieldValue::Numeric(1500)),
        ("voltage_mv", FieldValue::Unparseable),
    ]);
    assert_eq!(r.len(), 2);
    assert_eq!(r.get(&String::from("power_mw")), Some(FieldValue::Numeric(1500)));
    assert_eq!(r.get(&String::from("voltage_mv")), Some(FieldValue::Unparseable));
    assert_eq!(r.get(&String::from("current_ma")), None);
}

#[test]
fn reading_first_match_wins() {
    let r = reading(&[
        ("power_mw", FieldValue::Numeric(1)),
        ("power_mw", FieldValue::Numeric(2)),
    ]);
    assert_eq!(r.get(&String::from("power_mw")), Some(FieldValue::Numeric(1)));
}

#[test]
fn collector_one_result_per_device() {
    // Three devices, two of which fail; results arrive out of order, and the
    // finished round still has exactly one slot per input device, in device
    // order.
    let mut c = RoundCollector::new(3);
    assert_eq!(c.len(), 3);
    assert!(!c.is_complete());
    c.record(2, Err(PollError::Timeout));
    assert!(!c.is_complete());
    c.record(0, Ok(reading(&[("power_mw", FieldValue::Numeric(900))])));
    c.record(1, Err(PollError::Connection));
    assert!(c.is_complete());
    let results = c.finish();
    assert_eq!(results.len(), 3);
    match &results[0] {
        Ok(r) => assert_eq!(r.get(&String::from("power_mw")), Some(FieldValue::Numeric(900))),
        Err(_) => panic!("device 0 succeeded"),
    }
    assert!(matches!(results[1], Err(PollError::Connection)));
    assert!(matches!(results[2], Err(PollError::Timeout)));
}

#[test]
fn deadline_decisions() {
    assert!(deadline_exceeded(7, 5));
    assert!(!deadline_exceeded(5, 5));
    assert!(!deadline_exceeded(3, 5));
}

#[test]
fn timeout_is_isolated_to_its_own_slot() {
    // One device blowing its deadline is observed for exactly the deadline,
    // while another device's wait depends on its own duration alone.
    let deadline = 500;
    assert_eq!(observed_wait(10_000, deadline), 500);
    assert_eq!(observed_wait(120, deadline), 120);
    assert_eq!(observed_wait(120, deadline), 120);
    assert_eq!(observed_wait(500, deadline), 500);
}

use hs110_plugin::catalog::standard_catalog;
use hs110_plugin::poll::FieldValue;
use hs110_plugin::poll::PollError;
use hs110_plugin::poll::Reading;
use hs110_plugin::registry::DeviceRegistry;
use hs110_plugin::round::Warning;
use hs110_plugin::round::normalize;
use hs110_plugin::round::scaled_value;

fn reading(fields: &[(&str, FieldValue)]) -> Reading {
    let mut r = Reading::new();
    for (name, value) in fields {
        r.push_field(String::from(*name), *value);
    }
    r
}

fn one_device_registry() -> DeviceRegistry {
    DeviceRegistry::build(vec![String::from("10.0.0.1")], vec![Some(String::from("plug"))])
        .unwrap()
}

#[test]
fn milli_fields_are_scaled_down() {
    // {"power_mw": 1500, "voltage_mv": 2300} against divisor 1000 emits 1 and 2.
    let registry = one_device_registry();
    let catalog = standard_catalog();
    let outcomes = vec![Ok(reading(&[
        ("power_mw", FieldValue::Numeric(1500)),
        ("voltage_mv", FieldValue::Numeric(2300)),
    ]))];
    let round = normalize(&outcomes, &registry, &catalog);
    assert_eq!(round.values.len(), 2);
    assert_eq!(round.values[0].0.chart_id, "Smartplugs.power");
    assert_eq!(round.values[0].0.dimension_id, "10_0_0_1_Power");
    assert_eq!(round.values[0].1, 1);
    assert_eq!(round.values[1].0.chart_id, "Smartplugs.voltage");
    assert_eq!(round.values[1].0.dimension_id, "10_0_0_1_Voltage");
    assert_eq!(round.values[1].1, 2);
    // current_ma and total_wh were missing: a warning each, no sample.
    assert_eq!(round.warnings.len(), 2);
    assert_eq!(
        round.warnings[0],
        Warning::FieldMissing { device: 0, field: String::from("current_ma") }
    );
    assert_eq!(
        round.warnings[1],
        Warning::FieldMissing { device: 0, field: String::from("total_wh") }
    );
}

#[test]
fn missing_field_emits_nothing_but_unparseable_emits_zero() {
    // power_mw unparseable: sample 0 plus a warning; voltage_mv absent: no
    // sample plus a differently shaped warning.
    let registry = one_device_registry();
    let catalog = standard_catalog();
    let outcomes = vec![Ok(reading(&[
        ("power_mw", FieldValue::Unparseable),
        ("current_ma", FieldValue::Numeric(42_000)),
        ("total_wh", FieldValue::Numeric(7)),
    ]))];
    let round = normalize(&outcomes, &registry, &catalog);
    assert_eq!(round.values.len(), 3);
    assert_eq!(round.values[0].0.chart_id, "Smartplugs.power");
    assert_eq!(round.values[0].1, 0);
    assert_eq!(round.values[1].0.chart_id, "Smartplugs.current");
    assert_eq!(round.values[1].1, 42);
    assert_eq!(round.values[2].0.chart_id, "Smartplugs.total-consumption");
    assert_eq!(round.values[2].1, 7);
    assert_eq!(round.warnings.len(), 2);
    assert_eq!(
        round.warnings[0],
        Warning::FieldUnparseable { device: 0, field: String::from("power_mw") }
    );
    assert_eq!(
        round.warnings[1],
        Warning::FieldMissing { device: 0, field: String::from("voltage_mv") }
    );
}

#[test]
fn failed_device_contributes_one_warning_and_no_samples() {
    let registry = one_device_registry();
    let catalog = standard_catalog();
    let outcomes = vec![Err(PollError::Timeout)];
    let round = normalize(&outcomes, &registry, &catalog);
    assert_eq!(round.values.len(), 0);
    assert_eq!(round.warnings.len(), 1);
    assert_eq!(round.warnings[0], Warning::DeviceFailed { device: 0, error: PollError::Timeout });
}

#[test]
fn one_failure_leaves_other_devices_untouched() {
    let registry = DeviceRegistry::build(
        vec![String::from("10.0.0.1"), String::from("10.0.0.2")],
        vec![None, None],
    )
    .unwrap();
    let catalog = standard_catalog();
    let outcomes = vec![
        Err(PollError::Connection),
        Ok(reading(&[("power_mw", FieldValue::Numeric(5000))])),
    ];
    let round = normalize(&outcomes, &registry, &catalog);
    assert_eq!(round.values.len(), 1);
    assert_eq!(round.values[0].0.dimension_id, "10_0_0_2_Power");
    assert_eq!(round.values[0].1, 5);
    // One device-failure warning, three missing-field warnings for the healthy one.
    assert_eq!(round.warnings.len(), 4);
    assert_eq!(
        round.warnings[0],
        Warning::DeviceFailed { device: 0, error: PollError::Connection }
    );
}

#[test]
fn scaling_truncates_toward_zero() {
    assert_eq!(scaled_value(1500, 1000), 1);
    assert_eq!(scaled_value(1999, 1000), 1);
    assert_eq!(scaled_value(999, 1000), 0);
    assert_eq!(scaled_value(-1500, 1000), -1);
    assert_eq!(scaled_value(-999, 1000), 0);
    assert_eq!(scaled_value(7, 1), 7);
    assert_eq!(scaled_value(i64::MIN, 1), i64::MIN);
    assert_eq!(scaled_value(i64::MIN, 1000), -9223372036854775);
    assert_eq!(scaled_value(i64::MAX, 1), i64::MAX);
}

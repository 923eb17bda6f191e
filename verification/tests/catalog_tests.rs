use hs110_plugin::catalog::MetricCatalog;
use hs110_plugin::catalog::SeriesKind;
use hs110_plugin::catalog::field_divisor;
use hs110_plugin::catalog::standard_catalog;

#[test]
fn field_divisor_milli_fields() {
    assert_eq!(field_divisor("power_mw"), 1000);
    assert_eq!(field_divisor("voltage_mv"), 1000);
    assert_eq!(field_divisor("current_ma"), 1000);
    assert_eq!(field_divisor("_m"), 1000);
}

#[test]
fn field_divisor_base_unit_fields() {
    assert_eq!(field_divisor("total_wh"), 1);
    assert_eq!(field_divisor(""), 1);
    assert_eq!(field_divisor("m"), 1);
    assert_eq!(field_divisor("watts"), 1);
    assert_eq!(field_divisor("m_"), 1);
}

#[test]
fn standard_catalog_layout() {
    let c = standard_catalog();
    assert_eq!(c.defs.len(), 4);
    assert_eq!(c.defs[0].chart_id, "Smartplugs.power");
    assert_eq!(c.defs[0].chart_name, "Power");
    assert_eq!(c.defs[0].unit_label, "watts");
    assert_eq!(c.defs[0].series_kind, SeriesKind::Area);
    assert_eq!(c.defs[0].priority, 90000);
    assert_eq!(c.defs[0].source_field, "power_mw");
    assert_eq!(c.defs[0].scale_divisor, 1000);
    assert_eq!(c.defs[1].chart_id, "Smartplugs.voltage");
    assert_eq!(c.defs[1].series_kind, SeriesKind::Line);
    assert_eq!(c.defs[1].scale_divisor, 1000);
    assert_eq!(c.defs[2].chart_id, "Smartplugs.current");
    assert_eq!(c.defs[2].source_field, "current_ma");
    assert_eq!(c.defs[3].chart_id, "Smartplugs.total-consumption");
    assert_eq!(c.defs[3].chart_title, "Total consumption");
    assert_eq!(c.defs[3].source_field, "total_wh");
    assert_eq!(c.defs[3].scale_divisor, 1);
}

#[test]
fn divisor_lookup_is_total_and_stable() {
    let c = standard_catalog();
    let power = String::from("power_mw");
    let total = String::from("total_wh");
    let unknown = String::from("no_such_field");
    assert_eq!(c.divisor_for(&power), 1000);
    assert_eq!(c.divisor_for(&power), 1000);
    assert_eq!(c.divisor_for(&total), 1);
    assert_eq!(c.divisor_for(&total), 1);
    assert_eq!(c.divisor_for(&unknown), 1);
    assert_eq!(c.divisor_for(&unknown), 1);
}

#[test]
fn divisor_lookup_reads_the_table() {
    // A catalog whose single entry was built through the policy: the lookup
    // must return the stored divisor for its field, not a fresh guess.
    let c = standard_catalog();
    let custom = MetricCatalog { defs: vec![c.defs[1].clone()] };
    assert_eq!(custom.divisor_for(&String::from("voltage_mv")), 1000);
    assert_eq!(custom.divisor_for(&String::from("power_mw")), 1);
}

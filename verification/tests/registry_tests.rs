use hs110_plugin::registry::Device;
use hs110_plugin::registry::DeviceRegistry;
use hs110_plugin::registry::RegistryError;
use hs110_plugin::registry::alias_or_fallback;
use hs110_plugin::registry::dimension_prefix_of;

#[test]
fn prefix_normalizes_dots() {
    assert_eq!(dimension_prefix_of("192.168.0.124"), "192_168_0_124");
    assert_eq!(dimension_prefix_of("plug-kitchen"), "plug-kitchen");
    assert_eq!(dimension_prefix_of(""), "");
    assert_eq!(dimension_prefix_of("..."), "___");
}

#[test]
fn alias_fallback() {
    assert_eq!(alias_or_fallback(Some(String::from("kitchen"))), "kitchen");
    assert_eq!(alias_or_fallback(None), "<unknown>");
}

#[test]
fn device_construction() {
    let d = Device::new(String::from("192.168.0.124"), None);
    assert_eq!(d.address, "192.168.0.124");
    assert_eq!(d.alias, "<unknown>");
    assert_eq!(d.dimension_prefix, "192_168_0_124");
    let e = Device::new(String::from("10.0.0.7"), Some(String::from("heater")));
    assert_eq!(e.alias, "heater");
    assert_eq!(e.dimension_prefix, "10_0_0_7");
}

#[test]
fn display_name_shape() {
    let d = Device::new(String::from("10.0.0.7"), Some(String::from("heater")));
    assert_eq!(d.display_name(), "heater (10.0.0.7)");
}

#[test]
fn empty_address_list_is_fatal() {
    let r = DeviceRegistry::build(vec![], vec![]);
    assert!(matches!(r, Err(RegistryError::NoDevices)));
}

#[test]
fn registry_keeps_order_and_tolerates_unresolved_aliases() {
    let addresses = vec![
        String::from("192.168.0.124"),
        String::from("192.168.0.156"),
        String::from("192.168.0.155"),
    ];
    let aliases = vec![Some(String::from("kitchen")), None, Some(String::from("tv"))];
    let reg = DeviceRegistry::build(addresses, aliases).unwrap();
    assert_eq!(reg.len(), 3);
    assert_eq!(reg.devices[0].address, "192.168.0.124");
    assert_eq!(reg.devices[0].alias, "kitchen");
    assert_eq!(reg.devices[1].address, "192.168.0.156");
    assert_eq!(reg.devices[1].alias, "<unknown>");
    assert_eq!(reg.devices[2].alias, "tv");
    assert_eq!(reg.devices[2].dimension_prefix, "192_168_0_155");
}

use cdi_device_plugin::device::{make_device_id, make_discovered_device, Device, Health};
use cdi_device_plugin::discovery::{
    discover_devices, discover_with, discovery_warning, DiscoveryError, DEVICE_GLOB,
};
use cdi_device_plugin::inventory::Inventory;

fn ids(inventory: &Inventory) -> Vec<String> {
    inventory.device_list().into_iter().map(|d| d.id).collect()
}

#[test]
fn device_id_is_name_equals_index() {
    assert_eq!(make_device_id("nvidia.com/gpu", 0), "nvidia.com/gpu=0");
    assert_eq!(make_device_id("nvidia.com/gpu", 7), "nvidia.com/gpu=7");
    assert_eq!(make_device_id("vendor.com/fpga", 42), "vendor.com/fpga=42");
    assert_eq!(make_device_id("", 3), "=3");
}

#[test]
fn discovered_device_is_healthy_without_topology() {
    let device = make_discovered_device("nvidia.com/gpu", 5);
    assert_eq!(
        device,
        Device { id: "nvidia.com/gpu=5".to_string(), health: Health::Healthy, topology: None }
    );
}

#[test]
fn health_has_the_protocol_names() {
    assert_eq!(Health::Healthy.as_str(), "Healthy");
    assert_eq!(Health::Unhealthy.as_str(), "Unhealthy");
}

#[test]
fn no_devices_is_an_empty_inventory_with_a_warning() {
    let inventory = discover_devices("nvidia.com/gpu", 0).unwrap();
    assert_eq!(inventory.len(), 0);
    assert!(inventory.is_empty());
    assert!(inventory.device_list().is_empty());
    assert_eq!(
        discovery_warning(&inventory, DEVICE_GLOB),
        Some("warning: no devices found matching /dev/nvidia[0-9]*".to_string())
    );
}

#[test]
fn three_devices_give_three_ids_and_no_warning() {
    let inventory = discover_devices("nvidia.com/gpu", 3).unwrap();
    assert_eq!(inventory.len(), 3);
    assert!(!inventory.is_empty());
    assert_eq!(ids(&inventory), vec!["nvidia.com/gpu=0", "nvidia.com/gpu=1", "nvidia.com/gpu=2"]);
    for device in inventory.device_list() {
        assert_eq!(device.health, Health::Healthy);
        assert_eq!(device.topology, None);
    }
    assert_eq!(discovery_warning(&inventory, DEVICE_GLOB), None);
}

#[test]
fn inventory_is_kept_in_the_order_of_the_id_strings() {
    let inventory = discover_devices("nvidia.com/gpu", 12).unwrap();
    assert_eq!(inventory.len(), 12);
    let listed = ids(&inventory);
    let mut sorted: Vec<String> = (0..12).map(|i| format!("nvidia.com/gpu={i}")).collect();
    sorted.sort();
    assert_eq!(listed, sorted);
    assert_eq!(listed[0], "nvidia.com/gpu=0");
    assert_eq!(listed[1], "nvidia.com/gpu=1");
    assert_eq!(listed[2], "nvidia.com/gpu=10");
    assert_eq!(listed[3], "nvidia.com/gpu=11");
    assert_eq!(listed[4], "nvidia.com/gpu=2");
    assert_eq!(listed[11], "nvidia.com/gpu=9");
}

#[test]
fn every_count_gives_that_many_distinct_ids() {
    for count in [0usize, 1, 2, 9, 10, 11, 100, 257] {
        let inventory = discover_devices("vendor.com/gpu", count).unwrap();
        assert_eq!(inventory.len(), count);
        let listed = ids(&inventory);
        assert_eq!(listed.len(), count);
        for pair in listed.windows(2) {
            assert!(pair[0] < pair[1]);
        }
        for index in 0..count {
            assert!(inventory.contains_key(&format!("vendor.com/gpu={index}")));
        }
        assert!(!inventory.contains_key(&format!("vendor.com/gpu={count}")));
    }
}

#[test]
fn ids_are_the_same_on_every_run() {
    let first = discover_devices("nvidia.com/gpu", 20).unwrap();
    let second = discover_devices("nvidia.com/gpu", 20).unwrap();
    assert_eq!(first, second);
    assert_eq!(first.clone(), second);
}

#[test]
fn lookup_finds_exactly_the_discovered_ids() {
    let inventory = discover_devices("nvidia.com/gpu", 4).unwrap();
    assert!(inventory.contains_key("nvidia.com/gpu=0"));
    assert!(inventory.contains_key("nvidia.com/gpu=3"));
    assert!(!inventory.contains_key("nvidia.com/gpu=4"));
    assert!(!inventory.contains_key("nvidia.com/gpu="));
    assert!(!inventory.contains_key("nvidia.com/gpu=00"));
    assert!(!inventory.contains_key("nvidia.com/gpu"));
    assert!(!inventory.contains_key(""));
    assert!(!inventory.contains_key("amd.com/gpu=0"));
    let found = inventory.get("nvidia.com/gpu=2").unwrap();
    assert_eq!(found.id, "nvidia.com/gpu=2");
    assert_eq!(found.health, Health::Healthy);
    assert!(inventory.get("nvidia.com/gpu=9").is_none());
}

#[test]
fn lookup_in_an_empty_inventory_finds_nothing() {
    let inventory = Inventory::new();
    assert_eq!(inventory.len(), 0);
    assert!(!inventory.contains_key("nvidia.com/gpu=0"));
    assert!(inventory.get("nvidia.com/gpu=0").is_none());
}

#[test]
fn the_device_pattern_is_well_formed() {
    assert_eq!(DEVICE_GLOB, "/dev/nvidia[0-9]*");
    assert!(discover_devices("nvidia.com/gpu", 1).is_ok());
    assert!(discover_with(DEVICE_GLOB, "nvidia.com/gpu", 1).is_ok());
}

#[test]
fn a_malformed_pattern_is_the_only_failure() {
    let error = discover_with("abc[def", "nvidia.com/gpu", 2).unwrap_err();
    assert_eq!(error, DiscoveryError { position: 3, reason: "invalid range pattern".to_string() });
    let error = discover_with("a/**b", "nvidia.com/gpu", 0).unwrap_err();
    assert_eq!(error.position, 4);
    assert_eq!(error.reason, "recursive wildcards must form a single path component");
    let error = discover_with("a***", "nvidia.com/gpu", 0).unwrap_err();
    assert_eq!(error.position, 3);
    assert_eq!(error.reason, "wildcards are either regular `*` or recursive `**`");
    assert!(discover_with("/dev/*", "nvidia.com/gpu", 0).is_ok());
    assert!(discover_with("", "nvidia.com/gpu", 0).is_ok());
}

#[test]
fn a_pattern_is_judged_component_by_component() {
    let error = discover_with("[/]", "nvidia.com/gpu", 1).unwrap_err();
    assert_eq!(error.position, 0);
    assert_eq!(error.reason, "invalid range pattern");
}

#[test]
fn discovery_error_describes_itself() {
    let error = DiscoveryError { position: 3, reason: "invalid range pattern".to_string() };
    assert_eq!(error.message(), "Pattern syntax error near position 3: invalid range pattern");
    let error = discover_with("a/**b", "x/y", 0).unwrap_err();
    assert_eq!(
        error.message(),
        "Pattern syntax error near position 4: recursive wildcards must form a single path component"
    );
}

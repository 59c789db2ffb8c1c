use pciutils::access::dump::DumpAccess;
use pciutils::bdf::BusDeviceFunction;
use pciutils::function::Function;
use pciutils::vdc::VendorDeviceClass;

fn intel_config() -> Vec<u8> {
    let mut raw = vec![0u8; 0x60];
    raw[0x00] = 0x86; // vendor 0x8086
    raw[0x01] = 0x80;
    raw[0x02] = 0x0E; // device 0x100E
    raw[0x03] = 0x10;
    raw[0x08] = 0x03; // revision
    raw[0x0B] = 0x02; // base class: network controller
    raw[0x34] = 0x40; // capability chain
    raw[0x40] = 0x01; // power management, version 2
    raw[0x41] = 0x00; // end of chain
    raw[0x42] = 0x02;
    raw
}

fn some_bdf() -> BusDeviceFunction {
    BusDeviceFunction {
        domain: Some(0),
        bus: Some(1),
        device: Some(2),
        function: Some(3),
    }
}

#[test]
fn decodes_a_function_from_a_dump() {
    let function = Function::new(some_bdf(), DumpAccess::new(&intel_config())).unwrap();
    assert_eq!(function.vendor_id().unwrap(), 0x8086);
    assert_eq!(function.device_id().unwrap(), 0x100E);
    assert_eq!(function.revision_id().unwrap(), 0x03);
    assert_eq!(function.base_class_code().unwrap(), 0x02);
    assert_eq!(function.sub_class_code().unwrap(), 0x00);
    assert_eq!(function.class_code().unwrap(), 0x0200);
    assert_eq!(function.subsystem_vendor_id().unwrap(), Some(0x0000));
    assert_eq!(function.subsystem_id().unwrap(), Some(0x0000));
}

#[test]
fn bridge_has_no_subsystem_ids() {
    let mut raw = vec![0u8; 0x40];
    raw[0x0E] = 0x01;
    let function = Function::new(some_bdf(), DumpAccess::new(&raw)).unwrap();
    assert_eq!(function.subsystem_vendor_id().unwrap(), None);
    assert_eq!(function.subsystem_id().unwrap(), None);
}

#[test]
fn renders_the_function_line() {
    let function = Function::new(some_bdf(), DumpAccess::new(&intel_config())).unwrap();
    assert_eq!(
        function.to_string(0).unwrap(),
        "0000:01:02.3 Ethernet controller: Intel Corporation \
         82540EM Gigabit Ethernet Controller (rev 03)"
    );
}

#[test]
fn renders_capability_lines_at_higher_verbosity() {
    let function = Function::new(some_bdf(), DumpAccess::new(&intel_config())).unwrap();
    let text = function.to_string(1).unwrap();
    assert!(text.starts_with("0000:01:02.3 Ethernet controller:"));
    assert!(text.contains("\tSubsystem: Vendor 0000 Device 0000"));
    assert!(text.ends_with("\tCapabilities: [40] Power Management version 2"));
}

#[test]
fn config_dump_respects_verbosity_tiers() {
    let function = Function::new(some_bdf(), DumpAccess::new(&intel_config())).unwrap();
    assert_eq!(function.config_with_verbosity(0).unwrap(), Vec::<u8>::new());
    assert_eq!(function.config_with_verbosity(1).unwrap().len(), 0x40);
    // The capture is 0x60 bytes, so tier 3 degrades to what is there.
    assert_eq!(function.config_with_verbosity(3).unwrap().len(), 0x60);
    assert_eq!(function.config_with_verbosity(4).unwrap().len(), 0x60);
}

#[test]
fn matches_vendor_device_class_filters() {
    let function = Function::new(some_bdf(), DumpAccess::new(&intel_config())).unwrap();
    let exact = VendorDeviceClass {
        vendor: Some(0x8086),
        device: Some(0x100E),
        class: Some(0x0200),
    };
    let wildcard = VendorDeviceClass { vendor: None, device: None, class: None };
    let other_vendor = VendorDeviceClass {
        vendor: Some(0x10DE),
        device: None,
        class: None,
    };
    assert!(function.matches_vdc(&exact).unwrap());
    assert!(function.matches_vdc(&wildcard).unwrap());
    assert!(!function.matches_vdc(&other_vendor).unwrap());
}

#[test]
fn matches_partial_addresses() {
    let function = Function::new(some_bdf(), DumpAccess::new(&intel_config())).unwrap();
    let device_only = BusDeviceFunction {
        domain: None,
        bus: None,
        device: Some(2),
        function: None,
    };
    let other_device = BusDeviceFunction {
        domain: None,
        bus: None,
        device: Some(4),
        function: None,
    };
    assert!(function.matches_bdf(&device_only));
    assert!(!function.matches_bdf(&other_device));
}

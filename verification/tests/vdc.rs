use pciutils::error::ErrorKind;
use pciutils::vdc::VendorDeviceClass;

#[test]
fn parses_vendor_device_class_filters() {
    let vdc = VendorDeviceClass::from_str("8086:100e").unwrap();
    assert_eq!(vdc.vendor, Some(0x8086));
    assert_eq!(vdc.device, Some(0x100E));
    assert_eq!(vdc.class, None);

    let vdc = VendorDeviceClass::from_str(":100e:0200").unwrap();
    assert_eq!(vdc.vendor, None);
    assert_eq!(vdc.device, Some(0x100E));
    assert_eq!(vdc.class, Some(0x0200));

    let vdc = VendorDeviceClass::from_str(":").unwrap();
    assert_eq!(vdc.vendor, None);
    assert_eq!(vdc.device, None);
    assert_eq!(vdc.class, None);
}

#[test]
fn rejects_malformed_filters() {
    let e = VendorDeviceClass::from_str("8086").unwrap_err();
    assert_eq!(e.error_kind, ErrorKind::InvalidVendorDeviceClass);
    assert_eq!(e.message, "8086");
    let e = VendorDeviceClass::from_str("a:b:c:d").unwrap_err();
    assert_eq!(e.error_kind, ErrorKind::InvalidVendorDeviceClass);
    let e = VendorDeviceClass::from_str("xyzw:100e").unwrap_err();
    assert_eq!(e.error_kind, ErrorKind::InvalidBusDeviceFunction);
}

#[test]
fn filter_equality_ignores_absent_components() {
    let broad = VendorDeviceClass { vendor: Some(0x8086), device: None, class: None };
    let narrow = VendorDeviceClass {
        vendor: Some(0x8086),
        device: Some(0x100E),
        class: Some(0x0200),
    };
    let other = VendorDeviceClass { vendor: Some(0x10DE), device: None, class: None };
    assert_eq!(broad, narrow);
    assert_ne!(broad, other);
}

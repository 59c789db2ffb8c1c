use pciutils::access::sysfs::Sysfs;
use pciutils::bdf::BusDeviceFunction;
use pciutils::error::{Error, ErrorKind, IoErrorClass};

#[test]
fn builds_the_function_sub_path() {
    let bdf = BusDeviceFunction {
        domain: None,
        bus: Some(0x01),
        device: Some(0x02),
        function: Some(0x3),
    };
    assert_eq!(
        Sysfs::get_function_sub_path(&bdf, "config"),
        "/sys/bus/pci/devices/0000:01:02.3/config"
    );
    assert_eq!(
        Sysfs::get_function_sub_path(&bdf, "driver/module"),
        "/sys/bus/pci/devices/0000:01:02.3/driver/module"
    );
}

#[test]
fn parses_parameter_files() {
    assert_eq!(Sysfs::parse_function_parameter_u16(b"0x8086\n").unwrap(), 0x8086);
    assert_eq!(Sysfs::parse_function_parameter_u8(b" 0x03 ").unwrap(), 0x03);
    assert_eq!(Sysfs::parse_function_parameter_u32(b"0x020000\n").unwrap(), 0x020000);
    assert_eq!(Sysfs::parse_function_parameter_u16(b"1e\n").unwrap(), 0x1E);
}

#[test]
fn parameter_parsing_matches_radix_16_conventions() {
    // Upper-case digits, a leading plus, and repeated 0x prefixes are all
    // accepted, as from_str_radix and trim_start_matches leave them.
    assert_eq!(Sysfs::parse_function_parameter_u16(b"1E\n").unwrap(), 0x1E);
    assert_eq!(Sysfs::parse_function_parameter_u16(b"+1e\n").unwrap(), 0x1E);
    assert_eq!(Sysfs::parse_function_parameter_u16(b"0x0x1e\n").unwrap(), 0x1E);
    let e = Sysfs::parse_function_parameter_u16(b"0x10000\n").unwrap_err();
    assert_eq!(e.error_kind, ErrorKind::IntegerParseError);
}

#[test]
fn rejects_malformed_parameter_files() {
    let e = Sysfs::parse_function_parameter_u16(b"zz\n").unwrap_err();
    assert_eq!(e.error_kind, ErrorKind::IntegerParseError);
    let e = Sysfs::parse_function_parameter_u8(b"0x1ff\n").unwrap_err();
    assert_eq!(e.error_kind, ErrorKind::IntegerParseError);
    let e = Sysfs::parse_function_parameter_u16(b"\n").unwrap_err();
    assert_eq!(e.error_kind, ErrorKind::IntegerParseError);
}

#[test]
fn class_code_splits_into_base_and_sub_class() {
    let sysfs = Sysfs;
    assert_eq!(sysfs.class_code(b"0x020000\n").unwrap(), 0x0200);
    assert_eq!(sysfs.base_class_code(b"0x020000\n").unwrap(), 0x02);
    assert_eq!(sysfs.sub_class_code(b"0x030102\n").unwrap(), 0x01);
    assert_eq!(sysfs.vendor_id(b"0x8086\n").unwrap(), 0x8086);
    assert_eq!(sysfs.device_id(b"0x100e\n").unwrap(), 0x100E);
    assert_eq!(sysfs.revision_id(b"0x03\n").unwrap(), 0x03);
}

#[test]
fn optional_parameters_map_missing_files_to_none() {
    let sysfs = Sysfs;
    let not_found = Error {
        error_kind: ErrorKind::IoError(IoErrorClass::NotFound),
        message: String::new(),
    };
    assert_eq!(sysfs.subsystem_vendor(Err(not_found.clone())).unwrap(), None);
    assert_eq!(sysfs.subsystem_device(Ok(b"0x001e\n".to_vec())).unwrap(), Some(0x001E));
    assert_eq!(sysfs.secondary_bus_number(Err(not_found.clone())).unwrap(), None);
    assert_eq!(sysfs.subordinate_bus_number(Ok(b"0x0a\n".to_vec())).unwrap(), Some(0x0A));

    let denied = Error {
        error_kind: ErrorKind::IoError(IoErrorClass::PermissionDenied),
        message: String::new(),
    };
    let e = sysfs.subsystem_vendor(Err(denied)).unwrap_err();
    assert_eq!(e.error_kind, ErrorKind::IoError(IoErrorClass::PermissionDenied));
}

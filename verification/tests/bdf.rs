use pciutils::bdf::BusDeviceFunction;
use pciutils::error::Error;

#[test]
fn test_valid_string_parse() {
    assert_eq!(
        BusDeviceFunction::from_str("0").unwrap(),
        BusDeviceFunction {
            domain: None,
            bus: None,
            device: Some(0x00),
            function: None,
        }
    );
    assert_eq!(
        BusDeviceFunction::from_str(".0").unwrap(),
        BusDeviceFunction {
            domain: None,
            bus: None,
            device: None,
            function: Some(0x0),
        }
    );
    assert_eq!(
        BusDeviceFunction::from_str("0000:00:00.0").unwrap(),
        BusDeviceFunction {
            domain: None,
            bus: Some(0x00),
            device: Some(0x00),
            function: Some(0x0),
        }
    );
    assert_eq!(
        BusDeviceFunction::from_str("01:02.3").unwrap(),
        BusDeviceFunction {
            domain: None,
            bus: Some(0x01),
            device: Some(0x02),
            function: Some(0x3),
        }
    );
    assert_eq!(
        BusDeviceFunction::from_str("0001:02:03.4").unwrap(),
        BusDeviceFunction {
            domain: Some(0x0001),
            bus: Some(0x02),
            device: Some(0x03),
            function: Some(0x4),
        }
    );
    assert_eq!(
        BusDeviceFunction::from_str("0002:34:12.f").unwrap(),
        BusDeviceFunction {
            domain: Some(0x0002),
            bus: Some(0x34),
            device: Some(0x12),
            function: Some(0xf),
        }
    );
    assert_eq!(
        BusDeviceFunction::from_str(":03.4").unwrap(),
        BusDeviceFunction {
            domain: None,
            bus: None,
            device: Some(0x03),
            function: Some(0x4),
        }
    );
    assert_eq!(
        BusDeviceFunction::from_str("::03.4").unwrap(),
        BusDeviceFunction {
            domain: None,
            bus: None,
            device: Some(0x03),
            function: Some(0x4),
        }
    );
    assert_eq!(
        BusDeviceFunction::from_str(".").unwrap(),
        BusDeviceFunction {
            domain: None,
            bus: None,
            device: None,
            function: None,
        }
    );
}

#[test]
fn test_invalid_string_parse() {
    assert_eq!(
        BusDeviceFunction::from_str(":0000:00:00.0"),
        Err(Error::invalid_bdf(":0000:00:00.0"))
    );
    assert_eq!(
        BusDeviceFunction::from_str("hello world!"),
        Err(Error::invalid_bdf("hello world!"))
    );
}

#[test]
fn test_string_format() {
    assert_eq!(
        BusDeviceFunction {
            domain: None,
            bus: None,
            device: Some(0x00),
            function: Some(0x0),
        }
        .bdf_string(),
        ":00.0"
    );
    assert_eq!(
        BusDeviceFunction {
            domain: None,
            bus: Some(0x00),
            device: Some(0x00),
            function: Some(0x0),
        }
        .bdf_string(),
        "00:00.0"
    );
    assert_eq!(
        BusDeviceFunction {
            domain: Some(0x0001),
            bus: Some(0x02),
            device: Some(0x03),
            function: Some(0x4),
        }
        .bdf_string(),
        "0001:02:03.4"
    );
    assert_eq!(
        BusDeviceFunction {
            domain: Some(0x0002),
            bus: Some(0x34),
            device: Some(0x12),
            function: Some(0xf),
        }
        .bdf_string(),
        "0002:34:12.f"
    );
}

#[test]
fn test_canonical_string_defaults_domain() {
    let bdf = BusDeviceFunction {
        domain: None,
        bus: Some(0x01),
        device: Some(0x02),
        function: Some(0x3),
    };
    assert_eq!(bdf.canonical_bdf_string(), "0000:01:02.3");
    let full = BusDeviceFunction {
        domain: Some(0x0002),
        bus: Some(0x34),
        device: Some(0x12),
        function: Some(0xf),
    };
    assert_eq!(full.canonical_bdf_string(), "0002:34:12.f");
}

#[test]
fn test_partial_equality_ignores_absent_components() {
    let filter = BusDeviceFunction {
        domain: None,
        bus: None,
        device: Some(0x03),
        function: None,
    };
    let full = BusDeviceFunction {
        domain: Some(0x0000),
        bus: Some(0x01),
        device: Some(0x03),
        function: Some(0x0),
    };
    let other = BusDeviceFunction {
        domain: Some(0x0000),
        bus: Some(0x01),
        device: Some(0x04),
        function: Some(0x0),
    };
    assert_eq!(filter, full);
    assert_ne!(filter, other);
    assert_eq!(full.bus(), Some(0x01));
}

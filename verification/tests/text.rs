use pciutils::error::{Error, ErrorKind, IoErrorClass};
use pciutils::kernel::Kernel;
use pciutils::text::{dec_string, hex_string};

#[test]
fn renders_padded_hex() {
    assert_eq!(hex_string(0, 1), "0");
    assert_eq!(hex_string(0, 4), "0000");
    assert_eq!(hex_string(0x8086, 4), "8086");
    assert_eq!(hex_string(0x1E, 4), "001e");
    assert_eq!(hex_string(0xF000_0000, 8), "f0000000");
    assert_eq!(hex_string(0x1_0000_0000, 8), "100000000");
    assert_eq!(hex_string(0xABC, 1), "abc");
}

#[test]
fn renders_decimal() {
    assert_eq!(dec_string(0), "0");
    assert_eq!(dec_string(7), "7");
    assert_eq!(dec_string(375), "375");
    assert_eq!(dec_string(10240), "10240");
}

#[test]
fn kernel_text_joins_driver_and_module_lines() {
    let kernel = Kernel;
    assert_eq!(
        kernel
            .text("\tKernel driver in use: e1000e", "\tKernel modules: e1000e")
            .unwrap(),
        "\tKernel driver in use: e1000e\n\tKernel modules: e1000e"
    );
    assert_eq!(kernel.text("", "").unwrap(), "\n");
}

#[test]
fn error_constructors_carry_their_kind_and_message() {
    let e = Error::invalid_bdf("xyz");
    assert_eq!(e.error_kind, ErrorKind::InvalidBusDeviceFunction);
    assert_eq!(e.message, "xyz");
    let e = Error::invalid_vdc("a:b:c:d");
    assert_eq!(e.error_kind, ErrorKind::InvalidVendorDeviceClass);
    assert_eq!(e.message, "a:b:c:d");
    let not_found = Error {
        error_kind: ErrorKind::IoError(IoErrorClass::NotFound),
        message: String::new(),
    };
    assert!(not_found.is_file_not_found());
    assert!(!e.is_file_not_found());
}

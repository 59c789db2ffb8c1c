use pciutils::caps::binary_parser::BinaryParser;
use pciutils::caps::header::{CommonHeader, Header, Type0Header, Type1Header};
use pciutils::error::ErrorKind;
use std::ops::Range;

fn type0_intel_header() -> Vec<u8> {
    let mut raw = vec![0u8; 0x40];
    raw[0x00] = 0x86; // vendor 0x8086, little endian
    raw[0x01] = 0x80;
    raw[0x02] = 0x0E; // device 0x100E
    raw[0x03] = 0x10;
    raw[0x08] = 0x03; // revision
    raw[0x09] = 0x00; // programming interface
    raw[0x0A] = 0x00; // sub-class
    raw[0x0B] = 0x02; // base class: network controller
    raw[0x0E] = 0x00; // header type 0
    raw
}

#[test]
fn bounds_error_on_short_buffer() {
    let r = BinaryParser::le16(&[0u8], Range { start: 0, end: 2 });
    let e = r.unwrap_err();
    assert_eq!(e.error_kind, ErrorKind::SliceParseError);
    assert_eq!(e.message, "Index range 0:2 outside of 0:1");
}

#[test]
fn field_readers_decode_little_endian() {
    let b = [0x0D, 0xF0, 0x37, 0x13];
    assert_eq!(BinaryParser::le8(&b, Range { start: 1, end: 2 }).unwrap(), 0xF0);
    assert_eq!(BinaryParser::le16(&b, Range { start: 0, end: 2 }).unwrap(), 0xF00D);
    assert_eq!(BinaryParser::le32(&b, Range { start: 0, end: 4 }).unwrap(), 0x1337F00D);
}

#[test]
fn header_layout_masks_multi_function_flag() {
    let mut raw = vec![0u8; 0x40];
    for (byte, is_type0) in [(0x00u8, true), (0x80u8, true), (0x01u8, false), (0x81u8, false)] {
        raw[0x0E] = byte;
        let header = Header::new(&raw).unwrap();
        match header {
            Header::Type0(_) => assert!(is_type0),
            Header::Type1(_) => assert!(!is_type0),
        }
    }
}

#[test]
fn header_requires_the_type_byte() {
    let r = Header::new(&[0u8; 0x0E]);
    assert_eq!(r.unwrap_err().error_kind, ErrorKind::SliceParseError);
}

#[test]
fn decodes_common_fields_of_a_type0_header() {
    let header = Header::new(&type0_intel_header()).unwrap();
    assert_eq!(header.vendor_id().unwrap(), 0x8086);
    assert_eq!(header.device_id().unwrap(), 0x100E);
    assert_eq!(header.base_class_code().unwrap(), 0x02);
    assert_eq!(header.sub_class_code().unwrap(), 0x00);
    assert_eq!(header.revision_id().unwrap(), 0x03);
    assert_eq!(header.header_type().unwrap(), 0x00);
}

#[test]
fn resolves_known_names_from_the_id_database() {
    let header = Type0Header::new(&type0_intel_header()).unwrap();
    assert_eq!(header.vendor_name().unwrap(), "Intel Corporation");
    assert_eq!(
        header.to_string(0).unwrap(),
        "Ethernet controller: Intel Corporation 82540EM Gigabit Ethernet Controller (rev 03)"
    );
}

#[test]
fn renders_placeholders_for_unknown_ids() {
    let mut raw = type0_intel_header();
    raw[0x00] = 0xF0; // vendor 0xFFF0 is not in the database
    raw[0x01] = 0xFF;
    raw[0x0B] = 0xFF; // neither is class ff/00
    raw[0x08] = 0x00; // revision zero is not rendered
    let header = Type0Header::new(&raw).unwrap();
    assert_eq!(
        header.to_string(0).unwrap(),
        "SubClass 00: Vendor fff0 Device 100e"
    );
}

#[test]
fn renders_known_subsystem_name() {
    let mut raw = type0_intel_header();
    raw[0x2C] = 0x86; // subsystem vendor 0x8086
    raw[0x2D] = 0x80;
    raw[0x2E] = 0x1E; // subsystem device 0x001E
    raw[0x2F] = 0x00;
    let header = Type0Header::new(&raw).unwrap();
    assert_eq!(
        header.to_string(1).unwrap(),
        "Ethernet controller: Intel Corporation 82540EM Gigabit Ethernet Controller (rev 03)\n\
         \tSubsystem: Intel Corporation PRO/1000 MT Desktop Adapter"
    );
}

#[test]
fn renders_placeholder_for_unknown_subsystem() {
    let mut raw = type0_intel_header();
    raw[0x2C] = 0x34; // subsystem vendor 0x1234
    raw[0x2D] = 0x12;
    raw[0x2E] = 0xCD; // subsystem device 0xABCD, not in the database
    raw[0x2F] = 0xAB;
    let header = Type0Header::new(&raw).unwrap();
    assert_eq!(
        header.to_string(1).unwrap(),
        "Ethernet controller: Intel Corporation 82540EM Gigabit Ethernet Controller (rev 03)\n\
         \tSubsystem: Vendor 1234 Device abcd"
    );
}

#[test]
fn bridge_exposes_bus_numbers() {
    let mut raw = vec![0u8; 0x40];
    raw[0x0E] = 0x01; // header type 1
    raw[0x18] = 0x00; // primary
    raw[0x19] = 0x02; // secondary
    raw[0x1A] = 0x0A; // subordinate
    raw[0x1B] = 32; // secondary latency timer
    let header = Type1Header::new(&raw).unwrap();
    assert_eq!(header.primary_bus_number().unwrap(), 0x00);
    assert_eq!(header.secondary_bus_number().unwrap(), 0x02);
    assert_eq!(header.subordinate_bus_number().unwrap(), 0x0A);
    assert_eq!(header.secondary_latency_timer().unwrap(), 32);
    let text = header.to_string(1).unwrap();
    assert!(text.ends_with("Bus: primary=00, secondary=02, subordiante=0a, sec-latency=32"));
}

#[test]
fn endpoint_decodes_its_bars() {
    let mut raw = type0_intel_header();
    raw[0x13] = 0xF0; // BAR0: 32-bit memory at 0xF0000000
    let header = Type0Header::new(&raw).unwrap();
    let bars = header.bars().unwrap();
    assert_eq!(bars.len(), 6);
    assert!(bars[0].is_allocated());
    assert!(!bars[1].is_allocated());
}

#[test]
fn subsystem_ids_are_read_from_fixed_offsets() {
    let mut raw = type0_intel_header();
    raw[0x2C] = 0x21;
    raw[0x2D] = 0x43;
    raw[0x2E] = 0x65;
    raw[0x2F] = 0x87;
    let header = Type0Header::new(&raw).unwrap();
    assert_eq!(header.subsystem_vendor_id().unwrap(), 0x4321);
    assert_eq!(header.subsystem_id().unwrap(), 0x8765);
}

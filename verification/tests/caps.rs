use pciutils::access::dump::DumpAccess;
use pciutils::access::Access;
use pciutils::caps::power_management::{AuxCurrent, PmeSupport, PowerManagementCapability};
use pciutils::caps::unknown::{UnknownCapability, UnknownExtendedCapability};
use pciutils::caps::{Capability, CapabilityFactory, CapabilityRecord};

fn empty_config() -> Vec<u8> {
    vec![0u8; 0x40]
}

#[test]
fn dump_read_truncates_at_the_end() {
    let dump = DumpAccess::new(&[1, 2, 3, 4]);
    assert_eq!(dump.read(0, 2).unwrap(), vec![1, 2]);
    assert_eq!(dump.read(2, 10).unwrap(), vec![3, 4]);
    assert_eq!(dump.read(10, 4).unwrap(), Vec::<u8>::new());
}

#[test]
fn dump_write_is_a_no_op_that_reports_success() {
    let dump = DumpAccess::new(&[1, 2, 3, 4]);
    assert_eq!(dump.write(0, &[9, 9, 9]).unwrap(), 3);
    assert_eq!(dump.read(0, 4).unwrap(), vec![1, 2, 3, 4]);
}

#[test]
fn empty_capability_pointer_yields_no_capabilities() {
    let dump = DumpAccess::new(&empty_config());
    let caps = CapabilityFactory::new(&dump).scan().unwrap();
    assert!(caps.is_empty());
}

#[test]
fn walks_a_terminated_chain() {
    let mut config = vec![0u8; 0x60];
    config[0x34] = 0x40;
    config[0x40] = 0x05; // some generic capability
    config[0x41] = 0x50; // next
    config[0x50] = 0x09; // another one
    config[0x51] = 0x00; // end of chain
    let dump = DumpAccess::new(&config);
    let caps = CapabilityFactory::new(&dump).scan().unwrap();
    assert_eq!(caps.len(), 2);
    assert_eq!(caps[0].offset().unwrap(), 0x40);
    assert_eq!(caps[1].offset().unwrap(), 0x50);
    assert_eq!(
        caps[0],
        CapabilityRecord::Unknown(UnknownCapability { offset: 0x40, id: 0x05 })
    );
}

#[test]
fn cyclic_chain_visits_each_offset_once() {
    let mut config = vec![0u8; 0x60];
    config[0x34] = 0x40;
    config[0x40] = 0x01; // power management
    config[0x41] = 0x50; // next
    config[0x50] = 0x05;
    config[0x51] = 0x40; // back to the first entry: a cycle
    let dump = DumpAccess::new(&config);
    let caps = CapabilityFactory::new(&dump).scan().unwrap();
    let offsets: Vec<u64> = caps.iter().map(|c| c.offset().unwrap()).collect();
    assert_eq!(offsets, vec![0x40, 0x50]);
    assert!(matches!(caps[0], CapabilityRecord::PowerManagement(_)));
    assert!(matches!(caps[1], CapabilityRecord::Unknown(_)));
}

#[test]
fn walks_the_extended_chain_when_advertised() {
    let mut config = vec![0u8; 0x110];
    config[0x06] = 0x10; // status bit 4: extended capabilities
    config[0x100] = 0xAB; // extended capability ID 0x00AB
    config[0x102] = 0x00; // next offset 0: end of chain
    let dump = DumpAccess::new(&config);
    let caps = CapabilityFactory::new(&dump).scan().unwrap();
    assert_eq!(
        caps,
        vec![CapabilityRecord::UnknownExtended(UnknownExtendedCapability {
            offset: 0x100,
            id: 0x00AB,
        })]
    );
}

#[test]
fn cyclic_extended_chain_terminates() {
    let mut config = vec![0u8; 0x110];
    config[0x06] = 0x10;
    config[0x100] = 0xCD;
    config[0x102] = 0x00; // next field 0x1000: next offset 0x100 again
    config[0x103] = 0x10;
    let dump = DumpAccess::new(&config);
    let caps = CapabilityFactory::new(&dump).scan().unwrap();
    assert_eq!(caps.len(), 1);
    assert_eq!(caps[0].offset().unwrap(), 0x100);
}

#[test]
fn extended_chain_errors_degrade_to_none() {
    // The status register advertises extended capabilities, but the capture
    // ends at 0x40, so the extended walk fails and is swallowed.
    let mut config = empty_config();
    config[0x06] = 0x10;
    config[0x34] = 0x38;
    config[0x38] = 0x03;
    let dump = DumpAccess::new(&config);
    let caps = CapabilityFactory::new(&dump).scan().unwrap();
    assert_eq!(caps.len(), 1);
    assert_eq!(caps[0].offset().unwrap(), 0x38);
}

#[test]
fn decodes_the_power_management_word() {
    let pm = PowerManagementCapability::parse(0x40, 0xFFFF);
    assert_eq!(pm.offset, 0x40);
    assert_eq!(pm.version, 7);
    assert!(pm.pme_clock);
    assert!(pm.immediate_readiness_on_return_to_d0);
    assert!(pm.driver_specific_initialization);
    assert_eq!(pm.aux_current, AuxCurrent { current: 7 });
    assert!(pm.d1_support);
    assert!(pm.d2_support);
    assert_eq!(
        pm.pme_support,
        PmeSupport { d0: true, d1: true, d2: true, d3_hot: true, d3_cold: true }
    );
}

#[test]
fn decodes_a_sparse_power_management_word() {
    // Version 2, D1 support, PME from D3hot only.
    let pm = PowerManagementCapability::parse(0x50, 0x4202);
    assert_eq!(pm.version, 2);
    assert!(!pm.pme_clock);
    assert!(pm.d1_support);
    assert!(!pm.d2_support);
    assert_eq!(pm.aux_current, AuxCurrent { current: 0 });
    assert_eq!(
        pm.pme_support,
        PmeSupport { d0: false, d1: false, d2: false, d3_hot: true, d3_cold: false }
    );
}

#[test]
fn renders_power_management_at_each_verbosity() {
    let pm = PowerManagementCapability::parse(0x40, 0xFFFF);
    assert_eq!(pm.cap_string(0).unwrap(), "Power Management version 7");
    assert_eq!(
        pm.cap_string(2).unwrap(),
        "Power Management version 7\n\t\tFlags: PMEClk+ DSI+ D1+ D2+ AuxCurrent=375mA \
         PME(D0+,D1+,D2+,D3hot+,D3cold+)"
    );
    let quiet = PowerManagementCapability::parse(0x40, 0x0000);
    assert_eq!(
        quiet.cap_string(2).unwrap(),
        "Power Management version 0\n\t\tFlags: PMEClk- DSI- D1- D2- AuxCurrent=0mA \
         PME(D0-,D1-,D2-,D3hot-,D3cold-)"
    );
}

#[test]
fn renders_unknown_capability_placeholders() {
    let cap = UnknownCapability { offset: 0x40, id: 0x11 };
    assert_eq!(cap.cap_string(0).unwrap(), "Capability 0x11 at 0x40");
    let ext = UnknownExtendedCapability { offset: 0x100, id: 0x1 };
    assert_eq!(ext.cap_string(0).unwrap(), "Capability 0x1 at 0x100");
    assert_eq!(ext.offset().unwrap(), 0x100);
}

#[test]
fn reads_id_and_next_through_the_accessor() {
    let mut config = vec![0u8; 0x60];
    config[0x40] = 0x01;
    config[0x41] = 0x50;
    let dump = DumpAccess::new(&config);
    assert_eq!(UnknownCapability::id(&dump, 0x40).unwrap(), 0x01);
    assert_eq!(UnknownCapability::next(&dump, 0x40).unwrap(), 0x50);
}

#[test]
fn extended_next_discards_the_version_bits() {
    let mut config = vec![0u8; 0x110];
    config[0x100] = 0x02;
    config[0x101] = 0x00;
    config[0x102] = 0x42; // version 2, next offset 0x154
    config[0x103] = 0x15;
    let dump = DumpAccess::new(&config);
    assert_eq!(UnknownExtendedCapability::id(&dump, 0x100).unwrap(), 0x0002);
    assert_eq!(UnknownExtendedCapability::next(&dump, 0x100).unwrap(), 0x0154);
}

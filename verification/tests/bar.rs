use pciutils::bar::{IoBAR, MemBAR, BAR};
use pciutils::error::ErrorKind;

fn words_to_bytes(words: &[u32]) -> Vec<u8> {
    let mut bytes = Vec::new();
    for w in words {
        bytes.extend_from_slice(&w.to_le_bytes());
    }
    bytes
}

#[test]
fn decodes_32bit_memory_bar() {
    let bars = BAR::new(&words_to_bytes(&[0xF000_0000])).unwrap();
    assert_eq!(
        bars,
        vec![BAR::MemBAR32(MemBAR {
            address: 0xF000_0000,
            prefechable: false,
        })]
    );
    // Bit 3 marks a 32-bit memory BAR prefetchable.
    let bars = BAR::new(&words_to_bytes(&[0xF000_0008])).unwrap();
    assert_eq!(
        bars,
        vec![BAR::MemBAR32(MemBAR {
            address: 0xF000_0000,
            prefechable: true,
        })]
    );
}

#[test]
fn decodes_64bit_memory_bar_pair() {
    let bars = BAR::new(&words_to_bytes(&[0x0000_000C, 0x0000_0001])).unwrap();
    assert_eq!(
        bars,
        vec![BAR::MemBAR64(MemBAR {
            address: 0x0000_0001_0000_0000,
            prefechable: true,
        })]
    );
    // A word with memory-type bits 10 starts a 64-bit pair too.
    let bars = BAR::new(&words_to_bytes(&[0xF000_0004, 0x0000_0001])).unwrap();
    assert_eq!(
        bars,
        vec![BAR::MemBAR64(MemBAR {
            address: 0x0000_0001_F000_0000,
            prefechable: false,
        })]
    );
}

#[test]
fn decodes_io_bar() {
    let bars = BAR::new(&words_to_bytes(&[0x0000_3001])).unwrap();
    assert_eq!(bars, vec![BAR::IoBAR(IoBAR { address: 0x0000_3000 })]);
}

#[test]
fn decode_consumes_exactly_its_input() {
    // One I/O BAR, one 32-bit memory BAR, one 64-bit pair: 4 + 4 + 8 bytes.
    let words = [0x0000_1001, 0xF000_0000, 0x0000_000C, 0x0000_0002];
    let bars = BAR::new(&words_to_bytes(&words)).unwrap();
    let consumed: usize = bars
        .iter()
        .map(|b| match b {
            BAR::MemBAR64(_) => 8,
            _ => 4,
        })
        .sum();
    assert_eq!(consumed, words.len() * 4);
    assert_eq!(bars.len(), 3);
}

#[test]
fn rejects_dangling_64bit_bar() {
    let r = BAR::new(&words_to_bytes(&[0x0000_000C]));
    assert_eq!(r.unwrap_err().error_kind, ErrorKind::SliceParseError);
}

#[test]
fn rejects_ragged_region() {
    let r = BAR::new(&[0x04, 0x00, 0x00]);
    assert_eq!(r.unwrap_err().error_kind, ErrorKind::SliceParseError);
}

#[test]
fn zero_address_is_unallocated() {
    let bars = BAR::new(&words_to_bytes(&[0x0000_0000, 0xF000_0000])).unwrap();
    assert!(!bars[0].is_allocated());
    assert!(bars[1].is_allocated());
}

#[test]
fn renders_bars() {
    let io = BAR::IoBAR(IoBAR { address: 0x3000 });
    assert_eq!(io.to_string(0), "I/O ports at 3000");
    let mem = BAR::MemBAR32(MemBAR {
        address: 0xF000_0000,
        prefechable: false,
    });
    assert_eq!(mem.to_string(0), "Memory at f0000000 (32-bit, non-prefetchable)");
    let mem64 = BAR::MemBAR64(MemBAR {
        address: 0x0000_0001_0000_0000,
        prefechable: true,
    });
    assert_eq!(mem64.to_string(0), "Memory at 100000000 (64-bit, prefetchable)");
}

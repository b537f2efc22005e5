use mtrap::decode::MemoryUnit;
use mtrap::memory::{extend_value, mem_load, mem_store, Memory};

fn span(base: u64, bytes: &[u8]) -> Memory {
    Memory { base, bytes: bytes.to_vec() }
}

#[test]
fn loads_assemble_little_endian() {
    let m = span(0x1000, &[0x11, 0x22, 0x33, 0x44, 0x55, 0x66, 0x77, 0x88, 0x99]);
    assert_eq!(mem_load(&m, 0x1000, MemoryUnit::Byte), 0x11);
    assert_eq!(mem_load(&m, 0x1001, MemoryUnit::HalfWord), 0x3322);
    assert_eq!(mem_load(&m, 0x1001, MemoryUnit::Word), 0x55443322);
    assert_eq!(mem_load(&m, 0x1001, MemoryUnit::DoubleWord), 0x9988776655443322);
}

#[test]
fn extension_is_exact() {
    assert_eq!(extend_value(0x7F, MemoryUnit::Byte, true), 0x7F);
    assert_eq!(extend_value(0x80, MemoryUnit::Byte, true), 0xFFFF_FFFF_FFFF_FF80);
    assert_eq!(extend_value(0xFF, MemoryUnit::Byte, false), 0xFF);
    assert_eq!(extend_value(0x8000, MemoryUnit::HalfWord, true), 0xFFFF_FFFF_FFFF_8000);
    assert_eq!(extend_value(0x7FFF, MemoryUnit::HalfWord, true), 0x7FFF);
    assert_eq!(extend_value(0x8000_0000, MemoryUnit::Word, true), 0xFFFF_FFFF_8000_0000);
    assert_eq!(extend_value(0x8000_0000, MemoryUnit::Word, false), 0x8000_0000);
    assert_eq!(
        extend_value(0x8000_0000_0000_0000, MemoryUnit::DoubleWord, true),
        0x8000_0000_0000_0000,
    );
}

#[test]
fn stores_write_little_endian_and_keep_neighbors() {
    let mut m = span(0x2000, &[0xAA; 8]);
    mem_store(&mut m, 0x2001, MemoryUnit::Word, 0x1122_3344);
    assert_eq!(m.bytes, vec![0xAA, 0x44, 0x33, 0x22, 0x11, 0xAA, 0xAA, 0xAA]);
}

#[test]
fn store_truncates_to_width() {
    let mut m = span(0, &[0u8; 4]);
    mem_store(&mut m, 1, MemoryUnit::HalfWord, 0xDEAD_BEEF_1234_5678);
    assert_eq!(m.bytes, vec![0, 0x78, 0x56, 0]);
}

#[test]
fn store_then_load_round_trips() {
    let mut m = span(0x3000, &[0u8; 16]);
    mem_store(&mut m, 0x3007, MemoryUnit::DoubleWord, 0x0102_0304_0506_0708);
    assert_eq!(mem_load(&m, 0x3007, MemoryUnit::DoubleWord), 0x0102_0304_0506_0708);
}

use mtrap::decode::{decode_counter_read, decode_load, decode_store, MemoryUnit};

#[test]
fn standard_doubleword_load_decodes() {
    // ld a0, 0(a0): standard form, destination register 10, signed
    // double-word access, 4-byte encoding
    let d = decode_load(0x0005_3503).expect("standard load must decode");
    assert_eq!(d.reg, 10);
    assert_eq!(d.unit, MemoryUnit::DoubleWord);
    assert!(d.signed);
    assert_eq!(d.len, 4);
}

#[test]
fn standard_unsigned_word_load_decodes() {
    // lwu a1, 0(a0): width bits 10, funct3 high bit set (unsigned)
    let ins: u64 = (6 << 12) | (11 << 7) | (10 << 15) | 0b000_0011;
    let d = decode_load(ins).expect("standard load must decode");
    assert_eq!(d.reg, 11);
    assert_eq!(d.unit, MemoryUnit::Word);
    assert!(!d.signed);
    assert_eq!(d.len, 4);
}

#[test]
fn compressed_stack_load_decodes() {
    // stack-relative compressed load of a double-word into register 10
    let ins: u64 = (3 << 13) | (10 << 7) | 0b10;
    let d = decode_load(ins).expect("compressed load must decode");
    assert_eq!(d.reg, 10);
    assert_eq!(d.unit, MemoryUnit::DoubleWord);
    assert!(d.signed);
    assert_eq!(d.len, 2);
}

#[test]
fn compressed_register_load_decodes() {
    // register-relative compressed load: 3-bit field 2 stands for a0
    let ins: u64 = (3 << 13) | (2 << 2);
    let d = decode_load(ins).expect("compressed load must decode");
    assert_eq!(d.reg, 10);
    assert_eq!(d.unit, MemoryUnit::DoubleWord);
    assert_eq!(d.len, 2);
}

#[test]
fn unknown_load_encoding_is_rejected() {
    // low opcode bits 01 belong to no recognized load form
    assert!(decode_load(0x0000_0001).is_none());
    assert!(decode_load((3 << 13) | 0b01).is_none());
}

#[test]
fn standard_store_decodes() {
    // sd a0, 0(a0): source register field at bit 20
    let ins: u64 = (10 << 20) | (3 << 12) | (10 << 15) | 0b010_0011;
    let d = decode_store(ins).expect("standard store must decode");
    assert_eq!(d.reg, 10);
    assert_eq!(d.unit, MemoryUnit::DoubleWord);
    assert_eq!(d.len, 4);
}

#[test]
fn compressed_stores_decode() {
    // stack-relative: source register field at bit 2, 5 bits wide
    let sp_form: u64 = (3 << 13) | (11 << 2) | 0b10;
    let d = decode_store(sp_form).expect("compressed store must decode");
    assert_eq!(d.reg, 11);
    assert_eq!(d.len, 2);

    // register-relative: 3-bit field 7 stands for a5
    let reg_form: u64 = (3 << 13) | (7 << 2);
    let d2 = decode_store(reg_form).expect("compressed store must decode");
    assert_eq!(d2.reg, 15);
    assert_eq!(d2.len, 2);
}

#[test]
fn unknown_store_encoding_is_rejected() {
    assert!(decode_store(0x0000_0005).is_none());
}

#[test]
fn counter_read_pattern_recognized_for_any_destination() {
    for rd in 0..32u64 {
        let ins: u64 = 0xC010_2073 | (rd << 7);
        assert_eq!(decode_counter_read(ins), Some(rd as u8));
    }
}

#[test]
fn counter_read_pattern_rejects_other_instructions() {
    assert!(decode_counter_read(0x0005_3503).is_none());
    assert!(decode_counter_read(0).is_none());
    // same opcode class but another counter
    assert!(decode_counter_read(0xC000_2073).is_none());
}

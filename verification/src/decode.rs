//! Decoding of the faulting instructions the firmware emulates.
//!
//! A misaligned load or store is classified by the low two bits of its
//! first half-word: `11` marks a standard 32-bit instruction, `10` a
//! stack-relative compressed form and `00` a register-relative
//! compressed form (only the RV64 integer compressed encodings are
//! understood; floating-point forms are not). From the matched form the
//! decoder extracts the operand register, the access width and, for
//! loads, the signedness, each at the bit offsets of that encoding.
//! The decoder also recognizes the one privileged counter-read opcode
//! the firmware synthesizes at machine level.

use vstd::prelude::*;

verus! {

/// Access width of an emulated load or store.
#[derive(Clone, Copy, Debug, PartialEq, Eq, Structural)]
pub enum MemoryUnit {
    Byte,
    HalfWord,
    Word,
    DoubleWord,
}

/// Number of bytes an access of width `u` touches.
pub open spec fn unit_bytes(u: MemoryUnit) -> nat {
    match u {
        MemoryUnit::Byte => 1,
        MemoryUnit::HalfWord => 2,
        MemoryUnit::Word => 4,
        MemoryUnit::DoubleWord => 8,
    }
}

/// The width encoded by a two-bit size field, in the order every
/// recognized form uses: byte, half-word, word, double-word.
pub open spec fn unit_of_bits(bits: u64) -> MemoryUnit {
    if bits == 0 { MemoryUnit::Byte }
    else if bits == 1 { MemoryUnit::HalfWord }
    else if bits == 2 { MemoryUnit::Word }
    else { MemoryUnit::DoubleWord }
}

/// What one recognized load or store form says about its access: the
/// frame-relative operand register, the access width, whether a loaded
/// value is sign-extended, and the encoded instruction length in bytes
/// (2 for compressed forms, 4 for standard ones).
#[derive(Clone, Copy, Debug, PartialEq, Eq, Structural)]
pub struct AccessDescriptor {
    pub reg: u8,
    pub unit: MemoryUnit,
    pub signed: bool,
    pub len: u8,
}

/// The opcode class in the low two bits of an instruction half-word.
pub open spec fn op_bits(ins: u64) -> u64 {
    ins & 0b11
}

/// Decoded form of a load instruction that trapped misaligned, or
/// `None` for an encoding this firmware does not understand.
pub open spec fn spec_decode_load(ins: u64) -> Option<AccessDescriptor> {
    let op = op_bits(ins);
    if op == 3 {
        Some(AccessDescriptor {
            reg: ((ins >> 7) & 0b1_1111) as u8,
            unit: unit_of_bits((ins >> 12) & 0b11),
            signed: (ins >> 14) & 1 == 0,
            len: 4,
        })
    } else if op == 2 {
        Some(AccessDescriptor {
            reg: ((ins >> 7) & 0b1_1111) as u8,
            unit: unit_of_bits((ins >> 13) & 0b11),
            signed: true,
            len: 2,
        })
    } else if op == 0 {
        Some(AccessDescriptor {
            reg: (((ins >> 2) & 0b111) + 8) as u8,
            unit: unit_of_bits((ins >> 13) & 0b11),
            signed: true,
            len: 2,
        })
    } else {
        None
    }
}

/// Decoded form of a store instruction that trapped misaligned, or
/// `None` for an encoding this firmware does not understand. Stores
/// carry no signedness; the field is left `false`.
pub open spec fn spec_decode_store(ins: u64) -> Option<AccessDescriptor> {
    let op = op_bits(ins);
    if op == 3 {
        Some(AccessDescriptor {
            reg: ((ins >> 20) & 0b1_1111) as u8,
            unit: unit_of_bits((ins >> 12) & 0b11),
            signed: false,
            len: 4,
        })
    } else if op == 2 {
        Some(AccessDescriptor {
            reg: ((ins >> 2) & 0b1_1111) as u8,
            unit: unit_of_bits((ins >> 13) & 0b11),
            signed: false,
            len: 2,
        })
    } else if op == 0 {
        Some(AccessDescriptor {
            reg: (((ins >> 2) & 0b111) + 8) as u8,
            unit: unit_of_bits((ins >> 13) & 0b11),
            signed: false,
            len: 2,
        })
    } else {
        None
    }
}

/// Whether `ins` is the privileged read of the monotonic cycle
/// counter: a fixed 32-bit opcode pattern with a free destination
/// register field.
pub open spec fn is_counter_read(ins: u64) -> bool {
    ins & 0xFFFF_F07F == 0xC010_2073
}

/// Destination register field of a standard 32-bit instruction.
pub open spec fn rd_field(ins: u64) -> u64 {
    (ins >> 7) & 0b1_1111
}

/// The width a two-bit size field encodes.
pub fn mem_unit_from_bits(bits: u64) -> (u: MemoryUnit)
    requires
        bits < 4,
    ensures
        u == unit_of_bits(bits),
{
    if bits == 0 { MemoryUnit::Byte }
    else if bits == 1 { MemoryUnit::HalfWord }
    else if bits == 2 { MemoryUnit::Word }
    else { MemoryUnit::DoubleWord }
}

/// Classify and decode a load instruction that trapped misaligned.
pub fn decode_load(ins: u64) -> (r: Option<AccessDescriptor>)
    ensures
        r == spec_decode_load(ins),
        r matches Some(d) ==> d.reg < 32 && (d.len == 2 || d.len == 4),
{
    let op: u64 = ins & 0b11;
    proof {
        assert(ins & 0b11 < 4 && (ins >> 7) & 0b1_1111 < 32 && (ins >> 12) & 0b11 < 4
            && (ins >> 13) & 0b11 < 4 && (ins >> 2) & 0b111 < 8) by (bit_vector);
    }
    if op == 3 {
        let rd: u64 = (ins >> 7) & 0b1_1111;
        let unit = mem_unit_from_bits((ins >> 12) & 0b11);
        let signed: bool = (ins >> 14) & 1 == 0;
        Some(AccessDescriptor { reg: rd as u8, unit, signed, len: 4 })
    } else if op == 2 {
        let rd: u64 = (ins >> 7) & 0b1_1111;
        let unit = mem_unit_from_bits((ins >> 13) & 0b11);
        Some(AccessDescriptor { reg: rd as u8, unit, signed: true, len: 2 })
    } else if op == 0 {
        let rd: u64 = ((ins >> 2) & 0b111) + 8;
        let unit = mem_unit_from_bits((ins >> 13) & 0b11);
        Some(AccessDescriptor { reg: rd as u8, unit, signed: true, len: 2 })
    } else {
        None
    }
}

/// Classify and decode a store instruction that trapped misaligned.
pub fn decode_store(ins: u64) -> (r: Option<AccessDescriptor>)
    ensures
        r == spec_decode_store(ins),
        r matches Some(d) ==> d.reg < 32 && (d.len == 2 || d.len == 4),
{
    let op: u64 = ins & 0b11;
    proof {
        assert(ins & 0b11 < 4 && (ins >> 20) & 0b1_1111 < 32 && (ins >> 12) & 0b11 < 4
            && (ins >> 13) & 0b11 < 4 && (ins >> 2) & 0b111 < 8
            && (ins >> 2) & 0b1_1111 < 32) by (bit_vector);
    }
    if op == 3 {
        let rs: u64 = (ins >> 20) & 0b1_1111;
        let unit = mem_unit_from_bits((ins >> 12) & 0b11);
        Some(AccessDescriptor { reg: rs as u8, unit, signed: false, len: 4 })
    } else if op == 2 {
        let rs: u64 = (ins >> 2) & 0b1_1111;
        let unit = mem_unit_from_bits((ins >> 13) & 0b11);
        Some(AccessDescriptor { reg: rs as u8, unit, signed: false, len: 2 })
    } else if op == 0 {
        let rs: u64 = ((ins >> 2) & 0b111) + 8;
        let unit = mem_unit_from_bits((ins >> 13) & 0b11);
        Some(AccessDescriptor { reg: rs as u8, unit, signed: false, len: 2 })
    } else {
        None
    }
}

/// Test for the privileged counter-read pattern and extract its
/// destination register field.
pub fn decode_counter_read(ins: u64) -> (r: Option<u8>)
    ensures
        r matches Some(rd) <==> is_counter_read(ins),
        r matches Some(rd) ==> rd == rd_field(ins) && rd < 32,
{
    if ins & 0xFFFF_F07F == 0xC010_2073 {
        let rd: u64 = (ins >> 7) & 0b1_1111;
        proof {
            assert((ins >> 7) & 0b1_1111 < 32) by (bit_vector);
        }
        Some(rd as u8)
    } else {
        None
    }
}

} // verus!

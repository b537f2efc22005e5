//! The register frame saved on trap entry.
//!
//! The frame holds every general-purpose register the trap entry stub
//! saves: all integer registers except `x0` (hard-wired to zero) and
//! the stack, global and thread pointers (`x2`, `x3`, `x4`), which the
//! stub never touches. It also carries the saved address-translation
//! register. Registers are addressed both by the standard 5-bit
//! encoding and by the compressed 3-bit encoding, which reaches only
//! `s0`, `s1` and `a0`..`a5`.

use vstd::prelude::*;

verus! {

/// General-purpose registers captured on trap entry, plus the saved
/// address-translation-mode register.
#[derive(Clone, Copy, Debug, PartialEq, Eq, Structural)]
pub struct TrapFrame {
    pub ra: u64,
    pub t0: u64,
    pub t1: u64,
    pub t2: u64,
    pub t3: u64,
    pub t4: u64,
    pub t5: u64,
    pub t6: u64,
    pub a0: u64,
    pub a1: u64,
    pub a2: u64,
    pub a3: u64,
    pub a4: u64,
    pub a5: u64,
    pub a6: u64,
    pub a7: u64,
    pub s0: u64,
    pub s1: u64,
    pub s2: u64,
    pub s3: u64,
    pub s4: u64,
    pub s5: u64,
    pub s6: u64,
    pub s7: u64,
    pub s8: u64,
    pub s9: u64,
    pub s10: u64,
    pub s11: u64,
    pub satp: u64,
}

/// The 5-bit register indices the frame can store: every index except
/// `x0` and the unsaved stack, global and thread pointers.
pub open spec fn writable(i: int) -> bool {
    1 <= i <= 31 && i != 2 && i != 3 && i != 4
}

/// The register numbered `i` in the standard 5-bit encoding; index 0
/// is the architectural zero register.
pub open spec fn frame_reg(f: TrapFrame, i: int) -> u64 {
    if i == 0 { 0 }
    else if i == 1 { f.ra }
    else if i == 5 { f.t0 }
    else if i == 6 { f.t1 }
    else if i == 7 { f.t2 }
    else if i == 8 { f.s0 }
    else if i == 9 { f.s1 }
    else if i == 10 { f.a0 }
    else if i == 11 { f.a1 }
    else if i == 12 { f.a2 }
    else if i == 13 { f.a3 }
    else if i == 14 { f.a4 }
    else if i == 15 { f.a5 }
    else if i == 16 { f.a6 }
    else if i == 17 { f.a7 }
    else if i == 18 { f.s2 }
    else if i == 19 { f.s3 }
    else if i == 20 { f.s4 }
    else if i == 21 { f.s5 }
    else if i == 22 { f.s6 }
    else if i == 23 { f.s7 }
    else if i == 24 { f.s8 }
    else if i == 25 { f.s9 }
    else if i == 26 { f.s10 }
    else if i == 27 { f.s11 }
    else if i == 28 { f.t3 }
    else if i == 29 { f.t4 }
    else if i == 30 { f.t5 }
    else if i == 31 { f.t6 }
    else { 0 }
}

/// The frame after register `i` (5-bit encoding) is overwritten with
/// `v`; every other slot, and the saved translation register, is kept.
pub open spec fn frame_set(f: TrapFrame, i: int, v: u64) -> TrapFrame {
    TrapFrame {
        ra: if i == 1 { v } else { f.ra },
        t0: if i == 5 { v } else { f.t0 },
        t1: if i == 6 { v } else { f.t1 },
        t2: if i == 7 { v } else { f.t2 },
        s0: if i == 8 { v } else { f.s0 },
        s1: if i == 9 { v } else { f.s1 },
        a0: if i == 10 { v } else { f.a0 },
        a1: if i == 11 { v } else { f.a1 },
        a2: if i == 12 { v } else { f.a2 },
        a3: if i == 13 { v } else { f.a3 },
        a4: if i == 14 { v } else { f.a4 },
        a5: if i == 15 { v } else { f.a5 },
        a6: if i == 16 { v } else { f.a6 },
        a7: if i == 17 { v } else { f.a7 },
        s2: if i == 18 { v } else { f.s2 },
        s3: if i == 19 { v } else { f.s3 },
        s4: if i == 20 { v } else { f.s4 },
        s5: if i == 21 { v } else { f.s5 },
        s6: if i == 22 { v } else { f.s6 },
        s7: if i == 23 { v } else { f.s7 },
        s8: if i == 24 { v } else { f.s8 },
        s9: if i == 25 { v } else { f.s9 },
        s10: if i == 26 { v } else { f.s10 },
        s11: if i == 27 { v } else { f.s11 },
        t3: if i == 28 { v } else { f.t3 },
        t4: if i == 29 { v } else { f.t4 },
        t5: if i == 30 { v } else { f.t5 },
        t6: if i == 31 { v } else { f.t6 },
        satp: f.satp,
    }
}

/// The 5-bit register index a compressed 3-bit index stands for:
/// `s0`, `s1`, then `a0`..`a5`.
pub open spec fn xic_to_xi(c: int) -> int {
    c + 8
}

/// The register a compressed 3-bit index addresses, read off the
/// compressed encoding table directly.
pub open spec fn frame_reg_c(f: TrapFrame, c: int) -> u64 {
    if c == 0 { f.s0 }
    else if c == 1 { f.s1 }
    else if c == 2 { f.a0 }
    else if c == 3 { f.a1 }
    else if c == 4 { f.a2 }
    else if c == 5 { f.a3 }
    else if c == 6 { f.a4 }
    else if c == 7 { f.a5 }
    else { 0 }
}

impl TrapFrame {
    /// A frame with every saved slot zero.
    pub fn new() -> (f: TrapFrame)
        ensures
            forall|i: int| frame_reg(f, i) == 0,
            f.satp == 0,
    {
        TrapFrame {
            ra: 0, t0: 0, t1: 0, t2: 0, t3: 0, t4: 0, t5: 0, t6: 0,
            a0: 0, a1: 0, a2: 0, a3: 0, a4: 0, a5: 0, a6: 0, a7: 0,
            s0: 0, s1: 0, s2: 0, s3: 0, s4: 0, s5: 0, s6: 0, s7: 0,
            s8: 0, s9: 0, s10: 0, s11: 0, satp: 0,
        }
    }

    /// Whether `i` names a register slot this frame stores; index 0
    /// and the unsaved pointer registers are refused.
    pub fn is_writable(i: u8) -> (r: bool)
        ensures
            r == writable(i as int),
    {
        1 <= i && i <= 31 && i != 2 && i != 3 && i != 4
    }

    /// Write register `i` in the standard 5-bit encoding. Index 0 is
    /// architecturally hard-wired to zero and must never be written;
    /// callers establish that `i` is a saved slot first.
    pub fn set_register_xi(&mut self, i: u8, data: u64)
        requires
            writable(i as int),
        ensures
            *final(self) == frame_set(*old(self), i as int, data),
    {
        match i {
            1 => self.ra = data,
            10 => self.a0 = data,
            11 => self.a1 = data,
            12 => self.a2 = data,
            13 => self.a3 = data,
            14 => self.a4 = data,
            15 => self.a5 = data,
            16 => self.a6 = data,
            17 => self.a7 = data,
            5 => self.t0 = data,
            6 => self.t1 = data,
            7 => self.t2 = data,
            28 => self.t3 = data,
            29 => self.t4 = data,
            30 => self.t5 = data,
            31 => self.t6 = data,
            8 => self.s0 = data,
            9 => self.s1 = data,
            18 => self.s2 = data,
            19 => self.s3 = data,
            20 => self.s4 = data,
            21 => self.s5 = data,
            22 => self.s6 = data,
            23 => self.s7 = data,
            24 => self.s8 = data,
            25 => self.s9 = data,
            26 => self.s10 = data,
            27 => self.s11 = data,
            _ => {
                proof {
                    assert(false);
                }
            }
        }
    }

    /// Write the register a compressed 3-bit index addresses.
    pub fn set_register_xic(&mut self, i: u8, data: u64)
        requires
            i < 8,
        ensures
            *final(self) == frame_set(*old(self), xic_to_xi(i as int), data),
    {
        match i {
            0b010 => self.a0 = data,
            0b011 => self.a1 = data,
            0b100 => self.a2 = data,
            0b101 => self.a3 = data,
            0b110 => self.a4 = data,
            0b111 => self.a5 = data,
            0b000 => self.s0 = data,
            0b001 => self.s1 = data,
            _ => {
                proof {
                    assert(false);
                }
            }
        }
    }

    /// Read register `i` in the standard 5-bit encoding; index 0 reads
    /// as the constant zero.
    pub fn get_register_xi(&self, i: u8) -> (r: u64)
        requires
            i == 0 || writable(i as int),
        ensures
            r == frame_reg(*self, i as int),
    {
        match i {
            0 => 0,
            1 => self.ra,
            10 => self.a0,
            11 => self.a1,
            12 => self.a2,
            13 => self.a3,
            14 => self.a4,
            15 => self.a5,
            16 => self.a6,
            17 => self.a7,
            5 => self.t0,
            6 => self.t1,
            7 => self.t2,
            28 => self.t3,
            29 => self.t4,
            30 => self.t5,
            31 => self.t6,
            8 => self.s0,
            9 => self.s1,
            18 => self.s2,
            19 => self.s3,
            20 => self.s4,
            21 => self.s5,
            22 => self.s6,
            23 => self.s7,
            24 => self.s8,
            25 => self.s9,
            26 => self.s10,
            27 => self.s11,
            _ => {
                proof {
                    assert(false);
                }
                0
            }
        }
    }

    /// Read the register a compressed 3-bit index addresses.
    pub fn get_register_xic(&self, i: u8) -> (r: u64)
        requires
            i < 8,
        ensures
            r == frame_reg_c(*self, i as int),
    {
        match i {
            0b010 => self.a0,
            0b011 => self.a1,
            0b100 => self.a2,
            0b101 => self.a3,
            0b110 => self.a4,
            0b111 => self.a5,
            0b000 => self.s0,
            0b001 => self.s1,
            _ => {
                proof {
                    assert(false);
                }
                0
            }
        }
    }
}

/// Writing a saved slot and reading it back returns the written value;
/// every other register, including the constant-zero register, is left
/// as it was, and so is the saved translation register.
pub proof fn lemma_set_then_get(f: TrapFrame, i: int, v: u64)
    requires
        writable(i),
    ensures
        frame_reg(frame_set(f, i, v), i) == v,
        forall|j: int| j != i ==> frame_reg(frame_set(f, i, v), j) == frame_reg(f, j),
        frame_set(f, i, v).satp == f.satp,
{
}

/// Register index 0 reads as zero in every frame, whatever was ever
/// written to the other slots.
pub proof fn lemma_get_zero(f: TrapFrame)
    ensures
        frame_reg(f, 0) == 0,
{
}

/// The compressed 3-bit encoding addresses exactly the registers
/// `s0`, `s1`, `a0`..`a5`: reads and writes through a compressed index
/// agree with the standard 5-bit encoding of the same register.
pub proof fn lemma_compressed_matches_standard(f: TrapFrame, c: int, v: u64)
    requires
        0 <= c < 8,
    ensures
        xic_to_xi(c) == c + 8,
        writable(xic_to_xi(c)),
        frame_reg_c(f, c) == frame_reg(f, xic_to_xi(c)),
        frame_set(f, xic_to_xi(c), v) == frame_set(f, c + 8, v),
{
}

} // verus!

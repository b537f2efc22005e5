//! Byte-addressed memory for the misaligned-access emulator.
//!
//! Hardware traps a load or store whose address breaks the natural
//! alignment of its width; the firmware then performs the access one
//! byte at a time, so no alignment is ever required. Memory is modelled
//! as a span of bytes starting at a base address; values are assembled
//! from and split into bytes in little-endian order, and loaded values
//! are sign- or zero-extended to the 64-bit register width.

use vstd::prelude::*;
use vstd::arithmetic::div_mod::lemma_div_denominator;
use crate::decode::{MemoryUnit, unit_bytes};

verus! {

/// A span of memory: `bytes[k]` models the byte at address `base + k`.
#[derive(Debug)]
pub struct Memory {
    pub base: u64,
    pub bytes: Vec<u8>,
}

/// 256 to the power `n`: the number of values `n` bytes can hold.
pub open spec fn pow256(n: nat) -> int
    decreases n,
{
    if n == 0 { 1 } else { 256 * pow256((n - 1) as nat) }
}

/// The value a byte sequence spells in little-endian order: the first
/// byte is least significant.
pub open spec fn le_bytes(bs: Seq<u8>) -> int
    decreases bs.len(),
{
    if bs.len() == 0 { 0 } else { bs[0] + 256 * le_bytes(bs.drop_first()) }
}

/// Byte `k` (counting from least significant) of a 64-bit value.
pub open spec fn byte_of(v: u64, k: int) -> u8 {
    (((v as int) / pow256(k as nat)) % 256) as u8
}

/// A little-endian value, sign-extended from a width of `n` bytes to
/// the 64-bit register width: values with the top bit of their width
/// set are mapped to the high end of the 64-bit range.
pub open spec fn sign_extended(raw: int, n: nat) -> int {
    if raw < pow256(n) / 2 { raw } else { raw + 0x1_0000_0000_0000_0000 - pow256(n) }
}

impl Memory {
    /// Whether the `n` bytes from `addr` on lie inside this span.
    pub open spec fn contains(self, addr: u64, n: nat) -> bool {
        self.base <= addr && addr - self.base + n <= self.bytes@.len()
    }

    /// The `n` bytes stored from `addr` on.
    pub open spec fn read_bytes(self, addr: u64, n: nat) -> Seq<u8> {
        self.bytes@.subrange(addr - self.base, addr - self.base + n)
    }

    /// The little-endian value of the `n` bytes stored from `addr` on.
    pub open spec fn read_le(self, addr: u64, n: nat) -> int {
        le_bytes(self.read_bytes(addr, n))
    }
}

/// Values of `pow256` up to the 64-bit register width.
pub proof fn lemma_pow256_values()
    ensures
        pow256(0) == 1,
        pow256(1) == 0x100,
        pow256(2) == 0x1_0000,
        pow256(3) == 0x100_0000,
        pow256(4) == 0x1_0000_0000,
        pow256(5) == 0x100_0000_0000,
        pow256(6) == 0x1_0000_0000_0000,
        pow256(7) == 0x100_0000_0000_0000,
        pow256(8) == 0x1_0000_0000_0000_0000,
{
    reveal_with_fuel(pow256, 9);
}

/// A little-endian value of `n` bytes is nonnegative and below the
/// count of values `n` bytes can hold.
pub proof fn lemma_le_bytes_bound(bs: Seq<u8>)
    ensures
        0 <= le_bytes(bs) < pow256(bs.len()),
    decreases bs.len(),
{
    if bs.len() == 0 {
    } else {
        lemma_le_bytes_bound(bs.drop_first());
    }
}

/// Number of bytes an access of width `u` touches.
pub fn unit_len(u: MemoryUnit) -> (n: usize)
    ensures
        n == unit_bytes(u),
        1 <= n <= 8,
{
    match u {
        MemoryUnit::Byte => 1,
        MemoryUnit::HalfWord => 2,
        MemoryUnit::Word => 4,
        MemoryUnit::DoubleWord => 8,
    }
}

/// Read a value of width `unit` at `addr`, byte by byte in little-
/// endian order; no alignment of `addr` is required.
pub fn mem_load(mem: &Memory, addr: u64, unit: MemoryUnit) -> (r: u64)
    requires
        mem.contains(addr, unit_bytes(unit)),
    ensures
        r == mem.read_le(addr, unit_bytes(unit)),
{
    let n: usize = unit_len(unit);
    let len: usize = mem.bytes.len();
    proof {
        assert(addr - mem.base + n <= len);
    }
    let off: usize = (addr - mem.base) as usize;
    let mut acc: u64 = 0;
    let mut i: usize = n;
    proof {
        assert(mem.bytes@.subrange(off + n, off + n) =~= Seq::<u8>::empty());
    }
    while i > 0
        invariant
            i <= n,
            1 <= n <= 8,
            n == unit_bytes(unit),
            mem.contains(addr, n as nat),
            off == addr - mem.base,
            off + n <= mem.bytes@.len(),
            off + n <= usize::MAX,
            acc == le_bytes(mem.bytes@.subrange(off + i, off + n)),
        decreases i,
    {
        i = i - 1;
        proof {
            lemma_pow256_values();
            lemma_le_bytes_bound(mem.bytes@.subrange(off + i + 1, off + n));
            lemma_pow256_le((n - i - 1) as nat, 7);
            assert(mem.bytes@.subrange(off + i, off + n).drop_first()
                =~= mem.bytes@.subrange(off + i + 1, off + n));
        }
        let b: u8 = mem.bytes[off + i];
        acc = acc * 256 + (b as u64);
    }
    proof {
        assert(mem.bytes@.subrange(off as int, off + n)
            =~= mem.bytes@.subrange(addr - mem.base, addr - mem.base + n as nat));
    }
    acc
}

/// `pow256` is at least one.
pub proof fn lemma_pow256_pos(n: nat)
    ensures
        pow256(n) >= 1,
    decreases n,
{
    if n > 0 {
        lemma_pow256_pos((n - 1) as nat);
    }
}

/// `pow256` grows with its exponent.
pub proof fn lemma_pow256_le(a: nat, b: nat)
    requires
        a <= b,
    ensures
        pow256(a) <= pow256(b),
    decreases b,
{
    if a < b {
        lemma_pow256_le(a, (b - 1) as nat);
        lemma_pow256_pos((b - 1) as nat);
    }
}

/// Sign- or zero-extend a raw little-endian value of width `unit` to
/// the 64-bit register width.
pub fn extend_value(raw: u64, unit: MemoryUnit, signed: bool) -> (r: u64)
    requires
        raw < pow256(unit_bytes(unit)),
    ensures
        signed ==> r == sign_extended(raw as int, unit_bytes(unit)),
        !signed ==> r == raw,
{
    proof {
        lemma_pow256_values();
    }
    if !signed {
        raw
    } else {
        match unit {
            MemoryUnit::Byte => {
                if raw >= 0x80 { raw + 0xFFFF_FFFF_FFFF_FF00 } else { raw }
            }
            MemoryUnit::HalfWord => {
                if raw >= 0x8000 { raw + 0xFFFF_FFFF_FFFF_0000 } else { raw }
            }
            MemoryUnit::Word => {
                if raw >= 0x8000_0000 { raw + 0xFFFF_FFFF_0000_0000 } else { raw }
            }
            MemoryUnit::DoubleWord => raw,
        }
    }
}

/// Write the low `unit` bytes of `v` at `addr`, byte by byte in
/// little-endian order; every byte outside the written span is kept.
pub fn mem_store(mem: &mut Memory, addr: u64, unit: MemoryUnit, v: u64)
    requires
        old(mem).contains(addr, unit_bytes(unit)),
    ensures
        final(mem).base == old(mem).base,
        final(mem).bytes@.len() == old(mem).bytes@.len(),
        forall|j: int| #![auto] 0 <= j < old(mem).bytes@.len()
            ==> final(mem).bytes@[j] == (
                if addr - old(mem).base <= j < addr - old(mem).base + unit_bytes(unit) {
                    byte_of(v, j - (addr - old(mem).base))
                } else {
                    old(mem).bytes@[j]
                }),
{
    let n: usize = unit_len(unit);
    let len: usize = mem.bytes.len();
    proof {
        assert(addr - mem.base + n <= len);
    }
    let off: usize = (addr - mem.base) as usize;
    let mut div: u64 = v;
    let mut k: usize = 0;
    while k < n
        invariant
            k <= n,
            1 <= n <= 8,
            n == unit_bytes(unit),
            old(mem).contains(addr, n as nat),
            off == addr - old(mem).base,
            off + n <= mem.bytes@.len(),
            off + n <= usize::MAX,
            mem.base == old(mem).base,
            mem.bytes@.len() == old(mem).bytes@.len(),
            div == (v as int) / pow256(k as nat),
            forall|j: int| #![auto] 0 <= j < old(mem).bytes@.len()
                ==> mem.bytes@[j] == (
                    if off <= j < off + k {
                        byte_of(v, j - off)
                    } else {
                        old(mem).bytes@[j]
                    }),
        decreases n - k,
    {
        let b: u8 = (div % 256) as u8;
        proof {
            lemma_pow256_values();
            lemma_div_denominator(v as int, pow256(k as nat), 256);
            assert(byte_of(v, k as int) == b);
        }
        mem.bytes[off + k] = b;
        div = div / 256;
        k = k + 1;
    }
}

} // verus!

//! Machine-mode trap handling core for an RV64 platform firmware.
//!
//! The crate models the state a trap handler works on — the saved
//! register frame, the relevant control/status registers, and the
//! memory touched by misaligned accesses — as plain data, and verifies
//! the decisions the firmware takes on every trap: instruction
//! decoding, misaligned load/store emulation, the emulated privileged
//! time read, forwarding of illegal instructions to supervisor level,
//! environment-call result delivery, hart lifecycle requests, and the
//! park/wake protocol that holds secondary harts during boot.
//!
//! Hardware access itself (control/status register reads and writes,
//! memory-mapped devices, the raw unaligned loads and stores) cannot be
//! verified and lives with the surrounding platform code, which feeds
//! observed values in and carries decisions out.

pub mod decode;
pub mod dispatch;
pub mod frame;
pub mod harts;
pub mod hsm;
pub mod memory;
pub mod park;
pub mod uart;

use vstd::prelude::*;

verus! {

/// A two-word result in the supervisor call ABI: an error code and a
/// return value, written back into the first two argument registers.
#[derive(Clone, Copy, Debug, PartialEq, Eq, Structural)]
pub struct SbiRet {
    pub error: u64,
    pub value: u64,
}

/// Error code for a call that succeeded.
pub const SBI_SUCCESS: u64 = 0;
/// Error code for an operation the firmware does not back (two's
/// complement encoding of -2 in a 64-bit register).
pub const SBI_ERR_NOT_SUPPORTED: u64 = 0xFFFF_FFFF_FFFF_FFFE;

impl SbiRet {
    /// Successful result carrying `value`.
    pub fn ok(value: u64) -> (r: SbiRet)
        ensures
            r.error == SBI_SUCCESS,
            r.value == value,
    {
        SbiRet { error: SBI_SUCCESS, value }
    }

    /// Result reporting that the requested operation is not supported.
    pub fn not_supported() -> (r: SbiRet)
        ensures
            r.error == SBI_ERR_NOT_SUPPORTED,
            r.value == 0,
    {
        SbiRet { error: SBI_ERR_NOT_SUPPORTED, value: 0 }
    }
}

} // verus!

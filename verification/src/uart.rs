//! Register layout and status decoding of the polled character device.
//!
//! The device is a memory-mapped FIFO pair with a status and a control
//! register, each at a fixed offset scaled by a platform shift. The
//! polling driver itself only reads and writes those addresses; the
//! address computation, the status-bit tests, and the newline
//! translation it decides by are here. The platform performs the
//! volatile accesses, including the FIFO-reset write to the control
//! register when the device is brought up.

use vstd::prelude::*;

verus! {

/// Offset of the receive FIFO register.
pub const RX_FIFO_OFFSET: usize = 0x0;
/// Offset of the transmit FIFO register.
pub const TX_FIFO_OFFSET: usize = 0x4;
/// Offset of the status register.
pub const STAT_REG_OFFSET: usize = 0x8;
/// Offset of the control register.
pub const CTRL_REG_OFFSET: usize = 0xc;

/// Control-register command that resets both FIFOs.
pub const RST_FIFO_MASK: u8 = 0x03;
/// Status bit: the transmit FIFO is full.
pub const TX_FULL_MASK: u8 = 0x08;
/// Status bit: the receive FIFO holds a byte.
pub const RX_VALID_MASK: u8 = 0x01;

/// The polled character device: a base address and the platform's
/// register-stride shift.
#[derive(Clone, Copy, Debug, PartialEq, Eq, Structural)]
pub struct Uartlite {
    pub base: usize,
    pub shift: usize,
}

/// The address of the register at `offset`, scaled by the platform
/// shift.
pub open spec fn spec_reg_addr(base: usize, offset: usize, shift: usize) -> int {
    base + (offset << shift)
}

impl Uartlite {
    /// Describe the device at `base` with register stride `shift`.
    /// Bringing the hardware up additionally takes one FIFO-reset
    /// write to the control register, which the platform performs.
    pub fn new(base: usize, shift: usize) -> (u: Uartlite)
        ensures
            u.base == base,
            u.shift == shift,
    {
        Uartlite { base, shift }
    }

    /// Address of the register at `offset`.
    pub fn reg_addr(&self, offset: usize) -> (r: usize)
        requires
            self.shift < usize::BITS,
            self.base + (offset << self.shift) <= usize::MAX,
        ensures
            r == spec_reg_addr(self.base, offset, self.shift),
    {
        self.base + (offset << self.shift)
    }
}

/// Whether a status-register value says the receive FIFO holds a byte.
pub fn rx_has_data(status: u8) -> (r: bool)
    ensures
        r == (status & RX_VALID_MASK != 0),
{
    status & RX_VALID_MASK != 0
}

/// Whether a status-register value says the transmit FIFO is full.
pub fn tx_is_full(status: u8) -> (r: bool)
    ensures
        r == (status & TX_FULL_MASK != 0),
{
    status & TX_FULL_MASK != 0
}

/// Whether a byte written to the console must be preceded by a
/// carriage return: the driver turns a bare line feed into a carriage
/// return / line feed pair.
pub fn needs_carriage_return(word: u8) -> (r: bool)
    ensures
        r == (word == 10),
{
    word == 10
}

} // verus!

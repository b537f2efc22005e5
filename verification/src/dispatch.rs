//! The trap cause dispatcher.
//!
//! Every trap on every hart is one independent transaction: read the
//! hardware cause, branch, emulate or forward or service, possibly
//! advance the saved return address, and resume — or report that the
//! hart can make no further safe progress. The handlers here work on
//! plain models of the hardware state: the saved register frame, the
//! control/status registers a trap reads and writes, and the memory a
//! misaligned access touches. The surrounding platform code reads the
//! real registers into these models, runs one handler, and writes the
//! results back; on a fatal outcome it reports diagnostics and parks
//! the hart forever.

use vstd::prelude::*;
use crate::SbiRet;
use crate::decode::{
    AccessDescriptor, is_counter_read, op_bits, rd_field, spec_decode_load, spec_decode_store,
    unit_bytes, decode_counter_read, decode_load, decode_store,
};
use crate::frame::{TrapFrame, frame_reg, frame_set, writable};
use crate::memory::{
    Memory, byte_of, lemma_le_bytes_bound, lemma_pow256_values,
    mem_load, mem_store, extend_value, sign_extended,
};

verus! {

/// A privilege level recorded in the status register.
#[derive(Clone, Copy, Debug, PartialEq, Eq, Structural)]
pub enum Privilege {
    User,
    Supervisor,
    Machine,
}

/// The hardware-reported reason for a trap. Any cause outside the six
/// the dispatcher services is `Unhandled` and fatal.
#[derive(Clone, Copy, Debug, PartialEq, Eq, Structural)]
pub enum TrapCause {
    SupervisorEnvCall,
    MachineSoftInterrupt,
    MachineTimerInterrupt,
    IllegalInstruction,
    LoadMisaligned,
    StoreMisaligned,
    Unhandled,
}

/// What a trap transaction ends in: resume the interrupted execution
/// (with the state updated by the handler), or halt this hart for
/// good because no safe continuation exists.
#[derive(Clone, Copy, Debug, PartialEq, Eq, Structural)]
pub enum TrapOutcome {
    Resume,
    Fatal,
}

/// Exception cause code for an illegal instruction, as written into
/// the supervisor cause register when the trap is forwarded.
pub const CAUSE_ILLEGAL_INSTRUCTION: u64 = 2;

/// The control/status state one trap transaction reads and writes:
/// the machine return address and trap value, the privilege and
/// interrupt-enable fields of the status register, the machine
/// interrupt-enable and supervisor interrupt-pending bits, and the
/// supervisor trap registers used when a trap is forwarded down.
#[derive(Clone, Copy, Debug, PartialEq, Eq, Structural)]
pub struct Csrs {
    /// Machine exception return address.
    pub mepc: u64,
    /// Faulting address or instruction bits captured by hardware.
    pub mtval: u64,
    /// Privilege level the hart ran at before the trap.
    pub mpp: Privilege,
    /// Previous-privilege field of the supervisor status.
    pub spp: Privilege,
    /// Live supervisor interrupt-enable bit.
    pub sie: bool,
    /// Previous supervisor interrupt-enable bit.
    pub spie: bool,
    /// Machine software-interrupt enable.
    pub mie_msoft: bool,
    /// Machine timer-interrupt enable.
    pub mie_mtimer: bool,
    /// Supervisor software-interrupt pending.
    pub mip_ssoft: bool,
    /// Supervisor timer-interrupt pending.
    pub mip_stimer: bool,
    /// Supervisor trap cause register.
    pub scause: u64,
    /// Supervisor trap value register.
    pub stval: u64,
    /// Supervisor exception return address.
    pub sepc: u64,
    /// Supervisor trap vector entry address (direct mode).
    pub stvec: u64,
}

/// `x + k` in 64-bit address arithmetic, wrapping at the top of the
/// address space.
pub open spec fn wrap_add64(x: u64, k: u64) -> u64 {
    if x + k > u64::MAX { (x + k - 0x1_0000_0000_0000_0000) as u64 } else { (x + k) as u64 }
}

/// Advance a saved return address past an emulated instruction of
/// `len` bytes.
pub fn advance_pc(pc: u64, len: u8) -> (r: u64)
    ensures
        r == wrap_add64(pc, len as u64),
{
    pc.wrapping_add(len as u64)
}

/// The identifier and argument registers of an environment call, in
/// their fixed ABI positions.
#[derive(Clone, Copy, Debug, PartialEq, Eq, Structural)]
pub struct EcallRequest {
    /// Extension identifier, register `a7`.
    pub extension: u64,
    /// Function identifier, register `a6`.
    pub function: u64,
    /// Arguments, registers `a0` to `a4`.
    pub arg0: u64,
    pub arg1: u64,
    pub arg2: u64,
    pub arg3: u64,
    pub arg4: u64,
}

/// Gather the identifier and argument registers of an environment
/// call from the frame.
pub fn ecall_args(frame: &TrapFrame) -> (r: EcallRequest)
    ensures
        r.extension == frame_reg(*frame, 17),
        r.function == frame_reg(*frame, 16),
        r.arg0 == frame_reg(*frame, 10),
        r.arg1 == frame_reg(*frame, 11),
        r.arg2 == frame_reg(*frame, 12),
        r.arg3 == frame_reg(*frame, 13),
        r.arg4 == frame_reg(*frame, 14),
{
    EcallRequest {
        extension: frame.get_register_xi(17),
        function: frame.get_register_xi(16),
        arg0: frame.get_register_xi(10),
        arg1: frame.get_register_xi(11),
        arg2: frame.get_register_xi(12),
        arg3: frame.get_register_xi(13),
        arg4: frame.get_register_xi(14),
    }
}

/// State after an environment call is serviced: the router's error
/// and value land in the first two argument registers, nothing else
/// in the frame moves, and the return address skips the 4-byte call
/// instruction.
pub open spec fn spec_env_call(frame: TrapFrame, csrs: Csrs, ans: SbiRet) -> (TrapFrame, Csrs) {
    (
        frame_set(frame_set(frame, 10, ans.error), 11, ans.value),
        Csrs { mepc: wrap_add64(csrs.mepc, 4), ..csrs },
    )
}

/// Write an environment-call result back into the frame and skip the
/// call instruction. The router's answer for the frame's current
/// identifier and argument registers is passed in; the call routing
/// itself is the platform's.
pub fn handle_env_call(frame: &mut TrapFrame, csrs: &mut Csrs, ans: SbiRet)
    ensures
        (*final(frame), *final(csrs)) == spec_env_call(*old(frame), *old(csrs), ans),
{
    frame.set_register_xi(10, ans.error);
    frame.set_register_xi(11, ans.value);
    csrs.mepc = advance_pc(csrs.mepc, 4);
}

/// State after a machine software interrupt: the supervisor-level
/// pending bit is set and the machine-level source is masked until
/// re-armed; the return address does not move.
pub open spec fn spec_machine_soft(csrs: Csrs) -> Csrs {
    Csrs { mip_ssoft: true, mie_msoft: false, ..csrs }
}

/// Hand a machine software interrupt down to supervisor level.
pub fn handle_machine_soft(csrs: &mut Csrs)
    ensures
        *final(csrs) == spec_machine_soft(*old(csrs)),
{
    csrs.mip_ssoft = true;
    csrs.mie_msoft = false;
}

/// State after a machine timer interrupt: symmetric to the software
/// interrupt, on the timer bits.
pub open spec fn spec_machine_timer(csrs: Csrs) -> Csrs {
    Csrs { mip_stimer: true, mie_mtimer: false, ..csrs }
}

/// Hand a machine timer interrupt down to supervisor level.
pub fn handle_machine_timer(csrs: &mut Csrs)
    ensures
        *final(csrs) == spec_machine_timer(*old(csrs)),
{
    csrs.mip_stimer = true;
    csrs.mie_mtimer = false;
}

/// State after an illegal instruction is forwarded to supervisor
/// level, exactly as if it had trapped there directly: the supervisor
/// cause, trap value and exception address are synthesized, the
/// previous-privilege fields are forced to supervisor, the previous
/// interrupt-enable bit receives the live one which is then cleared,
/// and execution resumes at the supervisor trap vector.
pub open spec fn spec_forward_illegal(csrs: Csrs) -> Csrs {
    Csrs {
        scause: CAUSE_ILLEGAL_INSTRUCTION,
        stval: csrs.mtval,
        sepc: csrs.mepc,
        mpp: Privilege::Supervisor,
        spp: Privilege::Supervisor,
        spie: csrs.sie,
        sie: false,
        mepc: csrs.stvec,
        ..csrs
    }
}

/// Synthesize a supervisor-level illegal-instruction exception.
pub fn forward_illegal(csrs: &mut Csrs)
    ensures
        *final(csrs) == spec_forward_illegal(*old(csrs)),
{
    csrs.scause = CAUSE_ILLEGAL_INSTRUCTION;
    csrs.stval = csrs.mtval;
    csrs.sepc = csrs.mepc;
    csrs.mpp = Privilege::Supervisor;
    csrs.spp = Privilege::Supervisor;
    csrs.spie = csrs.sie;
    csrs.sie = false;
    csrs.mepc = csrs.stvec;
}

/// State after an illegal-instruction trap on instruction bits `ins`
/// with the controller's monotonic time standing at `time`. The one
/// recognized privileged counter read is emulated in place; any other
/// illegal instruction from below machine level is forwarded to the
/// supervisor; one from machine level itself is a firmware fault and
/// fatal. A counter read naming an unsaved destination register is a
/// decoder-contract breach and equally fatal.
pub open spec fn spec_illegal(frame: TrapFrame, csrs: Csrs, ins: u64, time: u64)
    -> (TrapFrame, Csrs, TrapOutcome) {
    if is_counter_read(ins) {
        if writable(rd_field(ins) as int) {
            (
                frame_set(frame, rd_field(ins) as int, time),
                Csrs { mepc: wrap_add64(csrs.mepc, 4), ..csrs },
                TrapOutcome::Resume,
            )
        } else {
            (frame, csrs, TrapOutcome::Fatal)
        }
    } else if csrs.mpp != Privilege::Machine {
        (frame, spec_forward_illegal(csrs), TrapOutcome::Resume)
    } else {
        (frame, csrs, TrapOutcome::Fatal)
    }
}

/// Service an illegal-instruction trap: emulate the privileged
/// counter read with the supplied `time`, forward anything else that
/// came from below machine level, and report a fatal outcome for
/// machine-level faults.
pub fn handle_illegal(frame: &mut TrapFrame, csrs: &mut Csrs, ins: u64, time: u64)
    -> (o: TrapOutcome)
    ensures
        *final(frame) == spec_illegal(*old(frame), *old(csrs), ins, time).0,
        *final(csrs) == spec_illegal(*old(frame), *old(csrs), ins, time).1,
        o == spec_illegal(*old(frame), *old(csrs), ins, time).2,
{
    match decode_counter_read(ins) {
        Some(rd) => {
            if TrapFrame::is_writable(rd) {
                frame.set_register_xi(rd, time);
                csrs.mepc = advance_pc(csrs.mepc, 4);
                TrapOutcome::Resume
            } else {
                TrapOutcome::Fatal
            }
        }
        None => {
            if csrs.mpp != Privilege::Machine {
                forward_illegal(csrs);
                TrapOutcome::Resume
            } else {
                TrapOutcome::Fatal
            }
        }
    }
}

/// The low half-word of the instruction at `pc`, used to classify the
/// faulting encoding.
pub open spec fn spec_ins16(mem: Memory, pc: u64) -> u64 {
    mem.read_le(pc, 2) as u64
}

/// The faulting instruction bits at `pc`: a standard form is re-read
/// as a full 32-bit word, a compressed form is the half-word itself.
pub open spec fn spec_fault_ins(mem: Memory, pc: u64) -> u64 {
    if op_bits(spec_ins16(mem, pc)) == 3 { mem.read_le(pc, 4) as u64 } else { spec_ins16(mem, pc) }
}

/// The faulting instruction can be fetched from the span: its first
/// half-word lies inside, and so does the rest of a standard form.
pub open spec fn misaligned_ins_readable(csrs: Csrs, mem: Memory) -> bool {
    &&& mem.contains(csrs.mepc, 2)
    &&& op_bits(spec_ins16(mem, csrs.mepc)) == 3 ==> mem.contains(csrs.mepc, 4)
}

/// What a misaligned-load transaction needs of the span: the faulting
/// instruction is fetchable, and where it decodes to a load the
/// accessed bytes lie inside.
pub open spec fn load_misaligned_pre(csrs: Csrs, mem: Memory) -> bool {
    &&& misaligned_ins_readable(csrs, mem)
    &&& match spec_decode_load(spec_fault_ins(mem, csrs.mepc)) {
        Option::Some(d) => writable(d.reg as int) ==> mem.contains(csrs.mtval, unit_bytes(d.unit)),
        Option::None => true,
    }
}

/// State after a misaligned-load trap: the faulting instruction is
/// fetched and decoded; the requested width is read byte by byte from
/// the faulting address, sign- or zero-extended per the decoded form
/// into the destination register, and the return address advances by
/// the decoded instruction length. An unrecognized encoding, or one
/// naming an unsaved destination register, is fatal.
pub open spec fn spec_load_misaligned(frame: TrapFrame, csrs: Csrs, mem: Memory)
    -> (TrapFrame, Csrs, TrapOutcome) {
    let ins = spec_fault_ins(mem, csrs.mepc);
    match spec_decode_load(ins) {
        Option::Some(d) => {
            if writable(d.reg as int) {
                let raw = mem.read_le(csrs.mtval, unit_bytes(d.unit));
                let value = if d.signed { sign_extended(raw, unit_bytes(d.unit)) } else { raw };
                (
                    frame_set(frame, d.reg as int, value as u64),
                    Csrs { mepc: wrap_add64(csrs.mepc, d.len as u64), ..csrs },
                    TrapOutcome::Resume,
                )
            } else {
                (frame, csrs, TrapOutcome::Fatal)
            }
        }
        Option::None => (frame, csrs, TrapOutcome::Fatal),
    }
}

/// Fetch, decode and emulate a load that trapped misaligned.
pub fn handle_load_misaligned(frame: &mut TrapFrame, csrs: &mut Csrs, mem: &Memory)
    -> (o: TrapOutcome)
    requires
        load_misaligned_pre(*old(csrs), *mem),
    ensures
        *final(frame) == spec_load_misaligned(*old(frame), *old(csrs), *mem).0,
        *final(csrs) == spec_load_misaligned(*old(frame), *old(csrs), *mem).1,
        o == spec_load_misaligned(*old(frame), *old(csrs), *mem).2,
{
    let ins16: u64 = mem_load(mem, csrs.mepc, crate::decode::MemoryUnit::HalfWord);
    proof {
        lemma_le_bytes_bound(mem.read_bytes(old(csrs).mepc, 2));
        lemma_pow256_values();
        assert(ins16 == spec_ins16(*mem, old(csrs).mepc));
    }
    let ins: u64 = if ins16 & 0b11 == 3 {
        let w: u64 = mem_load(mem, csrs.mepc, crate::decode::MemoryUnit::Word);
        proof {
            lemma_le_bytes_bound(mem.read_bytes(old(csrs).mepc, 4));
            assert(w == spec_fault_ins(*mem, old(csrs).mepc));
        }
        w
    } else {
        ins16
    };
    match decode_load(ins) {
        Option::Some(d) => {
            if TrapFrame::is_writable(d.reg) {
                let raw: u64 = mem_load(mem, csrs.mtval, d.unit);
                proof {
                    lemma_le_bytes_bound(mem.read_bytes(old(csrs).mtval, unit_bytes(d.unit)));
                }
                let value: u64 = extend_value(raw, d.unit, d.signed);
                frame.set_register_xi(d.reg, value);
                csrs.mepc = advance_pc(csrs.mepc, d.len);
                TrapOutcome::Resume
            } else {
                TrapOutcome::Fatal
            }
        }
        Option::None => TrapOutcome::Fatal,
    }
}

/// What a misaligned-store transaction needs of the span: the faulting
/// instruction is fetchable, and where it decodes to a store whose
/// source register the frame can supply the written bytes lie inside.
pub open spec fn store_misaligned_pre(csrs: Csrs, mem: Memory) -> bool {
    &&& misaligned_ins_readable(csrs, mem)
    &&& match spec_decode_store(spec_fault_ins(mem, csrs.mepc)) {
        Option::Some(d) => (d.reg == 0 || writable(d.reg as int))
            ==> mem.contains(csrs.mtval, unit_bytes(d.unit)),
        Option::None => true,
    }
}

/// A byte span with the low `n` bytes of `v` laid over it at `off`,
/// little-endian; all other bytes kept.
pub open spec fn spec_store_bytes(bytes: Seq<u8>, off: int, v: u64, n: nat) -> Seq<u8> {
    Seq::new(bytes.len(), |j: int| if off <= j < off + n { byte_of(v, j - off) } else { bytes[j] })
}

/// State after a misaligned-store trap: the faulting instruction is
/// fetched and decoded; the source register value is truncated to the
/// decoded width and written byte by byte at the faulting address, and
/// the return address advances by the decoded instruction length. An
/// unrecognized encoding, or a source register index the frame does
/// not store (the unsaved pointer registers), is fatal; the zero
/// register is a valid source and stores zero.
pub open spec fn spec_store_misaligned(frame: TrapFrame, csrs: Csrs, mem: Memory)
    -> (Csrs, Seq<u8>, TrapOutcome) {
    let ins = spec_fault_ins(mem, csrs.mepc);
    match spec_decode_store(ins) {
        Option::Some(d) => {
            if d.reg == 0 || writable(d.reg as int) {
                let v = frame_reg(frame, d.reg as int);
                (
                    Csrs { mepc: wrap_add64(csrs.mepc, d.len as u64), ..csrs },
                    spec_store_bytes(mem.bytes@, csrs.mtval - mem.base, v, unit_bytes(d.unit)),
                    TrapOutcome::Resume,
                )
            } else {
                (csrs, mem.bytes@, TrapOutcome::Fatal)
            }
        }
        Option::None => (csrs, mem.bytes@, TrapOutcome::Fatal),
    }
}

/// Fetch, decode and emulate a store that trapped misaligned.
pub fn handle_store_misaligned(frame: &TrapFrame, csrs: &mut Csrs, mem: &mut Memory)
    -> (o: TrapOutcome)
    requires
        store_misaligned_pre(*old(csrs), *old(mem)),
    ensures
        *final(csrs) == spec_store_misaligned(*frame, *old(csrs), *old(mem)).0,
        final(mem).bytes@ == spec_store_misaligned(*frame, *old(csrs), *old(mem)).1,
        final(mem).base == old(mem).base,
        o == spec_store_misaligned(*frame, *old(csrs), *old(mem)).2,
{
    let ins16: u64 = mem_load(mem, csrs.mepc, crate::decode::MemoryUnit::HalfWord);
    proof {
        lemma_le_bytes_bound(old(mem).read_bytes(old(csrs).mepc, 2));
        lemma_pow256_values();
        assert(ins16 == spec_ins16(*old(mem), old(csrs).mepc));
    }
    let ins: u64 = if ins16 & 0b11 == 3 {
        let w: u64 = mem_load(mem, csrs.mepc, crate::decode::MemoryUnit::Word);
        proof {
            lemma_le_bytes_bound(old(mem).read_bytes(old(csrs).mepc, 4));
            assert(w == spec_fault_ins(*old(mem), old(csrs).mepc));
        }
        w
    } else {
        ins16
    };
    match decode_store(ins) {
        Option::Some(d) => {
            if d.reg == 0 || TrapFrame::is_writable(d.reg) {
                let v: u64 = frame.get_register_xi(d.reg);
                mem_store(mem, csrs.mtval, d.unit, v);
                proof {
                    assert(mem.bytes@ =~= spec_store_bytes(
                        old(mem).bytes@,
                        old(csrs).mtval - old(mem).base,
                        v,
                        unit_bytes(d.unit),
                    ));
                }
                csrs.mepc = advance_pc(csrs.mepc, d.len);
                TrapOutcome::Resume
            } else {
                TrapOutcome::Fatal
            }
        }
        Option::None => TrapOutcome::Fatal,
    }
}

/// One whole trap transaction on the modelled state. `ans` is the
/// call router's answer for the frame's current identifier and
/// argument registers (consulted only on an environment call), and
/// `time` is the controller's monotonic count (consulted only for the
/// emulated counter read).
pub open spec fn spec_handle_trap(
    frame: TrapFrame,
    csrs: Csrs,
    mem: Memory,
    cause: TrapCause,
    ans: SbiRet,
    time: u64,
) -> (TrapFrame, Csrs, Seq<u8>, TrapOutcome) {
    match cause {
        TrapCause::SupervisorEnvCall => {
            let r = spec_env_call(frame, csrs, ans);
            (r.0, r.1, mem.bytes@, TrapOutcome::Resume)
        }
        TrapCause::MachineSoftInterrupt => (frame, spec_machine_soft(csrs), mem.bytes@, TrapOutcome::Resume),
        TrapCause::MachineTimerInterrupt => (frame, spec_machine_timer(csrs), mem.bytes@, TrapOutcome::Resume),
        TrapCause::IllegalInstruction => {
            let r = spec_illegal(frame, csrs, mem.read_le(csrs.mepc, 4) as u64, time);
            (r.0, r.1, mem.bytes@, r.2)
        }
        TrapCause::LoadMisaligned => {
            let r = spec_load_misaligned(frame, csrs, mem);
            (r.0, r.1, mem.bytes@, r.2)
        }
        TrapCause::StoreMisaligned => {
            let r = spec_store_misaligned(frame, csrs, mem);
            (frame, r.0, r.1, r.2)
        }
        TrapCause::Unhandled => (frame, csrs, mem.bytes@, TrapOutcome::Fatal),
    }
}

/// Dispatch one trap: read the cause, branch to the matching handler,
/// and report whether the hart resumes or halts. On a fatal outcome
/// nothing in the modelled state has moved; the caller reports
/// diagnostics and parks the hart.
pub fn handle_trap(
    frame: &mut TrapFrame,
    csrs: &mut Csrs,
    mem: &mut Memory,
    cause: TrapCause,
    ans: SbiRet,
    time: u64,
) -> (o: TrapOutcome)
    requires
        cause == TrapCause::IllegalInstruction ==> old(mem).contains(old(csrs).mepc, 4),
        cause == TrapCause::LoadMisaligned ==> load_misaligned_pre(*old(csrs), *old(mem)),
        cause == TrapCause::StoreMisaligned ==> store_misaligned_pre(*old(csrs), *old(mem)),
    ensures
        *final(frame) == spec_handle_trap(*old(frame), *old(csrs), *old(mem), cause, ans, time).0,
        *final(csrs) == spec_handle_trap(*old(frame), *old(csrs), *old(mem), cause, ans, time).1,
        final(mem).bytes@ == spec_handle_trap(*old(frame), *old(csrs), *old(mem), cause, ans, time).2,
        final(mem).base == old(mem).base,
        o == spec_handle_trap(*old(frame), *old(csrs), *old(mem), cause, ans, time).3,
{
    match cause {
        TrapCause::SupervisorEnvCall => {
            handle_env_call(frame, csrs, ans);
            TrapOutcome::Resume
        }
        TrapCause::MachineSoftInterrupt => {
            handle_machine_soft(csrs);
            TrapOutcome::Resume
        }
        TrapCause::MachineTimerInterrupt => {
            handle_machine_timer(csrs);
            TrapOutcome::Resume
        }
        TrapCause::IllegalInstruction => {
            let ins: u64 = mem_load(mem, csrs.mepc, crate::decode::MemoryUnit::Word);
            proof {
                lemma_le_bytes_bound(old(mem).read_bytes(old(csrs).mepc, 4));
                lemma_pow256_values();
            }
            handle_illegal(frame, csrs, ins, time)
        }
        TrapCause::LoadMisaligned => handle_load_misaligned(frame, csrs, mem),
        TrapCause::StoreMisaligned => handle_store_misaligned(frame, csrs, mem),
        TrapCause::Unhandled => TrapOutcome::Fatal,
    }
}


/// Which traps the firmware delegates down to supervisor level, and
/// which machine interrupt sources it arms, fixed once at boot:
/// supervisor interrupts and the page faults and user environment
/// call are delegated; breakpoints, instruction faults and
/// instruction page faults are kept at machine level; the machine
/// external and software sources are armed and the machine timer is
/// left masked until programmed.
#[derive(Clone, Copy, Debug, PartialEq, Eq, Structural)]
pub struct TrapDelegation {
    pub delegate_s_external: bool,
    pub delegate_s_timer: bool,
    pub delegate_s_soft: bool,
    pub delegate_breakpoint: bool,
    pub delegate_user_env_call: bool,
    pub delegate_load_page_fault: bool,
    pub delegate_store_page_fault: bool,
    pub delegate_instruction_page_fault: bool,
    pub delegate_instruction_fault: bool,
    pub enable_m_external: bool,
    pub enable_m_soft: bool,
    pub enable_m_timer: bool,
}

/// The delegation and interrupt-arming choices this firmware makes;
/// the platform writes them into the delegation and interrupt-enable
/// registers.
pub fn delegation_config() -> (c: TrapDelegation)
    ensures
        c.delegate_s_external,
        c.delegate_s_timer,
        c.delegate_s_soft,
        !c.delegate_breakpoint,
        c.delegate_user_env_call,
        c.delegate_load_page_fault,
        c.delegate_store_page_fault,
        !c.delegate_instruction_page_fault,
        !c.delegate_instruction_fault,
        c.enable_m_external,
        c.enable_m_soft,
        !c.enable_m_timer,
{
    TrapDelegation {
        delegate_s_external: true,
        delegate_s_timer: true,
        delegate_s_soft: true,
        delegate_breakpoint: false,
        delegate_user_env_call: true,
        delegate_load_page_fault: true,
        delegate_store_page_fault: true,
        delegate_instruction_page_fault: false,
        delegate_instruction_fault: false,
        enable_m_external: true,
        enable_m_soft: true,
        enable_m_timer: false,
    }
}

/// The recognized privileged counter read emulates to exactly the
/// supplied monotonic time, whatever its destination-register field
/// holds, and never forwards: only the destination register and the
/// return address move, and the supervisor trap registers stay put.
pub proof fn lemma_counter_read_emulates(frame: TrapFrame, csrs: Csrs, ins: u64, time: u64)
    requires
        is_counter_read(ins),
        writable(rd_field(ins) as int),
    ensures
        spec_illegal(frame, csrs, ins, time).2 == TrapOutcome::Resume,
        frame_reg(spec_illegal(frame, csrs, ins, time).0, rd_field(ins) as int) == time,
        forall|j: int| j != rd_field(ins) as int
            ==> frame_reg(spec_illegal(frame, csrs, ins, time).0, j) == frame_reg(frame, j),
        spec_illegal(frame, csrs, ins, time).1 == (Csrs {
            mepc: wrap_add64(csrs.mepc, 4),
            ..csrs
        }),
{
    crate::frame::lemma_set_then_get(frame, rd_field(ins) as int, time);
}

/// An environment call delivers the router's answer pair into exactly
/// the first two argument registers and advances the return address by
/// the call instruction's fixed 4-byte width; no other register and no
/// other control state moves.
pub proof fn lemma_env_call_delivery(frame: TrapFrame, csrs: Csrs, ans: SbiRet)
    ensures
        frame_reg(spec_env_call(frame, csrs, ans).0, 10) == ans.error,
        frame_reg(spec_env_call(frame, csrs, ans).0, 11) == ans.value,
        forall|j: int| j != 10 && j != 11
            ==> frame_reg(spec_env_call(frame, csrs, ans).0, j) == frame_reg(frame, j),
        spec_env_call(frame, csrs, ans).1 == (Csrs { mepc: wrap_add64(csrs.mepc, 4), ..csrs }),
{
}

/// An illegal instruction from below machine level is forwarded so
/// that the supervisor sees it exactly as a native trap: its cause
/// register reads illegal-instruction, its trap value carries the
/// captured instruction bits, its exception address carries the
/// faulting return address, and execution resumes at the supervisor
/// trap vector with the previous-privilege and interrupt-enable
/// fields set by the standard trap-entry rules. The frame is
/// untouched.
pub proof fn lemma_illegal_forwarding(frame: TrapFrame, csrs: Csrs, ins: u64, time: u64)
    requires
        !is_counter_read(ins),
        csrs.mpp != Privilege::Machine,
    ensures
        spec_illegal(frame, csrs, ins, time).2 == TrapOutcome::Resume,
        spec_illegal(frame, csrs, ins, time).0 == frame,
        spec_illegal(frame, csrs, ins, time).1.scause == CAUSE_ILLEGAL_INSTRUCTION,
        spec_illegal(frame, csrs, ins, time).1.stval == csrs.mtval,
        spec_illegal(frame, csrs, ins, time).1.sepc == csrs.mepc,
        spec_illegal(frame, csrs, ins, time).1.mepc == csrs.stvec,
        spec_illegal(frame, csrs, ins, time).1.mpp == Privilege::Supervisor,
        spec_illegal(frame, csrs, ins, time).1.spp == Privilege::Supervisor,
        !spec_illegal(frame, csrs, ins, time).1.sie,
        spec_illegal(frame, csrs, ins, time).1.spie == csrs.sie,
{
}

/// An illegal instruction executed at machine level is the firmware's
/// own fault: it is never forwarded, and the hart halts with nothing
/// moved.
pub proof fn lemma_machine_illegal_is_fatal(frame: TrapFrame, csrs: Csrs, ins: u64, time: u64)
    requires
        !is_counter_read(ins),
        csrs.mpp == Privilege::Machine,
    ensures
        spec_illegal(frame, csrs, ins, time).2 == TrapOutcome::Fatal,
        spec_illegal(frame, csrs, ins, time).0 == frame,
        spec_illegal(frame, csrs, ins, time).1 == csrs,
{
}


/// An emulated misaligned load that decodes lands the reconstructed
/// value — the bytes at the faulting address in little-endian order,
/// extended per the decoded signedness — in exactly the decoded
/// destination register, and advances the return address by exactly
/// the decoded instruction length; nothing else moves.
pub proof fn lemma_misaligned_load_effect(frame: TrapFrame, csrs: Csrs, mem: Memory, d: AccessDescriptor)
    requires
        spec_decode_load(spec_fault_ins(mem, csrs.mepc)) == Some(d),
        writable(d.reg as int),
    ensures
        spec_load_misaligned(frame, csrs, mem).2 == TrapOutcome::Resume,
        ({
            let raw = mem.read_le(csrs.mtval, unit_bytes(d.unit));
            let value = if d.signed { sign_extended(raw, unit_bytes(d.unit)) } else { raw };
            frame_reg(spec_load_misaligned(frame, csrs, mem).0, d.reg as int) == value as u64
        }),
        forall|j: int| j != d.reg as int
            ==> frame_reg(spec_load_misaligned(frame, csrs, mem).0, j) == frame_reg(frame, j),
        spec_load_misaligned(frame, csrs, mem).1 == (Csrs {
            mepc: wrap_add64(csrs.mepc, d.len as u64),
            ..csrs
        }),
{
    let raw = mem.read_le(csrs.mtval, unit_bytes(d.unit));
    let value = if d.signed { sign_extended(raw, unit_bytes(d.unit)) } else { raw };
    crate::frame::lemma_set_then_get(frame, d.reg as int, value as u64);
}


} // verus!

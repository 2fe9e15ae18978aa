//! Trap-cause decoding and the decisions of the per-hart trap loop.
//!
//! The loop itself alternates hardware work — `mret` through the
//! trampolines, CSR reads and writes, the SBI dispatcher — with the
//! decisions modelled here: what a raw `mcause` value means, how an SBI
//! result is written back into the supervisor's registers, whether a
//! handled call ends the loop, and how a machine-timer interrupt is
//! rerouted to the supervisor.

use vstd::prelude::*;

use crate::context::{A0_INDEX, Context};
use crate::sbi::{
    EID_HSM, FID_HART_STOP, FID_HART_SUSPEND, SBI_SUCCESS, SUSPEND_NON_RETENTIVE,
};

verus! {

/// Top bit of `mcause`: set for interrupts, clear for exceptions.
pub const MCAUSE_INTERRUPT_FLAG: u64 = 0x8000_0000_0000_0000;

/// Interrupt code of the machine timer interrupt.
pub const MCAUSE_MACHINE_TIMER: u64 = 7;

/// Exception code of an environment call from S-mode.
pub const MCAUSE_SUPERVISOR_ECALL: u64 = 9;

/// Exception code of an illegal instruction.
pub const MCAUSE_ILLEGAL_INSTRUCTION: u64 = 2;

/// `mip` bit of the machine timer interrupt pending flag.
pub const MIP_MTIP: usize = 0x80;

/// `mip` bit of the supervisor timer interrupt pending flag.
pub const MIP_STIP: usize = 0x20;

/// The trap kinds the loop tells apart.  Everything it does not service
/// or reroute is terminal for the loop.
#[derive(Clone, Copy, Debug, PartialEq, Eq, Structural)]
pub enum Cause {
    /// An `ecall` from the supervisor: dispatch it as an SBI request.
    SupervisorEcall,
    /// A machine timer interrupt: reroute it to the supervisor.
    MachineTimer,
    /// An illegal instruction in the supervisor: terminal.
    IllegalInstruction,
    /// Any other cause: terminal.
    Other,
}

/// What a raw `mcause` value means.
pub open spec fn spec_decode_mcause(bits: u64) -> Cause {
    if bits == MCAUSE_INTERRUPT_FLAG + MCAUSE_MACHINE_TIMER {
        Cause::MachineTimer
    } else if bits == MCAUSE_SUPERVISOR_ECALL {
        Cause::SupervisorEcall
    } else if bits == MCAUSE_ILLEGAL_INSTRUCTION {
        Cause::IllegalInstruction
    } else {
        Cause::Other
    }
}

/// Decodes a raw `mcause` value.
pub fn decode_mcause(bits: u64) -> (c: Cause)
    ensures
        c == spec_decode_mcause(bits),
{
    if bits == MCAUSE_INTERRUPT_FLAG + MCAUSE_MACHINE_TIMER {
        Cause::MachineTimer
    } else if bits == MCAUSE_SUPERVISOR_ECALL {
        Cause::SupervisorEcall
    } else if bits == MCAUSE_ILLEGAL_INSTRUCTION {
        Cause::IllegalInstruction
    } else {
        Cause::Other
    }
}

/// The six argument registers and the function and extension ids of an
/// SBI request, as the supervisor left them.
pub struct EcallArgs {
    pub extension: usize,
    pub function: usize,
    pub p0: usize,
    pub p1: usize,
    pub p2: usize,
    pub p3: usize,
    pub p4: usize,
    pub p5: usize,
}

/// Collects an SBI request from the trapped supervisor's registers:
/// arguments from a0..a5, the function id from a6, the extension id
/// from a7.
pub fn collect_ecall(ctx: &Context) -> (r: EcallArgs)
    requires
        ctx.wf(),
    ensures
        r.p0 == ctx.x@[A0_INDEX as int],
        r.p1 == ctx.x@[A0_INDEX as int + 1],
        r.p2 == ctx.x@[A0_INDEX as int + 2],
        r.p3 == ctx.x@[A0_INDEX as int + 3],
        r.p4 == ctx.x@[A0_INDEX as int + 4],
        r.p5 == ctx.x@[A0_INDEX as int + 5],
        r.function == ctx.x@[A0_INDEX as int + 6],
        r.extension == ctx.x@[A0_INDEX as int + 7],
{
    EcallArgs {
        extension: ctx.a(7),
        function: ctx.a(6),
        p0: ctx.a(0),
        p1: ctx.a(1),
        p2: ctx.a(2),
        p3: ctx.a(3),
        p4: ctx.a(4),
        p5: ctx.a(5),
    }
}

/// Whether a handled SBI call ends the trap loop: a successful HSM stop,
/// or a successful HSM non-retentive suspend.  The hart then leaves the
/// loop and parks instead of re-entering S with stale context.
pub open spec fn ecall_exits(extension: usize, function: usize, a0: usize, error: usize) -> bool {
    extension == EID_HSM && error == SBI_SUCCESS && (function == FID_HART_STOP || (function
        == FID_HART_SUSPEND && a0 == SUSPEND_NON_RETENTIVE))
}

/// Writes an SBI result back into the trapped supervisor: the error into
/// a0, the value into a1, and `mepc` moved past the `ecall` instruction.
/// Returns whether the loop must exit, judged on the registers as the
/// supervisor left them.
pub fn apply_ecall_result(ctx: &mut Context, error: usize, value: usize) -> (exit: bool)
    requires
        old(ctx).wf(),
    ensures
        final(ctx).wf(),
        exit == ecall_exits(
            old(ctx).x@[A0_INDEX as int + 7],
            old(ctx).x@[A0_INDEX as int + 6],
            old(ctx).x@[A0_INDEX as int],
            error,
        ),
        final(ctx).x@ == old(ctx).x@.update(A0_INDEX as int, error).update(
            A0_INDEX as int + 1,
            value,
        ),
        final(ctx).mepc == old(ctx).mepc.wrapping_add(4),
        final(ctx).msp == old(ctx).msp,
        final(ctx).mstatus == old(ctx).mstatus,
{
    let exit = ctx.a(7) == EID_HSM && error == SBI_SUCCESS && (ctx.a(6) == FID_HART_STOP || (
    ctx.a(6) == FID_HART_SUSPEND && ctx.a(0) == SUSPEND_NON_RETENTIVE));
    *ctx.a_mut(0) = error;
    *ctx.a_mut(1) = value;
    ctx.mepc = ctx.mepc.wrapping_add(4);
    exit
}

/// `medeleg` bit of the illegal-instruction exception.
pub const MEDELEG_ILLEGAL_INSTRUCTION: usize = 0x4;

/// `medeleg` bit of an environment call from S-mode.
pub const MEDELEG_SUPERVISOR_ECALL: usize = 0x200;

/// `medeleg` bit of an environment call from M-mode.
pub const MEDELEG_MACHINE_ECALL: usize = 0x800;

/// The exception-delegation mask the loop installs before it first
/// enters S: everything delegated, except the three classes M itself
/// must see — illegal instructions and the two environment calls.
/// (Bits a platform wires read-only simply keep their value when the
/// mask is written.)
pub fn medeleg_value() -> (r: usize)
    ensures
        r == !(MEDELEG_ILLEGAL_INSTRUCTION | MEDELEG_SUPERVISOR_ECALL | MEDELEG_MACHINE_ECALL),
{
    !(MEDELEG_ILLEGAL_INSTRUCTION | MEDELEG_SUPERVISOR_ECALL | MEDELEG_MACHINE_ECALL)
}

/// The mask keeps exactly the three undelegated classes clear and every
/// other exception delegated.
pub proof fn lemma_medeleg_bits()
    ensures
        !(MEDELEG_ILLEGAL_INSTRUCTION | MEDELEG_SUPERVISOR_ECALL | MEDELEG_MACHINE_ECALL)
            & MEDELEG_ILLEGAL_INSTRUCTION == 0,
        !(MEDELEG_ILLEGAL_INSTRUCTION | MEDELEG_SUPERVISOR_ECALL | MEDELEG_MACHINE_ECALL)
            & MEDELEG_SUPERVISOR_ECALL == 0,
        !(MEDELEG_ILLEGAL_INSTRUCTION | MEDELEG_SUPERVISOR_ECALL | MEDELEG_MACHINE_ECALL)
            & MEDELEG_MACHINE_ECALL == 0,
        !(MEDELEG_ILLEGAL_INSTRUCTION | MEDELEG_SUPERVISOR_ECALL | MEDELEG_MACHINE_ECALL) | (
        MEDELEG_ILLEGAL_INSTRUCTION | MEDELEG_SUPERVISOR_ECALL | MEDELEG_MACHINE_ECALL)
            == !0usize,
{
    assert(!(0x4usize | 0x200usize | 0x800usize) & 0x4usize == 0) by (bit_vector);
    assert(!(0x4usize | 0x200usize | 0x800usize) & 0x200usize == 0) by (bit_vector);
    assert(!(0x4usize | 0x200usize | 0x800usize) & 0x800usize == 0) by (bit_vector);
    assert(!(0x4usize | 0x200usize | 0x800usize) | (0x4usize | 0x200usize | 0x800usize)
        == !0usize) by (bit_vector);
}

/// The `mip` value after rerouting a machine timer interrupt: the
/// machine-timer pending bit cleared, the supervisor-timer pending bit
/// set.
pub open spec fn spec_route_timer(mip: usize) -> usize {
    (mip & !MIP_MTIP) | MIP_STIP
}

/// Reroutes a machine timer interrupt to the supervisor.
pub fn route_timer(mip: usize) -> (r: usize)
    ensures
        r == spec_route_timer(mip),
{
    (mip & !MIP_MTIP) | MIP_STIP
}

/// Rerouting asserts the supervisor timer exactly once and clears the
/// machine timer: in the result STIP is set, MTIP is clear, and no other
/// pending bit moves.
pub proof fn lemma_route_timer_bits(mip: usize)
    ensures
        spec_route_timer(mip) & MIP_MTIP == 0,
        spec_route_timer(mip) & MIP_STIP == MIP_STIP,
        (spec_route_timer(mip) ^ mip) & !(MIP_MTIP | MIP_STIP) == 0,
{
    assert(((mip & !0x80usize) | 0x20usize) & 0x80usize == 0) by (bit_vector);
    assert(((mip & !0x80usize) | 0x20usize) & 0x20usize == 0x20usize) by (bit_vector);
    assert((((mip & !0x80usize) | 0x20usize) ^ mip) & !(0x80usize | 0x20usize) == 0)
        by (bit_vector);
}

} // verus!

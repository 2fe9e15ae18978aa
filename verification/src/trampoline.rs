//! The M↔S context-switch trampolines, as functions on a machine model.
//!
//! The two routines bridge machine mode and supervisor mode around `mret`
//! and trap entry.  On hardware they are hand-assembled so that no
//! compiler prologue disturbs the registers; here the same register
//! shuffling is written over an explicit model of the hart — the
//! general-purpose registers, the three CSRs the routines touch, and the
//! M-mode save frame — and verified against one spec-level step function
//! per routine.  The round-trip laws at the bottom are proved from those
//! step functions alone.

use vstd::prelude::*;

use crate::context::{Context, XLEN_SAVED};

verus! {

/// The machine state the trampolines read and write: x1..x31 (`xs[i]` is
/// x(i+1), so the stack pointer x2 sits at `xs[1]`), the CSRs `mscratch`,
/// `mstatus` and `mepc`, and the 31-word M-mode save frame that the
/// M→S entry pushes and the trap entry pops.
pub struct Machine {
    /// General-purpose registers x1..x31.
    pub xs: Vec<usize>,
    /// `mscratch`: the per-hart anchor, swapped with the stack pointer at
    /// each privilege crossing.
    pub mscratch: usize,
    /// `mstatus`.
    pub mstatus: usize,
    /// `mepc`.
    pub mepc: usize,
    /// The M-mode frame holding x1..x31 as saved on M→S entry.
    pub mframe: Vec<usize>,
}

/// Spec-level image of [`Machine`].
pub ghost struct MachineModel {
    pub xs: Seq<usize>,
    pub mscratch: usize,
    pub mstatus: usize,
    pub mepc: usize,
    pub mframe: Seq<usize>,
}

/// Spec-level image of [`Context`].
pub ghost struct ContextModel {
    pub msp: usize,
    pub x: Seq<usize>,
    pub mstatus: usize,
    pub mepc: usize,
}

impl View for Machine {
    type V = MachineModel;

    open spec fn view(&self) -> MachineModel {
        MachineModel {
            xs: self.xs@,
            mscratch: self.mscratch,
            mstatus: self.mstatus,
            mepc: self.mepc,
            mframe: self.mframe@,
        }
    }
}

impl View for Context {
    type V = ContextModel;

    open spec fn view(&self) -> ContextModel {
        ContextModel { msp: self.msp, x: self.x@, mstatus: self.mstatus, mepc: self.mepc }
    }
}

impl MachineModel {
    pub open spec fn wf(&self) -> bool {
        self.xs.len() == XLEN_SAVED && self.mframe.len() == XLEN_SAVED
    }
}

impl ContextModel {
    pub open spec fn wf(&self) -> bool {
        self.x.len() == XLEN_SAVED
    }
}

impl Machine {
    pub open spec fn wf(&self) -> bool {
        self@.wf()
    }
}

/// What the M→S trampoline does, in one step.  It pushes x1..x31 onto the
/// M frame, records the M stack pointer in context word 0, loads the
/// supervisor registers, `mstatus` and `mepc` from the context, and leaves
/// `mscratch` holding the context's address so the next trap can find it.
pub open spec fn m_to_s_step(m: MachineModel, c: ContextModel, ctx_addr: usize) -> (
    MachineModel,
    ContextModel,
) {
    (
        MachineModel {
            xs: c.x,
            mscratch: ctx_addr,
            mstatus: c.mstatus,
            mepc: c.mepc,
            mframe: m.xs,
        },
        ContextModel { msp: m.xs[1], x: c.x, mstatus: c.mstatus, mepc: c.mepc },
    )
}

/// What the trap-entry trampoline does, in one step.  It saves the
/// supervisor registers x1..x31 into the context (the S stack pointer
/// coming out of `mscratch` after the swap), snapshots `mstatus` and
/// `mepc` into context words 32 and 33, reloads the M stack pointer from
/// context word 0, pops x1..x31 from the M frame, and leaves `mscratch`
/// holding the saved S stack pointer.
pub open spec fn s_to_m_step(m: MachineModel, c: ContextModel) -> (MachineModel, ContextModel) {
    (
        MachineModel {
            xs: m.mframe,
            mscratch: m.xs[1],
            mstatus: m.mstatus,
            mepc: m.mepc,
            mframe: m.mframe,
        },
        ContextModel { msp: c.msp, x: m.xs, mstatus: m.mstatus, mepc: m.mepc },
    )
}

/// M-mode to S-mode: enter the supervisor whose state `ctx` holds.
/// `ctx_addr` is the address of `ctx`, the value the routine parks in
/// `mscratch` as the per-hart anchor while S executes.
pub fn m_to_s(m: &mut Machine, ctx: &mut Context, ctx_addr: usize)
    requires
        old(m).wf(),
        old(ctx).wf(),
    ensures
        final(m).wf(),
        final(ctx).wf(),
        (final(m)@, final(ctx)@) == m_to_s_step(old(m)@, old(ctx)@, ctx_addr),
{
    // Push x1..x31 onto the M-mode frame.
    m.mframe = m.xs.clone();
    // Record the M stack pointer in context word 0.
    ctx.msp = m.xs[1];
    // Load the supervisor CSR snapshot: slot 32 and 33 into mstatus/mepc.
    m.mstatus = ctx.mstatus;
    m.mepc = ctx.mepc;
    // Restore x1, x3..x31 from the context, and the S stack pointer from
    // slot 2 via the final swap of sp with mscratch.
    m.xs = ctx.x.clone();
    // After the swap, mscratch anchors the context.
    m.mscratch = ctx_addr;
}

/// Trap entry, S-mode to M-mode: save the supervisor state into `ctx` and
/// return to the M-mode caller of [`m_to_s`].
pub fn s_to_m(m: &mut Machine, ctx: &mut Context)
    requires
        old(m).wf(),
        old(ctx).wf(),
    ensures
        final(m).wf(),
        final(ctx).wf(),
        (final(m)@, final(ctx)@) == s_to_m_step(old(m)@, old(ctx)@),
{
    // Swap sp with mscratch: mscratch now holds the S stack pointer.
    let s_sp: usize = m.xs[1];
    // Save x1, x3..x31 into the context; slot 2 takes the S stack pointer
    // read back out of mscratch.
    ctx.x = m.xs.clone();
    // Snapshot mstatus and mepc into slots 32 and 33.
    ctx.mstatus = m.mstatus;
    ctx.mepc = m.mepc;
    // Reload the M stack pointer from slot 0 and pop x1..x31 from the
    // M-mode frame.
    m.xs = m.mframe.clone();
    m.mscratch = s_sp;
}

/// One hart's alternation between M and S, with the anchor invariant
/// carried as part of the state: while the hart executes in S-mode,
/// `mscratch` holds the address of its context; while it executes in
/// M-mode inside the trap loop (after the first entry), `mscratch` holds
/// the saved S stack pointer.
pub struct HartSession {
    pub machine: Machine,
    pub ctx: Context,
    /// Address of the context, the anchor value.
    pub ctx_addr: usize,
    /// Whether the hart is executing in S-mode.
    pub in_s: bool,
    /// Whether the hart has entered S at least once.
    pub entered: bool,
}

impl HartSession {
    /// The anchor invariant, preserved by both crossings.
    pub open spec fn inv(&self) -> bool {
        &&& self.machine.wf()
        &&& self.ctx.wf()
        &&& (self.in_s ==> self.machine.mscratch == self.ctx_addr)
        &&& (!self.in_s && self.entered ==> self.machine.mscratch == self.ctx.x@[1])
    }

    /// A hart about to enter S for the first time.
    pub fn new(machine: Machine, ctx: Context, ctx_addr: usize) -> (s: HartSession)
        requires
            machine.wf(),
            ctx.wf(),
        ensures
            s.inv(),
            !s.in_s,
            !s.entered,
            s.machine == machine,
            s.ctx == ctx,
            s.ctx_addr == ctx_addr,
    {
        HartSession { machine, ctx, ctx_addr, in_s: false, entered: false }
    }

    /// Crosses into S through the M→S trampoline.
    pub fn enter_supervisor(&mut self)
        requires
            old(self).inv(),
            !old(self).in_s,
        ensures
            final(self).inv(),
            final(self).in_s,
            final(self).entered,
            final(self).machine.mscratch == final(self).ctx_addr,
            (final(self).machine@, final(self).ctx@) == m_to_s_step(
                old(self).machine@,
                old(self).ctx@,
                old(self).ctx_addr,
            ),
            final(self).ctx_addr == old(self).ctx_addr,
    {
        let addr = self.ctx_addr;
        m_to_s(&mut self.machine, &mut self.ctx, addr);
        self.in_s = true;
        self.entered = true;
    }

    /// Traps back into M through the trap-entry trampoline.
    pub fn trap_to_machine(&mut self)
        requires
            old(self).inv(),
            old(self).in_s,
        ensures
            final(self).inv(),
            !final(self).in_s,
            final(self).entered == old(self).entered,
            final(self).machine.mscratch == final(self).ctx.x@[1],
            (final(self).machine@, final(self).ctx@) == s_to_m_step(
                old(self).machine@,
                old(self).ctx@,
            ),
            final(self).ctx_addr == old(self).ctx_addr,
    {
        s_to_m(&mut self.machine, &mut self.ctx);
        self.in_s = false;
    }
}

/// Anchor invariant: entering S parks the context address in `mscratch`;
/// the next trap entry swaps it back out, leaving the saved S stack
/// pointer there while M executes.
pub proof fn lemma_mscratch_anchor(m: MachineModel, c: ContextModel, ctx_addr: usize)
    requires
        m.wf(),
        c.wf(),
    ensures
        m_to_s_step(m, c, ctx_addr).0.mscratch == ctx_addr,
        s_to_m_step(m_to_s_step(m, c, ctx_addr).0, m_to_s_step(m, c, ctx_addr).1).0.mscratch
            == c.x[1],
{
}

/// Round trip M→S→M: entering S and trapping straight back preserves every
/// S-visible register and the saved `mstatus` and `mepc` in the context,
/// and hands M back exactly the registers it had.  (What the hardware
/// itself rewrites in `mstatus` and `mepc` between `mret` and the trap is
/// outside the trampolines and outside this model.)
pub proof fn lemma_enter_then_trap(m: MachineModel, c: ContextModel, ctx_addr: usize)
    requires
        m.wf(),
        c.wf(),
    ensures
        ({
            let (m1, c1) = m_to_s_step(m, c, ctx_addr);
            let (m2, c2) = s_to_m_step(m1, c1);
            &&& c2.x == c.x
            &&& c2.mstatus == c.mstatus
            &&& c2.mepc == c.mepc
            &&& c2.msp == m.xs[1]
            &&& m2.xs == m.xs
            &&& m2.mscratch == c.x[1]
        }),
{
}

/// Round trip S→M→S: saving the supervisor state at a trap and restoring
/// it on the next entry is the identity on x1..x31 and on (`mstatus`,
/// `mepc`) at the trampoline boundary.
pub proof fn lemma_save_then_restore(m: MachineModel, c: ContextModel, ctx_addr: usize)
    requires
        m.wf(),
        c.wf(),
    ensures
        ({
            let (m1, c1) = s_to_m_step(m, c);
            let (m2, c2) = m_to_s_step(m1, c1, ctx_addr);
            &&& m2.xs == m.xs
            &&& m2.mstatus == m.mstatus
            &&& m2.mepc == m.mepc
            &&& m2.mscratch == ctx_addr
        }),
{
}

} // verus!

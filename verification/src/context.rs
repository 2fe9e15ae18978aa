//! The per-hart trap context: the 34-word frame the trampolines save to
//! and restore from.
//!
//! Layout (machine words): word 0 is the M-mode stack pointer saved when
//! control last left M for S; words 1..=31 hold the supervisor registers
//! x1..x31 (`x[0]` is x1, so the S stack pointer x2 sits at `x[1]` and the
//! argument register a0 = x10 sits at `x[9]`); word 32 is the saved
//! `mstatus`; word 33 is the saved `mepc`.

use vstd::prelude::*;

use crate::Supervisor;

verus! {

/// Index of a0 (x10) within the `x` vector, which starts at x1.
pub const A0_INDEX: usize = 9;

/// Number of saved general-purpose registers: x1..x31.
pub const XLEN_SAVED: usize = 31;

/// Saved supervisor state of one hart, anchored by `mscratch` while the
/// hart runs in S-mode.
pub struct Context {
    /// M-mode stack pointer at the moment control last left M for S.
    pub msp: usize,
    /// Supervisor registers x1..x31; `x[i]` holds x(i+1).
    pub x: Vec<usize>,
    /// Saved `mstatus`.
    pub mstatus: usize,
    /// Saved `mepc`: where S-mode execution (re-)starts.
    pub mepc: usize,
}

impl Context {
    /// The register vector holds exactly x1..x31.
    pub open spec fn wf(&self) -> bool {
        self.x@.len() == XLEN_SAVED
    }

    /// Builds the entry context the payload contract demands: a0 carries
    /// the hart id, a1 the opaque word, every other register is zero, and
    /// `mepc` points at the payload.
    pub fn new(hart_id: usize, supervisor: &Supervisor) -> (c: Context)
        ensures
            c.wf(),
            c.msp == 0,
            c.mstatus == 0,
            c.mepc == supervisor.start_addr,
            c.x@[A0_INDEX as int] == hart_id,
            c.x@[A0_INDEX as int + 1] == supervisor.opaque,
            forall|i: int|
                0 <= i < XLEN_SAVED && i != A0_INDEX && i != A0_INDEX + 1 ==> c.x@[i] == 0,
    {
        let mut x: Vec<usize> = vec![0; XLEN_SAVED];
        x[A0_INDEX] = hart_id;
        x[A0_INDEX + 1] = supervisor.opaque;
        Context { msp: 0, x, mstatus: 0, mepc: supervisor.start_addr }
    }

    /// Reads argument register a(n), that is x(10 + n).
    pub fn a(&self, n: usize) -> (r: usize)
        requires
            self.wf(),
            A0_INDEX + n < XLEN_SAVED,
        ensures
            r == self.x@[A0_INDEX + n],
    {
        self.x[A0_INDEX + n]
    }

    /// Borrows argument register a(n) for writing.
    pub fn a_mut(&mut self, n: usize) -> (r: &mut usize)
        requires
            old(self).wf(),
            A0_INDEX + n < XLEN_SAVED,
        ensures
            *r == old(self).x@[A0_INDEX + n],
            final(self).x@ == old(self).x@.update(A0_INDEX + n, *final(r)),
            final(self).msp == old(self).msp,
            final(self).mstatus == old(self).mstatus,
            final(self).mepc == old(self).mepc,
            final(self).wf(),
    {
        &mut self.x[A0_INDEX + n]
    }
}

} // verus!

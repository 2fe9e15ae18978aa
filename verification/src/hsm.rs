//! The hart state manager: one finite state machine per hart, driving
//! the SBI HSM extension.
//!
//! Every operation is verified against a spec-level step function over
//! [`HsmModel`], and the cross-operation laws at the bottom — the bound
//! on active harts, the start race, and the pending-bit guarantee after
//! a stop — are proved from those step functions.
//!
//! The table also models the per-hart software-interrupt pending bit
//! (`msip`): a start request raises the target's bit, and the receiver
//! clears its own bit on wake, before it reads its state.  The unverified
//! rim mirrors each `msip` change onto the CLINT.  On hardware the
//! sender's store of the start record, its state write and its IPI are
//! separated by fences, and the state write is a compare-and-swap, so the
//! operations of any two harts interleave as whole steps, which is how
//! this sequential model reads.

use vstd::prelude::*;

use crate::sbi::SbiError;

verus! {

/// How a suspended hart comes back: `Retentive` resumes at the same
/// point; `NonRetentive` re-enters through a fresh start record.
#[derive(Clone, Copy, Debug, PartialEq, Eq, Structural)]
pub enum SuspendKind {
    Retentive,
    NonRetentive,
}

/// The per-hart lifecycle state.
#[derive(Clone, Copy, Debug, PartialEq, Eq, Structural)]
pub enum HartState {
    /// Parked in wait-for-interrupt; only a start request may wake it.
    Stopped,
    /// A start record has been written and the wake IPI sent; the target
    /// has not latched it yet.
    StartPending { start_addr: usize, opaque: usize },
    /// Executing the supervisor.
    Started,
    /// The suspend call has succeeded; the trap loop has not parked the
    /// hart yet.
    SuspendPending { kind: SuspendKind },
    /// Parked retentively; a wake resumes it in place.
    Suspended,
}

/// Spec-level image of the manager: the state table and the pending bits.
pub ghost struct HsmModel {
    pub states: Seq<HartState>,
    pub msip: Seq<bool>,
}

impl HsmModel {
    pub open spec fn wf(&self) -> bool {
        self.states.len() == self.msip.len()
    }

    pub open spec fn smp(&self) -> nat {
        self.states.len()
    }
}

/// One step of the manager, named for the law over operation sequences.
pub ghost enum HsmOp {
    Start { target: usize, start_addr: usize, opaque: usize },
    Stop { caller: usize },
    Suspend { caller: usize, kind: SuspendKind },
    SuspendComplete { hart: usize },
    TakeStart { hart: usize },
    Resume { hart: usize },
}

/// Step function of a start request.
pub open spec fn start_step(v: HsmModel, target: usize, start_addr: usize, opaque: usize) -> (
    HsmModel,
    Result<(), SbiError>,
) {
    if target >= v.smp() {
        (v, Err(SbiError::InvalidParam))
    } else {
        match v.states[target as int] {
            HartState::Stopped => (
                HsmModel {
                    states: v.states.update(
                        target as int,
                        HartState::StartPending { start_addr, opaque },
                    ),
                    msip: v.msip.update(target as int, true),
                },
                Ok(()),
            ),
            HartState::Started => (v, Err(SbiError::AlreadyAvailable)),
            HartState::StartPending { .. } => (v, Err(SbiError::AlreadyAvailable)),
            _ => (v, Err(SbiError::Failed)),
        }
    }
}

/// Step function of a stop of the calling hart.
pub open spec fn stop_step(v: HsmModel, caller: usize) -> HsmModel {
    if caller >= v.smp() {
        v
    } else {
        HsmModel {
            states: v.states.update(caller as int, HartState::Stopped),
            msip: v.msip.update(caller as int, false),
        }
    }
}

/// Step function of a suspend of the calling hart.
pub open spec fn suspend_step(v: HsmModel, caller: usize, kind: SuspendKind) -> HsmModel {
    if caller >= v.smp() {
        v
    } else {
        HsmModel { states: v.states.update(caller as int, HartState::SuspendPending { kind }), ..v }
    }
}

/// Step function of the trap loop parking a suspend-pending hart.
pub open spec fn suspend_complete_step(v: HsmModel, hart: usize) -> HsmModel {
    if hart >= v.smp() {
        v
    } else {
        match v.states[hart as int] {
            HartState::SuspendPending { kind: SuspendKind::Retentive } => HsmModel {
                states: v.states.update(hart as int, HartState::Suspended),
                ..v
            },
            HartState::SuspendPending { kind: SuspendKind::NonRetentive } => HsmModel {
                states: v.states.update(hart as int, HartState::Stopped),
                ..v
            },
            _ => v,
        }
    }
}

/// Step function of the wake rendezvous: the receiver clears its pending
/// bit, then reads its state and latches a start record if one is there.
pub open spec fn take_start_step(v: HsmModel, hart: usize) -> (HsmModel, Option<(usize, usize)>) {
    if hart >= v.smp() {
        (v, None)
    } else {
        let cleared = HsmModel { msip: v.msip.update(hart as int, false), ..v };
        match v.states[hart as int] {
            HartState::StartPending { start_addr, opaque } => (
                HsmModel { states: cleared.states.update(hart as int, HartState::Started), ..cleared },
                Some((start_addr, opaque)),
            ),
            _ => (cleared, None),
        }
    }
}

/// Step function of a retentive wake.
pub open spec fn resume_step(v: HsmModel, hart: usize) -> HsmModel {
    if hart >= v.smp() {
        v
    } else {
        match v.states[hart as int] {
            HartState::Suspended => HsmModel {
                states: v.states.update(hart as int, HartState::Started),
                ..v
            },
            _ => v,
        }
    }
}

/// One step of the manager, results dropped.
pub open spec fn step(v: HsmModel, op: HsmOp) -> HsmModel {
    match op {
        HsmOp::Start { target, start_addr, opaque } => start_step(v, target, start_addr, opaque).0,
        HsmOp::Stop { caller } => stop_step(v, caller),
        HsmOp::Suspend { caller, kind } => suspend_step(v, caller, kind),
        HsmOp::SuspendComplete { hart } => suspend_complete_step(v, hart),
        HsmOp::TakeStart { hart } => take_start_step(v, hart).0,
        HsmOp::Resume { hart } => resume_step(v, hart),
    }
}

/// The manager after a sequence of steps.
pub open spec fn run(v: HsmModel, ops: Seq<HsmOp>) -> HsmModel
    decreases ops.len(),
{
    if ops.len() == 0 {
        v
    } else {
        run(step(v, ops[0]), ops.drop_first())
    }
}

/// Whether an operation is a start request aimed at `hart`.
pub open spec fn starts_hart(op: HsmOp, hart: usize) -> bool {
    match op {
        HsmOp::Start { target, .. } => target == hart,
        _ => false,
    }
}

/// The hart state table and the modelled pending bits, one entry per
/// hart.
pub struct Hsm {
    /// State of each hart, indexed by hart id.
    pub states: Vec<HartState>,
    /// Modelled software-interrupt pending bit of each hart.
    pub msip: Vec<bool>,
}

impl View for Hsm {
    type V = HsmModel;

    open spec fn view(&self) -> HsmModel {
        HsmModel { states: self.states@, msip: self.msip@ }
    }
}

impl Hsm {
    pub open spec fn wf(&self) -> bool {
        self@.wf()
    }

    /// Builds the boot table: every hart stopped, except the boot hart,
    /// which starts out with the supervisor payload's record pending.
    pub fn new(smp: usize, boot_hart: usize, start_addr: usize, opaque: usize) -> (h: Hsm)
        requires
            boot_hart < smp,
        ensures
            h.wf(),
            h@.smp() == smp,
            h@.states[boot_hart as int] == (HartState::StartPending { start_addr, opaque }),
            forall|i: int| 0 <= i < smp && i != boot_hart ==> h@.states[i] == HartState::Stopped,
            forall|i: int| 0 <= i < smp ==> !h@.msip[i],
    {
        let mut states: Vec<HartState> = Vec::new();
        let mut i: usize = 0;
        while i < smp
            invariant
                i <= smp,
                states@.len() == i,
                forall|j: int| 0 <= j < i ==> states@[j] == HartState::Stopped,
            decreases smp - i,
        {
            states.push(HartState::Stopped);
            i = i + 1;
        }
        states[boot_hart] = HartState::StartPending { start_addr, opaque };
        let msip: Vec<bool> = vec![false; smp];
        Hsm { states, msip }
    }

    /// The SBI `hart_start` request: legal only on a stopped target,
    /// which it moves to start-pending and pokes with the wake IPI.  An
    /// out-of-range target is refused without any side effect; a started
    /// or already-pending target reports itself as already available.
    pub fn hart_start(&mut self, target: usize, start_addr: usize, opaque: usize) -> (r: Result<
        (),
        SbiError,
    >)
        requires
            old(self).wf(),
        ensures
            final(self).wf(),
            (final(self)@, r) == start_step(old(self)@, target, start_addr, opaque),
    {
        if target >= self.states.len() {
            return Err(SbiError::InvalidParam);
        }
        match self.states[target] {
            HartState::Stopped => {
                self.states[target] = HartState::StartPending { start_addr, opaque };
                self.msip[target] = true;
                Ok(())
            },
            HartState::Started => Err(SbiError::AlreadyAvailable),
            HartState::StartPending { .. } => Err(SbiError::AlreadyAvailable),
            _ => Err(SbiError::Failed),
        }
    }

    /// The SBI `hart_stop` request from the calling hart: it goes to
    /// stopped and its software-interrupt pending bit is cleared.
    pub fn hart_stop(&mut self, caller: usize)
        requires
            old(self).wf(),
            caller < old(self)@.smp(),
        ensures
            final(self).wf(),
            final(self)@ == stop_step(old(self)@, caller),
            !final(self)@.msip[caller as int],
            final(self)@.states[caller as int] == HartState::Stopped,
    {
        self.states[caller] = HartState::Stopped;
        self.msip[caller] = false;
    }

    /// The SBI `hart_suspend` request from the calling hart.  The resume
    /// address and opaque word of a non-retentive suspend are not kept:
    /// such a hart re-enters through a fresh start record, handed to a
    /// later `hart_start`.
    pub fn hart_suspend(&mut self, caller: usize, kind: SuspendKind)
        requires
            old(self).wf(),
            caller < old(self)@.smp(),
        ensures
            final(self).wf(),
            final(self)@ == suspend_step(old(self)@, caller, kind),
    {
        self.states[caller] = HartState::SuspendPending { kind };
    }

    /// The trap loop parks a suspend-pending hart: retentive harts wait
    /// in place, non-retentive harts fall back to stopped.
    pub fn suspend_complete(&mut self, hart: usize)
        requires
            old(self).wf(),
            hart < old(self)@.smp(),
        ensures
            final(self).wf(),
            final(self)@ == suspend_complete_step(old(self)@, hart),
    {
        match self.states[hart] {
            HartState::SuspendPending { kind: SuspendKind::Retentive } => {
                self.states[hart] = HartState::Suspended;
            },
            HartState::SuspendPending { kind: SuspendKind::NonRetentive } => {
                self.states[hart] = HartState::Stopped;
            },
            _ => {},
        }
    }

    /// The wake rendezvous of a hart that got an IPI: clear the pending
    /// bit first, then read the state; a pending start record is latched
    /// and the hart goes to started.  A stopped hart that finds no record
    /// gets `None` and goes back to wait-for-interrupt.
    pub fn take_start(&mut self, hart: usize) -> (r: Option<(usize, usize)>)
        requires
            old(self).wf(),
            hart < old(self)@.smp(),
        ensures
            final(self).wf(),
            (final(self)@, r) == take_start_step(old(self)@, hart),
    {
        self.msip[hart] = false;
        match self.states[hart] {
            HartState::StartPending { start_addr, opaque } => {
                self.states[hart] = HartState::Started;
                Some((start_addr, opaque))
            },
            _ => None,
        }
    }

    /// A retentive wake: a suspended hart goes back to started.
    pub fn resume(&mut self, hart: usize)
        requires
            old(self).wf(),
            hart < old(self)@.smp(),
        ensures
            final(self).wf(),
            final(self)@ == resume_step(old(self)@, hart),
    {
        match self.states[hart] {
            HartState::Suspended => {
                self.states[hart] = HartState::Started;
            },
            _ => {},
        }
    }

    /// The SBI `hart_get_status` request: a pure read of the state code.
    pub fn hart_get_status(&self, hart: usize) -> (r: Result<usize, SbiError>)
        requires
            self.wf(),
        ensures
            hart < self@.smp() ==> r == Ok::<usize, SbiError>(
                spec_status_code(self@.states[hart as int]),
            ),
            hart >= self@.smp() ==> r == Err::<usize, SbiError>(SbiError::InvalidParam),
    {
        if hart >= self.states.len() {
            return Err(SbiError::InvalidParam);
        }
        match self.states[hart] {
            HartState::Started => Ok(crate::sbi::HSM_STATE_STARTED),
            HartState::Stopped => Ok(crate::sbi::HSM_STATE_STOPPED),
            HartState::StartPending { .. } => Ok(crate::sbi::HSM_STATE_START_PENDING),
            HartState::Suspended => Ok(crate::sbi::HSM_STATE_SUSPENDED),
            HartState::SuspendPending { .. } => Ok(crate::sbi::HSM_STATE_SUSPEND_PENDING),
        }
    }
}

/// The SBI state code of a hart state.
pub open spec fn spec_status_code(s: HartState) -> usize {
    match s {
        HartState::Started => crate::sbi::HSM_STATE_STARTED,
        HartState::Stopped => crate::sbi::HSM_STATE_STOPPED,
        HartState::StartPending { .. } => crate::sbi::HSM_STATE_START_PENDING,
        HartState::Suspended => crate::sbi::HSM_STATE_SUSPENDED,
        HartState::SuspendPending { .. } => crate::sbi::HSM_STATE_SUSPEND_PENDING,
    }
}

/// How many harts are away from `Stopped`.
pub open spec fn active_count(s: Seq<HartState>) -> nat
    decreases s.len(),
{
    if s.len() == 0 {
        0
    } else {
        active_count(s.drop_last()) + if s.last() == HartState::Stopped {
            0nat
        } else {
            1nat
        }
    }
}

/// The sum of harts in non-stopped states never exceeds the number of
/// harts the board has — the table has one entry per hart and each entry
/// counts at most once.
pub proof fn lemma_active_bounded(v: HsmModel)
    ensures
        active_count(v.states) <= v.smp(),
    decreases v.states.len(),
{
    if v.states.len() > 0 {
        lemma_active_bounded(HsmModel { states: v.states.drop_last(), ..v });
    }
}

/// Two start requests race for the same stopped hart: whichever the
/// state write serialises first succeeds; the other finds the target
/// pending and gets `AlreadyAvailable`, leaving the winner's record in
/// place.
pub proof fn lemma_start_race(
    v: HsmModel,
    target: usize,
    addr1: usize,
    opq1: usize,
    addr2: usize,
    opq2: usize,
)
    requires
        v.wf(),
        target < v.smp(),
        v.states[target as int] == HartState::Stopped,
    ensures
        ({
            let (v1, r1) = start_step(v, target, addr1, opq1);
            let (v2, r2) = start_step(v1, target, addr2, opq2);
            &&& r1 == Ok::<(), SbiError>(())
            &&& r2 == Err::<(), SbiError>(SbiError::AlreadyAvailable)
            &&& v2 == v1
            &&& v1.states[target as int] == (HartState::StartPending {
                start_addr: addr1,
                opaque: opq1,
            })
        }),
{
}

/// A hart that suspends non-retentively parks as stopped once the trap
/// loop has exited, and a fresh start request — carrying the resume
/// address as its start record — then succeeds.
pub proof fn lemma_nonretentive_suspend_restarts(v: HsmModel, hart: usize, addr: usize, opq: usize)
    requires
        v.wf(),
        hart < v.smp(),
        v.states[hart as int] == HartState::Started,
    ensures
        ({
            let parked = suspend_complete_step(
                suspend_step(v, hart, SuspendKind::NonRetentive),
                hart,
            );
            &&& parked.states[hart as int] == HartState::Stopped
            &&& start_step(parked, hart, addr, opq).1 == Ok::<(), SbiError>(())
            &&& start_step(parked, hart, addr, opq).0.states[hart as int]
                == (HartState::StartPending { start_addr: addr, opaque: opq })
        }),
{
}

/// After a stop, the caller's software-interrupt pending bit stays clear
/// through any sequence of operations that holds no start request aimed
/// at it; only a later `hart_start` re-asserts the bit.
pub proof fn lemma_stop_keeps_soft_clear(v: HsmModel, ops: Seq<HsmOp>, hart: usize)
    requires
        v.wf(),
        hart < v.smp(),
        forall|i: int| 0 <= i < ops.len() ==> !starts_hart(#[trigger] ops[i], hart),
    ensures
        !run(stop_step(v, hart), ops).msip[hart as int],
{
    lemma_clear_soft_persists(stop_step(v, hart), ops, hart);
}

/// A clear pending bit stays clear under every operation that is not a
/// start request aimed at the hart.
pub proof fn lemma_clear_soft_persists(v: HsmModel, ops: Seq<HsmOp>, hart: usize)
    requires
        v.wf(),
        hart < v.smp(),
        !v.msip[hart as int],
        forall|i: int| 0 <= i < ops.len() ==> !starts_hart(#[trigger] ops[i], hart),
    ensures
        !run(v, ops).msip[hart as int],
        run(v, ops).wf(),
        run(v, ops).smp() == v.smp(),
    decreases ops.len(),
{
    if ops.len() > 0 {
        lemma_step_preserves_clear_soft(v, ops[0], hart);
        lemma_clear_soft_persists(step(v, ops[0]), ops.drop_first(), hart);
    }
}

/// One step of the proof above.
proof fn lemma_step_preserves_clear_soft(v: HsmModel, op: HsmOp, hart: usize)
    requires
        v.wf(),
        hart < v.smp(),
        !v.msip[hart as int],
        !starts_hart(op, hart),
    ensures
        !step(v, op).msip[hart as int],
        step(v, op).wf(),
        step(v, op).smp() == v.smp(),
{
}

} // verus!

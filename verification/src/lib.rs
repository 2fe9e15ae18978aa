//! Logic core of an SBI firmware for the QEMU `virt` machine.
//!
//! The crate models and verifies the machine-level logic of the firmware:
//! the per-hart trap context and its fixed layout, the save/restore
//! trampolines that carry a hart between M-mode and S-mode, the hart
//! state machine behind the SBI HSM extension, trap-cause decoding and
//! SBI result write-back, CLINT register addressing, and the board
//! record discovered from the device tree.  The thin unverifiable rim —
//! CSR access, MMIO, the device-tree parse and the build command line —
//! lives outside and hands this crate plain values.

use vstd::prelude::*;

pub mod board;
pub mod clint;
pub mod context;
pub mod dist;
pub mod hsm;
pub mod sbi;
pub mod trampoline;
pub mod trap;

verus! {

/// Descriptor of the supervisor payload: the physical entry point and the
/// opaque machine word handed to it in its second argument register.
pub struct Supervisor {
    pub start_addr: usize,
    pub opaque: usize,
}

impl Supervisor {
    pub fn new(start_addr: usize, opaque: usize) -> (s: Supervisor)
        ensures
            s.start_addr == start_addr,
            s.opaque == opaque,
    {
        Supervisor { start_addr, opaque }
    }
}

} // verus!

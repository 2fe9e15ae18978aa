//! Register addressing of the CLINT, the core-local interruptor.
//!
//! The block offers per-hart software-interrupt bits (MSIP), per-hart
//! timer compare registers (MTIMECMP) and the shared timer (MTIME).  The
//! volatile accesses happen outside; this module pins down where each
//! register lives inside the CLINT's range.

use vstd::prelude::*;

use crate::board::AddrRange;

verus! {

/// Offset of the MSIP words: one 4-byte word per hart.
pub const MSIP_OFFSET: usize = 0;

/// Offset of the MTIMECMP registers: one 8-byte word per hart.
pub const MTIMECMP_OFFSET: usize = 0x4000;

/// Offset of the MTIME register.
pub const MTIME_OFFSET: usize = 0xBFF8;

/// Address of a hart's MSIP word.
pub fn msip_addr(base: usize, hart: usize) -> (r: usize)
    requires
        base + MSIP_OFFSET + 4 * hart <= usize::MAX,
    ensures
        r == base + MSIP_OFFSET + 4 * hart,
{
    base + 4 * hart
}

/// Address of a hart's MTIMECMP register.
pub fn mtimecmp_addr(base: usize, hart: usize) -> (r: usize)
    requires
        base + MTIMECMP_OFFSET + 8 * hart <= usize::MAX,
    ensures
        r == base + MTIMECMP_OFFSET + 8 * hart,
{
    base + MTIMECMP_OFFSET + 8 * hart
}

/// Address of the MTIME register.
pub fn mtime_addr(base: usize) -> (r: usize)
    requires
        base + MTIME_OFFSET <= usize::MAX,
    ensures
        r == base + MTIME_OFFSET,
{
    base + MTIME_OFFSET
}

/// Whether a hart's MSIP word lies wholly inside the CLINT's range — the
/// guard the unverified rim tests before it touches the bus.
pub fn msip_in_range(clint: &AddrRange, hart: usize) -> (r: bool)
    requires
        clint.start + MSIP_OFFSET + 4 * hart + 4 <= usize::MAX,
    ensures
        r == (clint.start + MSIP_OFFSET + 4 * hart + 4 <= clint.end),
{
    clint.start + 4 * hart + 4 <= clint.end
}

} // verus!

//! The board record: what the device tree says about the machine, set
//! once at boot and read everywhere after.
//!
//! The tree itself is parsed outside; this module holds the validated
//! record — hart count and the memory, UART, CLINT and test-device
//! ranges — its invariant, and the one-shot publication cell the boot
//! hart fills before it releases the others.

use vstd::prelude::*;

verus! {

/// A half-open physical address range.
#[derive(Clone, Copy, Debug, PartialEq, Eq, Structural)]
pub struct AddrRange {
    pub start: usize,
    pub end: usize,
}

impl AddrRange {
    /// Non-empty.
    pub open spec fn wf(&self) -> bool {
        self.start < self.end
    }

    /// The two ranges share no address.
    pub open spec fn disjoint(&self, other: AddrRange) -> bool {
        self.end <= other.start || other.end <= self.start
    }

    pub fn new(start: usize, end: usize) -> (r: AddrRange)
        ensures
            r.start == start,
            r.end == end,
    {
        AddrRange { start, end }
    }
}

/// Why a board record was refused.  Any of these is fatal at boot: the
/// firmware cannot run without a trustworthy map of the machine.
#[derive(Clone, Copy, Debug, PartialEq, Eq, Structural)]
pub enum BoardError {
    /// The tree advertised no harts.
    NoHarts,
    /// A required device range was empty.
    EmptyRange,
    /// Two device ranges overlap.
    OverlappingRanges,
}

/// The immutable description of the board.
#[derive(Debug)]
pub struct BoardInfo {
    /// The model strings of the machine.
    pub model: Vec<String>,
    /// Number of harts.
    pub smp: usize,
    /// Main memory.
    pub memory: AddrRange,
    /// The UART's registers.
    pub uart: AddrRange,
    /// The CLINT's registers.
    pub clint: AddrRange,
    /// The test finisher's registers.
    pub test: AddrRange,
}

impl BoardInfo {
    /// At least one hart; every range non-empty; no two ranges overlap.
    pub open spec fn wf(&self) -> bool {
        &&& self.smp >= 1
        &&& self.ranges_wf()
        &&& self.ranges_disjoint()
    }

    pub open spec fn ranges_wf(&self) -> bool {
        self.memory.wf() && self.uart.wf() && self.clint.wf() && self.test.wf()
    }

    pub open spec fn ranges_disjoint(&self) -> bool {
        &&& self.memory.disjoint(self.uart)
        &&& self.memory.disjoint(self.clint)
        &&& self.memory.disjoint(self.test)
        &&& self.uart.disjoint(self.clint)
        &&& self.uart.disjoint(self.test)
        &&& self.clint.disjoint(self.test)
    }

    /// Validates what the device-tree parse handed over and seals it into
    /// a record.  Succeeds exactly on a well-formed description; the
    /// first violation found — no harts, an empty range, an overlap —
    /// names the error.
    pub fn new(
        model: Vec<String>,
        smp: usize,
        memory: AddrRange,
        uart: AddrRange,
        clint: AddrRange,
        test: AddrRange,
    ) -> (r: Result<BoardInfo, BoardError>)
        ensures
            r matches Ok(b) ==> {
                &&& b.wf()
                &&& b.model@ == model@
                &&& b.smp == smp
                &&& b.memory == memory
                &&& b.uart == uart
                &&& b.clint == clint
                &&& b.test == test
            },
            ({
                let b = BoardInfo { model, smp, memory, uart, clint, test };
                &&& (r is Ok <==> b.wf())
                &&& (r == Err::<BoardInfo, BoardError>(BoardError::NoHarts) <==> smp == 0)
                &&& (r == Err::<BoardInfo, BoardError>(BoardError::EmptyRange) <==> smp >= 1
                    && !b.ranges_wf())
                &&& (r == Err::<BoardInfo, BoardError>(BoardError::OverlappingRanges) <==> smp
                    >= 1 && b.ranges_wf() && !b.ranges_disjoint())
            }),
    {
        if smp == 0 {
            return Err(BoardError::NoHarts);
        }
        if memory.start >= memory.end || uart.start >= uart.end || clint.start >= clint.end
            || test.start >= test.end {
            return Err(BoardError::EmptyRange);
        }
        let b = BoardInfo { model, smp, memory, uart, clint, test };
        if range_overlaps(&b.memory, &b.uart) || range_overlaps(&b.memory, &b.clint)
            || range_overlaps(&b.memory, &b.test) || range_overlaps(&b.uart, &b.clint)
            || range_overlaps(&b.uart, &b.test) || range_overlaps(&b.clint, &b.test) {
            return Err(BoardError::OverlappingRanges);
        }
        Ok(b)
    }
}

/// Whether two ranges share an address.
pub fn range_overlaps(a: &AddrRange, b: &AddrRange) -> (r: bool)
    ensures
        r == !a.disjoint(*b),
{
    a.end > b.start && b.end > a.start
}

/// The one-shot publication cell for the board record: written once by
/// the boot hart, read-only ever after.  On hardware the write is fenced
/// behind a compare-and-swap guard before any other hart is released, so
/// every reader sees the final value.
pub struct BoardCell {
    pub info: Option<BoardInfo>,
}

impl BoardCell {
    /// Starts unpublished.
    pub fn new() -> (c: BoardCell)
        ensures
            c.info is None,
    {
        BoardCell { info: None }
    }

    /// Publishes the record.  The first call wins: a second call leaves
    /// the published record untouched.
    pub fn init(&mut self, b: BoardInfo)
        ensures
            old(self).info is None ==> final(self).info == Some(b),
            old(self).info is Some ==> final(self).info == old(self).info,
    {
        if self.info.is_none() {
            self.info = Some(b);
        }
    }

    /// Reads the published record; callable only after `init` has run.
    pub fn get(&self) -> (r: &BoardInfo)
        requires
            self.info is Some,
        ensures
            Some(*r) == self.info,
    {
        if let Some(b) = &self.info {
            b
        } else {
            vstd::pervasive::unreached()
        }
    }
}

} // verus!

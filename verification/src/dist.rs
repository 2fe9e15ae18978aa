//! Where the build tooling finds its artifacts, relative to the project
//! root.  The tool that spawns the compilers and the emulator lives
//! outside; the path arithmetic it relies on is pinned down here.

use vstd::prelude::*;

verus! {

/// Whether artifacts are built with or without optimizations.
#[derive(Clone, Copy, Debug, PartialEq, Eq, Structural)]
pub enum CompileMode {
    Debug,
    Release,
}

/// The artifact directory of a compile mode, relative to the project
/// root.
pub fn dist_dir(mode: &CompileMode) -> (r: &'static str)
    ensures
        *mode == CompileMode::Debug ==> r@ == "target/riscv64imac-unknown-none-elf/debug"@,
        *mode == CompileMode::Release ==> r@ == "target/riscv64imac-unknown-none-elf/release"@,
{
    match mode {
        CompileMode::Debug => "target/riscv64imac-unknown-none-elf/debug",
        CompileMode::Release => "target/riscv64imac-unknown-none-elf/release",
    }
}

} // verus!

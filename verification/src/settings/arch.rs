//! Processor architectures of target binaries.

use vstd::prelude::*;

verus! {

/// The processor architecture that a binary was built for.
#[derive(Clone, Copy, Debug, Eq, PartialEq, Structural)]
pub enum Arch {
    /// 64-bit x86.
    X86_64,
    /// 32-bit x86.
    X86,
    /// 64-bit ARM.
    AArch64,
    /// 32-bit ARM with hardware floating point.
    Armhf,
    /// 32-bit ARM with software floating point.
    Armel,
    /// 64-bit RISC-V.
    Riscv64,
    /// A macOS binary that holds both x86_64 and AArch64.
    Universal,
}

} // verus!

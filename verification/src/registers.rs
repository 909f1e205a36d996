//! Register convention table.
//!
//! The register numbers are DWARF register numbers. They are the ones that the
//! code generator assigns to the exception pointer and to the exception
//! selector on each architecture, so they are data and are never computed.

use vstd::prelude::*;

verus! {

/// A target architecture for which the register convention is known.
#[derive(Clone, Copy, Debug, PartialEq, Eq, Structural)]
pub enum Arch {
    /// 32-bit x86: EAX and EDX.
    X86,
    /// 64-bit x86: RAX and RDX.
    X86_64,
}

/// The two registers through which a landing pad is entered.
#[derive(Clone, Copy, Debug, PartialEq, Eq, Structural)]
pub struct RegisterPair {
    /// Receives the exception pointer.
    pub primary: i32,
    /// Receives the selector.
    pub secondary: i32,
}

/// The published table: which register pair each architecture uses.
pub open spec fn spec_unwind_data_reg(arch: Arch) -> RegisterPair {
    match arch {
        Arch::X86 => RegisterPair { primary: 0, secondary: 2 },
        Arch::X86_64 => RegisterPair { primary: 0, secondary: 1 },
    }
}

/// Looks `arch` up in the register convention table.
pub fn unwind_data_reg(arch: Arch) -> (pair: RegisterPair)
    ensures
        pair == spec_unwind_data_reg(arch),
        pair.primary != pair.secondary,
{
    match arch {
        Arch::X86 => RegisterPair { primary: 0, secondary: 2 },
        Arch::X86_64 => RegisterPair { primary: 0, secondary: 1 },
    }
}

/// On every architecture the table names two different registers, so writing
/// the selector never overwrites the exception pointer.
pub proof fn lemma_registers_distinct(arch: Arch)
    ensures
        spec_unwind_data_reg(arch).primary != spec_unwind_data_reg(arch).secondary,
{
}

} // verus!

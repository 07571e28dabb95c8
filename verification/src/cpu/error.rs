use vstd::prelude::*;

use crate::cpu::instr::Instr;

verus! {

/// Failures of the CPU core.  Every one is fatal to the current run.
#[derive(Debug, Clone, PartialEq, Eq)]
pub enum Error {
    /// A register identifier outside the supported enumeration.
    UnimplementedRegister(u32),
    /// A register byte width other than 1, 2, 4 or 8.
    UnimplementedRegisterSize(usize),
    /// An instruction form the emulator does not interpret; carries the
    /// offending instruction for diagnostics.
    UnimplementedInstruction(Instr),
    /// An attempt to read more bytes than the stack holds.
    StackOverflowRead,
    /// An attempt to write more bytes than the stack holds.
    StackOverflowWrite,
}

} // verus!

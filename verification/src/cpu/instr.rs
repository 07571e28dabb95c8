use vstd::prelude::*;

verus! {

/// The instruction forms the emulator distinguishes.  Everything the
/// decoder can produce beyond these is `Other` and is rejected by the
/// CPU as an unimplemented instruction.
#[derive(Debug, Clone, Copy, PartialEq, Eq, Structural)]
pub enum InstrCode {
    /// The decoder could not decode an instruction.
    Invalid,
    /// Move a 64-bit immediate into a 64-bit register.
    MovR64Imm64,
    /// Move a 64-bit register into a register or memory operand.
    MovRm64R64,
    /// Push a 64-bit register.
    PushR64,
    /// Push a sign-extended 8-bit immediate.
    PushqImm8,
    /// Pop into a 64-bit register.
    PopR64,
    /// Unconditional near jump with an 8-bit relative displacement.
    JmpRel8,
    /// Exclusive-or of two 32-bit register or memory operands.
    XorRm32R32,
    /// The `syscall` instruction.
    Syscall,
    /// Any other opcode.
    Other,
}

/// A decoded instruction, reduced to the plain values the emulator
/// reads: the recognized form, the operands' register identifiers (see
/// `cpu::registers`), the immediates, the near-branch target, and a
/// rendering of the whole instruction for diagnostics.
#[derive(Debug, Clone, PartialEq, Eq)]
pub struct Instr {
    /// The recognized instruction form.
    pub code: InstrCode,
    /// Whether the first operand is a register (as opposed to memory).
    pub op0_is_register: bool,
    /// Register identifier of the first operand.
    pub op0_register: u32,
    /// Register identifier of the second operand.
    pub op1_register: u32,
    /// The 8-bit immediate, where the form carries one.
    pub immediate8: u8,
    /// The 64-bit immediate (or widened immediate), where the form
    /// carries one.
    pub immediate64: u64,
    /// Target of a near branch, as a virtual address.
    pub near_branch64: u64,
    /// Textual rendering of the instruction, for error reports.
    pub text: String,
}

} // verus!

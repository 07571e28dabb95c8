use vstd::prelude::*;

use crate::cpu::instr::{Instr, InstrCode};

verus! {

// The instruction decoder is an outside collaborator (iced-x86).  The
// engine drives its cursor and reads decoded instructions from it, but
// never looks inside its decode tables, so the decoder and its
// instruction type are declared opaque and every call goes through a
// small trusted wrapper.  Nothing can be stated about what a given byte
// stream decodes to; the execution loop is verified for every value the
// wrappers may hand back.

#[verifier::external_type_specification]
#[verifier::external_body]
pub struct ExDecoder<'a>(iced_x86::Decoder<'a>)
where
    iced_x86::Decoder<'a>: Send + Sync,
;

#[verifier::external_type_specification]
#[verifier::external_body]
pub struct ExInstruction(iced_x86::Instruction);

/// Relies on iced_x86::Decoder::with_ip: builds a decoder over `data`
/// whose first instruction is read at position 0 with instruction
/// pointer `ip`.  The constructor panics for any bitness other than 16,
/// 32 or 64, so those are required here.
#[verifier::external_body]
pub(crate) fn decoder_with_ip<'a>(bitness: u32, data: &'a [u8], ip: u64) -> iced_x86::Decoder<'a>
    requires
        bitness == 16 || bitness == 32 || bitness == 64,
{
    iced_x86::Decoder::with_ip(bitness, data, ip, iced_x86::DecoderOptions::NONE)
}

/// Relies on iced_x86::Decoder::ip: the decoder's current instruction
/// pointer.
#[verifier::external_body]
pub(crate) fn decoder_ip(decoder: &iced_x86::Decoder<'_>) -> u64 {
    decoder.ip()
}

/// Relies on iced_x86::Decoder::position: the decoder's current byte
/// offset into its data.
#[verifier::external_body]
pub(crate) fn decoder_position(decoder: &iced_x86::Decoder<'_>) -> usize {
    decoder.position()
}

/// Relies on iced_x86::Decoder::set_ip: sets the instruction pointer
/// without moving the data position.
#[verifier::external_body]
pub(crate) fn decoder_set_ip(decoder: &mut iced_x86::Decoder<'_>, ip: u64) {
    decoder.set_ip(ip);
}

/// Relies on iced_x86::Decoder::set_position: repositions the decoder
/// inside its data; fails (with the library's message) where the
/// position lies past the end of the data.
#[verifier::external_body]
pub(crate) fn decoder_set_position(decoder: &mut iced_x86::Decoder<'_>, position: usize) -> Result<
    (),
    String,
> {
    match decoder.set_position(position) {
        Ok(()) => Ok(()),
        Err(e) => Err(format!("{}", e)),
    }
}

/// Relies on iced_x86::Decoder::decode: decodes the next instruction and
/// advances the cursor past it; at the end of the data, or on an
/// undecodable byte sequence, the returned instruction's code is the
/// invalid marker.
#[verifier::external_body]
pub(crate) fn decoder_decode(decoder: &mut iced_x86::Decoder<'_>) -> iced_x86::Instruction {
    decoder.decode()
}

/// Relies on iced_x86::Instruction::code: which opcode form was decoded,
/// one arm per form the emulator interprets.
#[verifier::external_body]
fn instr_code_kind(instruction: &iced_x86::Instruction) -> InstrCode {
    match instruction.code() {
        iced_x86::Code::INVALID => InstrCode::Invalid,
        iced_x86::Code::Syscall => InstrCode::Syscall,
        iced_x86::Code::Mov_r64_imm64 => InstrCode::MovR64Imm64,
        iced_x86::Code::Mov_rm64_r64 => InstrCode::MovRm64R64,
        iced_x86::Code::Push_r64 => InstrCode::PushR64,
        iced_x86::Code::Pushq_imm8 => InstrCode::PushqImm8,
        iced_x86::Code::Pop_r64 => InstrCode::PopR64,
        iced_x86::Code::Jmp_rel8_64 => InstrCode::JmpRel8,
        iced_x86::Code::Xor_rm32_r32 => InstrCode::XorRm32R32,
        _ => InstrCode::Other,
    }
}

/// Relies on iced_x86::Instruction::op0_kind: whether the first operand
/// is a register operand.
#[verifier::external_body]
fn instr_op0_is_register(instruction: &iced_x86::Instruction) -> bool {
    match instruction.op0_kind() {
        iced_x86::OpKind::Register => true,
        _ => false,
    }
}

/// Relies on iced_x86::Instruction::op0_register: the first operand's
/// register, as the decoder's numeric register identifier.
#[verifier::external_body]
fn instr_op0_register(instruction: &iced_x86::Instruction) -> u32 {
    instruction.op0_register() as u32
}

/// Relies on iced_x86::Instruction::op1_register: the second operand's
/// register, as the decoder's numeric register identifier.
#[verifier::external_body]
fn instr_op1_register(instruction: &iced_x86::Instruction) -> u32 {
    instruction.op1_register() as u32
}

/// Relies on iced_x86::Instruction::immediate8: the instruction's 8-bit
/// immediate.
#[verifier::external_body]
fn instr_immediate8(instruction: &iced_x86::Instruction) -> u8 {
    instruction.immediate8()
}

/// Relies on iced_x86::Instruction::immediate64: the instruction's
/// 64-bit immediate.
#[verifier::external_body]
fn instr_immediate64(instruction: &iced_x86::Instruction) -> u64 {
    instruction.immediate64()
}

/// Relies on iced_x86::Instruction::near_branch64: the target of a near
/// branch, as a virtual address.
#[verifier::external_body]
fn instr_near_branch64(instruction: &iced_x86::Instruction) -> u64 {
    instruction.near_branch64()
}

/// Relies on iced_x86::Instruction's display: renders the instruction as
/// assembly text, for diagnostics only.
#[verifier::external_body]
fn instr_text(instruction: &iced_x86::Instruction) -> String {
    format!("{}", instruction)
}

/// Reduces a decoded instruction to the plain values the emulator reads.
pub fn read_instruction(instruction: &iced_x86::Instruction) -> Instr {
    Instr {
        code: instr_code_kind(instruction),
        op0_is_register: instr_op0_is_register(instruction),
        op0_register: instr_op0_register(instruction),
        op1_register: instr_op1_register(instruction),
        immediate8: instr_immediate8(instruction),
        immediate64: instr_immediate64(instruction),
        near_branch64: instr_near_branch64(instruction),
        text: instr_text(instruction),
    }
}

} // verus!

use iced_x86::Register;
use stack_emulator::cpu::Cpu;
use stack_emulator::cpu::error::Error as CpuError;
use stack_emulator::cpu::instr::{Instr, InstrCode};
use stack_emulator::program::error::Error;
use stack_emulator::program::{execute_from_binary_slice, execute_from_x86_decoder, handle_syscall};

fn instr(code: InstrCode) -> Instr {
    Instr {
        code,
        op0_is_register: false,
        op0_register: 0,
        op1_register: 0,
        immediate8: 0,
        immediate64: 0,
        near_branch64: 0,
        text: String::new(),
    }
}

/// A minimal ELF64 executable: one loadable segment mapped at `base`
/// covering the whole file, with `code` at file offset 120 and the entry
/// point right on it.
fn elf64_exec(code: &[u8], base: u64) -> Vec<u8> {
    let entry = base + 120;
    let filesz = (120 + code.len()) as u64;
    let mut b = Vec::new();
    // ELF header
    b.extend_from_slice(&[0x7F, b'E', b'L', b'F', 2, 1, 1, 0, 0, 0, 0, 0, 0, 0, 0, 0]);
    b.extend_from_slice(&2u16.to_le_bytes()); // e_type = EXEC
    b.extend_from_slice(&0x3Eu16.to_le_bytes()); // e_machine = x86-64
    b.extend_from_slice(&1u32.to_le_bytes()); // e_version
    b.extend_from_slice(&entry.to_le_bytes()); // e_entry
    b.extend_from_slice(&64u64.to_le_bytes()); // e_phoff
    b.extend_from_slice(&0u64.to_le_bytes()); // e_shoff
    b.extend_from_slice(&0u32.to_le_bytes()); // e_flags
    b.extend_from_slice(&64u16.to_le_bytes()); // e_ehsize
    b.extend_from_slice(&56u16.to_le_bytes()); // e_phentsize
    b.extend_from_slice(&1u16.to_le_bytes()); // e_phnum
    b.extend_from_slice(&64u16.to_le_bytes()); // e_shentsize
    b.extend_from_slice(&0u16.to_le_bytes()); // e_shnum
    b.extend_from_slice(&0u16.to_le_bytes()); // e_shstrndx
    assert_eq!(b.len(), 64);
    // program header: PT_LOAD at vaddr `base`, covering the file
    b.extend_from_slice(&1u32.to_le_bytes()); // p_type = PT_LOAD
    b.extend_from_slice(&5u32.to_le_bytes()); // p_flags = R+X
    b.extend_from_slice(&0u64.to_le_bytes()); // p_offset
    b.extend_from_slice(&base.to_le_bytes()); // p_vaddr
    b.extend_from_slice(&base.to_le_bytes()); // p_paddr
    b.extend_from_slice(&filesz.to_le_bytes()); // p_filesz
    b.extend_from_slice(&filesz.to_le_bytes()); // p_memsz
    b.extend_from_slice(&0x1000u64.to_le_bytes()); // p_align
    assert_eq!(b.len(), 120);
    b.extend_from_slice(code);
    b
}

fn mov_r64_imm64(reg_low3: u8, rex_b: bool, value: u64) -> Vec<u8> {
    let mut v = vec![if rex_b { 0x49 } else { 0x48 }, 0xB8 + reg_low3];
    v.extend_from_slice(&value.to_le_bytes());
    v
}

#[test]
fn execute_instruction_mov_imm_and_reg() {
    let mut cpu = Cpu::new();
    let mut i = instr(InstrCode::MovR64Imm64);
    i.op0_register = Register::RDI as u32;
    i.immediate64 = 0xDEAD_BEEF;
    cpu.execute_instruction(i).unwrap();
    assert_eq!(cpu.registers.rdi, 0xDEAD_BEEF);

    let mut i = instr(InstrCode::MovRm64R64);
    i.op0_is_register = true;
    i.op0_register = Register::RSI as u32;
    i.op1_register = Register::RDI as u32;
    cpu.execute_instruction(i).unwrap();
    assert_eq!(cpu.registers.rsi, 0xDEAD_BEEF);

    // a memory destination is not implemented
    let mut i = instr(InstrCode::MovRm64R64);
    i.op0_is_register = false;
    assert!(matches!(
        cpu.execute_instruction(i),
        Err(CpuError::UnimplementedInstruction(_))
    ));
}

#[test]
fn execute_instruction_xor_clears_register() {
    let mut cpu = Cpu::new();
    cpu.registers.rbx = 0x1234;
    let mut i = instr(InstrCode::XorRm32R32);
    i.op0_is_register = true;
    i.op0_register = Register::EBX as u32;
    i.op1_register = Register::EBX as u32;
    cpu.execute_instruction(i).unwrap();
    assert_eq!(cpu.registers.rbx, 0);
}

#[test]
fn execute_instruction_push_pop_and_jump() {
    let mut cpu = Cpu::new();
    let mut i = instr(InstrCode::PushqImm8);
    i.immediate8 = 0x41;
    cpu.execute_instruction(i).unwrap();
    assert_eq!(cpu.registers.rsp.value(), 1016);
    assert_eq!(cpu.stack[1016], 0x41);

    let mut i = instr(InstrCode::PopR64);
    i.op0_register = Register::RAX as u32;
    cpu.execute_instruction(i).unwrap();
    assert_eq!(cpu.registers.rax, 0x41);
    assert_eq!(cpu.registers.rsp.value(), 0);

    let mut i = instr(InstrCode::JmpRel8);
    i.near_branch64 = 0x4000;
    cpu.execute_instruction(i).unwrap();
    assert_eq!(cpu.registers.rip, 0x4000);

    assert!(matches!(
        cpu.execute_instruction(instr(InstrCode::Other)),
        Err(CpuError::UnimplementedInstruction(_))
    ));
}

#[test]
fn push_register_truncates_to_declared_width() {
    let mut cpu = Cpu::new();
    cpu.registers.rcx = 0x1122_3344_5566_7788;
    let mut i = instr(InstrCode::PushR64);
    i.op0_register = Register::ECX as u32; // 4-byte alias
    cpu.execute_instruction(i).unwrap();
    let rsp = cpu.registers.rsp.value() as usize;
    assert_eq!(&cpu.stack[rsp..rsp + 4], &[0x88, 0x77, 0x66, 0x55]);
}

#[test]
fn syscall_exit_records_the_code() {
    let mut cpu = Cpu::new();
    cpu.registers.rax = 0x3c;
    cpu.registers.rdi = 42;
    let mut exit = None;
    let mut out = String::new();
    let mut err = String::new();
    handle_syscall(&mut cpu, &mut exit, &mut out, &mut err).unwrap();
    assert_eq!(exit, Some(42));
    assert_eq!(out, "");
    assert_eq!(err, "");
}

#[test]
fn syscall_write_appends_to_stdout_and_stderr() {
    let mut cpu = Cpu::new();
    cpu.push_stack_value(b"hi").unwrap();
    let rsp = cpu.registers.rsp.value();
    cpu.registers.rax = 0x1;
    cpu.registers.rdi = 1;
    cpu.registers.rsi = rsp;
    cpu.registers.rdx = 2;
    let mut exit = None;
    let mut out = String::new();
    let mut err = String::new();
    handle_syscall(&mut cpu, &mut exit, &mut out, &mut err).unwrap();
    assert_eq!(out, "hi");
    cpu.registers.rdi = 2;
    handle_syscall(&mut cpu, &mut exit, &mut out, &mut err).unwrap();
    assert_eq!(out, "hi");
    assert_eq!(err, "hi");
    assert_eq!(exit, None);
}

#[test]
fn syscall_errors() {
    let mut cpu = Cpu::new();
    let mut exit = None;
    let mut out = String::new();
    let mut err = String::new();

    cpu.registers.rax = 0x2;
    assert_eq!(
        handle_syscall(&mut cpu, &mut exit, &mut out, &mut err),
        Err(Error::UnimplementedSyscall(2))
    );

    cpu.registers.rax = 0x1;
    cpu.registers.rdx = 2000;
    assert_eq!(
        handle_syscall(&mut cpu, &mut exit, &mut out, &mut err),
        Err(Error::Cpu(CpuError::StackOverflowRead))
    );

    cpu.registers.rdx = 1;
    cpu.registers.rsi = 0;
    cpu.registers.rdi = 7;
    assert_eq!(
        handle_syscall(&mut cpu, &mut exit, &mut out, &mut err),
        Err(Error::UnimplementedFileDescriptor(7))
    );

    // an invalid UTF-8 byte on the stack
    cpu.push_stack_value(&[0xFF]).unwrap();
    cpu.registers.rdi = 1;
    cpu.registers.rsi = cpu.registers.rsp.value();
    assert_eq!(
        handle_syscall(&mut cpu, &mut exit, &mut out, &mut err),
        Err(Error::FromUtf8Error)
    );
}

#[test]
fn elf64_exit_code_one() {
    // entry loads rdi = 1, rax = 0x3c, executes syscall
    let mut code = Vec::new();
    code.extend_from_slice(&mov_r64_imm64(7, false, 1)); // mov rdi, 1
    code.extend_from_slice(&mov_r64_imm64(0, false, 0x3c)); // mov rax, 0x3c
    code.extend_from_slice(&[0x0F, 0x05]); // syscall
    let binary = elf64_exec(&code, 0x40_0000);
    let execution = execute_from_binary_slice(&binary).unwrap();
    assert_eq!(execution.exit_code, 1);
    assert_eq!(execution.stdout, "");
    assert_eq!(execution.stderr, "");
}

#[test]
fn elf64_push_pop_write_roundtrip() {
    // push an 8-bit immediate, pop it into rax, write the byte it left
    // on the stack to stdout, then exit 0
    let mut code = Vec::new();
    code.extend_from_slice(&[0x6A, 0x41]); // push 0x41
    code.extend_from_slice(&[0x58]); // pop rax
    code.extend_from_slice(&mov_r64_imm64(7, false, 1)); // mov rdi, 1
    code.extend_from_slice(&mov_r64_imm64(6, false, 1016)); // mov rsi, 1016
    code.extend_from_slice(&mov_r64_imm64(2, false, 1)); // mov rdx, 1
    code.extend_from_slice(&mov_r64_imm64(0, false, 1)); // mov rax, 1 (write)
    code.extend_from_slice(&[0x0F, 0x05]); // syscall
    code.extend_from_slice(&mov_r64_imm64(7, false, 0)); // mov rdi, 0
    code.extend_from_slice(&mov_r64_imm64(0, false, 0x3c)); // mov rax, 0x3c
    code.extend_from_slice(&[0x0F, 0x05]); // syscall
    let binary = elf64_exec(&code, 0x40_0000);
    let execution = execute_from_binary_slice(&binary).unwrap();
    assert_eq!(execution.stdout, "A");
    assert_eq!(execution.stderr, "");
    assert_eq!(execution.exit_code, 0);
}

#[test]
fn elf64_forward_jump_is_followed() {
    let mut code = Vec::new();
    code.extend_from_slice(&[0xEB, 0x02]); // jmp +2 (over the two nops)
    code.extend_from_slice(&[0x90, 0x90]); // never executed
    code.extend_from_slice(&mov_r64_imm64(7, false, 9)); // mov rdi, 9
    code.extend_from_slice(&mov_r64_imm64(0, false, 0x3c)); // mov rax, 0x3c
    code.extend_from_slice(&[0x0F, 0x05]); // syscall
    let binary = elf64_exec(&code, 0x40_0000);
    let execution = execute_from_binary_slice(&binary).unwrap();
    assert_eq!(execution.exit_code, 9);
}

#[test]
fn elf64_jump_below_load_base_fails() {
    // jmp rel8 -128 retargets rip below the image's load base
    let code = [0xEB, 0x80];
    let binary = elf64_exec(&code, 0x1000);
    assert_eq!(
        execute_from_binary_slice(&binary),
        Err(Error::UnimplementedInstructionPointerOutsideProgramSpace)
    );
}

#[test]
fn elf64_unimplemented_instruction_is_fatal() {
    let code = [0x90]; // nop: decodable but not interpreted
    let binary = elf64_exec(&code, 0x40_0000);
    assert!(matches!(
        execute_from_binary_slice(&binary),
        Err(Error::Cpu(CpuError::UnimplementedInstruction(_)))
    ));
}

#[test]
fn elf64_running_off_the_image_fails() {
    // entry points at the end of the file: nothing decodes
    let binary = elf64_exec(&[], 0x40_0000);
    assert_eq!(
        execute_from_binary_slice(&binary),
        Err(Error::ProgramDidNotExit)
    );
}

#[test]
fn raw_decoder_execution() {
    // drive the execution loop straight from a decoder over raw code
    let mut code = Vec::new();
    code.extend_from_slice(&mov_r64_imm64(7, false, 7)); // mov rdi, 7
    code.extend_from_slice(&mov_r64_imm64(0, false, 0x3c)); // mov rax, 0x3c
    code.extend_from_slice(&[0x0F, 0x05]); // syscall
    let mut decoder = iced_x86::Decoder::with_ip(64, &code, 0, iced_x86::DecoderOptions::NONE);
    let execution = execute_from_x86_decoder(&mut decoder).unwrap();
    assert_eq!(execution.exit_code, 7);
}

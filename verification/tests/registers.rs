use iced_x86::Register;
use stack_emulator::cpu::Cpu;
use stack_emulator::cpu::error::Error;
use stack_emulator::cpu::registers::{self, RegClass};

#[test]
fn register_identifier_constants_match_the_decoder() {
    assert_eq!(registers::REG_ID_AL, Register::AL as u32);
    assert_eq!(registers::REG_ID_R15L, Register::R15L as u32);
    assert_eq!(registers::REG_ID_AX, Register::AX as u32);
    assert_eq!(registers::REG_ID_R15W, Register::R15W as u32);
    assert_eq!(registers::REG_ID_EAX, Register::EAX as u32);
    assert_eq!(registers::REG_ID_R15D, Register::R15D as u32);
    assert_eq!(registers::REG_ID_RAX, Register::RAX as u32);
    assert_eq!(registers::REG_ID_RDI, Register::RDI as u32);
    assert_eq!(registers::REG_ID_R15, Register::R15 as u32);
    assert_eq!(registers::REG_ID_EIP, Register::EIP as u32);
    assert_eq!(registers::REG_ID_RIP, Register::RIP as u32);
    assert_eq!(registers::REG_ID_ES, Register::ES as u32);
    assert_eq!(registers::REG_ID_GS, Register::GS as u32);
    assert_eq!(registers::REG_ID_CR0, Register::CR0 as u32);
    assert_eq!(registers::REG_ID_CR15, Register::CR15 as u32);
    assert_eq!(registers::REG_ID_DR0, Register::DR0 as u32);
    assert_eq!(registers::REG_ID_DR15, Register::DR15 as u32);
    assert_eq!(registers::REG_ID_TR0, Register::TR0 as u32);
    assert_eq!(registers::REG_ID_TR7, Register::TR7 as u32);
}

#[test]
fn resolve_follows_the_decoder_segment_order() {
    assert_eq!(registers::REG_ID_ES + 1, Register::CS as u32);
    assert_eq!(registers::REG_ID_ES + 2, Register::SS as u32);
    assert_eq!(registers::REG_ID_ES + 3, Register::DS as u32);
    assert_eq!(registers::REG_ID_ES + 4, Register::FS as u32);
    assert_eq!(registers::REG_ID_ES + 5, Register::GS as u32);
}

#[test]
fn resolve_maps_aliases_to_one_slot() {
    for (id, index, width) in [
        (Register::RAX as u32, 0u32, 8u32),
        (Register::EAX as u32, 0, 4),
        (Register::AX as u32, 0, 2),
        (Register::AL as u32, 0, 1),
        (Register::AH as u32, 0, 1),
        (Register::RCX as u32, 1, 8),
        (Register::CH as u32, 1, 1),
        (Register::RDX as u32, 2, 8),
        (Register::RBX as u32, 3, 8),
        (Register::BH as u32, 3, 1),
        (Register::RSP as u32, 4, 8),
        (Register::SPL as u32, 4, 1),
        (Register::ESP as u32, 4, 4),
        (Register::RBP as u32, 5, 8),
        (Register::RSI as u32, 6, 8),
        (Register::RDI as u32, 7, 8),
        (Register::R8 as u32, 8, 8),
        (Register::R8L as u32, 8, 1),
        (Register::R15 as u32, 15, 8),
        (Register::R15W as u32, 15, 2),
    ] {
        let rr = registers::resolve(id).unwrap();
        assert_eq!(rr.class, RegClass::Gpr);
        assert_eq!(rr.index, index);
        assert_eq!(rr.width, width);
    }
    let rr = registers::resolve(Register::CR3 as u32).unwrap();
    assert_eq!((rr.class, rr.index, rr.width), (RegClass::Ctrl, 3, 8));
    let rr = registers::resolve(Register::DR7 as u32).unwrap();
    assert_eq!((rr.class, rr.index, rr.width), (RegClass::Dbg, 7, 8));
    let rr = registers::resolve(Register::TR5 as u32).unwrap();
    assert_eq!((rr.class, rr.index, rr.width), (RegClass::Test, 5, 4));
    let rr = registers::resolve(Register::FS as u32).unwrap();
    assert_eq!((rr.class, rr.index, rr.width), (RegClass::Seg, 4, 2));
    let rr = registers::resolve(Register::RIP as u32).unwrap();
    assert_eq!((rr.class, rr.index, rr.width), (RegClass::Ip, 0, 8));
}

#[test]
fn unsupported_registers_are_rejected() {
    assert_eq!(registers::resolve(0), None);
    assert_eq!(registers::resolve(Register::XMM0 as u32), None);
    assert_eq!(registers::resolve(Register::ST0 as u32), None);
    let cpu = Cpu::new();
    assert_eq!(
        cpu.get_register_u64(Register::XMM3 as u32),
        Err(Error::UnimplementedRegister(Register::XMM3 as u32))
    );
}

#[test]
fn register_round_trip_through_every_alias_width() {
    let mut cpu = Cpu::new();
    for id in [
        Register::RAX as u32,
        Register::EAX as u32,
        Register::AX as u32,
        Register::AL as u32,
        Register::R11 as u32,
        Register::CR9 as u32,
        Register::DR14 as u32,
    ] {
        cpu.set_register(id, 0x7F).unwrap();
        assert_eq!(cpu.get_register_u64(id), Ok(0x7F));
    }
    // a narrow alias overwrites the whole backing slot
    cpu.set_register(Register::RAX as u32, 0xFFFF_FFFF_FFFF_FFFF).unwrap();
    cpu.set_register(Register::AL as u32, 0x01).unwrap();
    assert_eq!(cpu.get_register_u64(Register::RAX as u32), Ok(0x01));
    // segment slots keep 16 bits, test slots 32 bits
    cpu.set_register(Register::DS as u32, 0x12345).unwrap();
    assert_eq!(cpu.get_register_u64(Register::DS as u32), Ok(0x2345));
    cpu.set_register(Register::TR2 as u32, 0x1_0000_0001).unwrap();
    assert_eq!(cpu.get_register_u64(Register::TR2 as u32), Ok(1));
    // the stack-pointer slot renormalizes modulo the stack capacity
    cpu.set_register(Register::RSP as u32, 1024 + 5).unwrap();
    assert_eq!(cpu.get_register_u64(Register::RSP as u32), Ok(5));
    assert_eq!(cpu.registers.rsp.value(), 5);
}

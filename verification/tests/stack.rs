use stack_emulator::STACK_SIZE;
use stack_emulator::cpu::{Cpu, le_value_of_bytes};
use stack_emulator::cpu::error::Error;
use stack_emulator::mem::StackPointer;

#[test]
fn stack_pointer_new_normalizes_modulo_capacity() {
    let p = StackPointer::new(0, 1024);
    assert_eq!(p.value(), 0);
    let p = StackPointer::new(1024, 1024);
    assert_eq!(p.value(), 0);
    let p = StackPointer::new(1030, 1024);
    assert_eq!(p.value(), 6);
}

#[test]
fn stack_pointer_set_wrapping() {
    let mut p = StackPointer::new(5, 1024);
    p.set_wrapping(2048 + 17);
    assert_eq!(p.value(), 17);
}

#[test]
fn stack_pointer_add_wraps() {
    let p = StackPointer::new(1000, 1024);
    assert_eq!(p.wrapping_add(30).value(), 6);
    assert_eq!(p.wrapping_add(24).value(), 0);
    assert_eq!(p.wrapping_add(0).value(), 1000);
    // amounts are reduced modulo the capacity first
    assert_eq!(p.wrapping_add(1024).value(), 1000);
}

#[test]
fn stack_pointer_sub_wraparound_law() {
    // subtracting more than the offset wraps to capacity - (amount - offset)
    let p = StackPointer::new(10, 1024);
    assert_eq!(p.wrapping_sub(30).value(), 1024 - 20);
    assert_eq!(p.wrapping_sub(10).value(), 0);
    assert_eq!(p.wrapping_sub(3).value(), 7);
    // never negative, never out of range
    for amount in [0u64, 1, 9, 10, 11, 1023, 1024, 1025, 5000] {
        let v = p.wrapping_sub(amount).value();
        assert!(v < 1024);
    }
}

#[test]
fn cpu_new_is_zeroed() {
    let cpu = Cpu::new();
    assert_eq!(cpu.stack.len(), STACK_SIZE as usize);
    assert!(cpu.stack.iter().all(|b| *b == 0));
    assert_eq!(cpu.registers.rax, 0);
    assert_eq!(cpu.registers.rip, 0);
    assert_eq!(cpu.registers.rsp.value(), 0);
}

#[test]
fn push_then_pop_returns_bytes_and_restores_rsp() {
    let mut cpu = Cpu::new();
    let before = cpu.registers.rsp.value();
    cpu.push_stack_value(&[1, 2, 3]).unwrap();
    // 3 bytes plus 5 bytes of padding: rsp drops by 8 (wrapping below 0)
    assert_eq!(cpu.registers.rsp.value(), 1024 - 8);
    let popped = cpu.pop_stack_value(3).unwrap();
    assert_eq!(popped, vec![1, 2, 3]);
    assert_eq!(cpu.registers.rsp.value(), before);
}

#[test]
fn push_pop_inverse_for_various_lengths() {
    for len in [0usize, 1, 7, 8, 9, 64, 1023, 1024] {
        let mut cpu = Cpu::new();
        let bytes: Vec<u8> = (0..len).map(|i| (i % 251) as u8).collect();
        let before = cpu.registers.rsp.value();
        cpu.push_stack_value(&bytes).unwrap();
        assert!(cpu.registers.rsp.value() < 1024);
        let popped = cpu.pop_stack_value(len).unwrap();
        assert_eq!(popped, bytes);
        assert_eq!(cpu.registers.rsp.value(), before);
    }
}

#[test]
fn first_pushed_byte_lands_at_lowest_address() {
    let mut cpu = Cpu::new();
    cpu.push_stack_value(&[0xAA, 0xBB]).unwrap();
    let rsp = cpu.registers.rsp.value() as usize;
    assert_eq!(cpu.stack[rsp], 0xAA);
    assert_eq!(cpu.stack[rsp + 1], 0xBB);
}

#[test]
fn oversized_push_fails_and_changes_nothing() {
    let mut cpu = Cpu::new();
    let bytes = vec![0u8; 1025];
    assert_eq!(cpu.push_stack_value(&bytes), Err(Error::StackOverflowWrite));
    assert_eq!(cpu.registers.rsp.value(), 0);
    assert!(cpu.stack.iter().all(|b| *b == 0));
}

#[test]
fn oversized_pop_fails() {
    let mut cpu = Cpu::new();
    assert_eq!(cpu.pop_stack_value(1025), Err(Error::StackOverflowRead));
}

#[test]
fn le_value_of_bytes_accepts_exactly_register_widths() {
    assert_eq!(le_value_of_bytes(&vec![0x12]), Ok(0x12));
    assert_eq!(le_value_of_bytes(&vec![0x34, 0x12]), Ok(0x1234));
    assert_eq!(le_value_of_bytes(&vec![0x78, 0x56, 0x34, 0x12]), Ok(0x12345678));
    assert_eq!(
        le_value_of_bytes(&vec![0xEF, 0xCD, 0xAB, 0x89, 0x67, 0x45, 0x23, 0x01]),
        Ok(0x0123456789ABCDEF)
    );
    assert_eq!(
        le_value_of_bytes(&vec![1, 2, 3]),
        Err(Error::UnimplementedRegisterSize(3))
    );
    assert_eq!(
        le_value_of_bytes(&vec![]),
        Err(Error::UnimplementedRegisterSize(0))
    );
}
